use orbit_len::account::LendingAccount;
use orbit_len::bank::{Bank, BankConfig};
use orbit_len::constants::SECONDS_PER_YEAR;
use orbit_len::error::OrbitlenError;
use orbit_len::instructions::{
    lending_account_borrow_process, lending_account_deposit_process, settle_swap_balance,
    SwapAction,
};
use orbit_len::rates::InterestRateConfig;

fn bank() -> Bank {
    Bank::new(
        1,
        0,
        BankConfig {
            interest_rate_config: InterestRateConfig {
                optimal_utilization_rate: 80,
                plateau_interest_rate: 10,
                max_interest_rate: 100,
            },
            feed_data_key: 0,
        },
        0,
        2,
        0,
        0,
    )
}

#[test]
fn deposit_creates_and_fills_position() {
    let mut b = bank();
    let mut la = LendingAccount::new();
    assert_eq!(
        lending_account_deposit_process(&mut b, 11, &mut la, 1000, 0),
        Ok(())
    );
    assert!(la.balances[0].active);
    assert_eq!(la.balances[0].bank_pk, 11);
    assert_eq!(la.balances[0].asset_shares, 1000);
    assert_eq!(b.total_asset_shares, 1000);
}

#[test]
fn borrow_on_fresh_account_creates_debt() {
    let mut b = bank();
    b.total_asset_shares = 1000;
    let mut la = LendingAccount::new();
    assert_eq!(
        lending_account_borrow_process(&mut b, 11, &mut la, 500, 0),
        Ok(())
    );
    assert_eq!(la.balances[0].liability_shares, 500);
    assert_eq!(b.total_liability_shares, 500);
}

#[test]
fn pool_scenario_deposit_borrow_accrue_withdraw() {
    // One depositor, one borrower, one bank with the kinked curve at
    // optimal 0.8, plateau 0.1, max 1.0.
    let mut b = bank();
    let mut depositor = LendingAccount::new();
    let mut borrower = LendingAccount::new();
    let half_year = (SECONDS_PER_YEAR / 2) as i64;

    assert_eq!(
        lending_account_deposit_process(&mut b, 11, &mut depositor, 1000, 0),
        Ok(())
    );
    assert_eq!(
        lending_account_borrow_process(&mut b, 11, &mut borrower, 500, 0),
        Ok(())
    );
    assert_eq!(b.total_asset_shares, 1000);
    assert_eq!(b.total_liability_shares, 500);

    // Half a year at utilization 0.5: borrowing APR 6.25%, lending
    // APR 3.125%; the half-year factors halve those.
    assert_eq!(b.accrue_interest(half_year), Ok(()));
    assert_eq!(b.asset_share_value, 1_015_625);
    assert_eq!(b.liability_share_value, 1_031_250);

    // Withdrawing 1001 would leave the pool owing more than it holds.
    let bank_before = b;
    let depositor_before = depositor;
    assert_eq!(
        lending_account_borrow_process(&mut b, 11, &mut depositor, 1001, half_year),
        Err(OrbitlenError::IllegalUtilizationRatio)
    );
    assert_eq!(b, bank_before);
    assert_eq!(depositor, depositor_before);
}

#[test]
fn deposit_accrues_before_crediting() {
    let mut b = bank();
    b.total_asset_shares = 1000;
    b.total_liability_shares = 500;
    let mut la = LendingAccount::new();
    let half_year = (SECONDS_PER_YEAR / 2) as i64;
    // The deposit itself triggers accrual: shares are minted at the
    // accrued asset share value 1.015625.
    assert_eq!(
        lending_account_deposit_process(&mut b, 11, &mut la, 1000, half_year),
        Ok(())
    );
    assert_eq!(b.asset_share_value, 1_015_625);
    assert_eq!(la.balances[0].asset_shares, 984);
    assert_eq!(b.total_asset_shares, 1984);
}

#[test]
fn deposit_fails_when_ledger_full() {
    let mut b = bank();
    let mut la = LendingAccount::new();
    lending_account_deposit_process(&mut b, 1, &mut la, 10, 0).unwrap();
    lending_account_deposit_process(&mut b, 2, &mut la, 10, 0).unwrap();
    lending_account_deposit_process(&mut b, 3, &mut la, 10, 0).unwrap();
    let bank_before = b;
    let la_before = la;
    assert_eq!(
        lending_account_deposit_process(&mut b, 4, &mut la, 10, 0),
        Err(OrbitlenError::LendingAccountBalanceSlotsFull)
    );
    assert_eq!(b, bank_before);
    assert_eq!(la, la_before);
}

#[test]
fn deposit_rejects_backwards_clock() {
    let mut b = bank();
    b.last_update = 100;
    let mut la = LendingAccount::new();
    assert_eq!(
        lending_account_deposit_process(&mut b, 1, &mut la, 10, 50),
        Err(OrbitlenError::MathError)
    );
}

#[test]
fn swap_settlement_deposits_surplus() {
    let mut b = bank();
    let mut la = LendingAccount::new();
    // The user's coin balance grew by 40 during the swap.
    assert_eq!(
        settle_swap_balance(&mut b, 11, &mut la, 60, 100, 0),
        Ok(SwapAction::Deposited(40))
    );
    assert_eq!(la.balances[0].asset_shares, 40);
    assert_eq!(b.total_asset_shares, 40);
}

#[test]
fn swap_settlement_withdraws_shortfall() {
    let mut b = bank();
    let mut la = LendingAccount::new();
    lending_account_deposit_process(&mut b, 11, &mut la, 100, 0).unwrap();
    // The user's coin balance shrank by 30 during the swap.
    assert_eq!(
        settle_swap_balance(&mut b, 11, &mut la, 100, 70, 0),
        Ok(SwapAction::Withdrawn(30))
    );
    assert_eq!(la.balances[0].asset_shares, 70);
    assert_eq!(b.total_asset_shares, 70);
}

#[test]
fn swap_settlement_of_equal_balances_is_noop() {
    let mut b = bank();
    let mut la = LendingAccount::new();
    lending_account_deposit_process(&mut b, 11, &mut la, 100, 0).unwrap();
    assert_eq!(
        settle_swap_balance(&mut b, 11, &mut la, 50, 50, 0),
        Ok(SwapAction::Withdrawn(0))
    );
    assert_eq!(la.balances[0].asset_shares, 100);
}
