use orbit_len::account::{Balance, LendingAccount};
use orbit_len::bank::{Bank, BankConfig};
use orbit_len::constants::FP_SCALE;
use orbit_len::error::OrbitlenError;
use orbit_len::ops::{decrease_balance_internal, increase_balance_internal, BankAccountWrapper};
use orbit_len::rates::InterestRateConfig;

fn bank() -> Bank {
    Bank::new(
        1,
        0,
        BankConfig {
            interest_rate_config: InterestRateConfig {
                optimal_utilization_rate: 80,
                plateau_interest_rate: 10,
                max_interest_rate: 100,
            },
            feed_data_key: 0,
        },
        0,
        2,
        0,
        0,
    )
}

fn position(asset_shares: u64, liability_shares: u64) -> Balance {
    Balance {
        active: true,
        bank_pk: 1,
        asset_shares,
        liability_shares,
        last_update: 0,
    }
}

/// Ledger equity in fixed-point amount units, computed widely.
fn equity(b: &Bank) -> i128 {
    (b.total_asset_shares as i128) * (b.asset_share_value as i128)
        - (b.total_liability_shares as i128) * (b.liability_share_value as i128)
}

#[test]
fn deposit_without_debt_mints_asset_shares() {
    let mut b = bank();
    let mut p = position(0, 0);
    assert_eq!(increase_balance_internal(&mut b, &mut p, 1000), Ok(()));
    assert_eq!(p.asset_shares, 1000);
    assert_eq!(p.liability_shares, 0);
    assert_eq!(b.total_asset_shares, 1000);
}

#[test]
fn credit_pays_down_debt_first() {
    let mut b = bank();
    b.total_asset_shares = 1000;
    b.total_liability_shares = 500;
    let mut p = position(0, 500);
    // delta (200) <= outstanding debt (500): pure repayment.
    assert_eq!(increase_balance_internal(&mut b, &mut p, 200), Ok(()));
    assert_eq!(p.asset_shares, 0);
    assert_eq!(p.liability_shares, 300);
    assert_eq!(b.total_liability_shares, 300);
    assert_eq!(b.total_asset_shares, 1000);
}

#[test]
fn credit_overshoot_clears_debt_and_mints_assets() {
    let mut b = bank();
    b.total_asset_shares = 1000;
    b.total_liability_shares = 500;
    let mut p = position(0, 500);
    // delta (800) > outstanding debt (500): 500 repays, 300 becomes collateral.
    assert_eq!(increase_balance_internal(&mut b, &mut p, 800), Ok(()));
    assert_eq!(p.liability_shares, 0);
    assert_eq!(p.asset_shares, 300);
    assert_eq!(b.total_liability_shares, 0);
    assert_eq!(b.total_asset_shares, 1300);
}

#[test]
fn debit_draws_down_assets_first() {
    let mut b = bank();
    b.total_asset_shares = 1000;
    let mut p = position(600, 0);
    assert_eq!(decrease_balance_internal(&mut b, &mut p, 400), Ok(()));
    assert_eq!(p.asset_shares, 200);
    assert_eq!(p.liability_shares, 0);
    assert_eq!(b.total_asset_shares, 600);
}

#[test]
fn debit_excess_becomes_liability() {
    let mut b = bank();
    b.total_asset_shares = 1000;
    let mut p = position(100, 0);
    // 100 comes from collateral, 150 becomes new debt.
    assert_eq!(decrease_balance_internal(&mut b, &mut p, 250), Ok(()));
    assert_eq!(p.asset_shares, 0);
    assert_eq!(p.liability_shares, 150);
    assert_eq!(b.total_asset_shares, 900);
    assert_eq!(b.total_liability_shares, 150);
}

#[test]
fn debit_that_overdraws_pool_fails_atomically() {
    let mut b = bank();
    b.total_asset_shares = 100;
    let mut p = position(0, 0);
    let bank_before = b;
    let pos_before = p;
    // Borrowing 101 against a pool holding 100 violates utilization.
    assert_eq!(
        decrease_balance_internal(&mut b, &mut p, 101),
        Err(OrbitlenError::IllegalUtilizationRatio)
    );
    assert_eq!(b, bank_before);
    assert_eq!(p, pos_before);
}

#[test]
fn debit_at_pool_limit_succeeds() {
    let mut b = bank();
    b.total_asset_shares = 100;
    let mut p = position(0, 0);
    assert_eq!(decrease_balance_internal(&mut b, &mut p, 100), Ok(()));
    assert_eq!(b.total_liability_shares, 100);
}

#[test]
fn credits_never_decrease_equity() {
    let mut b = bank();
    b.asset_share_value = 1_015_625;
    b.liability_share_value = 1_031_250;
    b.total_asset_shares = 1000;
    b.total_liability_shares = 500;
    let mut p = position(0, 500);
    let mut last = equity(&b);
    for delta in [1u64, 17, 250, 515, 999, 4] {
        assert_eq!(increase_balance_internal(&mut b, &mut p, delta), Ok(()));
        let now = equity(&b);
        assert!(now >= last, "equity decreased after credit of {delta}");
        last = now;
    }
}

#[test]
fn wrapper_with_stale_index_reports_missing_position() {
    let mut b = bank();
    let mut la = LendingAccount::new();
    let w = BankAccountWrapper { index: 3 };
    assert_eq!(
        w.deposit(&mut b, &mut la, 10),
        Err(OrbitlenError::BankAccountNotFound)
    );
}

#[test]
fn wrapper_ops_share_one_slot() {
    let mut b = bank();
    b.total_asset_shares = 500;
    let mut la = LendingAccount::new();
    let w = BankAccountWrapper::find_or_create(1, &mut la, 0).unwrap();
    assert_eq!(w.deposit(&mut b, &mut la, 300), Ok(()));
    assert_eq!(la.balances[w.index].asset_shares, 300);
    assert_eq!(w.withdraw(&mut b, &mut la, 100), Ok(()));
    assert_eq!(la.balances[w.index].asset_shares, 200);
    assert_eq!(w.borrow(&mut b, &mut la, 300), Ok(()));
    assert_eq!(la.balances[w.index].asset_shares, 0);
    assert_eq!(la.balances[w.index].liability_shares, 100);
    assert_eq!(w.increase_balance(&mut b, &mut la, 100), Ok(()));
    assert_eq!(la.balances[w.index].liability_shares, 0);
    assert_eq!(b.total_asset_shares, 500);
    assert_eq!(b.total_liability_shares, 0);
}

#[test]
fn fractional_credit_floors_to_zero_shares() {
    let mut b = bank();
    b.liability_share_value = 1_031_250;
    b.total_liability_shares = 500;
    let mut p = position(0, 500);
    // One token is worth less than one liability share at 1.03125:
    // the conversion floors to zero shares and nothing moves.
    assert_eq!(increase_balance_internal(&mut b, &mut p, 1), Ok(()));
    assert_eq!(p.liability_shares, 500);
    assert_eq!(b.total_liability_shares, 500);
}
