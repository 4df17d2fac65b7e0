use orbit_len::bank::{Bank, BankConfig, BankConfigCompact};
use orbit_len::constants::{FP_SCALE, SECONDS_PER_YEAR};
use orbit_len::error::OrbitlenError;
use orbit_len::rates::{InterestRateConfig, InterestRateConfigCompact};

fn test_config() -> BankConfig {
    BankConfig {
        interest_rate_config: InterestRateConfig {
            optimal_utilization_rate: 80,
            plateau_interest_rate: 10,
            max_interest_rate: 100,
        },
        feed_data_key: 77,
    }
}

fn fresh_bank() -> Bank {
    Bank::new(5, 6, test_config(), 1_700_000_000, 9, 250, 251)
}

#[test]
fn new_bank_starts_at_par() {
    let bank = fresh_bank();
    assert_eq!(bank.mint, 5);
    assert_eq!(bank.mint_decimals, 6);
    assert_eq!(bank.asset_share_value, FP_SCALE);
    assert_eq!(bank.liability_share_value, FP_SCALE);
    assert_eq!(bank.total_asset_shares, 0);
    assert_eq!(bank.total_liability_shares, 0);
    assert_eq!(bank.last_update, 1_700_000_000);
    assert_eq!(bank.liquidity_vault, 9);
    assert_eq!(bank.liquidity_vault_bump, 250);
    assert_eq!(bank.liquidity_vault_authority_bump, 251);
    assert_eq!(bank.config, test_config());
}

#[test]
fn amounts_follow_share_values() {
    let mut bank = fresh_bank();
    bank.asset_share_value = 1_015_625;
    bank.liability_share_value = 1_031_250;
    assert_eq!(bank.get_asset_amount(1000), Ok(1015));
    assert_eq!(bank.get_liability_amount(500), Ok(515));
    assert_eq!(bank.get_asset_amount(0), Ok(0));
}

#[test]
fn amount_overflow_is_math_error() {
    let mut bank = fresh_bank();
    bank.asset_share_value = u64::MAX;
    assert_eq!(bank.get_asset_amount(u64::MAX), Err(OrbitlenError::MathError));
}

#[test]
fn shares_follow_share_values() {
    let mut bank = fresh_bank();
    bank.asset_share_value = 1_015_625;
    assert_eq!(bank.get_asset_shares(1001), Ok(985));
    assert_eq!(bank.get_liability_shares(500), Ok(500));
}

#[test]
fn zero_share_value_is_math_error() {
    let mut bank = fresh_bank();
    bank.asset_share_value = 0;
    bank.liability_share_value = 0;
    assert_eq!(bank.get_asset_shares(1), Err(OrbitlenError::MathError));
    assert_eq!(bank.get_liability_shares(1), Err(OrbitlenError::MathError));
}

#[test]
fn change_asset_shares_signed() {
    let mut bank = fresh_bank();
    assert_eq!(bank.change_asset_shares(1000), Ok(()));
    assert_eq!(bank.total_asset_shares, 1000);
    assert_eq!(bank.change_asset_shares(-400), Ok(()));
    assert_eq!(bank.total_asset_shares, 600);
    assert_eq!(bank.change_asset_shares(-601), Err(OrbitlenError::MathError));
    assert_eq!(bank.total_asset_shares, 600);
}

#[test]
fn change_liability_shares_signed() {
    let mut bank = fresh_bank();
    assert_eq!(bank.change_liability_shares(70), Ok(()));
    assert_eq!(bank.change_liability_shares(-70), Ok(()));
    assert_eq!(bank.total_liability_shares, 0);
    assert_eq!(bank.change_liability_shares(-1), Err(OrbitlenError::MathError));
    bank.total_liability_shares = u64::MAX;
    assert_eq!(bank.change_liability_shares(1), Err(OrbitlenError::MathError));
}

#[test]
fn utilization_check_compares_totals() {
    let mut bank = fresh_bank();
    bank.total_asset_shares = 100;
    bank.total_liability_shares = 100;
    assert_eq!(bank.check_utilization_ratio(), Ok(()));
    bank.total_liability_shares = 101;
    assert_eq!(
        bank.check_utilization_ratio(),
        Err(OrbitlenError::IllegalUtilizationRatio)
    );
}

#[test]
fn accrue_interest_scenario() {
    let mut bank = fresh_bank();
    bank.last_update = 0;
    bank.total_asset_shares = 1000;
    bank.total_liability_shares = 500;
    let half_year = (SECONDS_PER_YEAR / 2) as i64;
    assert_eq!(bank.accrue_interest(half_year), Ok(()));
    assert_eq!(bank.asset_share_value, 1_015_625);
    assert_eq!(bank.liability_share_value, 1_031_250);
    assert_eq!(bank.last_update, half_year);
}

#[test]
fn accrue_interest_same_timestamp_is_noop() {
    let mut bank = fresh_bank();
    bank.last_update = 0;
    bank.total_asset_shares = 1000;
    bank.total_liability_shares = 500;
    let half_year = (SECONDS_PER_YEAR / 2) as i64;
    assert_eq!(bank.accrue_interest(half_year), Ok(()));
    let snapshot = bank;
    // Second accrual at the same timestamp changes nothing.
    assert_eq!(bank.accrue_interest(half_year), Ok(()));
    assert_eq!(bank, snapshot);
}

#[test]
fn accrue_interest_empty_pool_only_restamps() {
    let mut bank = fresh_bank();
    bank.last_update = 0;
    bank.total_asset_shares = 0;
    bank.total_liability_shares = 123;
    assert_eq!(bank.accrue_interest(1000), Ok(()));
    assert_eq!(bank.asset_share_value, FP_SCALE);
    assert_eq!(bank.liability_share_value, FP_SCALE);
    assert_eq!(bank.last_update, 1000);
}

#[test]
fn accrue_interest_no_liabilities_only_restamps() {
    let mut bank = fresh_bank();
    bank.last_update = 0;
    bank.total_asset_shares = 1000;
    assert_eq!(bank.accrue_interest(999), Ok(()));
    assert_eq!(bank.asset_share_value, FP_SCALE);
    assert_eq!(bank.liability_share_value, FP_SCALE);
    assert_eq!(bank.last_update, 999);
}

#[test]
fn accrue_interest_rejects_backwards_clock() {
    let mut bank = fresh_bank();
    bank.last_update = 1000;
    let snapshot = bank;
    assert_eq!(bank.accrue_interest(999), Err(OrbitlenError::MathError));
    assert_eq!(bank, snapshot);
}

#[test]
fn accrue_interest_rejects_bad_rate_config() {
    // With the breakpoint at 1.0 and utilization above it, the curve's
    // denominator is zero and accrual must fail without touching state.
    let mut bank = fresh_bank();
    bank.config.interest_rate_config.optimal_utilization_rate = 100;
    bank.last_update = 0;
    bank.total_asset_shares = 100;
    bank.total_liability_shares = 200;
    let snapshot = bank;
    assert_eq!(bank.accrue_interest(100), Err(OrbitlenError::MathError));
    assert_eq!(bank, snapshot);
}

#[test]
fn transfer_destination_must_be_vault() {
    let bank = fresh_bank();
    assert_eq!(bank.check_transfer_destination(9), Ok(()));
    assert_eq!(
        bank.check_transfer_destination(10),
        Err(OrbitlenError::InvalidTransfer)
    );
}

#[test]
fn mint_must_match_bank() {
    let bank = fresh_bank();
    assert_eq!(bank.check_bank_mint(5), Ok(()));
    assert_eq!(bank.check_bank_mint(6), Err(OrbitlenError::MintRequired));
}

#[test]
fn compact_config_converts_field_for_field() {
    let compact = BankConfigCompact {
        interest_rate_config: InterestRateConfigCompact {
            optimal_utilization_rate: 80,
            plateau_interest_rate: 10,
            max_interest_rate: 100,
        },
        feed_data_key: 77,
    };
    let config: BankConfig = compact.into();
    assert_eq!(config, test_config());
    let rates: InterestRateConfig = compact.interest_rate_config.into();
    assert_eq!(rates, test_config().interest_rate_config);
}

#[test]
fn accrual_preserves_equity_when_exact() {
    // In the half-year scenario every division is exact, so the value
    // minted to depositors equals the value charged to borrowers.
    let mut bank = fresh_bank();
    bank.last_update = 0;
    bank.total_asset_shares = 1000;
    bank.total_liability_shares = 500;
    let equity_before = 1000i128 * (bank.asset_share_value as i128)
        - 500i128 * (bank.liability_share_value as i128);
    assert_eq!(bank.accrue_interest((SECONDS_PER_YEAR / 2) as i64), Ok(()));
    let equity_after = 1000i128 * (bank.asset_share_value as i128)
        - 500i128 * (bank.liability_share_value as i128);
    assert_eq!(equity_before, equity_after);
}
