use orbit_len::bank::{calc_accrued_interest_payment_per_period, calc_interest_rate_accrual_state_changes};
use orbit_len::rates::InterestRateConfig;

fn config(optimal: u16, plateau: u16, max: u16) -> InterestRateConfig {
    InterestRateConfig {
        optimal_utilization_rate: optimal,
        plateau_interest_rate: plateau,
        max_interest_rate: max,
    }
}

#[test]
fn as_scaled_converts_percent() {
    let cfg = config(80, 10, 100);
    assert_eq!(cfg.as_scaled(80), 800_000);
    assert_eq!(cfg.as_scaled(0), 0);
    assert_eq!(cfg.as_scaled(100), 1_000_000);
}

#[test]
fn curve_below_optimal() {
    let cfg = config(80, 10, 100);
    // utilization 0.5: borrowing rate (0.5 / 0.8) * 0.1 = 0.0625
    assert_eq!(cfg.interest_rate_curve(500_000), Some(62_500));
}

#[test]
fn curve_at_zero_utilization() {
    let cfg = config(80, 10, 100);
    assert_eq!(cfg.interest_rate_curve(0), Some(0));
}

#[test]
fn curve_above_optimal() {
    let cfg = config(80, 10, 100);
    // utilization 0.9: ((0.9 - 0.8) / 0.2) * 0.9 + 0.1 = 0.55
    assert_eq!(cfg.interest_rate_curve(900_000), Some(550_000));
}

#[test]
fn curve_at_full_utilization_reaches_max() {
    let cfg = config(80, 10, 100);
    assert_eq!(cfg.interest_rate_curve(1_000_000), Some(1_000_000));
}

#[test]
fn curve_zero_optimal_fails() {
    let cfg = config(0, 10, 100);
    assert_eq!(cfg.interest_rate_curve(0), None);
}

#[test]
fn curve_full_optimal_fails_above() {
    let cfg = config(100, 10, 100);
    assert_eq!(cfg.interest_rate_curve(1_200_000), None);
}

#[test]
fn curve_negative_slope_fails() {
    let cfg = config(50, 80, 20);
    assert_eq!(cfg.interest_rate_curve(900_000), None);
}

#[test]
fn lending_rate_scales_with_utilization() {
    let cfg = config(80, 10, 100);
    // lending = borrowing * utilization = 0.0625 * 0.5 = 0.03125
    assert_eq!(cfg.calc_interest_rate(500_000), Some((31_250, 62_500)));
}

#[test]
fn accrued_value_half_year() {
    // One liability share value of 1.0 at 6.25% APR over half a year
    // becomes 1.03125.
    assert_eq!(
        calc_accrued_interest_payment_per_period(62_500, 15_768_000, 1_000_000),
        Some(1_031_250)
    );
}

#[test]
fn accrued_value_zero_rate_is_identity() {
    assert_eq!(
        calc_accrued_interest_payment_per_period(0, 15_768_000, 1_234_567),
        Some(1_234_567)
    );
}

#[test]
fn accrual_state_changes_scenario() {
    let cfg = config(80, 10, 100);
    // 1000 assets, 500 liabilities, both share values 1.0, half a year.
    assert_eq!(
        calc_interest_rate_accrual_state_changes(15_768_000, 1000, 500, &cfg, 1_000_000, 1_000_000),
        Some((1_015_625, 1_031_250))
    );
}

#[test]
fn accrual_state_changes_empty_pool_fails() {
    let cfg = config(80, 10, 100);
    assert_eq!(
        calc_interest_rate_accrual_state_changes(1, 0, 500, &cfg, 1_000_000, 1_000_000),
        None
    );
}
