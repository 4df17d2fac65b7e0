use orbit_len::bank::BankConfig;
use orbit_len::error::OrbitlenError;
use orbit_len::math::{amount_of_shares, shares_of_amount};
use orbit_len::price::{calc_amount, calc_value, check_price_feed, pow10_u64};
use orbit_len::rates::InterestRateConfig;

#[test]
fn pow10_small_values() {
    assert_eq!(pow10_u64(0), Some(1));
    assert_eq!(pow10_u64(2), Some(100));
    assert_eq!(pow10_u64(19), Some(10_000_000_000_000_000_000));
    assert_eq!(pow10_u64(20), None);
}

#[test]
fn calc_value_whole_units() {
    // 100 units of a 0-decimals asset at price 2.8 are worth 280.
    assert_eq!(calc_value(100, 2_800_000, 0), Ok(280));
}

#[test]
fn calc_value_scales_by_decimals() {
    // 1_500_000 base units of a 6-decimals asset at price 2 are worth 3.
    assert_eq!(calc_value(1_500_000, 2_000_000, 6), Ok(3));
}

#[test]
fn calc_value_floors() {
    assert_eq!(calc_value(1, 2_999_999, 0), Ok(2));
}

#[test]
fn calc_value_rejects_huge_decimals() {
    assert_eq!(calc_value(1, 1_000_000, 20), Err(OrbitlenError::MathError));
}

#[test]
fn calc_amount_inverts_value() {
    // A value of 280 buys 1.12 of a 2-decimals asset priced 250:
    // 112 base units.
    assert_eq!(calc_amount(280, 250_000_000, 2), Ok(112));
}

#[test]
fn calc_amount_rejects_zero_price() {
    assert_eq!(calc_amount(280, 0, 2), Err(OrbitlenError::MathError));
}

#[test]
fn calc_amount_rejects_overflowing_result() {
    assert_eq!(calc_amount(u64::MAX, 1, 19), Err(OrbitlenError::MathError));
}

#[test]
fn price_feed_identity_is_checked() {
    let config = BankConfig {
        interest_rate_config: InterestRateConfig {
            optimal_utilization_rate: 80,
            plateau_interest_rate: 10,
            max_interest_rate: 100,
        },
        feed_data_key: 55,
    };
    assert_eq!(check_price_feed(55, &config), Ok(()));
    assert_eq!(
        check_price_feed(56, &config),
        Err(OrbitlenError::InvalidPriceFeedPk)
    );
}

#[test]
fn share_amount_conversions() {
    assert_eq!(amount_of_shares(1000, 1_015_625), Ok(1015));
    assert_eq!(shares_of_amount(1001, 1_015_625), Ok(985));
    assert_eq!(shares_of_amount(1, 0), Err(OrbitlenError::MathError));
    assert_eq!(
        amount_of_shares(u64::MAX, u64::MAX),
        Err(OrbitlenError::MathError)
    );
    // The round trip never manufactures shares.
    let amount = amount_of_shares(500, 1_031_250).unwrap();
    assert!(shares_of_amount(amount, 1_031_250).unwrap() <= 500);
}
