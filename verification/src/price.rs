//! Oracle price arithmetic.
//!
//! Prices arrive from the host as fixed-point integers scaled by
//! `FP_SCALE`, quoted per whole unit of the asset; token amounts are in
//! base units, `10^decimals` of which make one whole unit. The two
//! conversions here value an amount and invert a value, floor-dividing
//! in a 128-bit intermediate domain.
use vstd::prelude::*;

use crate::bank::BankConfig;
use crate::constants::FP_SCALE;
use crate::error::OrbitlenError;
use crate::math::lemma_u64_mul_fits_u128;

verus! {

/// Ten to the `d`th power.
pub open spec fn pow10(d: nat) -> nat
    decreases d,
{
    if d == 0 {
        1
    } else {
        10 * pow10((d - 1) as nat)
    }
}

/// `pow10` grows monotonically.
pub proof fn lemma_pow10_monotone(a: nat, b: nat)
    requires
        a <= b,
    ensures
        pow10(a) <= pow10(b),
    decreases b,
{
    if a < b {
        lemma_pow10_monotone(a, (b - 1) as nat);
        assert(pow10(b) == 10 * pow10((b - 1) as nat));
        assert(pow10((b - 1) as nat) >= 1) by {
            lemma_pow10_positive((b - 1) as nat);
        }
    }
}

/// `pow10` is at least one.
pub proof fn lemma_pow10_positive(d: nat)
    ensures
        pow10(d) >= 1,
    decreases d,
{
    if d > 0 {
        lemma_pow10_positive((d - 1) as nat);
    }
}

/// Ten to the `d`th power as a `u64`, or `None` when it does not fit.
pub fn pow10_u64(d: u8) -> (r: Option<u64>)
    ensures
        ({
            if pow10(d as nat) <= u64::MAX {
                r == Some(pow10(d as nat) as u64)
            } else {
                r == None::<u64>
            }
        }),
{
    let mut result: u64 = 1;
    let mut i: u8 = 0;
    while i < d
        invariant
            0 <= i <= d,
            result == pow10(i as nat),
        decreases d - i,
    {
        match result.checked_mul(10) {
            Some(v) => {
                result = v;
            },
            None => {
                proof {
                    lemma_pow10_monotone((i + 1) as nat, d as nat);
                }
                return None;
            },
        }
        i = i + 1;
    }
    Some(result)
}

/// The value of `amount` base units at `price`: both the price scale and
/// the decimal scale divide out. `None` where a scale or the result
/// leaves `u64` range.
pub open spec fn spec_calc_value(amount: int, price: int, d: nat) -> Option<int> {
    if pow10(d) > u64::MAX {
        None
    } else {
        let v = amount * price / (pow10(d) as int * FP_SCALE);
        if v > u64::MAX {
            None
        } else {
            Some(v)
        }
    }
}

/// The quantity of base units worth `value` at `price`. `None` where a
/// scale or the result leaves `u64` range, or the price is zero.
pub open spec fn spec_calc_amount(value: int, price: int, d: nat) -> Option<int> {
    if pow10(d) > u64::MAX {
        None
    } else if price == 0 {
        None
    } else {
        let a = value * (pow10(d) as int) * FP_SCALE / price;
        if a > u64::MAX {
            None
        } else {
            Some(a)
        }
    }
}

/// Values `amount` base units of an asset with `mint_decimals` decimal
/// places at fixed-point `price`; `MathError` on any overflow.
pub fn calc_value(amount: u64, price: u64, mint_decimals: u8) -> (r: Result<u64, OrbitlenError>)
    ensures
        ({
            match spec_calc_value(amount as int, price as int, mint_decimals as nat) {
                Some(v) => 0 <= v && r == Ok::<u64, OrbitlenError>(v as u64),
                None => r == Err::<u64, OrbitlenError>(OrbitlenError::MathError),
            }
        }),
{
    let scale = match pow10_u64(mint_decimals) {
        Some(p) => p,
        None => {
            return Err(OrbitlenError::MathError);
        },
    };
    proof {
        lemma_u64_mul_fits_u128(amount as int, price as int);
        lemma_u64_mul_fits_u128(scale as int, FP_SCALE as int);
        lemma_pow10_positive(mint_decimals as nat);
    }
    let wide: u128 = (amount as u128) * (price as u128);
    let denom: u128 = (scale as u128) * (FP_SCALE as u128);
    let v: u128 = wide / denom;
    if v > u64::MAX as u128 {
        Err(OrbitlenError::MathError)
    } else {
        Ok(v as u64)
    }
}

/// The quantity of base units of an asset with `mint_decimals` decimal
/// places worth `value` at fixed-point `price`; `MathError` on a zero
/// price or any overflow.
pub fn calc_amount(value: u64, price: u64, mint_decimals: u8) -> (r: Result<u64, OrbitlenError>)
    ensures
        ({
            match spec_calc_amount(value as int, price as int, mint_decimals as nat) {
                Some(a) => 0 <= a && r == Ok::<u64, OrbitlenError>(a as u64),
                None => r == Err::<u64, OrbitlenError>(OrbitlenError::MathError),
            }
        }),
{
    let scale = match pow10_u64(mint_decimals) {
        Some(p) => p,
        None => {
            return Err(OrbitlenError::MathError);
        },
    };
    if price == 0 {
        return Err(OrbitlenError::MathError);
    }
    proof {
        lemma_u64_mul_fits_u128(value as int, scale as int);
    }
    let t1: u128 = (value as u128) * (scale as u128);
    let t2: u128 = match t1.checked_mul(FP_SCALE as u128) {
        Some(t) => t,
        None => {
            proof {
                let x = (value as int) * (scale as int) * (FP_SCALE as int);
                vstd::arithmetic::div_mod::lemma_div_is_ordered_by_denominator(
                    x,
                    price as int,
                    u64::MAX as int,
                );
                vstd::arithmetic::div_mod::lemma_div_is_ordered(
                    u128::MAX + 1,
                    x,
                    u64::MAX as int,
                );
                assert((u128::MAX + 1) / (u64::MAX as int) > u64::MAX);
            }
            return Err(OrbitlenError::MathError);
        },
    };
    let a: u128 = t2 / (price as u128);
    if a > u64::MAX as u128 {
        Err(OrbitlenError::MathError)
    } else {
        Ok(a as u64)
    }
}

/// The host must hand this bank prices from the feed the bank was
/// configured with.
pub fn check_price_feed(feed_key: u64, bank_config: &BankConfig) -> (r: Result<(), OrbitlenError>)
    ensures
        feed_key == bank_config.feed_data_key ==> r == Ok::<(), OrbitlenError>(()),
        feed_key != bank_config.feed_data_key ==> r == Err::<(), OrbitlenError>(
            OrbitlenError::InvalidPriceFeedPk,
        ),
{
    if feed_key == bank_config.feed_data_key {
        Ok(())
    } else {
        Err(OrbitlenError::InvalidPriceFeedPk)
    }
}

} // verus!
