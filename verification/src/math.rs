//! Fixed-point conversions between share counts and token amounts.
//!
//! A share value is an amount-per-share exchange rate scaled by
//! `FP_SCALE`; conversions floor-divide in the integer domain, and wide
//! (128-bit) intermediates make every operation total: a result that does
//! not fit `u64` is reported as `MathError` rather than wrapped.
use vstd::prelude::*;

use crate::constants::FP_SCALE;
use crate::error::OrbitlenError;

verus! {

/// The token amount represented by `shares` at exchange rate `share_value`.
pub open spec fn amount_from_shares(shares: int, share_value: int) -> int {
    shares * share_value / (FP_SCALE as int)
}

/// The share count representing `amount` at exchange rate `share_value`.
pub open spec fn shares_from_amount(amount: int, share_value: int) -> int
    recommends
        share_value > 0,
{
    amount * (FP_SCALE as int) / share_value
}

/// The product of two values each at most `u64::MAX` fits in a `u128`.
pub proof fn lemma_u64_mul_fits_u128(a: int, b: int)
    requires
        0 <= a <= u64::MAX,
        0 <= b <= u64::MAX,
    ensures
        a * b <= u128::MAX,
{
    vstd::arithmetic::mul::lemma_mul_upper_bound(a, u64::MAX as int, b, u64::MAX as int);
    assert((u64::MAX as int) * (u64::MAX as int) <= u128::MAX) by (nonlinear_arith);
}

/// Converting an amount no larger than what `shares` represents back to
/// shares yields at most `shares`: floor division never manufactures value.
pub proof fn lemma_round_trip_shares(shares: int, share_value: int, amount: int)
    requires
        shares >= 0,
        share_value >= 1,
        0 <= amount <= amount_from_shares(shares, share_value),
    ensures
        shares_from_amount(amount, share_value) <= shares,
{
    let s = FP_SCALE as int;
    assert(s * (shares * share_value / s) <= shares * share_value) by {
        vstd::arithmetic::div_mod::lemma_fundamental_div_mod(shares * share_value, s);
        vstd::arithmetic::div_mod::lemma_mod_bound(shares * share_value, s);
        vstd::arithmetic::mul::lemma_mul_nonnegative(shares, share_value);
    }
    vstd::arithmetic::mul::lemma_mul_inequality(amount, shares * share_value / s, s);
    vstd::arithmetic::mul::lemma_mul_is_commutative(shares * share_value / s, s);
    assert(amount * s <= shares * share_value);
    vstd::arithmetic::div_mod::lemma_div_is_ordered(
        amount * s,
        shares * share_value,
        share_value,
    );
    vstd::arithmetic::div_mod::lemma_div_by_multiple(shares, share_value);
    vstd::arithmetic::mul::lemma_mul_is_commutative(shares, share_value);
}

/// Converts `shares` to the token amount it represents; `MathError` when
/// the amount does not fit a `u64`.
pub fn amount_of_shares(shares: u64, share_value: u64) -> (r: Result<u64, OrbitlenError>)
    ensures
        ({
            let a = amount_from_shares(shares as int, share_value as int);
            if a <= u64::MAX {
                r == Ok::<u64, OrbitlenError>(a as u64)
            } else {
                r == Err::<u64, OrbitlenError>(OrbitlenError::MathError)
            }
        }),
{
    proof {
        lemma_u64_mul_fits_u128(shares as int, share_value as int);
    }
    let wide: u128 = (shares as u128) * (share_value as u128);
    let q: u128 = wide / (FP_SCALE as u128);
    if q > u64::MAX as u128 {
        Err(OrbitlenError::MathError)
    } else {
        Ok(q as u64)
    }
}

/// Converts a token amount to shares at `share_value`; `MathError` when
/// the rate is zero or the share count does not fit a `u64`.
pub fn shares_of_amount(amount: u64, share_value: u64) -> (r: Result<u64, OrbitlenError>)
    ensures
        ({
            let s = shares_from_amount(amount as int, share_value as int);
            if share_value == 0 {
                r == Err::<u64, OrbitlenError>(OrbitlenError::MathError)
            } else if s <= u64::MAX {
                r == Ok::<u64, OrbitlenError>(s as u64)
            } else {
                r == Err::<u64, OrbitlenError>(OrbitlenError::MathError)
            }
        }),
{
    if share_value == 0 {
        return Err(OrbitlenError::MathError);
    }
    proof {
        lemma_u64_mul_fits_u128(amount as int, FP_SCALE as int);
    }
    let wide: u128 = (amount as u128) * (FP_SCALE as u128);
    let q: u128 = wide / (share_value as u128);
    if q > u64::MAX as u128 {
        Err(OrbitlenError::MathError)
    } else {
        Ok(q as u64)
    }
}

} // verus!
