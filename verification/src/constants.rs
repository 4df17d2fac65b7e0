//! Global constants of the lending core.
use vstd::prelude::*;

verus! {

/// Number of seconds in one year; annualized rates are prorated against it.
pub const SECONDS_PER_YEAR: u64 = 31_536_000;

/// Fixed-point scale: the integer that represents 1.0 for share values,
/// interest rates, utilization ratios and oracle prices.
pub const FP_SCALE: u64 = 1_000_000;

/// Number of position slots in one user ledger.
pub const MAX_LENDING_ACCOUNT_BALANCES: usize = 3;

} // verus!
