//! Accounting core of a collateralized lending pool.
//!
//! Per-mint liquidity banks track pooled deposits and borrows as normalized
//! shares; a fixed-capacity per-user ledger holds positions across banks;
//! interest compounds on each bank's share values; and a liquidation
//! procedure moves collateral and debt between two users at oracle-derived
//! prices.
//!
//! All quantities are integers. Fractional values (share values, rates,
//! utilization, prices) are fixed-point numbers scaled by `FP_SCALE`.
//! The host environment supplies timestamps and prices as plain arguments;
//! token transfers and account plumbing stay outside this crate.
pub mod account;
pub mod bank;
pub mod constants;
pub mod error;
pub mod instructions;
pub mod laws;
pub mod liquidate;
pub mod math;
pub mod ops;
pub mod price;
pub mod rates;
