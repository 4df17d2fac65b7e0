//! Error taxonomy of the lending core.
//!
//! Every error is fatal to the enclosing operation: the mutating functions
//! of this crate either commit a whole state change or leave their
//! arguments untouched and return one of these.
use vstd::prelude::*;

verus! {

/// The specific failure kinds an operation can report.
#[derive(Clone, Copy, Debug, PartialEq, Eq, Structural)]
pub enum OrbitlenError {
    /// The host could not provide a clock reading.
    GetClockFailed,
    /// Overflow, underflow or division by zero in an arithmetic step.
    MathError,
    /// A token transfer named a destination other than the bank's vault.
    InvalidTransfer,
    /// The host did not supply the bank's mint where one was required.
    MintRequired,
    /// The user ledger has no free position slot for a new bank.
    LendingAccountBalanceSlotsFull,
    /// No position for the requested bank exists in the user ledger.
    BankAccountNotFound,
    /// A balance decrease would leave the bank with more liabilities
    /// than assets.
    IllegalUtilizationRatio,
    /// A liquidation with a zero amount or with equal asset and
    /// liability banks.
    IllegalLiquidation,
    /// The oracle feed did not yield a price.
    FetchPriceFailed,
    /// The supplied price feed is not the one the bank was configured with.
    InvalidPriceFeedPk,
    /// Arithmetic failure inside the interest rate configuration.
    InterestRateConfigMathError,
    /// The host named a token program this pool does not support.
    UnsupportedTokenProgram,
}

impl OrbitlenError {
    /// A short human-readable description of the error.
    pub fn message(&self) -> (r: &'static str)
        ensures
            r@.len() > 0,
    {
        let s: &'static str = match self {
            OrbitlenError::GetClockFailed => "Clock error",
            OrbitlenError::MathError => "Math error on compute",
            OrbitlenError::InvalidTransfer => "Invalid transfer",
            OrbitlenError::MintRequired => "Banks require mint account as first remaining account",
            OrbitlenError::LendingAccountBalanceSlotsFull => "Lending account balance slots are full",
            OrbitlenError::BankAccountNotFound => "Bank is missing",
            OrbitlenError::IllegalUtilizationRatio => "Invalid bank utilization ratio",
            OrbitlenError::IllegalLiquidation => "Illegal liquidation",
            OrbitlenError::FetchPriceFailed => "fetch price failed",
            OrbitlenError::InvalidPriceFeedPk => "Invalid price feed pubkey",
            OrbitlenError::InterestRateConfigMathError => "Math error on interest rate config",
            OrbitlenError::UnsupportedTokenProgram => "Invalid token program",
        };
        proof {
            reveal_strlit("Clock error");
            reveal_strlit("Math error on compute");
            reveal_strlit("Invalid transfer");
            reveal_strlit("Banks require mint account as first remaining account");
            reveal_strlit("Lending account balance slots are full");
            reveal_strlit("Bank is missing");
            reveal_strlit("Invalid bank utilization ratio");
            reveal_strlit("Illegal liquidation");
            reveal_strlit("fetch price failed");
            reveal_strlit("Invalid price feed pubkey");
            reveal_strlit("Math error on interest rate config");
            reveal_strlit("Invalid token program");
        }
        s
    }
}

} // verus!
