//! The per-mint share ledger.
//!
//! A `Bank` tracks pooled deposits and borrows of one asset as share
//! counts together with the two amount-per-share exchange rates, and owns
//! the compounding interest algorithm. Identities (mint, vault, price
//! feed) are plain numeric keys supplied by the host.
use vstd::prelude::*;

use crate::constants::{FP_SCALE, SECONDS_PER_YEAR};
use crate::error::OrbitlenError;
use crate::math::{amount_from_shares, amount_of_shares, lemma_u64_mul_fits_u128, shares_from_amount, shares_of_amount};
use crate::rates::{spec_accrued_value, spec_interest_rates, InterestRateConfig, InterestRateConfigCompact};

verus! {

/// Per-bank configuration: the rate curve and the identity of the price
/// feed this bank's oracle prices must come from.
#[derive(Clone, Copy, Debug, PartialEq, Eq, Structural)]
pub struct BankConfig {
    pub interest_rate_config: InterestRateConfig,
    pub feed_data_key: u64,
}

/// The wire-compact form of `BankConfig`, as the bank-creation
/// instruction carries it.
#[derive(Clone, Copy, Debug, PartialEq, Eq, Structural)]
pub struct BankConfigCompact {
    pub interest_rate_config: InterestRateConfigCompact,
    pub feed_data_key: u64,
}

impl From<BankConfigCompact> for BankConfig {
    fn from(config: BankConfigCompact) -> (r: BankConfig) {
        BankConfig {
            interest_rate_config: InterestRateConfig::from(config.interest_rate_config),
            feed_data_key: config.feed_data_key,
        }
    }
}

impl vstd::std_specs::convert::FromSpecImpl<BankConfigCompact> for BankConfig {
    open spec fn obeys_from_spec() -> bool {
        true
    }

    open spec fn from_spec(config: BankConfigCompact) -> BankConfig {
        BankConfig {
            interest_rate_config: InterestRateConfig {
                optimal_utilization_rate: config.interest_rate_config.optimal_utilization_rate,
                plateau_interest_rate: config.interest_rate_config.plateau_interest_rate,
                max_interest_rate: config.interest_rate_config.max_interest_rate,
            },
            feed_data_key: config.feed_data_key,
        }
    }
}

/// The pool ledger of one asset: aggregate shares, exchange rates, accrual
/// timestamp and configuration.
#[derive(Clone, Copy, Debug, PartialEq, Eq, Structural)]
pub struct Bank {
    /// Identity of the underlying asset.
    pub mint: u64,
    /// Decimal places of the underlying asset.
    pub mint_decimals: u8,
    /// Amount per asset share, scaled by `FP_SCALE`; never decreases.
    pub asset_share_value: u64,
    /// Amount per liability share, scaled by `FP_SCALE`; never decreases.
    pub liability_share_value: u64,
    /// Identity of the custodial vault holding this bank's tokens.
    pub liquidity_vault: u64,
    pub liquidity_vault_bump: u8,
    pub liquidity_vault_authority_bump: u8,
    /// Outstanding liability shares across all users.
    pub total_liability_shares: u64,
    /// Outstanding asset shares across all users.
    pub total_asset_shares: u64,
    /// Timestamp of the last interest accrual.
    pub last_update: i64,
    pub config: BankConfig,
}

/// The new (asset, liability) share values after interest accrues for
/// `dt` seconds on a pool with the given total amounts, or `None` where
/// the rate model is undefined or a result does not fit a `u64`.
pub open spec fn spec_accrual_state_changes(
    dt: int,
    total_assets: int,
    total_liabs: int,
    config: InterestRateConfig,
    asset_share_value: int,
    liability_share_value: int,
) -> Option<(int, int)> {
    if total_assets <= 0 {
        None
    } else {
        let ur = total_liabs * (FP_SCALE as int) / total_assets;
        if ur > u64::MAX {
            None
        } else {
            match spec_interest_rates(config, ur) {
                None => None,
                Some(rates) => if rates.0 > u64::MAX || rates.1 > u64::MAX {
                    None
                } else {
                    let nav = spec_accrued_value(asset_share_value, rates.0, dt);
                    let nlv = spec_accrued_value(liability_share_value, rates.1, dt);
                    if nav > u64::MAX || nlv > u64::MAX {
                        None
                    } else {
                        Some((nav, nlv))
                    }
                },
            }
        }
    }
}

/// The bank state after `accrue_interest` at time `now`: unchanged when
/// `now` equals the stored timestamp, only restamped when either pool
/// side is empty, both share values advanced otherwise. `Err` on a
/// non-monotonic clock or any arithmetic failure, in which case the
/// caller's state is not changed at all.
pub open spec fn spec_accrue(b: Bank, now: int) -> Result<Bank, OrbitlenError> {
    if now == b.last_update {
        Ok(b)
    } else if now < b.last_update {
        Err(OrbitlenError::MathError)
    } else {
        let ta = amount_from_shares(b.total_asset_shares as int, b.asset_share_value as int);
        if ta > u64::MAX {
            Err(OrbitlenError::MathError)
        } else {
            let tl = amount_from_shares(
                b.total_liability_shares as int,
                b.liability_share_value as int,
            );
            if tl > u64::MAX {
                Err(OrbitlenError::MathError)
            } else if ta == 0 || tl == 0 {
                Ok(Bank { last_update: now as i64, ..b })
            } else {
                match spec_accrual_state_changes(
                    now - b.last_update,
                    ta,
                    tl,
                    b.config.interest_rate_config,
                    b.asset_share_value as int,
                    b.liability_share_value as int,
                ) {
                    None => Err(OrbitlenError::MathError),
                    Some(vals) => Ok(
                        Bank {
                            asset_share_value: vals.0 as u64,
                            liability_share_value: vals.1 as u64,
                            last_update: now as i64,
                            ..b
                        },
                    ),
                }
            }
        }
    }
}

/// Whether the bank passes the utilization invariant: total liability
/// amount no greater than total asset amount. `MathError` where a total
/// does not fit a `u64`.
pub open spec fn spec_check_utilization(b: Bank) -> Result<(), OrbitlenError> {
    let ta = amount_from_shares(b.total_asset_shares as int, b.asset_share_value as int);
    let tl = amount_from_shares(b.total_liability_shares as int, b.liability_share_value as int);
    if ta > u64::MAX {
        Err(OrbitlenError::MathError)
    } else if tl > u64::MAX {
        Err(OrbitlenError::MathError)
    } else if ta >= tl {
        Ok(())
    } else {
        Err(OrbitlenError::IllegalUtilizationRatio)
    }
}

/// One share value advanced by simple interest at annualized rate `apr`
/// over `time_delta` seconds, or `None` where the result does not fit a
/// `u64`.
pub fn calc_accrued_interest_payment_per_period(apr: u64, time_delta: u64, value: u64) -> (r:
    Option<u64>)
    ensures
        ({
            let nv = spec_accrued_value(value as int, apr as int, time_delta as int);
            if nv <= u64::MAX {
                r == Some(nv as u64)
            } else {
                r == None::<u64>
            }
        }),
{
    proof {
        lemma_u64_mul_fits_u128(apr as int, time_delta as int);
    }
    let ir: u128 = (apr as u128) * (time_delta as u128) / (SECONDS_PER_YEAR as u128);
    proof {
        vstd::arithmetic::div_mod::lemma_div_is_ordered(
            (apr as int) * (time_delta as int),
            u128::MAX as int,
            SECONDS_PER_YEAR as int,
        );
    }
    let factor: u128 = (FP_SCALE as u128) + ir;
    let prod: u128 = match (value as u128).checked_mul(factor) {
        Some(p) => p,
        None => {
            proof {
                let nv = spec_accrued_value(value as int, apr as int, time_delta as int);
                vstd::arithmetic::div_mod::lemma_div_is_ordered(
                    u128::MAX + 1,
                    (value as int) * (factor as int),
                    FP_SCALE as int,
                );
                assert((u128::MAX + 1) / (FP_SCALE as int) > u64::MAX);
            }
            return None;
        },
    };
    let q: u128 = prod / (FP_SCALE as u128);
    if q > u64::MAX as u128 {
        None
    } else {
        Some(q as u64)
    }
}

/// Runs the whole accrual computation: utilization, the rate pair, and
/// both advanced share values. `None` where any step is undefined or
/// overflows.
pub fn calc_interest_rate_accrual_state_changes(
    time_delta: u64,
    total_assets_amount: u64,
    total_liabilities_amount: u64,
    interest_rate_config: &InterestRateConfig,
    asset_share_value: u64,
    liability_share_value: u64,
) -> (r: Option<(u64, u64)>)
    ensures
        ({
            match spec_accrual_state_changes(
                time_delta as int,
                total_assets_amount as int,
                total_liabilities_amount as int,
                *interest_rate_config,
                asset_share_value as int,
                liability_share_value as int,
            ) {
                Some(vals) => r == Some((vals.0 as u64, vals.1 as u64)),
                None => r == None::<(u64, u64)>,
            }
        }),
{
    if total_assets_amount == 0 {
        return None;
    }
    proof {
        lemma_u64_mul_fits_u128(total_liabilities_amount as int, FP_SCALE as int);
    }
    let ur_wide: u128 = (total_liabilities_amount as u128) * (FP_SCALE as u128) / (
    total_assets_amount as u128);
    if ur_wide > u64::MAX as u128 {
        return None;
    }
    let utilization_rate = ur_wide as u64;
    let (lending_apr, borrowing_apr) = match interest_rate_config.calc_interest_rate(
        utilization_rate,
    ) {
        Some(rates) => rates,
        None => {
            return None;
        },
    };
    let nav = match calc_accrued_interest_payment_per_period(
        lending_apr,
        time_delta,
        asset_share_value,
    ) {
        Some(v) => v,
        None => {
            return None;
        },
    };
    let nlv = match calc_accrued_interest_payment_per_period(
        borrowing_apr,
        time_delta,
        liability_share_value,
    ) {
        Some(v) => v,
        None => {
            return None;
        },
    };
    Some((nav, nlv))
}

impl Bank {
    /// A fresh bank: both share values at 1 (that is, `FP_SCALE`), no
    /// outstanding shares, accrual clock at `current_timestamp`.
    pub fn new(
        mint: u64,
        mint_decimals: u8,
        config: BankConfig,
        current_timestamp: i64,
        liquidity_vault: u64,
        liquidity_vault_bump: u8,
        liquidity_vault_authority_bump: u8,
    ) -> (bank: Bank)
        ensures
            bank == (Bank {
                mint,
                mint_decimals,
                asset_share_value: FP_SCALE,
                liability_share_value: FP_SCALE,
                liquidity_vault,
                liquidity_vault_bump,
                liquidity_vault_authority_bump,
                total_liability_shares: 0,
                total_asset_shares: 0,
                last_update: current_timestamp,
                config,
            }),
    {
        Bank {
            mint,
            mint_decimals,
            asset_share_value: FP_SCALE,
            liability_share_value: FP_SCALE,
            liquidity_vault,
            liquidity_vault_bump,
            liquidity_vault_authority_bump,
            total_liability_shares: 0,
            total_asset_shares: 0,
            last_update: current_timestamp,
            config,
        }
    }

    /// The token amount represented by `shares` liability shares.
    pub fn get_liability_amount(&self, shares: u64) -> (r: Result<u64, OrbitlenError>)
        ensures
            ({
                let a = amount_from_shares(shares as int, self.liability_share_value as int);
                if a <= u64::MAX {
                    r == Ok::<u64, OrbitlenError>(a as u64)
                } else {
                    r == Err::<u64, OrbitlenError>(OrbitlenError::MathError)
                }
            }),
    {
        amount_of_shares(shares, self.liability_share_value)
    }

    /// The token amount represented by `shares` asset shares.
    pub fn get_asset_amount(&self, shares: u64) -> (r: Result<u64, OrbitlenError>)
        ensures
            ({
                let a = amount_from_shares(shares as int, self.asset_share_value as int);
                if a <= u64::MAX {
                    r == Ok::<u64, OrbitlenError>(a as u64)
                } else {
                    r == Err::<u64, OrbitlenError>(OrbitlenError::MathError)
                }
            }),
    {
        amount_of_shares(shares, self.asset_share_value)
    }

    /// The asset shares representing a token amount of `value`.
    pub fn get_asset_shares(&self, value: u64) -> (r: Result<u64, OrbitlenError>)
        ensures
            ({
                let s = shares_from_amount(value as int, self.asset_share_value as int);
                if self.asset_share_value == 0 {
                    r == Err::<u64, OrbitlenError>(OrbitlenError::MathError)
                } else if s <= u64::MAX {
                    r == Ok::<u64, OrbitlenError>(s as u64)
                } else {
                    r == Err::<u64, OrbitlenError>(OrbitlenError::MathError)
                }
            }),
    {
        shares_of_amount(value, self.asset_share_value)
    }

    /// The liability shares representing a token amount of `value`.
    pub fn get_liability_shares(&self, value: u64) -> (r: Result<u64, OrbitlenError>)
        ensures
            ({
                let s = shares_from_amount(value as int, self.liability_share_value as int);
                if self.liability_share_value == 0 {
                    r == Err::<u64, OrbitlenError>(OrbitlenError::MathError)
                } else if s <= u64::MAX {
                    r == Ok::<u64, OrbitlenError>(s as u64)
                } else {
                    r == Err::<u64, OrbitlenError>(OrbitlenError::MathError)
                }
            }),
    {
        shares_of_amount(value, self.liability_share_value)
    }

    /// Adds `shares` (which may be negative) to the bank's total asset
    /// shares; `MathError` when the total would leave `u64` range, in
    /// which case nothing changes.
    pub fn change_asset_shares(&mut self, shares: i64) -> (r: Result<(), OrbitlenError>)
        ensures
            ({
                let t = old(self).total_asset_shares + shares;
                if 0 <= t <= u64::MAX {
                    r == Ok::<(), OrbitlenError>(()) && *final(self) == (Bank {
                        total_asset_shares: t as u64,
                        ..*old(self)
                    })
                } else {
                    r == Err::<(), OrbitlenError>(OrbitlenError::MathError) && *final(self)
                        == *old(self)
                }
            }),
    {
        if shares >= 0 {
            match self.total_asset_shares.checked_add(shares as u64) {
                Some(t) => {
                    self.total_asset_shares = t;
                    Ok(())
                },
                None => Err(OrbitlenError::MathError),
            }
        } else {
            let magnitude: u64 = (-(shares as i128)) as u64;
            match self.total_asset_shares.checked_sub(magnitude) {
                Some(t) => {
                    self.total_asset_shares = t;
                    Ok(())
                },
                None => Err(OrbitlenError::MathError),
            }
        }
    }

    /// Adds `shares` (which may be negative) to the bank's total
    /// liability shares; `MathError` when the total would leave `u64`
    /// range, in which case nothing changes.
    pub fn change_liability_shares(&mut self, shares: i64) -> (r: Result<(), OrbitlenError>)
        ensures
            ({
                let t = old(self).total_liability_shares + shares;
                if 0 <= t <= u64::MAX {
                    r == Ok::<(), OrbitlenError>(()) && *final(self) == (Bank {
                        total_liability_shares: t as u64,
                        ..*old(self)
                    })
                } else {
                    r == Err::<(), OrbitlenError>(OrbitlenError::MathError) && *final(self)
                        == *old(self)
                }
            }),
    {
        if shares >= 0 {
            match self.total_liability_shares.checked_add(shares as u64) {
                Some(t) => {
                    self.total_liability_shares = t;
                    Ok(())
                },
                None => Err(OrbitlenError::MathError),
            }
        } else {
            let magnitude: u64 = (-(shares as i128)) as u64;
            match self.total_liability_shares.checked_sub(magnitude) {
                Some(t) => {
                    self.total_liability_shares = t;
                    Ok(())
                },
                None => Err(OrbitlenError::MathError),
            }
        }
    }

    /// The utilization invariant: succeeds exactly when the bank's total
    /// liability amount does not exceed its total asset amount.
    pub fn check_utilization_ratio(&self) -> (r: Result<(), OrbitlenError>)
        ensures
            r == spec_check_utilization(*self),
    {
        let total_assets = match self.get_asset_amount(self.total_asset_shares) {
            Ok(v) => v,
            Err(e) => {
                return Err(e);
            },
        };
        let total_liabilities = match self.get_liability_amount(self.total_liability_shares) {
            Ok(v) => v,
            Err(e) => {
                return Err(e);
            },
        };
        if total_assets >= total_liabilities {
            Ok(())
        } else {
            Err(OrbitlenError::IllegalUtilizationRatio)
        }
    }

    /// Compounds interest up to `current_timestamp` exactly as
    /// `spec_accrue` describes; on any failure the bank is unchanged.
    pub fn accrue_interest(&mut self, current_timestamp: i64) -> (r: Result<(), OrbitlenError>)
        ensures
            ({
                match spec_accrue(*old(self), current_timestamp as int) {
                    Ok(b) => r == Ok::<(), OrbitlenError>(()) && *final(self) == b,
                    Err(e) => r == Err::<(), OrbitlenError>(e) && *final(self) == *old(self),
                }
            }),
    {
        if current_timestamp == self.last_update {
            return Ok(());
        }
        if current_timestamp < self.last_update {
            return Err(OrbitlenError::MathError);
        }
        let time_delta: u64 = ((current_timestamp as i128) - (self.last_update as i128)) as u64;
        let total_assets = match self.get_asset_amount(self.total_asset_shares) {
            Ok(v) => v,
            Err(e) => {
                return Err(e);
            },
        };
        let total_liabilities = match self.get_liability_amount(self.total_liability_shares) {
            Ok(v) => v,
            Err(e) => {
                return Err(e);
            },
        };
        if total_assets == 0 || total_liabilities == 0 {
            self.last_update = current_timestamp;
            return Ok(());
        }
        match calc_interest_rate_accrual_state_changes(
            time_delta,
            total_assets,
            total_liabilities,
            &self.config.interest_rate_config,
            self.asset_share_value,
            self.liability_share_value,
        ) {
            Some((asset_share_value, liability_share_value)) => {
                self.asset_share_value = asset_share_value;
                self.liability_share_value = liability_share_value;
                self.last_update = current_timestamp;
                Ok(())
            },
            None => Err(OrbitlenError::MathError),
        }
    }

    /// A deposit transfer must name this bank's liquidity vault as its
    /// destination.
    pub fn check_transfer_destination(&self, to: u64) -> (r: Result<(), OrbitlenError>)
        ensures
            to == self.liquidity_vault ==> r == Ok::<(), OrbitlenError>(()),
            to != self.liquidity_vault ==> r == Err::<(), OrbitlenError>(
                OrbitlenError::InvalidTransfer,
            ),
    {
        if to == self.liquidity_vault {
            Ok(())
        } else {
            Err(OrbitlenError::InvalidTransfer)
        }
    }

    /// A mint account supplied by the host must be this bank's mint.
    pub fn check_bank_mint(&self, mint: u64) -> (r: Result<(), OrbitlenError>)
        ensures
            mint == self.mint ==> r == Ok::<(), OrbitlenError>(()),
            mint != self.mint ==> r == Err::<(), OrbitlenError>(OrbitlenError::MintRequired),
    {
        if mint == self.mint {
            Ok(())
        } else {
            Err(OrbitlenError::MintRequired)
        }
    }
}

} // verus!
