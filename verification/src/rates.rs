//! The kinked interest rate model.
//!
//! A two-segment piecewise-linear curve maps a utilization ratio to a
//! borrowing rate; lenders receive that rate multiplied by utilization.
//! Configured percentages are `u16`; all ratios and rates are fixed-point
//! integers scaled by `FP_SCALE`.
use vstd::prelude::*;

use crate::constants::{FP_SCALE, SECONDS_PER_YEAR};

verus! {

/// Parameters of the rate curve, each a whole percentage.
#[derive(Clone, Copy, Debug, PartialEq, Eq, Structural)]
pub struct InterestRateConfig {
    /// Utilization at the curve's breakpoint, in percent.
    pub optimal_utilization_rate: u16,
    /// Borrowing rate at the breakpoint, in percent per year.
    pub plateau_interest_rate: u16,
    /// Borrowing rate at full utilization, in percent per year.
    pub max_interest_rate: u16,
}

/// A configured percentage as a fixed-point fraction of `FP_SCALE`.
pub open spec fn rate_scaled(value: u16) -> int {
    (value as int) * 10_000
}

/// The borrowing rate the curve assigns to utilization `ur`, or `None`
/// where the configuration makes the formula divide by zero or produce a
/// negative slope.
pub open spec fn spec_rate_curve(config: InterestRateConfig, ur: int) -> Option<int> {
    let opt = rate_scaled(config.optimal_utilization_rate);
    let plat = rate_scaled(config.plateau_interest_rate);
    let maxr = rate_scaled(config.max_interest_rate);
    if ur <= opt {
        if opt == 0 {
            None
        } else {
            Some(ur * plat / opt)
        }
    } else if opt >= FP_SCALE || maxr < plat {
        None
    } else {
        Some((ur - opt) * (maxr - plat) / (FP_SCALE - opt) + plat)
    }
}

/// The pair (lending rate, borrowing rate) at utilization `ur`: the
/// borrowing rate comes from the curve and lenders receive the fraction
/// of it proportional to utilization.
pub open spec fn spec_interest_rates(config: InterestRateConfig, ur: int) -> Option<(int, int)> {
    match spec_rate_curve(config, ur) {
        None => None,
        Some(base) => Some((base * ur / (FP_SCALE as int), base)),
    }
}

/// A share value after simple interest at annualized rate `apr` accrues
/// over `dt` seconds.
pub open spec fn spec_accrued_value(value: int, apr: int, dt: int) -> int {
    value * (FP_SCALE + apr * dt / (SECONDS_PER_YEAR as int)) / (FP_SCALE as int)
}

impl InterestRateConfig {
    /// A configured percentage as a fixed-point fraction of `FP_SCALE`.
    pub fn as_scaled(&self, value: u16) -> (r: u64)
        ensures
            r == rate_scaled(value),
    {
        (value as u64) * 10_000
    }

    /// The borrowing rate of the curve at utilization `ur`, when it is
    /// defined and fits a `u64`.
    pub fn interest_rate_curve(&self, ur: u64) -> (r: Option<u64>)
        ensures
            ({
                match spec_rate_curve(*self, ur as int) {
                    Some(base) => if base <= u64::MAX {
                        r == Some(base as u64)
                    } else {
                        r == None::<u64>
                    },
                    None => r == None::<u64>,
                }
            }),
    {
        let opt = self.as_scaled(self.optimal_utilization_rate);
        let plat = self.as_scaled(self.plateau_interest_rate);
        let maxr = self.as_scaled(self.max_interest_rate);
        if ur <= opt {
            if opt == 0 {
                return None;
            }
            proof {
                crate::math::lemma_u64_mul_fits_u128(ur as int, plat as int);
            }
            let wide: u128 = (ur as u128) * (plat as u128) / (opt as u128);
            if wide > u64::MAX as u128 {
                None
            } else {
                Some(wide as u64)
            }
        } else if opt >= FP_SCALE || maxr < plat {
            None
        } else {
            proof {
                crate::math::lemma_u64_mul_fits_u128((ur - opt) as int, (maxr - plat) as int);
            }
            let slope: u128 = ((ur - opt) as u128) * ((maxr - plat) as u128) / ((FP_SCALE - opt) as u128);
            if slope > (u64::MAX - plat) as u128 {
                None
            } else {
                Some(slope as u64 + plat)
            }
        }
    }

    /// The (lending, borrowing) rate pair at utilization `ur`, when both
    /// are defined and fit a `u64`.
    pub fn calc_interest_rate(&self, utilization_ratio: u64) -> (r: Option<(u64, u64)>)
        ensures
            ({
                match spec_interest_rates(*self, utilization_ratio as int) {
                    Some(rates) => if rates.0 <= u64::MAX && rates.1 <= u64::MAX {
                        r == Some((rates.0 as u64, rates.1 as u64))
                    } else {
                        r == None::<(u64, u64)>
                    },
                    None => r == None::<(u64, u64)>,
                }
            }),
    {
        let base = match self.interest_rate_curve(utilization_ratio) {
            Some(b) => b,
            None => {
                return None;
            },
        };
        proof {
            crate::math::lemma_u64_mul_fits_u128(base as int, utilization_ratio as int);
        }
        let lending: u128 = (base as u128) * (utilization_ratio as u128) / (FP_SCALE as u128);
        if lending > u64::MAX as u128 {
            None
        } else {
            Some((lending as u64, base))
        }
    }
}

/// The wire-compact form of `InterestRateConfig`, as instructions
/// carry it.
#[derive(Clone, Copy, Debug, PartialEq, Eq, Structural)]
pub struct InterestRateConfigCompact {
    pub optimal_utilization_rate: u16,
    pub plateau_interest_rate: u16,
    pub max_interest_rate: u16,
}

impl From<InterestRateConfigCompact> for InterestRateConfig {
    fn from(ir_config: InterestRateConfigCompact) -> (r: InterestRateConfig) {
        InterestRateConfig {
            optimal_utilization_rate: ir_config.optimal_utilization_rate,
            plateau_interest_rate: ir_config.plateau_interest_rate,
            max_interest_rate: ir_config.max_interest_rate,
        }
    }
}

impl vstd::std_specs::convert::FromSpecImpl<InterestRateConfigCompact> for InterestRateConfig {
    open spec fn obeys_from_spec() -> bool {
        true
    }

    open spec fn from_spec(ir_config: InterestRateConfigCompact) -> InterestRateConfig {
        InterestRateConfig {
            optimal_utilization_rate: ir_config.optimal_utilization_rate,
            plateau_interest_rate: ir_config.plateau_interest_rate,
            max_interest_rate: ir_config.max_interest_rate,
        }
    }
}

} // verus!
