//! The liquidation engine.
//!
//! A liquidation moves `asset_amount` of collateral from an
//! under-collateralized user (the liquidatee) to a liquidator who repays
//! the equivalent debt value, computed from the two oracle prices. Four
//! position mutations run in sequence — the liquidator pays down debt on
//! the liability bank, the liquidatee surrenders collateral on the asset
//! bank, the liquidator receives that collateral, and the liquidatee is
//! credited the repaid debt — and the whole operation commits atomically:
//! any failure leaves all four states untouched.
use vstd::prelude::*;

use crate::account::{spec_find_balance, Balance, LendingAccount};
use crate::bank::{spec_accrue, Bank};
use crate::error::OrbitlenError;
use crate::math::amount_from_shares;
use crate::ops::{spec_decrease, spec_find_or_create, spec_increase, BankAccountWrapper};
use crate::price::{calc_amount, calc_value, spec_calc_amount, spec_calc_value};

verus! {

/// The four position balances (as token amounts) observed around a
/// liquidation, for observability.
#[derive(Clone, Copy, Debug, PartialEq, Eq, Structural)]
pub struct LiquidationBalances {
    pub liquidatee_asset_balance: u64,
    pub liquidatee_liability_balance: u64,
    pub liquidator_asset_balance: u64,
    pub liquidator_liability_balance: u64,
}

/// Step one: the liquidator pays off `liab_amount` of debt on the
/// liability bank. Yields the bank, the ledger, and the pre and post
/// liability balances of the position.
pub open spec fn spec_step_pay_debt(
    liab_bank: Bank,
    liquidator: Seq<Balance>,
    liab_bank_pk: u64,
    liab_amount: int,
    stamp: u64,
) -> Result<(Bank, Seq<Balance>, int, int), OrbitlenError> {
    match spec_find_or_create(liquidator, liab_bank_pk, stamp) {
        Err(e) => Err(e),
        Ok((slots, i)) => {
            let pre = amount_from_shares(
                slots[i].liability_shares as int,
                liab_bank.liability_share_value as int,
            );
            if pre > u64::MAX {
                Err(OrbitlenError::MathError)
            } else {
                match spec_decrease(liab_bank, slots[i], liab_amount) {
                    Err(e) => Err(e),
                    Ok((bank, bal)) => {
                        let post = amount_from_shares(
                            bal.liability_shares as int,
                            bank.liability_share_value as int,
                        );
                        if post > u64::MAX {
                            Err(OrbitlenError::MathError)
                        } else {
                            Ok((bank, slots.update(i, bal), pre, post))
                        }
                    },
                }
            }
        },
    }
}

/// Step two: the liquidatee surrenders `asset_amount` of collateral on
/// the asset bank; the position must already exist. Yields the bank,
/// the ledger, and the pre and post asset balances of the position.
pub open spec fn spec_step_seize_collateral(
    asset_bank: Bank,
    liquidatee: Seq<Balance>,
    asset_bank_pk: u64,
    asset_amount: int,
) -> Result<(Bank, Seq<Balance>, int, int), OrbitlenError> {
    match spec_find_balance(liquidatee, asset_bank_pk) {
        None => Err(OrbitlenError::BankAccountNotFound),
        Some(i) => {
            let pre = amount_from_shares(
                liquidatee[i].asset_shares as int,
                asset_bank.asset_share_value as int,
            );
            if pre > u64::MAX {
                Err(OrbitlenError::MathError)
            } else {
                match spec_decrease(asset_bank, liquidatee[i], asset_amount) {
                    Err(e) => Err(e),
                    Ok((bank, bal)) => {
                        let post = amount_from_shares(
                            bal.asset_shares as int,
                            bank.asset_share_value as int,
                        );
                        if post > u64::MAX {
                            Err(OrbitlenError::MathError)
                        } else {
                            Ok((bank, liquidatee.update(i, bal), pre, post))
                        }
                    },
                }
            }
        },
    }
}

/// Step three: the liquidator receives `asset_amount` of collateral on
/// the asset bank. Yields the bank, the ledger, and the pre and post
/// asset balances of the position.
pub open spec fn spec_step_receive_collateral(
    asset_bank: Bank,
    liquidator: Seq<Balance>,
    asset_bank_pk: u64,
    asset_amount: int,
    stamp: u64,
) -> Result<(Bank, Seq<Balance>, int, int), OrbitlenError> {
    match spec_find_or_create(liquidator, asset_bank_pk, stamp) {
        Err(e) => Err(e),
        Ok((slots, i)) => {
            let pre = amount_from_shares(
                slots[i].asset_shares as int,
                asset_bank.asset_share_value as int,
            );
            if pre > u64::MAX {
                Err(OrbitlenError::MathError)
            } else {
                match spec_increase(asset_bank, slots[i], asset_amount) {
                    Err(e) => Err(e),
                    Ok((bank, bal)) => {
                        let post = amount_from_shares(
                            bal.asset_shares as int,
                            bank.asset_share_value as int,
                        );
                        if post > u64::MAX {
                            Err(OrbitlenError::MathError)
                        } else {
                            Ok((bank, slots.update(i, bal), pre, post))
                        }
                    },
                }
            }
        },
    }
}

/// Step four: the liquidatee is credited the repaid `liab_amount` on
/// the liability bank. Yields the bank, the ledger, and the pre and
/// post liability balances of the position.
pub open spec fn spec_step_credit_debt(
    liab_bank: Bank,
    liquidatee: Seq<Balance>,
    liab_bank_pk: u64,
    liab_amount: int,
    stamp: u64,
) -> Result<(Bank, Seq<Balance>, int, int), OrbitlenError> {
    match spec_find_or_create(liquidatee, liab_bank_pk, stamp) {
        Err(e) => Err(e),
        Ok((slots, i)) => {
            let pre = amount_from_shares(
                slots[i].liability_shares as int,
                liab_bank.liability_share_value as int,
            );
            if pre > u64::MAX {
                Err(OrbitlenError::MathError)
            } else {
                match spec_increase(liab_bank, slots[i], liab_amount) {
                    Err(e) => Err(e),
                    Ok((bank, bal)) => {
                        let post = amount_from_shares(
                            bal.liability_shares as int,
                            bank.liability_share_value as int,
                        );
                        if post > u64::MAX {
                            Err(OrbitlenError::MathError)
                        } else {
                            Ok((bank, slots.update(i, bal), pre, post))
                        }
                    },
                }
            }
        },
    }
}

/// The four mutations in sequence, after both banks have accrued and
/// the debt quantity is fixed.
pub open spec fn spec_liquidate_steps(
    asset_bank: Bank,
    liab_bank: Bank,
    asset_bank_pk: u64,
    liab_bank_pk: u64,
    liquidator: Seq<Balance>,
    liquidatee: Seq<Balance>,
    asset_amount: int,
    liab_amount: int,
    stamp: u64,
) -> Result<
    (Bank, Bank, Seq<Balance>, Seq<Balance>, LiquidationBalances, LiquidationBalances),
    OrbitlenError,
> {
    match spec_step_pay_debt(liab_bank, liquidator, liab_bank_pk, liab_amount, stamp) {
        Err(e) => Err(e),
        Ok((lb1, tor1, pre_a, post_a)) => {
            match spec_step_seize_collateral(asset_bank, liquidatee, asset_bank_pk, asset_amount) {
                Err(e) => Err(e),
                Ok((ab1, tee1, pre_b, post_b)) => {
                    match spec_step_receive_collateral(
                        ab1,
                        tor1,
                        asset_bank_pk,
                        asset_amount,
                        stamp,
                    ) {
                        Err(e) => Err(e),
                        Ok((ab2, tor2, pre_c, post_c)) => {
                            match spec_step_credit_debt(lb1, tee1, liab_bank_pk, liab_amount, stamp) {
                                Err(e) => Err(e),
                                Ok((lb2, tee2, pre_d, post_d)) => Ok(
                                    (
                                        ab2,
                                        lb2,
                                        tor2,
                                        tee2,
                                        LiquidationBalances {
                                            liquidatee_asset_balance: pre_b as u64,
                                            liquidatee_liability_balance: pre_d as u64,
                                            liquidator_asset_balance: pre_c as u64,
                                            liquidator_liability_balance: pre_a as u64,
                                        },
                                        LiquidationBalances {
                                            liquidatee_asset_balance: post_b as u64,
                                            liquidatee_liability_balance: post_d as u64,
                                            liquidator_asset_balance: post_c as u64,
                                            liquidator_liability_balance: post_a as u64,
                                        },
                                    ),
                                ),
                            }
                        },
                    }
                },
            }
        },
    }
}

/// The whole liquidation: guards, accrual on both banks, the debt
/// quantity derived from the two prices, then the four mutations.
pub open spec fn spec_liquidate(
    asset_bank: Bank,
    liab_bank: Bank,
    asset_bank_pk: u64,
    liab_bank_pk: u64,
    liquidator: Seq<Balance>,
    liquidatee: Seq<Balance>,
    asset_amount: int,
    asset_price: int,
    liab_price: int,
    now: i64,
) -> Result<
    (Bank, Bank, Seq<Balance>, Seq<Balance>, LiquidationBalances, LiquidationBalances),
    OrbitlenError,
> {
    if asset_amount <= 0 {
        Err(OrbitlenError::IllegalLiquidation)
    } else if asset_bank_pk == liab_bank_pk {
        Err(OrbitlenError::IllegalLiquidation)
    } else {
        match spec_accrue(asset_bank, now as int) {
            Err(e) => Err(e),
            Ok(ab1) => match spec_accrue(liab_bank, now as int) {
                Err(e) => Err(e),
                Ok(lb1) => match spec_calc_value(
                    asset_amount,
                    asset_price,
                    ab1.mint_decimals as nat,
                ) {
                    None => Err(OrbitlenError::MathError),
                    Some(collateral_value) => match spec_calc_amount(
                        collateral_value,
                        liab_price,
                        lb1.mint_decimals as nat,
                    ) {
                        None => Err(OrbitlenError::MathError),
                        Some(liab_amount) => spec_liquidate_steps(
                            ab1,
                            lb1,
                            asset_bank_pk,
                            liab_bank_pk,
                            liquidator,
                            liquidatee,
                            asset_amount,
                            liab_amount,
                            now as u64,
                        ),
                    },
                },
            },
        }
    }
}

/// Runs step one on local copies and commits only on success.
fn step_pay_debt(liab_bank: &mut Bank, liquidator: &mut LendingAccount, liab_bank_pk: u64, liab_amount: u64, stamp: u64) -> (r: Result<(u64, u64), OrbitlenError>)
    ensures
        ({
            match spec_step_pay_debt(*old(liab_bank), old(liquidator)@, liab_bank_pk, liab_amount as int, stamp) {
                Ok(out) => r == Ok::<(u64, u64), OrbitlenError>((out.2 as u64, out.3 as u64))
                    && *final(liab_bank) == out.0 && final(liquidator)@ == out.1,
                Err(e) => r == Err::<(u64, u64), OrbitlenError>(e)
                    && *final(liab_bank) == *old(liab_bank)
                    && *final(liquidator) == *old(liquidator),
            }
        }),
{
    let mut bank = *liab_bank;
    let mut slots = *liquidator;
    let wrapper = match BankAccountWrapper::find_or_create(liab_bank_pk, &mut slots, stamp) {
        Ok(w) => w,
        Err(e) => {
            return Err(e);
        },
    };
    let pre = match bank.get_liability_amount(slots.balances[wrapper.index].liability_shares) {
        Ok(v) => v,
        Err(e) => {
            return Err(e);
        },
    };
    match wrapper.decrease_balance_in_liquidation(&mut bank, &mut slots, liab_amount) {
        Ok(_) => {},
        Err(e) => {
            return Err(e);
        },
    }
    let post = match bank.get_liability_amount(slots.balances[wrapper.index].liability_shares) {
        Ok(v) => v,
        Err(e) => {
            return Err(e);
        },
    };
    *liab_bank = bank;
    *liquidator = slots;
    Ok((pre, post))
}

/// Runs step two on local copies and commits only on success.
fn step_seize_collateral(asset_bank: &mut Bank, liquidatee: &mut LendingAccount, asset_bank_pk: u64, asset_amount: u64) -> (r: Result<(u64, u64), OrbitlenError>)
    ensures
        ({
            match spec_step_seize_collateral(*old(asset_bank), old(liquidatee)@, asset_bank_pk, asset_amount as int) {
                Ok(out) => r == Ok::<(u64, u64), OrbitlenError>((out.2 as u64, out.3 as u64))
                    && *final(asset_bank) == out.0 && final(liquidatee)@ == out.1,
                Err(e) => r == Err::<(u64, u64), OrbitlenError>(e)
                    && *final(asset_bank) == *old(asset_bank)
                    && *final(liquidatee) == *old(liquidatee),
            }
        }),
{
    let mut bank = *asset_bank;
    let mut slots = *liquidatee;
    let wrapper = match BankAccountWrapper::find(asset_bank_pk, &slots) {
        Ok(w) => w,
        Err(e) => {
            return Err(e);
        },
    };
    let pre = match bank.get_asset_amount(slots.balances[wrapper.index].asset_shares) {
        Ok(v) => v,
        Err(e) => {
            return Err(e);
        },
    };
    match wrapper.withdraw(&mut bank, &mut slots, asset_amount) {
        Ok(_) => {},
        Err(e) => {
            return Err(e);
        },
    }
    let post = match bank.get_asset_amount(slots.balances[wrapper.index].asset_shares) {
        Ok(v) => v,
        Err(e) => {
            return Err(e);
        },
    };
    *asset_bank = bank;
    *liquidatee = slots;
    Ok((pre, post))
}

/// Runs step three on local copies and commits only on success.
fn step_receive_collateral(asset_bank: &mut Bank, liquidator: &mut LendingAccount, asset_bank_pk: u64, asset_amount: u64, stamp: u64) -> (r: Result<(u64, u64), OrbitlenError>)
    ensures
        ({
            match spec_step_receive_collateral(*old(asset_bank), old(liquidator)@, asset_bank_pk, asset_amount as int, stamp) {
                Ok(out) => r == Ok::<(u64, u64), OrbitlenError>((out.2 as u64, out.3 as u64))
                    && *final(asset_bank) == out.0 && final(liquidator)@ == out.1,
                Err(e) => r == Err::<(u64, u64), OrbitlenError>(e)
                    && *final(asset_bank) == *old(asset_bank)
                    && *final(liquidator) == *old(liquidator),
            }
        }),
{
    let mut bank = *asset_bank;
    let mut slots = *liquidator;
    let wrapper = match BankAccountWrapper::find_or_create(asset_bank_pk, &mut slots, stamp) {
        Ok(w) => w,
        Err(e) => {
            return Err(e);
        },
    };
    let pre = match bank.get_asset_amount(slots.balances[wrapper.index].asset_shares) {
        Ok(v) => v,
        Err(e) => {
            return Err(e);
        },
    };
    match wrapper.increase_balance_in_liquidation(&mut bank, &mut slots, asset_amount) {
        Ok(_) => {},
        Err(e) => {
            return Err(e);
        },
    }
    let post = match bank.get_asset_amount(slots.balances[wrapper.index].asset_shares) {
        Ok(v) => v,
        Err(e) => {
            return Err(e);
        },
    };
    *asset_bank = bank;
    *liquidator = slots;
    Ok((pre, post))
}

/// Runs step four on local copies and commits only on success.
fn step_credit_debt(liab_bank: &mut Bank, liquidatee: &mut LendingAccount, liab_bank_pk: u64, liab_amount: u64, stamp: u64) -> (r: Result<(u64, u64), OrbitlenError>)
    ensures
        ({
            match spec_step_credit_debt(*old(liab_bank), old(liquidatee)@, liab_bank_pk, liab_amount as int, stamp) {
                Ok(out) => r == Ok::<(u64, u64), OrbitlenError>((out.2 as u64, out.3 as u64))
                    && *final(liab_bank) == out.0 && final(liquidatee)@ == out.1,
                Err(e) => r == Err::<(u64, u64), OrbitlenError>(e)
                    && *final(liab_bank) == *old(liab_bank)
                    && *final(liquidatee) == *old(liquidatee),
            }
        }),
{
    let mut bank = *liab_bank;
    let mut slots = *liquidatee;
    let wrapper = match BankAccountWrapper::find_or_create(liab_bank_pk, &mut slots, stamp) {
        Ok(w) => w,
        Err(e) => {
            return Err(e);
        },
    };
    let pre = match bank.get_liability_amount(slots.balances[wrapper.index].liability_shares) {
        Ok(v) => v,
        Err(e) => {
            return Err(e);
        },
    };
    match wrapper.increase_balance(&mut bank, &mut slots, liab_amount) {
        Ok(_) => {},
        Err(e) => {
            return Err(e);
        },
    }
    let post = match bank.get_liability_amount(slots.balances[wrapper.index].liability_shares) {
        Ok(v) => v,
        Err(e) => {
            return Err(e);
        },
    };
    *liab_bank = bank;
    *liquidatee = slots;
    Ok((pre, post))
}

/// Executes a liquidation between two banks and two user ledgers at the
/// supplied oracle prices, returning the pre and post balance
/// snapshots. On any error all four `&mut` arguments are unchanged.
#[verifier::rlimit(100)]
pub fn lending_account_liquidate_process(
    asset_bank: &mut Bank,
    asset_bank_pk: u64,
    liab_bank: &mut Bank,
    liab_bank_pk: u64,
    liquidator_account: &mut LendingAccount,
    liquidatee_account: &mut LendingAccount,
    asset_amount: u64,
    asset_price: u64,
    liab_price: u64,
    now: i64,
) -> (r: Result<(LiquidationBalances, LiquidationBalances), OrbitlenError>)
    ensures
        ({
            match spec_liquidate(
                *old(asset_bank),
                *old(liab_bank),
                asset_bank_pk,
                liab_bank_pk,
                old(liquidator_account)@,
                old(liquidatee_account)@,
                asset_amount as int,
                asset_price as int,
                liab_price as int,
                now,
            ) {
                Ok(out) => r == Ok::<(LiquidationBalances, LiquidationBalances), OrbitlenError>(
                    (out.4, out.5),
                ) && *final(asset_bank) == out.0 && *final(liab_bank) == out.1
                    && final(liquidator_account)@ == out.2 && final(liquidatee_account)@ == out.3,
                Err(e) => r == Err::<(LiquidationBalances, LiquidationBalances), OrbitlenError>(e)
                    && *final(asset_bank) == *old(asset_bank)
                    && *final(liab_bank) == *old(liab_bank)
                    && *final(liquidator_account) == *old(liquidator_account)
                    && *final(liquidatee_account) == *old(liquidatee_account),
            }
        }),
{
    if asset_amount == 0 {
        return Err(OrbitlenError::IllegalLiquidation);
    }
    if asset_bank_pk == liab_bank_pk {
        return Err(OrbitlenError::IllegalLiquidation);
    }
    let mut ab = *asset_bank;
    let mut lb = *liab_bank;
    let mut tor = *liquidator_account;
    let mut tee = *liquidatee_account;
    match ab.accrue_interest(now) {
        Ok(_) => {},
        Err(e) => {
            return Err(e);
        },
    }
    match lb.accrue_interest(now) {
        Ok(_) => {},
        Err(e) => {
            return Err(e);
        },
    }
    let collateral_value = match calc_value(asset_amount, asset_price, ab.mint_decimals) {
        Ok(v) => v,
        Err(e) => {
            return Err(e);
        },
    };
    let liab_amount = match calc_amount(collateral_value, liab_price, lb.mint_decimals) {
        Ok(v) => v,
        Err(e) => {
            return Err(e);
        },
    };
    let stamp: u64 = #[verifier::truncate] (now as u64);
    let ghost ab_s = ab;
    let ghost lb_s = lb;
    let ghost tor_s = tor@;
    let ghost tee_s = tee@;
    proof {
        assert(spec_liquidate(
            *old(asset_bank),
            *old(liab_bank),
            asset_bank_pk,
            liab_bank_pk,
            old(liquidator_account)@,
            old(liquidatee_account)@,
            asset_amount as int,
            asset_price as int,
            liab_price as int,
            now,
        ) == spec_liquidate_steps(
            ab_s,
            lb_s,
            asset_bank_pk,
            liab_bank_pk,
            tor_s,
            tee_s,
            asset_amount as int,
            liab_amount as int,
            stamp,
        ));
    }

    let (pre_a, post_a) = match step_pay_debt(&mut lb, &mut tor, liab_bank_pk, liab_amount, stamp) {
        Ok(v) => v,
        Err(e) => {
            return Err(e);
        },
    };
    let (pre_b, post_b) = match step_seize_collateral(&mut ab, &mut tee, asset_bank_pk, asset_amount) {
        Ok(v) => v,
        Err(e) => {
            return Err(e);
        },
    };
    let (pre_c, post_c) = match step_receive_collateral(&mut ab, &mut tor, asset_bank_pk, asset_amount, stamp) {
        Ok(v) => v,
        Err(e) => {
            return Err(e);
        },
    };
    let (pre_d, post_d) = match step_credit_debt(&mut lb, &mut tee, liab_bank_pk, liab_amount, stamp) {
        Ok(v) => v,
        Err(e) => {
            return Err(e);
        },
    };

    let pre_balances = LiquidationBalances {
        liquidatee_asset_balance: pre_b,
        liquidatee_liability_balance: pre_d,
        liquidator_asset_balance: pre_c,
        liquidator_liability_balance: pre_a,
    };
    let post_balances = LiquidationBalances {
        liquidatee_asset_balance: post_b,
        liquidatee_liability_balance: post_d,
        liquidator_asset_balance: post_c,
        liquidator_liability_balance: post_a,
    };
    proof {
        assert(spec_liquidate_steps(
            ab_s,
            lb_s,
            asset_bank_pk,
            liab_bank_pk,
            tor_s,
            tee_s,
            asset_amount as int,
            liab_amount as int,
            stamp,
        ) == Ok::<
            (Bank, Bank, Seq<Balance>, Seq<Balance>, LiquidationBalances, LiquidationBalances),
            OrbitlenError,
        >((ab, lb, tor@, tee@, pre_balances, post_balances)));
    }
    *asset_bank = ab;
    *liab_bank = lb;
    *liquidator_account = tor;
    *liquidatee_account = tee;
    Ok((pre_balances, post_balances))
}

} // verus!
