//! Transactional balance mutations.
//!
//! The two primitives mutate one (bank, position) pair together,
//! preserving the share/amount correspondence: a credit pays down the
//! position's debt on that bank before it becomes new collateral, and a
//! debit draws down collateral before it becomes new debt. A debit that
//! leaves the bank with more liabilities than assets is rejected whole.
//! On any error both arguments are left exactly as they were.
use vstd::prelude::*;

use crate::account::{fresh_balance, spec_find_balance, spec_first_empty, Balance, LendingAccount};
use crate::bank::{spec_check_utilization, Bank};
use crate::constants::MAX_LENDING_ACCOUNT_BALANCES;
use crate::error::OrbitlenError;
use crate::math::{amount_from_shares, lemma_round_trip_shares, shares_from_amount};

verus! {

/// The (bank, position) pair after a credit of `delta`: the debt side is
/// paid off first, the remainder becomes collateral. `Err(MathError)`
/// where a conversion or a share total leaves `u64` range.
pub open spec fn spec_increase(bank: Bank, balance: Balance, delta: int) -> Result<
    (Bank, Balance),
    OrbitlenError,
> {
    let cur_liab_amt = amount_from_shares(
        balance.liability_shares as int,
        bank.liability_share_value as int,
    );
    if cur_liab_amt > u64::MAX {
        Err(OrbitlenError::MathError)
    } else {
        let payoff = if delta <= cur_liab_amt {
            delta
        } else {
            cur_liab_amt
        };
        let asset_inc = if delta <= cur_liab_amt {
            0
        } else {
            delta - cur_liab_amt
        };
        if bank.asset_share_value == 0 {
            Err(OrbitlenError::MathError)
        } else {
            let dsa = shares_from_amount(asset_inc, bank.asset_share_value as int);
            if dsa > u64::MAX {
                Err(OrbitlenError::MathError)
            } else if balance.asset_shares + dsa > u64::MAX {
                Err(OrbitlenError::MathError)
            } else if bank.total_asset_shares + dsa > u64::MAX {
                Err(OrbitlenError::MathError)
            } else if bank.liability_share_value == 0 {
                Err(OrbitlenError::MathError)
            } else {
                let dsl = shares_from_amount(payoff, bank.liability_share_value as int);
                if bank.total_liability_shares - dsl < 0 {
                    Err(OrbitlenError::MathError)
                } else {
                    Ok(
                        (
                            Bank {
                                total_asset_shares: (bank.total_asset_shares + dsa) as u64,
                                total_liability_shares: (bank.total_liability_shares - dsl) as u64,
                                ..bank
                            },
                            Balance {
                                asset_shares: (balance.asset_shares + dsa) as u64,
                                liability_shares: (balance.liability_shares - dsl) as u64,
                                ..balance
                            },
                        ),
                    )
                }
            }
        }
    }
}

/// The (bank, position) pair after a debit of `delta`: collateral is
/// drawn down first, the remainder becomes new debt, and the utilization
/// invariant is checked on the resulting bank. `Err(MathError)` where a
/// conversion or a share total leaves `u64` range;
/// `Err(IllegalUtilizationRatio)` where the resulting bank would owe
/// more than it holds.
pub open spec fn spec_decrease(bank: Bank, balance: Balance, delta: int) -> Result<
    (Bank, Balance),
    OrbitlenError,
> {
    let cur_asset_amt = amount_from_shares(
        balance.asset_shares as int,
        bank.asset_share_value as int,
    );
    if cur_asset_amt > u64::MAX {
        Err(OrbitlenError::MathError)
    } else {
        let drawdown = if delta <= cur_asset_amt {
            delta
        } else {
            cur_asset_amt
        };
        let liab_inc = if delta <= cur_asset_amt {
            0
        } else {
            delta - cur_asset_amt
        };
        if bank.asset_share_value == 0 {
            Err(OrbitlenError::MathError)
        } else {
            let dsa = shares_from_amount(drawdown, bank.asset_share_value as int);
            if bank.total_asset_shares - dsa < 0 {
                Err(OrbitlenError::MathError)
            } else if bank.liability_share_value == 0 {
                Err(OrbitlenError::MathError)
            } else {
                let dsl = shares_from_amount(liab_inc, bank.liability_share_value as int);
                if dsl > u64::MAX {
                    Err(OrbitlenError::MathError)
                } else if balance.liability_shares + dsl > u64::MAX {
                    Err(OrbitlenError::MathError)
                } else if bank.total_liability_shares + dsl > u64::MAX {
                    Err(OrbitlenError::MathError)
                } else {
                    let bank2 = Bank {
                        total_asset_shares: (bank.total_asset_shares - dsa) as u64,
                        total_liability_shares: (bank.total_liability_shares + dsl) as u64,
                        ..bank
                    };
                    let balance2 = Balance {
                        asset_shares: (balance.asset_shares - dsa) as u64,
                        liability_shares: (balance.liability_shares + dsl) as u64,
                        ..balance
                    };
                    match spec_check_utilization(bank2) {
                        Ok(_) => Ok((bank2, balance2)),
                        Err(e) => Err(e),
                    }
                }
            }
        }
    }
}

/// Credits `delta` to the position: pays down its debt on this bank
/// first, converts the remainder to asset shares. On error nothing
/// changes.
pub fn increase_balance_internal(bank: &mut Bank, balance: &mut Balance, delta: u64) -> (r: Result<
    (),
    OrbitlenError,
>)
    ensures
        ({
            match spec_increase(*old(bank), *old(balance), delta as int) {
                Ok(pair) => r == Ok::<(), OrbitlenError>(()) && *final(bank) == pair.0
                    && *final(balance) == pair.1,
                Err(e) => r == Err::<(), OrbitlenError>(e) && *final(bank) == *old(bank)
                    && *final(balance) == *old(balance),
            }
        }),
{
    let current_liability_amount = match bank.get_liability_amount(balance.liability_shares) {
        Ok(v) => v,
        Err(e) => {
            return Err(e);
        },
    };
    let (liability_amount_decrease, asset_amount_increase) = if delta <= current_liability_amount {
        (delta, 0u64)
    } else {
        (current_liability_amount, delta - current_liability_amount)
    };
    let asset_shares_increase = match bank.get_asset_shares(asset_amount_increase) {
        Ok(v) => v,
        Err(e) => {
            return Err(e);
        },
    };
    let new_balance_assets = match balance.asset_shares.checked_add(asset_shares_increase) {
        Some(v) => v,
        None => {
            return Err(OrbitlenError::MathError);
        },
    };
    let new_bank_assets = match bank.total_asset_shares.checked_add(asset_shares_increase) {
        Some(v) => v,
        None => {
            return Err(OrbitlenError::MathError);
        },
    };
    proof {
        if bank.liability_share_value > 0 {
            lemma_round_trip_shares(
                balance.liability_shares as int,
                bank.liability_share_value as int,
                liability_amount_decrease as int,
            );
        }
    }
    let liability_shares_decrease = match bank.get_liability_shares(liability_amount_decrease) {
        Ok(v) => v,
        Err(e) => {
            return Err(e);
        },
    };
    let new_bank_liabs = match bank.total_liability_shares.checked_sub(liability_shares_decrease) {
        Some(v) => v,
        None => {
            return Err(OrbitlenError::MathError);
        },
    };
    balance.asset_shares = new_balance_assets;
    balance.liability_shares = balance.liability_shares - liability_shares_decrease;
    bank.total_asset_shares = new_bank_assets;
    bank.total_liability_shares = new_bank_liabs;
    Ok(())
}

/// Debits `delta` from the position: draws down its collateral on this
/// bank first, converts the remainder to new liability shares, then
/// enforces the bank's utilization invariant. On error (including a
/// utilization violation) nothing changes.
pub fn decrease_balance_internal(bank: &mut Bank, balance: &mut Balance, delta: u64) -> (r: Result<
    (),
    OrbitlenError,
>)
    ensures
        ({
            match spec_decrease(*old(bank), *old(balance), delta as int) {
                Ok(pair) => r == Ok::<(), OrbitlenError>(()) && *final(bank) == pair.0
                    && *final(balance) == pair.1,
                Err(e) => r == Err::<(), OrbitlenError>(e) && *final(bank) == *old(bank)
                    && *final(balance) == *old(balance),
            }
        }),
{
    let current_asset_amount = match bank.get_asset_amount(balance.asset_shares) {
        Ok(v) => v,
        Err(e) => {
            return Err(e);
        },
    };
    let (asset_amount_decrease, liability_amount_increase) = if delta <= current_asset_amount {
        (delta, 0u64)
    } else {
        (current_asset_amount, delta - current_asset_amount)
    };
    proof {
        if bank.asset_share_value > 0 {
            lemma_round_trip_shares(
                balance.asset_shares as int,
                bank.asset_share_value as int,
                asset_amount_decrease as int,
            );
        }
    }
    let asset_shares_decrease = match bank.get_asset_shares(asset_amount_decrease) {
        Ok(v) => v,
        Err(e) => {
            return Err(e);
        },
    };
    let new_bank_assets = match bank.total_asset_shares.checked_sub(asset_shares_decrease) {
        Some(v) => v,
        None => {
            return Err(OrbitlenError::MathError);
        },
    };
    let liability_shares_increase = match bank.get_liability_shares(liability_amount_increase) {
        Ok(v) => v,
        Err(e) => {
            return Err(e);
        },
    };
    let new_balance_liabs = match balance.liability_shares.checked_add(liability_shares_increase) {
        Some(v) => v,
        None => {
            return Err(OrbitlenError::MathError);
        },
    };
    let new_bank_liabs = match bank.total_liability_shares.checked_add(liability_shares_increase) {
        Some(v) => v,
        None => {
            return Err(OrbitlenError::MathError);
        },
    };
    let candidate = Bank {
        total_asset_shares: new_bank_assets,
        total_liability_shares: new_bank_liabs,
        ..*bank
    };
    match candidate.check_utilization_ratio() {
        Ok(_) => {},
        Err(e) => {
            return Err(e);
        },
    }
    balance.asset_shares = balance.asset_shares - asset_shares_decrease;
    balance.liability_shares = new_balance_liabs;
    *bank = candidate;
    Ok(())
}

/// The ledger and slot index after resolving bank `bank_pk`: the
/// existing position, or a fresh one in the first free slot stamped
/// `now`, or `Err(LendingAccountBalanceSlotsFull)`.
pub open spec fn spec_find_or_create(s: Seq<Balance>, bank_pk: u64, now: u64) -> Result<
    (Seq<Balance>, int),
    OrbitlenError,
> {
    match spec_find_balance(s, bank_pk) {
        Some(i) => Ok((s, i)),
        None => match spec_first_empty(s) {
            Some(j) => Ok((s.update(j, fresh_balance(bank_pk, now)), j)),
            None => Err(OrbitlenError::LendingAccountBalanceSlotsFull),
        },
    }
}

/// A resolved position: the index of one slot of a user ledger, to be
/// used together with the bank it was resolved against.
pub struct BankAccountWrapper {
    pub index: usize,
}

impl BankAccountWrapper {
    /// Resolves an existing position for bank `bank_pk`;
    /// `Err(BankAccountNotFound)` when the ledger has none.
    pub fn find(bank_pk: u64, lending_account: &LendingAccount) -> (r: Result<
        BankAccountWrapper,
        OrbitlenError,
    >)
        ensures
            ({
                match spec_find_balance(lending_account@, bank_pk) {
                    Some(i) => match r {
                        Ok(w) => w.index == i && w.index < MAX_LENDING_ACCOUNT_BALANCES,
                        Err(_) => false,
                    },
                    None => r == Err::<BankAccountWrapper, OrbitlenError>(
                        OrbitlenError::BankAccountNotFound,
                    ),
                }
            }),
    {
        match lending_account.find_balance(bank_pk) {
            Some(i) => Ok(BankAccountWrapper { index: i }),
            None => Err(OrbitlenError::BankAccountNotFound),
        }
    }

    /// Resolves the position for bank `bank_pk`, creating a fresh one in
    /// the first free slot (stamped `now`) when the ledger has none;
    /// `Err(LendingAccountBalanceSlotsFull)` when it is full.
    pub fn find_or_create(bank_pk: u64, lending_account: &mut LendingAccount, now: u64) -> (r:
        Result<BankAccountWrapper, OrbitlenError>)
        ensures
            ({
                match spec_find_or_create(old(lending_account)@, bank_pk, now) {
                    Ok(pair) => match r {
                        Ok(w) => w.index == pair.1 && w.index < MAX_LENDING_ACCOUNT_BALANCES
                            && final(lending_account)@ == pair.0,
                        Err(_) => false,
                    },
                    Err(e) => r == Err::<BankAccountWrapper, OrbitlenError>(e)
                        && final(lending_account)@ == old(lending_account)@,
                }
            }),
    {
        match lending_account.find_balance(bank_pk) {
            Some(i) => Ok(BankAccountWrapper { index: i }),
            None => {
                match lending_account.get_first_empty_balance() {
                    Some(j) => {
                        lending_account.balances[j] = Balance {
                            active: true,
                            bank_pk,
                            asset_shares: 0,
                            liability_shares: 0,
                            last_update: now,
                        };
                        Ok(BankAccountWrapper { index: j })
                    },
                    None => Err(OrbitlenError::LendingAccountBalanceSlotsFull),
                }
            },
        }
    }

    /// Credits `amount` to the resolved position, as `spec_increase`
    /// describes; `Err(BankAccountNotFound)` on an index outside the
    /// ledger. On error nothing changes.
    pub fn increase_balance(&self, bank: &mut Bank, lending_account: &mut LendingAccount, amount: u64) -> (r: Result<(), OrbitlenError>)
        ensures
            spec_wrapper_outcome_increase(
                *self,
                *old(bank),
                old(lending_account)@,
                amount as int,
                r,
                *final(bank),
                final(lending_account)@,
            ),
    {
        self.apply_increase(bank, lending_account, amount)
    }

    /// A deposit: credits `amount` to the resolved position. On error
    /// nothing changes.
    pub fn deposit(&self, bank: &mut Bank, lending_account: &mut LendingAccount, amount: u64) -> (r: Result<(), OrbitlenError>)
        ensures
            spec_wrapper_outcome_increase(
                *self,
                *old(bank),
                old(lending_account)@,
                amount as int,
                r,
                *final(bank),
                final(lending_account)@,
            ),
    {
        self.apply_increase(bank, lending_account, amount)
    }

    /// The liquidatee's debt credit during liquidation: credits `amount`
    /// to the resolved position. On error nothing changes.
    pub fn increase_balance_in_liquidation(&self, bank: &mut Bank, lending_account: &mut LendingAccount, amount: u64) -> (r: Result<(), OrbitlenError>)
        ensures
            spec_wrapper_outcome_increase(
                *self,
                *old(bank),
                old(lending_account)@,
                amount as int,
                r,
                *final(bank),
                final(lending_account)@,
            ),
    {
        self.apply_increase(bank, lending_account, amount)
    }

    /// A withdrawal: debits `amount` from the resolved position, with
    /// the utilization guard. On error nothing changes.
    pub fn withdraw(&self, bank: &mut Bank, lending_account: &mut LendingAccount, amount: u64) -> (r: Result<(), OrbitlenError>)
        ensures
            spec_wrapper_outcome_decrease(
                *self,
                *old(bank),
                old(lending_account)@,
                amount as int,
                r,
                *final(bank),
                final(lending_account)@,
            ),
    {
        self.apply_decrease(bank, lending_account, amount)
    }

    /// A borrow: debits `amount` from the resolved position, with the
    /// utilization guard. On error nothing changes.
    pub fn borrow(&self, bank: &mut Bank, lending_account: &mut LendingAccount, amount: u64) -> (r: Result<(), OrbitlenError>)
        ensures
            spec_wrapper_outcome_decrease(
                *self,
                *old(bank),
                old(lending_account)@,
                amount as int,
                r,
                *final(bank),
                final(lending_account)@,
            ),
    {
        self.apply_decrease(bank, lending_account, amount)
    }

    /// The liquidator's debt payoff during liquidation: debits `amount`
    /// from the resolved position, with the utilization guard. On error
    /// nothing changes.
    pub fn decrease_balance_in_liquidation(&self, bank: &mut Bank, lending_account: &mut LendingAccount, amount: u64) -> (r: Result<(), OrbitlenError>)
        ensures
            spec_wrapper_outcome_decrease(
                *self,
                *old(bank),
                old(lending_account)@,
                amount as int,
                r,
                *final(bank),
                final(lending_account)@,
            ),
    {
        self.apply_decrease(bank, lending_account, amount)
    }

    fn apply_increase(&self, bank: &mut Bank, lending_account: &mut LendingAccount, amount: u64) -> (r: Result<(), OrbitlenError>)
        ensures
            spec_wrapper_outcome_increase(
                *self,
                *old(bank),
                old(lending_account)@,
                amount as int,
                r,
                *final(bank),
                final(lending_account)@,
            ),
    {
        if self.index >= MAX_LENDING_ACCOUNT_BALANCES {
            return Err(OrbitlenError::BankAccountNotFound);
        }
        let mut balance = lending_account.balances[self.index];
        match increase_balance_internal(bank, &mut balance, amount) {
            Ok(_) => {
                lending_account.balances[self.index] = balance;
                Ok(())
            },
            Err(e) => Err(e),
        }
    }

    fn apply_decrease(&self, bank: &mut Bank, lending_account: &mut LendingAccount, amount: u64) -> (r: Result<(), OrbitlenError>)
        ensures
            spec_wrapper_outcome_decrease(
                *self,
                *old(bank),
                old(lending_account)@,
                amount as int,
                r,
                *final(bank),
                final(lending_account)@,
            ),
    {
        if self.index >= MAX_LENDING_ACCOUNT_BALANCES {
            return Err(OrbitlenError::BankAccountNotFound);
        }
        let mut balance = lending_account.balances[self.index];
        match decrease_balance_internal(bank, &mut balance, amount) {
            Ok(_) => {
                lending_account.balances[self.index] = balance;
                Ok(())
            },
            Err(e) => Err(e),
        }
    }
}

/// What a credit through a resolved slot does: applies `spec_increase`
/// to the slot and the bank, or fails leaving both untouched.
pub open spec fn spec_wrapper_outcome_increase(
    w: BankAccountWrapper,
    bank0: Bank,
    slots0: Seq<Balance>,
    amount: int,
    r: Result<(), OrbitlenError>,
    bank1: Bank,
    slots1: Seq<Balance>,
) -> bool {
    if w.index >= MAX_LENDING_ACCOUNT_BALANCES {
        r == Err::<(), OrbitlenError>(OrbitlenError::BankAccountNotFound) && bank1 == bank0
            && slots1 == slots0
    } else {
        match spec_increase(bank0, slots0[w.index as int], amount) {
            Ok(pair) => r == Ok::<(), OrbitlenError>(()) && bank1 == pair.0 && slots1
                == slots0.update(w.index as int, pair.1),
            Err(e) => r == Err::<(), OrbitlenError>(e) && bank1 == bank0 && slots1 == slots0,
        }
    }
}

/// What a debit through a resolved slot does: applies `spec_decrease`
/// to the slot and the bank, or fails leaving both untouched.
pub open spec fn spec_wrapper_outcome_decrease(
    w: BankAccountWrapper,
    bank0: Bank,
    slots0: Seq<Balance>,
    amount: int,
    r: Result<(), OrbitlenError>,
    bank1: Bank,
    slots1: Seq<Balance>,
) -> bool {
    if w.index >= MAX_LENDING_ACCOUNT_BALANCES {
        r == Err::<(), OrbitlenError>(OrbitlenError::BankAccountNotFound) && bank1 == bank0
            && slots1 == slots0
    } else {
        match spec_decrease(bank0, slots0[w.index as int], amount) {
            Ok(pair) => r == Ok::<(), OrbitlenError>(()) && bank1 == pair.0 && slots1
                == slots0.update(w.index as int, pair.1),
            Err(e) => r == Err::<(), OrbitlenError>(e) && bank1 == bank0 && slots1 == slots0,
        }
    }
}

} // verus!
