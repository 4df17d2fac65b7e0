//! Instruction cores for deposits and borrows.
//!
//! Each operation first accrues interest on the bank, then resolves (or
//! creates) the user's position for that bank and mutates the pair. The
//! whole operation commits atomically: on any error both the bank and
//! the ledger are left exactly as they were. Token transfers and account
//! plumbing happen outside, around these calls.
use vstd::prelude::*;

use crate::account::{Balance, LendingAccount};
use crate::bank::{spec_accrue, Bank};
use crate::error::OrbitlenError;
use crate::ops::{spec_decrease, spec_find_or_create, spec_increase, BankAccountWrapper};

verus! {

/// The (bank, ledger) pair after an accrue-then-deposit of `amount` at
/// time `now`, or the error that stops it.
pub open spec fn spec_deposit_process(
    bank: Bank,
    slots: Seq<Balance>,
    bank_pk: u64,
    amount: int,
    now: i64,
) -> Result<(Bank, Seq<Balance>), OrbitlenError> {
    match spec_accrue(bank, now as int) {
        Err(e) => Err(e),
        Ok(b1) => match spec_find_or_create(slots, bank_pk, now as u64) {
            Err(e) => Err(e),
            Ok(pair) => match spec_increase(b1, pair.0[pair.1], amount) {
                Err(e) => Err(e),
                Ok(changed) => Ok((changed.0, pair.0.update(pair.1, changed.1))),
            },
        },
    }
}

/// The (bank, ledger) pair after an accrue-then-borrow of `amount` at
/// time `now`, or the error that stops it.
pub open spec fn spec_borrow_process(
    bank: Bank,
    slots: Seq<Balance>,
    bank_pk: u64,
    amount: int,
    now: i64,
) -> Result<(Bank, Seq<Balance>), OrbitlenError> {
    match spec_accrue(bank, now as int) {
        Err(e) => Err(e),
        Ok(b1) => match spec_find_or_create(slots, bank_pk, now as u64) {
            Err(e) => Err(e),
            Ok(pair) => match spec_decrease(b1, pair.0[pair.1], amount) {
                Err(e) => Err(e),
                Ok(changed) => Ok((changed.0, pair.0.update(pair.1, changed.1))),
            },
        },
    }
}

/// Accrues interest on `bank` up to `now`, then credits `amount` to the
/// user's position for `bank_pk`, creating it if need be. On error
/// nothing changes.
pub fn lending_account_deposit_process(
    bank: &mut Bank,
    bank_pk: u64,
    lending_account: &mut LendingAccount,
    amount: u64,
    now: i64,
) -> (r: Result<(), OrbitlenError>)
    ensures
        ({
            match spec_deposit_process(
                *old(bank),
                old(lending_account)@,
                bank_pk,
                amount as int,
                now,
            ) {
                Ok(pair) => r == Ok::<(), OrbitlenError>(()) && *final(bank) == pair.0
                    && final(lending_account)@ == pair.1,
                Err(e) => r == Err::<(), OrbitlenError>(e) && *final(bank) == *old(bank)
                    && *final(lending_account) == *old(lending_account),
            }
        }),
{
    let mut b = *bank;
    let mut la = *lending_account;
    match b.accrue_interest(now) {
        Ok(_) => {},
        Err(e) => {
            return Err(e);
        },
    }
    let stamp: u64 = #[verifier::truncate] (now as u64);
    let wrapper = match BankAccountWrapper::find_or_create(bank_pk, &mut la, stamp) {
        Ok(w) => w,
        Err(e) => {
            return Err(e);
        },
    };
    match wrapper.deposit(&mut b, &mut la, amount) {
        Ok(_) => {
            *bank = b;
            *lending_account = la;
            Ok(())
        },
        Err(e) => Err(e),
    }
}

/// Accrues interest on `bank` up to `now`, then debits `amount` from
/// the user's position for `bank_pk` (creating an empty one if need
/// be), with the utilization guard. On error nothing changes.
pub fn lending_account_borrow_process(
    bank: &mut Bank,
    bank_pk: u64,
    lending_account: &mut LendingAccount,
    amount: u64,
    now: i64,
) -> (r: Result<(), OrbitlenError>)
    ensures
        ({
            match spec_borrow_process(
                *old(bank),
                old(lending_account)@,
                bank_pk,
                amount as int,
                now,
            ) {
                Ok(pair) => r == Ok::<(), OrbitlenError>(()) && *final(bank) == pair.0
                    && final(lending_account)@ == pair.1,
                Err(e) => r == Err::<(), OrbitlenError>(e) && *final(bank) == *old(bank)
                    && *final(lending_account) == *old(lending_account),
            }
        }),
{
    let mut b = *bank;
    let mut la = *lending_account;
    match b.accrue_interest(now) {
        Ok(_) => {},
        Err(e) => {
            return Err(e);
        },
    }
    let stamp: u64 = #[verifier::truncate] (now as u64);
    let wrapper = match BankAccountWrapper::find_or_create(bank_pk, &mut la, stamp) {
        Ok(w) => w,
        Err(e) => {
            return Err(e);
        },
    };
    match wrapper.borrow(&mut b, &mut la, amount) {
        Ok(_) => {
            *bank = b;
            *lending_account = la;
            Ok(())
        },
        Err(e) => Err(e),
    }
}

/// How a swap settlement touched the user's position.
#[derive(Clone, Copy, Debug, PartialEq, Eq, Structural)]
pub enum SwapAction {
    /// The swap produced coins; the surplus was deposited.
    Deposited(u64),
    /// The swap consumed coins; the shortfall was withdrawn.
    Withdrawn(u64),
}

/// The outcome of settling a swap observed as a balance change from
/// `before` to `after`: a growth is deposited, a shrinkage withdrawn.
pub open spec fn spec_settle_swap(
    bank: Bank,
    slots: Seq<Balance>,
    bank_pk: u64,
    before: u64,
    after: u64,
    now: i64,
) -> Result<(Bank, Seq<Balance>, SwapAction), OrbitlenError> {
    if after > before {
        match spec_deposit_process(bank, slots, bank_pk, after - before, now) {
            Ok(pair) => Ok((pair.0, pair.1, SwapAction::Deposited((after - before) as u64))),
            Err(e) => Err(e),
        }
    } else {
        match spec_borrow_process(bank, slots, bank_pk, before - after, now) {
            Ok(pair) => Ok((pair.0, pair.1, SwapAction::Withdrawn((before - after) as u64))),
            Err(e) => Err(e),
        }
    }
}

/// Settles a swap against the user's position on the coin bank: the
/// host reports the user's coin balance before and after the venue
/// call, and the difference is deposited into or withdrawn from the
/// pool, with accrual first. On error nothing changes.
pub fn settle_swap_balance(
    bank: &mut Bank,
    bank_pk: u64,
    lending_account: &mut LendingAccount,
    coin_amount_before: u64,
    coin_amount_after: u64,
    now: i64,
) -> (r: Result<SwapAction, OrbitlenError>)
    ensures
        ({
            match spec_settle_swap(
                *old(bank),
                old(lending_account)@,
                bank_pk,
                coin_amount_before,
                coin_amount_after,
                now,
            ) {
                Ok(out) => r == Ok::<SwapAction, OrbitlenError>(out.2) && *final(bank) == out.0
                    && final(lending_account)@ == out.1,
                Err(e) => r == Err::<SwapAction, OrbitlenError>(e) && *final(bank) == *old(bank)
                    && *final(lending_account) == *old(lending_account),
            }
        }),
{
    if coin_amount_after > coin_amount_before {
        let delta = coin_amount_after - coin_amount_before;
        match lending_account_deposit_process(bank, bank_pk, lending_account, delta, now) {
            Ok(_) => Ok(SwapAction::Deposited(delta)),
            Err(e) => Err(e),
        }
    } else {
        let delta = coin_amount_before - coin_amount_after;
        match lending_account_borrow_process(bank, bank_pk, lending_account, delta, now) {
            Ok(_) => Ok(SwapAction::Withdrawn(delta)),
            Err(e) => Err(e),
        }
    }
}

} // verus!
