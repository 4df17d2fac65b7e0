use orbit_len::account::{Balance, LendingAccount, OrbitlenAccount};
use orbit_len::error::OrbitlenError;
use orbit_len::ops::BankAccountWrapper;

fn occupied(bank_pk: u64) -> Balance {
    Balance {
        active: true,
        bank_pk,
        asset_shares: 0,
        liability_shares: 0,
        last_update: 0,
    }
}

#[test]
fn new_ledger_is_empty() {
    let la = LendingAccount::new();
    assert_eq!(la.balances.len(), 3);
    for b in la.balances.iter() {
        assert!(!b.active);
    }
    assert_eq!(la.get_first_empty_balance(), Some(0));
    assert_eq!(la.find_balance(42), None);
}

#[test]
fn first_empty_scans_in_order() {
    let mut la = LendingAccount::new();
    la.balances[0] = occupied(1);
    assert_eq!(la.get_first_empty_balance(), Some(1));
    la.balances[1] = occupied(2);
    la.balances[2] = occupied(3);
    assert_eq!(la.get_first_empty_balance(), None);
}

#[test]
fn find_balance_matches_only_active_slots() {
    let mut la = LendingAccount::new();
    la.balances[1] = occupied(42);
    la.balances[2] = Balance {
        active: false,
        bank_pk: 43,
        asset_shares: 0,
        liability_shares: 0,
        last_update: 0,
    };
    assert_eq!(la.find_balance(42), Some(1));
    assert_eq!(la.find_balance(43), None);
}

#[test]
fn balance_change_asset_shares_signed() {
    let mut b = occupied(1);
    assert_eq!(b.change_asset_shares(500), Ok(()));
    assert_eq!(b.asset_shares, 500);
    assert_eq!(b.change_asset_shares(-200), Ok(()));
    assert_eq!(b.asset_shares, 300);
    assert_eq!(b.change_asset_shares(-301), Err(OrbitlenError::MathError));
    assert_eq!(b.asset_shares, 300);
}

#[test]
fn balance_change_liability_shares_signed() {
    let mut b = occupied(1);
    b.liability_shares = u64::MAX;
    assert_eq!(b.change_liability_shares(1), Err(OrbitlenError::MathError));
    assert_eq!(b.change_liability_shares(-1), Ok(()));
    assert_eq!(b.liability_shares, u64::MAX - 1);
}

#[test]
fn initialize_sets_authority() {
    let mut acct = OrbitlenAccount::new(0);
    acct.initialize(99);
    assert_eq!(acct.authority, 99);
}

#[test]
fn remaining_accounts_len_counts_positions() {
    let mut acct = OrbitlenAccount::new(1);
    assert_eq!(acct.get_remaining_accounts_len(), 0);
    acct.lending_account.balances[0] = occupied(10);
    assert_eq!(acct.get_remaining_accounts_len(), 2);
    acct.lending_account.balances[2] = occupied(11);
    assert_eq!(acct.get_remaining_accounts_len(), 4);
}

#[test]
fn find_or_create_reuses_existing_slot() {
    let mut la = LendingAccount::new();
    let w1 = BankAccountWrapper::find_or_create(7, &mut la, 123).unwrap();
    assert_eq!(w1.index, 0);
    assert!(la.balances[0].active);
    assert_eq!(la.balances[0].bank_pk, 7);
    assert_eq!(la.balances[0].asset_shares, 0);
    assert_eq!(la.balances[0].liability_shares, 0);
    assert_eq!(la.balances[0].last_update, 123);
    let w2 = BankAccountWrapper::find_or_create(7, &mut la, 456).unwrap();
    assert_eq!(w2.index, 0);
    // The existing position is kept, not re-stamped.
    assert_eq!(la.balances[0].last_update, 123);
}

#[test]
fn find_or_create_fails_when_full() {
    let mut la = LendingAccount::new();
    BankAccountWrapper::find_or_create(1, &mut la, 0).unwrap();
    BankAccountWrapper::find_or_create(2, &mut la, 0).unwrap();
    BankAccountWrapper::find_or_create(3, &mut la, 0).unwrap();
    let before = la;
    assert!(matches!(
        BankAccountWrapper::find_or_create(4, &mut la, 0),
        Err(OrbitlenError::LendingAccountBalanceSlotsFull)
    ));
    assert_eq!(la, before);
    // An already-known bank still resolves.
    assert_eq!(BankAccountWrapper::find_or_create(2, &mut la, 0).unwrap().index, 1);
}

#[test]
fn find_requires_existing_position() {
    let la = LendingAccount::new();
    assert!(matches!(
        BankAccountWrapper::find(1, &la),
        Err(OrbitlenError::BankAccountNotFound)
    ));
}

#[test]
fn error_messages_are_nonempty() {
    let errors = [
        OrbitlenError::GetClockFailed,
        OrbitlenError::MathError,
        OrbitlenError::InvalidTransfer,
        OrbitlenError::MintRequired,
        OrbitlenError::LendingAccountBalanceSlotsFull,
        OrbitlenError::BankAccountNotFound,
        OrbitlenError::IllegalUtilizationRatio,
        OrbitlenError::IllegalLiquidation,
        OrbitlenError::FetchPriceFailed,
        OrbitlenError::InvalidPriceFeedPk,
        OrbitlenError::InterestRateConfigMathError,
        OrbitlenError::UnsupportedTokenProgram,
    ];
    for e in errors.iter() {
        assert!(!e.message().is_empty());
    }
}
