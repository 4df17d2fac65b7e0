//! User ledgers and positions.
//!
//! A `Balance` is one user's holding in one bank; a `LendingAccount` is a
//! fixed array of position slots with an explicit occupancy flag per
//! slot; an `OrbitlenAccount` pairs a ledger with its owner's identity.
use vstd::prelude::*;

use crate::constants::MAX_LENDING_ACCOUNT_BALANCES;
use crate::error::OrbitlenError;

verus! {

/// One user's asset and liability share holdings in one bank. A slot
/// with `active` false is free; its other fields carry no meaning.
#[derive(Clone, Copy, Debug, PartialEq, Eq, Structural)]
pub struct Balance {
    /// Whether this slot is occupied.
    pub active: bool,
    /// Identity of the bank this position belongs to.
    pub bank_pk: u64,
    pub asset_shares: u64,
    pub liability_shares: u64,
    /// Timestamp at which the slot was created.
    pub last_update: u64,
}

/// Whether `b` is the occupied slot of bank `bank_pk`.
pub open spec fn slot_matches(b: Balance, bank_pk: u64) -> bool {
    b.active && b.bank_pk == bank_pk
}

/// Whether `b` is a free slot.
pub open spec fn slot_empty(b: Balance) -> bool {
    !b.active
}

/// The predicate "occupied slot of bank `bank_pk`", as a value.
pub open spec fn match_pred(bank_pk: u64) -> spec_fn(Balance) -> bool {
    |b: Balance| slot_matches(b, bank_pk)
}

/// The predicate "free slot", as a value.
pub open spec fn empty_pred() -> spec_fn(Balance) -> bool {
    |b: Balance| slot_empty(b)
}

/// The position a fresh interaction with bank `bank_pk` starts from.
pub open spec fn fresh_balance(bank_pk: u64, now: u64) -> Balance {
    Balance { active: true, bank_pk, asset_shares: 0, liability_shares: 0, last_update: now }
}

/// Index of the first element of `s` satisfying `f`, if any.
pub open spec fn first_index_where(s: Seq<Balance>, f: spec_fn(Balance) -> bool) -> Option<int>
    decreases s.len(),
{
    if s.len() == 0 {
        None
    } else if f(s[0]) {
        Some(0)
    } else {
        match first_index_where(s.drop_first(), f) {
            Some(i) => Some(i + 1),
            None => None,
        }
    }
}

/// A witness index that satisfies `f`, with nothing satisfying `f`
/// before it, is the first index.
pub proof fn lemma_first_index_where_at(s: Seq<Balance>, f: spec_fn(Balance) -> bool, i: int)
    requires
        0 <= i < s.len(),
        f(s[i]),
        forall|j: int| 0 <= j < i ==> !f(#[trigger] s[j]),
    ensures
        first_index_where(s, f) == Some(i),
    decreases s.len(),
{
    if i == 0 {
    } else {
        assert(!f(s[0]));
        assert(s.drop_first()[i - 1] == s[i]);
        assert(forall|j: int| 0 <= j < i - 1 ==> !f(#[trigger] s.drop_first()[j]));
        lemma_first_index_where_at(s.drop_first(), f, i - 1);
    }
}

/// When nothing in `s` satisfies `f`, there is no first index.
pub proof fn lemma_first_index_where_none(s: Seq<Balance>, f: spec_fn(Balance) -> bool)
    requires
        forall|j: int| 0 <= j < s.len() ==> !f(#[trigger] s[j]),
    ensures
        first_index_where(s, f) == None::<int>,
    decreases s.len(),
{
    if s.len() == 0 {
    } else {
        assert(!f(s[0]));
        assert(forall|j: int| 0 <= j < s.drop_first().len() ==> !f(
            #[trigger] s.drop_first()[j],
        ));
        lemma_first_index_where_none(s.drop_first(), f);
    }
}

/// Whatever `first_index_where` returns satisfies `f` and is the least
/// such index.
pub proof fn lemma_first_index_where_sound(s: Seq<Balance>, f: spec_fn(Balance) -> bool)
    ensures
        match first_index_where(s, f) {
            Some(i) => 0 <= i < s.len() && f(s[i]) && forall|j: int|
                0 <= j < i ==> !f(#[trigger] s[j]),
            None => forall|j: int| 0 <= j < s.len() ==> !f(#[trigger] s[j]),
        },
    decreases s.len(),
{
    if s.len() == 0 {
    } else if f(s[0]) {
    } else {
        lemma_first_index_where_sound(s.drop_first(), f);
        match first_index_where(s.drop_first(), f) {
            Some(i) => {
                assert(s[i + 1] == s.drop_first()[i]);
                assert forall|j: int| 0 <= j < i + 1 implies !f(#[trigger] s[j]) by {
                    if j > 0 {
                        assert(s[j] == s.drop_first()[j - 1]);
                    }
                }
            },
            None => {
                assert forall|j: int| 0 <= j < s.len() implies !f(#[trigger] s[j]) by {
                    if j > 0 {
                        assert(s[j] == s.drop_first()[j - 1]);
                    }
                }
            },
        }
    }
}

/// Index of the occupied slot of bank `bank_pk` in `s`, if any.
pub open spec fn spec_find_balance(s: Seq<Balance>, bank_pk: u64) -> Option<int> {
    first_index_where(s, match_pred(bank_pk))
}

/// Index of the first free slot in `s`, if any.
pub open spec fn spec_first_empty(s: Seq<Balance>) -> Option<int> {
    first_index_where(s, empty_pred())
}

/// Number of occupied slots in `s`.
pub open spec fn count_active(s: Seq<Balance>) -> int
    decreases s.len(),
{
    if s.len() == 0 {
        0
    } else {
        count_active(s.drop_first()) + if s[0].active {
            1int
        } else {
            0int
        }
    }
}

/// A user ledger: a fixed-capacity set of position slots, at most one
/// per bank.
#[derive(Clone, Copy, Debug, PartialEq, Eq)]
pub struct LendingAccount {
    pub balances: [Balance; MAX_LENDING_ACCOUNT_BALANCES],
}

impl View for LendingAccount {
    type V = Seq<Balance>;

    open spec fn view(&self) -> Seq<Balance> {
        self.balances@
    }
}

/// At most one occupied slot per bank identity.
pub open spec fn account_wf(s: Seq<Balance>) -> bool {
    forall|i: int, j: int|
        0 <= i < s.len() && 0 <= j < s.len() && i != j && s[i].active && s[j].active ==> (
        #[trigger] s[i].bank_pk) != (#[trigger] s[j].bank_pk)
}

impl LendingAccount {
    /// A ledger with every slot free.
    pub fn new() -> (r: LendingAccount)
        ensures
            r@.len() == MAX_LENDING_ACCOUNT_BALANCES,
            forall|i: int| 0 <= i < r@.len() ==> slot_empty(#[trigger] r@[i]),
            account_wf(r@),
    {
        let empty = Balance {
            active: false,
            bank_pk: 0,
            asset_shares: 0,
            liability_shares: 0,
            last_update: 0,
        };
        LendingAccount { balances: [empty, empty, empty] }
    }

    /// The first free slot, scanning in order.
    pub fn get_first_empty_balance(&self) -> (r: Option<usize>)
        ensures
            match r {
                Some(i) => spec_first_empty(self@) == Some(i as int) && i
                    < MAX_LENDING_ACCOUNT_BALANCES,
                None => spec_first_empty(self@) == None::<int>,
            },
    {
        let mut i: usize = 0;
        while i < MAX_LENDING_ACCOUNT_BALANCES
            invariant
                0 <= i <= MAX_LENDING_ACCOUNT_BALANCES,
                self@.len() == MAX_LENDING_ACCOUNT_BALANCES,
                forall|j: int| 0 <= j < i ==> !empty_pred()(#[trigger] self@[j]),
            decreases MAX_LENDING_ACCOUNT_BALANCES - i,
        {
            if !self.balances[i].active {
                proof {
                    lemma_first_index_where_at(self@, empty_pred(), i as int);
                }
                return Some(i);
            }
            i = i + 1;
        }
        proof {
            lemma_first_index_where_none(self@, empty_pred());
        }
        None
    }

    /// The slot holding the position of bank `bank_pk`, scanning in
    /// order.
    pub fn find_balance(&self, bank_pk: u64) -> (r: Option<usize>)
        ensures
            match r {
                Some(i) => spec_find_balance(self@, bank_pk) == Some(i as int) && i
                    < MAX_LENDING_ACCOUNT_BALANCES,
                None => spec_find_balance(self@, bank_pk) == None::<int>,
            },
    {
        let mut i: usize = 0;
        while i < MAX_LENDING_ACCOUNT_BALANCES
            invariant
                0 <= i <= MAX_LENDING_ACCOUNT_BALANCES,
                self@.len() == MAX_LENDING_ACCOUNT_BALANCES,
                forall|j: int| 0 <= j < i ==> !match_pred(bank_pk)(#[trigger] self@[j]),
            decreases MAX_LENDING_ACCOUNT_BALANCES - i,
        {
            let b = &self.balances[i];
            if b.active && b.bank_pk == bank_pk {
                proof {
                    lemma_first_index_where_at(self@, match_pred(bank_pk), i as int);
                }
                return Some(i);
            }
            i = i + 1;
        }
        proof {
            lemma_first_index_where_none(self@, match_pred(bank_pk));
        }
        None
    }
}

impl Balance {
    /// Adds `delta` (which may be negative) to the position's asset
    /// shares; `MathError` when the result would leave `u64` range, in
    /// which case nothing changes.
    pub fn change_asset_shares(&mut self, delta: i64) -> (r: Result<(), OrbitlenError>)
        ensures
            ({
                let t = old(self).asset_shares + delta;
                if 0 <= t <= u64::MAX {
                    r == Ok::<(), OrbitlenError>(()) && *final(self) == (Balance {
                        asset_shares: t as u64,
                        ..*old(self)
                    })
                } else {
                    r == Err::<(), OrbitlenError>(OrbitlenError::MathError) && *final(self)
                        == *old(self)
                }
            }),
    {
        if delta >= 0 {
            match self.asset_shares.checked_add(delta as u64) {
                Some(t) => {
                    self.asset_shares = t;
                    Ok(())
                },
                None => Err(OrbitlenError::MathError),
            }
        } else {
            let magnitude: u64 = (-(delta as i128)) as u64;
            match self.asset_shares.checked_sub(magnitude) {
                Some(t) => {
                    self.asset_shares = t;
                    Ok(())
                },
                None => Err(OrbitlenError::MathError),
            }
        }
    }

    /// Adds `delta` (which may be negative) to the position's liability
    /// shares; `MathError` when the result would leave `u64` range, in
    /// which case nothing changes.
    pub fn change_liability_shares(&mut self, delta: i64) -> (r: Result<(), OrbitlenError>)
        ensures
            ({
                let t = old(self).liability_shares + delta;
                if 0 <= t <= u64::MAX {
                    r == Ok::<(), OrbitlenError>(()) && *final(self) == (Balance {
                        liability_shares: t as u64,
                        ..*old(self)
                    })
                } else {
                    r == Err::<(), OrbitlenError>(OrbitlenError::MathError) && *final(self)
                        == *old(self)
                }
            }),
    {
        if delta >= 0 {
            match self.liability_shares.checked_add(delta as u64) {
                Some(t) => {
                    self.liability_shares = t;
                    Ok(())
                },
                None => Err(OrbitlenError::MathError),
            }
        } else {
            let magnitude: u64 = (-(delta as i128)) as u64;
            match self.liability_shares.checked_sub(magnitude) {
                Some(t) => {
                    self.liability_shares = t;
                    Ok(())
                },
                None => Err(OrbitlenError::MathError),
            }
        }
    }
}

/// One user's account: the owner's identity and the position ledger.
#[derive(Clone, Copy, Debug, PartialEq, Eq)]
pub struct OrbitlenAccount {
    pub authority: u64,
    pub lending_account: LendingAccount,
}

impl OrbitlenAccount {
    /// An account owned by `authority` with an empty ledger.
    pub fn new(authority: u64) -> (r: OrbitlenAccount)
        ensures
            r.authority == authority,
            r.lending_account@.len() == MAX_LENDING_ACCOUNT_BALANCES,
            forall|i: int| 0 <= i < r.lending_account@.len() ==> slot_empty(
                #[trigger] r.lending_account@[i],
            ),
    {
        OrbitlenAccount { authority, lending_account: LendingAccount::new() }
    }

    /// Records `authority` as the account's owner.
    pub fn initialize(&mut self, authority: u64)
        ensures
            *final(self) == (OrbitlenAccount { authority, ..*old(self) }),
    {
        self.authority = authority;
    }

    /// Twice the number of occupied position slots: each position needs
    /// a bank account and an oracle account from the host.
    pub fn get_remaining_accounts_len(&self) -> (r: usize)
        ensures
            r == 2 * count_active(self.lending_account@),
    {
        let mut count: usize = 0;
        let mut i: usize = 0;
        proof {
            lemma_count_active_prefix_bound(self.lending_account@);
        }
        while i < MAX_LENDING_ACCOUNT_BALANCES
            invariant
                0 <= i <= MAX_LENDING_ACCOUNT_BALANCES,
                self.lending_account@.len() == MAX_LENDING_ACCOUNT_BALANCES,
                count == count_active(self.lending_account@.take(i as int)),
                count <= i,
            decreases MAX_LENDING_ACCOUNT_BALANCES - i,
        {
            proof {
                lemma_count_active_push(self.lending_account@, i as int);
            }
            if self.lending_account.balances[i].active {
                count = count + 1;
            }
            i = i + 1;
        }
        proof {
            assert(self.lending_account@.take(MAX_LENDING_ACCOUNT_BALANCES as int)
                =~= self.lending_account@);
        }
        count * 2
    }
}

/// Counting a one-longer prefix adds the newly included slot.
proof fn lemma_count_active_push(s: Seq<Balance>, i: int)
    requires
        0 <= i < s.len(),
    ensures
        count_active(s.take(i + 1)) == count_active(s.take(i)) + if s[i].active {
            1int
        } else {
            0int
        },
    decreases i,
{
    if i == 0 {
        assert(s.take(1).drop_first() =~= s.take(0));
    } else {
        assert(s.take(i + 1).drop_first() =~= s.drop_first().take(i));
        assert(s.take(i).drop_first() =~= s.drop_first().take(i - 1));
        lemma_count_active_push(s.drop_first(), i - 1);
        assert(s.drop_first().take(i)[0] == s[1]);
    }
}

/// A prefix never holds more occupied slots than its length.
proof fn lemma_count_active_prefix_bound(s: Seq<Balance>)
    ensures
        forall|i: int| 0 <= i <= s.len() ==> 0 <= #[trigger] count_active(s.take(i)) <= i,
{
    assert forall|i: int| 0 <= i <= s.len() implies 0 <= #[trigger] count_active(s.take(i))
        <= i by {
        lemma_count_active_bound(s.take(i));
    }
}

/// Occupied slots never outnumber slots.
proof fn lemma_count_active_bound(s: Seq<Balance>)
    ensures
        0 <= count_active(s) <= s.len(),
    decreases s.len(),
{
    if s.len() == 0 {
    } else {
        lemma_count_active_bound(s.drop_first());
    }
}

} // verus!
