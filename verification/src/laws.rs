//! Laws of the share ledger, stated and proved over the specification
//! functions that the executable contracts use.
use vstd::prelude::*;

use crate::account::{account_wf, slot_matches, spec_find_balance, spec_first_empty, Balance};
use crate::bank::{spec_accrue, spec_check_utilization, Bank};
use crate::constants::FP_SCALE;
use crate::error::OrbitlenError;
use crate::math::{amount_from_shares, shares_from_amount};
use crate::ops::{spec_decrease, spec_increase};

verus! {

/// The bank's ledger equity: the value of all asset shares minus the
/// value of all liability shares, in fixed-point amount units.
pub open spec fn spec_equity(b: Bank) -> int {
    b.total_asset_shares * b.asset_share_value - b.total_liability_shares
        * b.liability_share_value
}

/// Conservation under credits: a deposit or repayment never decreases
/// the bank's equity — it retires liability shares or mints asset
/// shares, both at the current rates.
pub proof fn lemma_increase_preserves_equity(bank: Bank, balance: Balance, delta: int)
    requires
        delta >= 0,
        spec_increase(bank, balance, delta) is Ok,
    ensures
        spec_increase(bank, balance, delta) matches Ok(pair) ==> spec_equity(pair.0)
            >= spec_equity(bank),
{
    if let Ok((b2, _p2)) = spec_increase(bank, balance, delta) {
        let av = bank.asset_share_value as int;
        let lv = bank.liability_share_value as int;
        let tas = bank.total_asset_shares as int;
        let tls = bank.total_liability_shares as int;
        let cur_liab_amt = amount_from_shares(balance.liability_shares as int, lv);
        let payoff = if delta <= cur_liab_amt {
            delta
        } else {
            cur_liab_amt
        };
        let asset_inc = if delta <= cur_liab_amt {
            0int
        } else {
            delta - cur_liab_amt
        };
        let dsa = shares_from_amount(asset_inc, av);
        let dsl = shares_from_amount(payoff, lv);
        assert(cur_liab_amt >= 0) by {
            vstd::arithmetic::mul::lemma_mul_nonnegative(balance.liability_shares as int, lv);
            vstd::arithmetic::div_mod::lemma_div_pos_is_pos(
                (balance.liability_shares as int) * lv,
                FP_SCALE as int,
            );
        }
        assert(dsa >= 0) by {
            vstd::arithmetic::mul::lemma_mul_nonnegative(asset_inc, FP_SCALE as int);
            vstd::arithmetic::div_mod::lemma_div_pos_is_pos(asset_inc * (FP_SCALE as int), av);
        }
        assert(dsl >= 0) by {
            vstd::arithmetic::mul::lemma_mul_nonnegative(payoff, FP_SCALE as int);
            vstd::arithmetic::div_mod::lemma_div_pos_is_pos(payoff * (FP_SCALE as int), lv);
        }
        assert(b2.total_asset_shares == tas + dsa);
        assert(b2.total_liability_shares == tls - dsl);
        assert((tas + dsa) * av == tas * av + dsa * av) by {
            vstd::arithmetic::mul::lemma_mul_is_distributive_add_other_way(av, tas, dsa);
        }
        assert((tls - dsl) * lv == tls * lv - dsl * lv) by {
            vstd::arithmetic::mul::lemma_mul_is_distributive_sub_other_way(lv, tls, dsl);
        }
        assert(dsa * av >= 0) by {
            vstd::arithmetic::mul::lemma_mul_nonnegative(dsa, av);
        }
        assert(dsl * lv >= 0) by {
            vstd::arithmetic::mul::lemma_mul_nonnegative(dsl, lv);
        }
    }
}

/// Ledger lockstep: every successful credit moves the bank's totals by
/// exactly the share deltas it applies to the position, so the bank's
/// aggregate stays the sum of its positions.
pub proof fn lemma_increase_moves_in_lockstep(bank: Bank, balance: Balance, delta: int)
    requires
        delta >= 0,
    ensures
        spec_increase(bank, balance, delta) matches Ok(pair) ==> {
            &&& pair.0.total_asset_shares - bank.total_asset_shares == pair.1.asset_shares
                - balance.asset_shares
            &&& pair.0.total_liability_shares - bank.total_liability_shares
                == pair.1.liability_shares - balance.liability_shares
            &&& pair.0.asset_share_value == bank.asset_share_value
            &&& pair.0.liability_share_value == bank.liability_share_value
        },
{
    if spec_increase(bank, balance, delta) is Ok {
        let lv = bank.liability_share_value as int;
        let av = bank.asset_share_value as int;
        let cur_liab_amt = amount_from_shares(balance.liability_shares as int, lv);
        let payoff = if delta <= cur_liab_amt {
            delta
        } else {
            cur_liab_amt
        };
        let asset_inc = if delta <= cur_liab_amt {
            0int
        } else {
            delta - cur_liab_amt
        };
        vstd::arithmetic::mul::lemma_mul_nonnegative(balance.liability_shares as int, lv);
        vstd::arithmetic::div_mod::lemma_div_pos_is_pos(
            (balance.liability_shares as int) * lv,
            FP_SCALE as int,
        );
        vstd::arithmetic::mul::lemma_mul_nonnegative(asset_inc, FP_SCALE as int);
        vstd::arithmetic::div_mod::lemma_div_pos_is_pos(asset_inc * (FP_SCALE as int), av);
        vstd::arithmetic::mul::lemma_mul_nonnegative(payoff, FP_SCALE as int);
        vstd::arithmetic::div_mod::lemma_div_pos_is_pos(payoff * (FP_SCALE as int), lv);
        crate::math::lemma_round_trip_shares(
            balance.liability_shares as int,
            lv,
            payoff,
        );
    }
}

/// Ledger lockstep for debits, as for credits.
pub proof fn lemma_decrease_moves_in_lockstep(bank: Bank, balance: Balance, delta: int)
    requires
        delta >= 0,
    ensures
        spec_decrease(bank, balance, delta) matches Ok(pair) ==> {
            &&& pair.0.total_asset_shares - bank.total_asset_shares == pair.1.asset_shares
                - balance.asset_shares
            &&& pair.0.total_liability_shares - bank.total_liability_shares
                == pair.1.liability_shares - balance.liability_shares
            &&& pair.0.asset_share_value == bank.asset_share_value
            &&& pair.0.liability_share_value == bank.liability_share_value
        },
{
    if spec_decrease(bank, balance, delta) is Ok {
        let lv = bank.liability_share_value as int;
        let av = bank.asset_share_value as int;
        let cur_asset_amt = amount_from_shares(balance.asset_shares as int, av);
        let drawdown = if delta <= cur_asset_amt {
            delta
        } else {
            cur_asset_amt
        };
        let liab_inc = if delta <= cur_asset_amt {
            0int
        } else {
            delta - cur_asset_amt
        };
        vstd::arithmetic::mul::lemma_mul_nonnegative(balance.asset_shares as int, av);
        vstd::arithmetic::div_mod::lemma_div_pos_is_pos(
            (balance.asset_shares as int) * av,
            FP_SCALE as int,
        );
        vstd::arithmetic::mul::lemma_mul_nonnegative(liab_inc, FP_SCALE as int);
        vstd::arithmetic::div_mod::lemma_div_pos_is_pos(liab_inc * (FP_SCALE as int), lv);
        vstd::arithmetic::mul::lemma_mul_nonnegative(drawdown, FP_SCALE as int);
        vstd::arithmetic::div_mod::lemma_div_pos_is_pos(drawdown * (FP_SCALE as int), av);
        crate::math::lemma_round_trip_shares(
            balance.asset_shares as int,
            av,
            drawdown,
        );
    }
}

/// Utilization guard: a debit can only succeed when the bank it leaves
/// behind holds at least as much asset value as liability value; a
/// violating debit reports `IllegalUtilizationRatio` (and the
/// executable operation leaves both arguments unchanged on every
/// error).
pub proof fn lemma_decrease_guards_utilization(bank: Bank, balance: Balance, delta: int)
    ensures
        spec_decrease(bank, balance, delta) matches Ok(pair) ==> amount_from_shares(
            pair.0.total_liability_shares as int,
            pair.0.liability_share_value as int,
        ) <= amount_from_shares(
            pair.0.total_asset_shares as int,
            pair.0.asset_share_value as int,
        ),
        spec_decrease(bank, balance, delta) matches Ok(pair) ==> spec_check_utilization(pair.0)
            == Ok::<(), OrbitlenError>(()),
{
}

/// Pay-down-first, the pure-repayment side: a credit no larger than the
/// position's outstanding debt retires debt shares and mints no asset
/// shares. Stated for a position holding no collateral and a credit
/// worth at least one liability share; a smaller credit floors to zero
/// shares and changes nothing.
pub proof fn lemma_pay_down_first_repays(bank: Bank, balance: Balance, delta: int)
    requires
        spec_increase(bank, balance, delta) is Ok,
        balance.asset_shares == 0,
        0 <= delta <= amount_from_shares(
            balance.liability_shares as int,
            bank.liability_share_value as int,
        ),
        delta * FP_SCALE >= bank.liability_share_value,
    ensures
        spec_increase(bank, balance, delta) matches Ok(pair) ==> pair.1.asset_shares == 0
            && pair.1.liability_shares < balance.liability_shares,
{
    if let Ok(_pair) = spec_increase(bank, balance, delta) {
        let av = bank.asset_share_value as int;
        let lv = bank.liability_share_value as int;
        let dsa = shares_from_amount(0, av);
        assert(dsa == 0) by {
            assert(0int * (FP_SCALE as int) == 0);
        }
        let dsl = shares_from_amount(delta, lv);
        assert(dsl >= 1) by {
            vstd::arithmetic::div_mod::lemma_div_is_ordered(lv, delta * (FP_SCALE as int), lv);
            vstd::arithmetic::div_mod::lemma_div_by_multiple(1, lv);
        }
        crate::math::lemma_round_trip_shares(balance.liability_shares as int, lv, delta);
    }
}

/// Pay-down-first, the overshoot side: a credit larger than the
/// position's outstanding debt clears the debt entirely and the excess
/// becomes collateral. Stated for positions whose debt converts back to
/// shares exactly and an excess worth at least one asset share; with a
/// share value that does not divide the debt amount evenly, flooring
/// leaves a residual debt share instead.
pub proof fn lemma_pay_down_first_overshoots(bank: Bank, balance: Balance, delta: int)
    requires
        spec_increase(bank, balance, delta) is Ok,
        delta > amount_from_shares(
            balance.liability_shares as int,
            bank.liability_share_value as int,
        ),
        shares_from_amount(
            amount_from_shares(
                balance.liability_shares as int,
                bank.liability_share_value as int,
            ),
            bank.liability_share_value as int,
        ) == balance.liability_shares as int,
        (delta - amount_from_shares(
            balance.liability_shares as int,
            bank.liability_share_value as int,
        )) * FP_SCALE >= bank.asset_share_value,
    ensures
        spec_increase(bank, balance, delta) matches Ok(pair) ==> pair.1.liability_shares == 0
            && pair.1.asset_shares > balance.asset_shares && pair.1.asset_shares > 0,
{
    if let Ok(_pair) = spec_increase(bank, balance, delta) {
        let av = bank.asset_share_value as int;
        let lv = bank.liability_share_value as int;
        let cur_liab_amt = amount_from_shares(balance.liability_shares as int, lv);
        let asset_inc = delta - cur_liab_amt;
        let dsa = shares_from_amount(asset_inc, av);
        assert(dsa >= 1) by {
            vstd::arithmetic::div_mod::lemma_div_is_ordered(
                av,
                asset_inc * (FP_SCALE as int),
                av,
            );
            vstd::arithmetic::div_mod::lemma_div_by_multiple(1, av);
        }
    }
}

/// Idempotent accrual: a second accrual at the same timestamp returns
/// the state the first one produced, unchanged.
pub proof fn lemma_accrue_idempotent(b: Bank, now: i64)
    requires
        spec_accrue(b, now as int) is Ok,
    ensures
        spec_accrue(b, now as int) matches Ok(b1) ==> spec_accrue(b1, now as int) == Ok::<
            Bank,
            OrbitlenError,
        >(b1),
{
}

/// Zero-pool accrual: on a bank with no asset shares outstanding,
/// accrual only advances the timestamp; both share values keep their
/// prior value.
pub proof fn lemma_zero_pool_accrual(b: Bank, now: i64)
    requires
        b.total_asset_shares == 0,
        now > b.last_update,
        amount_from_shares(
            b.total_liability_shares as int,
            b.liability_share_value as int,
        ) <= u64::MAX,
    ensures
        spec_accrue(b, now as int) == Ok::<Bank, OrbitlenError>(Bank { last_update: now, ..b }),
{
    assert(0int * (b.asset_share_value as int) == 0);
    assert(amount_from_shares(0, b.asset_share_value as int) == 0);
}

/// The curve and the lending split never produce a negative rate.
pub proof fn lemma_rates_nonnegative(config: crate::rates::InterestRateConfig, ur: int)
    requires
        ur >= 0,
    ensures
        crate::rates::spec_interest_rates(config, ur) matches Some(rates) ==> rates.0 >= 0
            && rates.1 >= 0,
{
    if let Some(rates) = crate::rates::spec_interest_rates(config, ur) {
        let opt = crate::rates::rate_scaled(config.optimal_utilization_rate);
        let plat = crate::rates::rate_scaled(config.plateau_interest_rate);
        let maxr = crate::rates::rate_scaled(config.max_interest_rate);
        if ur <= opt {
            vstd::arithmetic::mul::lemma_mul_nonnegative(ur, plat);
            vstd::arithmetic::div_mod::lemma_div_pos_is_pos(ur * plat, opt);
        } else {
            vstd::arithmetic::mul::lemma_mul_nonnegative(ur - opt, maxr - plat);
            vstd::arithmetic::div_mod::lemma_div_pos_is_pos(
                (ur - opt) * (maxr - plat),
                FP_SCALE - opt,
            );
        }
        vstd::arithmetic::mul::lemma_mul_nonnegative(rates.1, ur);
        vstd::arithmetic::div_mod::lemma_div_pos_is_pos(rates.1 * ur, FP_SCALE as int);
    }
}

/// Simple interest at a nonnegative rate never shrinks a share value.
pub proof fn lemma_accrued_value_monotone(value: int, apr: int, dt: int)
    requires
        value >= 0,
        apr >= 0,
        dt >= 0,
    ensures
        crate::rates::spec_accrued_value(value, apr, dt) >= value,
{
    let y = crate::constants::SECONDS_PER_YEAR as int;
    let s = FP_SCALE as int;
    let ir = apr * dt / y;
    assert(ir >= 0) by {
        vstd::arithmetic::mul::lemma_mul_nonnegative(apr, dt);
        vstd::arithmetic::div_mod::lemma_div_pos_is_pos(apr * dt, y);
    }
    assert(value * (s + ir) >= value * s) by {
        vstd::arithmetic::mul::lemma_mul_inequality(s, s + ir, value);
        vstd::arithmetic::mul::lemma_mul_is_commutative(value, s + ir);
        vstd::arithmetic::mul::lemma_mul_is_commutative(value, s);
    }
    vstd::arithmetic::div_mod::lemma_div_is_ordered(value * s, value * (s + ir), s);
    vstd::arithmetic::div_mod::lemma_div_by_multiple(value, s);
    vstd::arithmetic::mul::lemma_mul_is_commutative(value, s);
}

/// Share values only ever grow: accrual advances the timestamp and
/// never decreases either exchange rate, so deposits and debts can only
/// gain value over time.
pub proof fn lemma_accrue_never_decreases_share_values(b: Bank, now: i64)
    ensures
        spec_accrue(b, now as int) matches Ok(b2) ==> {
            &&& b2.asset_share_value >= b.asset_share_value
            &&& b2.liability_share_value >= b.liability_share_value
            &&& b2.last_update >= b.last_update
            &&& b2.total_asset_shares == b.total_asset_shares
            &&& b2.total_liability_shares == b.total_liability_shares
        },
{
    if spec_accrue(b, now as int) is Ok && now as int > b.last_update {
        let ta = amount_from_shares(b.total_asset_shares as int, b.asset_share_value as int);
        let tl = amount_from_shares(
            b.total_liability_shares as int,
            b.liability_share_value as int,
        );
        if 0 <= ta <= u64::MAX && 0 <= tl <= u64::MAX && ta != 0 && tl != 0 {
            let ur = tl * (FP_SCALE as int) / ta;
            assert(ur >= 0) by {
                vstd::arithmetic::mul::lemma_mul_nonnegative(
                    b.total_liability_shares as int,
                    b.liability_share_value as int,
                );
                vstd::arithmetic::div_mod::lemma_div_pos_is_pos(
                    (b.total_liability_shares as int) * (b.liability_share_value as int),
                    FP_SCALE as int,
                );
                vstd::arithmetic::mul::lemma_mul_nonnegative(tl, FP_SCALE as int);
                vstd::arithmetic::div_mod::lemma_div_pos_is_pos(tl * (FP_SCALE as int), ta);
            }
            lemma_rates_nonnegative(b.config.interest_rate_config, ur);
            if let Some(rates) = crate::rates::spec_interest_rates(
                b.config.interest_rate_config,
                ur,
            ) {
                let dt = now as int - b.last_update;
                lemma_accrued_value_monotone(b.asset_share_value as int, rates.0, dt);
                lemma_accrued_value_monotone(b.liability_share_value as int, rates.1, dt);
            }
        }
    }
}

/// Updating a slot without touching its occupancy or bank identity
/// keeps the ledger's one-slot-per-bank invariant.
pub proof fn lemma_update_same_key_preserves_wf(s: Seq<Balance>, i: int, b: Balance)
    requires
        account_wf(s),
        0 <= i < s.len(),
        b.active == s[i].active,
        b.bank_pk == s[i].bank_pk,
    ensures
        account_wf(s.update(i, b)),
{
}

/// Resolving a position keeps the one-slot-per-bank invariant, and the
/// resolved slot is an occupied position of the requested bank.
pub proof fn lemma_find_or_create_preserves_wf(s: Seq<Balance>, bank_pk: u64, now: u64)
    requires
        account_wf(s),
    ensures
        crate::ops::spec_find_or_create(s, bank_pk, now) matches Ok(pair) ==> {
            &&& account_wf(pair.0)
            &&& 0 <= pair.1 < pair.0.len()
            &&& slot_matches(pair.0[pair.1], bank_pk)
        },
{
    crate::account::lemma_first_index_where_sound(s, crate::account::match_pred(bank_pk));
    match spec_find_balance(s, bank_pk) {
        Some(_) => {},
        None => {
            crate::account::lemma_first_index_where_sound(s, crate::account::empty_pred());
            if let Some(j) = spec_first_empty(s) {
                let s2 = s.update(j, crate::account::fresh_balance(bank_pk, now));
                assert forall|a: int, c: int|
                    0 <= a < s2.len() && 0 <= c < s2.len() && a != c && s2[a].active
                        && s2[c].active implies (#[trigger] s2[a].bank_pk) != (
                #[trigger] s2[c].bank_pk) by {
                    if a != j && c != j {
                        assert(s2[a] == s[a] && s2[c] == s[c]);
                    } else if a == j {
                        assert(s2[c] == s[c]);
                        assert(!crate::account::match_pred(bank_pk)(s[c]));
                    } else {
                        assert(s2[a] == s[a]);
                        assert(!crate::account::match_pred(bank_pk)(s[a]));
                    }
                }
            }
        },
    }
}

/// Whether every division in one accrual computation is exact, so no
/// value is lost to flooring: the share/amount correspondences, the
/// utilization ratio, the lending split, both per-period rates, and
/// both advanced share values.
pub open spec fn accrual_is_exact(
    dt: int,
    tas: int,
    av: int,
    tls: int,
    lv: int,
    config: crate::rates::InterestRateConfig,
) -> bool {
    let s = FP_SCALE as int;
    let y = crate::constants::SECONDS_PER_YEAR as int;
    let ta = tas * av / s;
    let tl = tls * lv / s;
    &&& (tas * av) % s == 0
    &&& (tls * lv) % s == 0
    &&& ta > 0
    &&& (tl * s) % ta == 0
    &&& match crate::rates::spec_rate_curve(config, tl * s / ta) {
        None => true,
        Some(br) => {
            let ur = tl * s / ta;
            let lr = br * ur / s;
            &&& (br * ur) % s == 0
            &&& (lr * dt) % y == 0
            &&& (br * dt) % y == 0
            &&& (av * (s + lr * dt / y)) % s == 0
            &&& (lv * (s + br * dt / y)) % s == 0
        },
    }
}

/// Conservation under accrual: when no division floors, accrual
/// preserves the bank's equity exactly — the value minted to
/// depositors equals the value charged to borrowers, because the
/// lending rate is the borrowing rate scaled by utilization. (Flooring
/// can disturb this by a few units in either direction.)
pub proof fn lemma_exact_accrual_preserves_equity(
    dt: int,
    tas: int,
    av: int,
    tls: int,
    lv: int,
    config: crate::rates::InterestRateConfig,
)
    requires
        dt >= 0,
        tas >= 0,
        av >= 0,
        tls >= 0,
        lv >= 0,
        accrual_is_exact(dt, tas, av, tls, lv, config),
    ensures
        ({
            let s = FP_SCALE as int;
            match crate::bank::spec_accrual_state_changes(
                dt,
                tas * av / s,
                tls * lv / s,
                config,
                av,
                lv,
            ) {
                Some(vals) => tas * vals.0 - tls * vals.1 == tas * av - tls * lv,
                None => true,
            }
        }),
{
    let s = FP_SCALE as int;
    let y = crate::constants::SECONDS_PER_YEAR as int;
    let ta = tas * av / s;
    let tl = tls * lv / s;
    if let Some(vals) = crate::bank::spec_accrual_state_changes(dt, ta, tl, config, av, lv) {
        let ur = tl * s / ta;
        let rates = crate::rates::spec_interest_rates(config, ur).unwrap();
        let br = rates.1;
        let lr = rates.0;
        let irl = lr * dt / y;
        let irb = br * dt / y;
        vstd::arithmetic::div_mod::lemma_fundamental_div_mod(tas * av, s);
        vstd::arithmetic::div_mod::lemma_fundamental_div_mod(tls * lv, s);
        vstd::arithmetic::div_mod::lemma_fundamental_div_mod(tl * s, ta);
        vstd::arithmetic::div_mod::lemma_fundamental_div_mod(br * ur, s);
        vstd::arithmetic::div_mod::lemma_fundamental_div_mod(lr * dt, y);
        vstd::arithmetic::div_mod::lemma_fundamental_div_mod(br * dt, y);
        vstd::arithmetic::div_mod::lemma_fundamental_div_mod(av * (s + irl), s);
        vstd::arithmetic::div_mod::lemma_fundamental_div_mod(lv * (s + irb), s);
        assert(tas * av == s * ta);
        assert(tls * lv == s * tl);
        assert(tl * s == ta * ur);
        assert(br * ur == s * lr);
        assert(lr * dt == y * irl);
        assert(br * dt == y * irb);
        assert(vals.0 == av * (s + irl) / s);
        assert(vals.1 == lv * (s + irb) / s);
        assert(av * (s + irl) == s * vals.0);
        assert(lv * (s + irb) == s * vals.1);
        assert(lr * ta == br * tl) by (nonlinear_arith)
            requires
                br * ur == s * lr,
                tl * s == ta * ur,
                s > 0,
        ;
        assert(tas * vals.0 == tas * av + ta * irl) by (nonlinear_arith)
            requires
                av * (s + irl) == s * vals.0,
                tas * av == s * ta,
                s > 0,
        ;
        assert(tls * vals.1 == tls * lv + tl * irb) by (nonlinear_arith)
            requires
                lv * (s + irb) == s * vals.1,
                tls * lv == s * tl,
                s > 0,
        ;
        assert(ta * irl == tl * irb) by (nonlinear_arith)
            requires
                lr * dt == y * irl,
                br * dt == y * irb,
                lr * ta == br * tl,
                y > 0,
        ;
    }
}

/// A whole deposit keeps the ledger's one-slot-per-bank invariant.
pub proof fn lemma_deposit_process_preserves_wf(
    bank: Bank,
    slots: Seq<Balance>,
    bank_pk: u64,
    amount: int,
    now: i64,
)
    requires
        account_wf(slots),
    ensures
        crate::instructions::spec_deposit_process(bank, slots, bank_pk, amount, now) matches Ok(
            pair,
        ) ==> account_wf(pair.1),
{
    lemma_find_or_create_preserves_wf(slots, bank_pk, now as u64);
    if let Ok(resolved) = crate::ops::spec_find_or_create(slots, bank_pk, now as u64) {
        if let Ok(accrued) = spec_accrue(bank, now as int) {
            if let Ok(changed) = spec_increase(accrued, resolved.0[resolved.1], amount) {
                lemma_update_same_key_preserves_wf(resolved.0, resolved.1, changed.1);
            }
        }
    }
}

/// A whole borrow keeps the ledger's one-slot-per-bank invariant.
pub proof fn lemma_borrow_process_preserves_wf(
    bank: Bank,
    slots: Seq<Balance>,
    bank_pk: u64,
    amount: int,
    now: i64,
)
    requires
        account_wf(slots),
    ensures
        crate::instructions::spec_borrow_process(bank, slots, bank_pk, amount, now) matches Ok(
            pair,
        ) ==> account_wf(pair.1),
{
    lemma_find_or_create_preserves_wf(slots, bank_pk, now as u64);
    if let Ok(resolved) = crate::ops::spec_find_or_create(slots, bank_pk, now as u64) {
        if let Ok(accrued) = spec_accrue(bank, now as int) {
            if let Ok(changed) = spec_decrease(accrued, resolved.0[resolved.1], amount) {
                lemma_update_same_key_preserves_wf(resolved.0, resolved.1, changed.1);
            }
        }
    }
}

/// Each liquidation step keeps a ledger's one-slot-per-bank invariant.
pub proof fn lemma_liquidation_steps_preserve_wf(
    bank: Bank,
    slots: Seq<Balance>,
    bank_pk: u64,
    amount: int,
    stamp: u64,
)
    requires
        account_wf(slots),
    ensures
        crate::liquidate::spec_step_pay_debt(bank, slots, bank_pk, amount, stamp) matches Ok(out)
            ==> account_wf(out.1),
        crate::liquidate::spec_step_seize_collateral(bank, slots, bank_pk, amount) matches Ok(out)
            ==> account_wf(out.1),
        crate::liquidate::spec_step_receive_collateral(bank, slots, bank_pk, amount, stamp)
            matches Ok(out) ==> account_wf(out.1),
        crate::liquidate::spec_step_credit_debt(bank, slots, bank_pk, amount, stamp) matches Ok(
            out,
        ) ==> account_wf(out.1),
{
    lemma_find_or_create_preserves_wf(slots, bank_pk, stamp);
    crate::account::lemma_first_index_where_sound(slots, crate::account::match_pred(bank_pk));
    if let Ok(resolved) = crate::ops::spec_find_or_create(slots, bank_pk, stamp) {
        if let Ok(changed) = spec_decrease(bank, resolved.0[resolved.1], amount) {
            lemma_update_same_key_preserves_wf(resolved.0, resolved.1, changed.1);
        }
        if let Ok(changed) = spec_increase(bank, resolved.0[resolved.1], amount) {
            lemma_update_same_key_preserves_wf(resolved.0, resolved.1, changed.1);
        }
    }
    if let Some(i) = spec_find_balance(slots, bank_pk) {
        if let Ok(changed) = spec_decrease(bank, slots[i], amount) {
            lemma_update_same_key_preserves_wf(slots, i, changed.1);
        }
    }
}

/// A whole liquidation keeps both ledgers' one-slot-per-bank
/// invariants.
pub proof fn lemma_liquidate_preserves_wf(
    asset_bank: Bank,
    liab_bank: Bank,
    asset_bank_pk: u64,
    liab_bank_pk: u64,
    liquidator: Seq<Balance>,
    liquidatee: Seq<Balance>,
    asset_amount: int,
    asset_price: int,
    liab_price: int,
    now: i64,
)
    requires
        account_wf(liquidator),
        account_wf(liquidatee),
    ensures
        crate::liquidate::spec_liquidate(
            asset_bank,
            liab_bank,
            asset_bank_pk,
            liab_bank_pk,
            liquidator,
            liquidatee,
            asset_amount,
            asset_price,
            liab_price,
            now,
        ) matches Ok(out) ==> account_wf(out.2) && account_wf(out.3),
{
    let stamp = now as u64;
    if let Ok(ab1) = spec_accrue(asset_bank, now as int) {
        if let Ok(lb1) = spec_accrue(liab_bank, now as int) {
            if let Some(cv) = crate::price::spec_calc_value(
                asset_amount,
                asset_price,
                ab1.mint_decimals as nat,
            ) {
                if let Some(liab_amount) = crate::price::spec_calc_amount(
                    cv,
                    liab_price,
                    lb1.mint_decimals as nat,
                ) {
                    lemma_liquidation_steps_preserve_wf(
                        lb1,
                        liquidator,
                        liab_bank_pk,
                        liab_amount,
                        stamp,
                    );
                    if let Ok(step_a) = crate::liquidate::spec_step_pay_debt(
                        lb1,
                        liquidator,
                        liab_bank_pk,
                        liab_amount,
                        stamp,
                    ) {
                        lemma_liquidation_steps_preserve_wf(
                            ab1,
                            liquidatee,
                            asset_bank_pk,
                            asset_amount,
                            stamp,
                        );
                        if let Ok(step_b) = crate::liquidate::spec_step_seize_collateral(
                            ab1,
                            liquidatee,
                            asset_bank_pk,
                            asset_amount,
                        ) {
                            lemma_liquidation_steps_preserve_wf(
                                step_b.0,
                                step_a.1,
                                asset_bank_pk,
                                asset_amount,
                                stamp,
                            );
                            if let Ok(step_c) = crate::liquidate::spec_step_receive_collateral(
                                step_b.0,
                                step_a.1,
                                asset_bank_pk,
                                asset_amount,
                                stamp,
                            ) {
                                lemma_liquidation_steps_preserve_wf(
                                    step_a.0,
                                    step_b.1,
                                    liab_bank_pk,
                                    liab_amount,
                                    stamp,
                                );
                            }
                        }
                    }
                }
            }
        }
    }
}

} // verus!
