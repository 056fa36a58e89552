//! Batched administrator actions and batched transfers.
use vstd::prelude::*;
use crate::sums::{total_of, value_at};
use crate::token::types::{AccountId, BatchEntry, TokenError, TokenEvent};
use crate::token::contract::{VeritixToken, TokenModel};
use crate::token::balance::{credit, moved, with_balances, read_balance, debit_balance, move_balance};
use crate::token::admin::{admin_check, check_admin};

verus! {

broadcast use vstd::std_specs::hash::group_hash_axioms;

/// The most targets or entries one batch may hold.
pub const MAX_BATCH_TARGETS: usize = 50;

/// The balances after the first `k` clawbacks of `ts`.
pub open spec fn debited(b: Map<AccountId, i128>, ts: Seq<(AccountId, i128)>, k: int) -> Map<AccountId, i128>
    decreases k,
{
    if k <= 0 {
        b
    } else {
        credit(debited(b, ts, k - 1), ts[k - 1].0, -ts[k - 1].1)
    }
}

/// What the first `k` clawbacks of `ts` take together.
pub open spec fn taken(ts: Seq<(AccountId, i128)>, k: int) -> int
    decreases k,
{
    if k <= 0 {
        0
    } else {
        taken(ts, k - 1) + ts[k - 1].1
    }
}

/// What the first `k` clawbacks of `ts` take from `a`.
pub open spec fn taken_from(ts: Seq<(AccountId, i128)>, k: int, a: AccountId) -> int
    decreases k,
{
    if k <= 0 {
        0
    } else {
        taken_from(ts, k - 1, a) + if ts[k - 1].0 == a {
            ts[k - 1].1 as int
        } else {
            0
        }
    }
}

/// The first clawback, from the `k`-th on, that fails: a non-positive amount,
/// an account that no longer holds it, or a supply leaving `i128`.
pub open spec fn clawbacks_error(m: TokenModel, ts: Seq<(AccountId, i128)>, k: int) -> Option<TokenError>
    decreases ts.len() - k,
{
    if k < 0 || k >= ts.len() {
        None
    } else if ts[k].1 <= 0 {
        Some(TokenError::NonPositiveAmount)
    } else if value_at(debited(m.balances, ts, k), ts[k].0) < ts[k].1 {
        Some(TokenError::InsufficientBalance)
    } else if m.total_supply - taken(ts, k + 1) < i128::MIN {
        Some(TokenError::Overflow)
    } else {
        clawbacks_error(m, ts, k + 1)
    }
}

/// The first check that a clawback batch fails, if any.
pub open spec fn clawback_batch_error(m: TokenModel, admin: AccountId, ts: Seq<(AccountId, i128)>) -> Option<TokenError> {
    if admin_check(m, admin) is Some {
        admin_check(m, admin)
    } else if ts.len() > MAX_BATCH_TARGETS {
        Some(TokenError::BatchTooLarge)
    } else {
        clawbacks_error(m, ts, 0)
    }
}

/// The `j`-th clawback of `ts` names a positive amount that its account holds
/// after the earlier ones.
pub open spec fn clawback_step_ok(b: Map<AccountId, i128>, ts: Seq<(AccountId, i128)>, j: int) -> bool {
    ts[j].1 > 0 && value_at(debited(b, ts, j), ts[j].0) >= ts[j].1
}

/// After clawbacks that each find their amount, every balance is the balance
/// before less what they took from it, and none is negative.
proof fn lemma_debited(b: Map<AccountId, i128>, ts: Seq<(AccountId, i128)>, k: int)
    requires
        0 <= k <= ts.len(),
        b.dom().finite(),
        crate::sums::all_non_negative(b),
        forall|j: int| 0 <= j < k ==> #[trigger] clawback_step_ok(b, ts, j),
    ensures
        debited(b, ts, k).dom().finite(),
        crate::sums::all_non_negative(debited(b, ts, k)),
        forall|a: AccountId| #[trigger] value_at(debited(b, ts, k), a) == value_at(b, a) - taken_from(ts, k, a),
    decreases k,
{
    if k > 0 {
        lemma_debited(b, ts, k - 1);
        assert(clawback_step_ok(b, ts, k - 1));
        let p = debited(b, ts, k - 1);
        assert forall|a: AccountId| #[trigger] value_at(debited(b, ts, k), a) == value_at(b, a) - taken_from(ts, k, a) by {
            assert(value_at(p, a) == value_at(b, a) - taken_from(ts, k - 1, a));
        }
    }
}

/// The administrator takes each listed amount from each listed account and
/// destroys it, in order; at most 50 targets.
pub fn clawback_batch(t: &mut VeritixToken, admin: AccountId, targets: Vec<(AccountId, i128)>) -> (r: Result<Vec<TokenEvent>, TokenError>)
    requires
        old(t).wf(),
    ensures
        final(t).wf(),
        final(t)@.supply_gap() == old(t)@.supply_gap(),
        match clawback_batch_error(old(t)@, admin, targets@) {
            Some(e) => r == Err::<Vec<TokenEvent>, TokenError>(e) && final(t)@ == old(t)@,
            None => {
                &&& r is Ok
                &&& r->Ok_0@ == targets@.map_values(|p: (AccountId, i128)| TokenEvent::Clawback { admin, from: p.0, amount: p.1 })
                &&& final(t)@ == (TokenModel {
                    balances: debited(old(t)@.balances, targets@, targets@.len() as int),
                    total_supply: (old(t)@.total_supply - taken(targets@, targets@.len() as int)) as i128,
                    ..old(t)@
                })
            },
        },
{
    check_admin(t, admin)?;
    if targets.len() > MAX_BATCH_TARGETS {
        return Err(TokenError::BatchTooLarge);
    }
    let n = targets.len();
    let ghost m0 = t@;
    // Check every clawback against the balances the earlier ones leave.
    let mut supply_left: i128 = t.total_supply;
    let mut i: usize = 0;
    while i < n
        invariant
            n == targets@.len(),
            n <= MAX_BATCH_TARGETS,
            0 <= i <= n,
            t@ == m0,
            t.wf(),
            m0 == old(t)@,
            clawback_batch_error(m0, admin, targets@) == clawbacks_error(m0, targets@, i as int),
            forall|j: int| 0 <= j < i ==> #[trigger] clawback_step_ok(m0.balances, targets@, j),
            supply_left == m0.total_supply - taken(targets@, i as int),
        decreases n - i,
    {
        let (from, amount) = targets[i];
        if amount <= 0 {
            return Err(TokenError::NonPositiveAmount);
        }
        proof {
            lemma_debited(m0.balances, targets@, i as int);
        }
        // The balance of `from` after the earlier clawbacks.
        let mut current: i128 = read_balance(t, from);
        let mut j: usize = 0;
        while j < i
            invariant
                n == targets@.len(),
                0 <= j <= i < n,
                t@ == m0,
                targets@[i as int].0 == from,
                forall|q: int| 0 <= q < i ==> #[trigger] clawback_step_ok(m0.balances, targets@, q),
                m0.balances.dom().finite(),
                crate::sums::all_non_negative(m0.balances),
                current == value_at(debited(m0.balances, targets@, j as int), from),
            decreases i - j,
        {
            proof {
                lemma_debited(m0.balances, targets@, j as int + 1);
                assert(clawback_step_ok(m0.balances, targets@, j as int));
            }
            if targets[j].0 == from {
                current = current - targets[j].1;
            }
            j = j + 1;
        }
        if current < amount {
            return Err(TokenError::InsufficientBalance);
        }
        if supply_left < i128::MIN + amount {
            return Err(TokenError::Overflow);
        }
        supply_left = supply_left - amount;
        assert(clawback_step_ok(m0.balances, targets@, i as int));
        i = i + 1;
    }
    // Apply them.
    let mut events: Vec<TokenEvent> = Vec::new();
    let mut k: usize = 0;
    proof {
        assert(m0.balances =~= debited(m0.balances, targets@, 0));
    }
    while k < n
        invariant
            n == targets@.len(),
            0 <= k <= n,
            t.wf(),
            m0 == old(t)@,
            clawbacks_error(m0, targets@, k as int) is None,
            forall|j: int| 0 <= j < n ==> #[trigger] clawback_step_ok(m0.balances, targets@, j),
            m0.total_supply - taken(targets@, k as int) >= i128::MIN,
            0 <= taken(targets@, k as int),
            crate::sums::all_non_negative(m0.balances),
            m0.balances.dom().finite(),
            t@ == (TokenModel {
                balances: debited(m0.balances, targets@, k as int),
                total_supply: (m0.total_supply - taken(targets@, k as int)) as i128,
                ..m0
            }),
            total_of(t@.balances) == total_of(m0.balances) - taken(targets@, k as int),
            events@ == targets@.take(k as int).map_values(|p: (AccountId, i128)| TokenEvent::Clawback { admin, from: p.0, amount: p.1 }),
        decreases n - k,
    {
        let (from, amount) = targets[k];
        proof {
            lemma_debited(m0.balances, targets@, k as int);
            assert(clawback_step_ok(m0.balances, targets@, k as int));
        }
        debit_balance(t, from, amount);
        t.total_supply = t.total_supply - amount;
        events.push(TokenEvent::Clawback { admin, from, amount });
        proof {
            assert(targets@.take(k as int + 1) =~= targets@.take(k as int).push(targets@[k as int]));
        }
        k = k + 1;
    }
    proof {
        assert(targets@.take(n as int) =~= targets@);
    }
    Ok(events)
}

/// The first check that a freeze or unfreeze batch fails, if any.
pub open spec fn freeze_batch_error(m: TokenModel, admin: AccountId, len: int) -> Option<TokenError> {
    if admin_check(m, admin) is Some {
        admin_check(m, admin)
    } else if len > MAX_BATCH_TARGETS {
        Some(TokenError::BatchTooLarge)
    } else {
        None
    }
}

/// The set of the first `k + 1` items is that of the first `k` with item `k` added.
proof fn lemma_take_one_more_to_set(s: Seq<AccountId>, k: int)
    requires
        0 <= k < s.len(),
    ensures
        s.take(k + 1).to_set() == s.take(k).to_set().insert(s[k]),
{
    assert(s.take(k + 1) =~= s.take(k).push(s[k]));
    assert forall|x: AccountId| s.take(k + 1).contains(x) <==> (s.take(k).contains(x) || x == s[k]) by {
        if x == s[k] {
            assert(s.take(k + 1)[k] == x);
        }
        if s.take(k).contains(x) {
            let q = choose|q: int| 0 <= q < k && #[trigger] s.take(k)[q] == x;
            assert(s.take(k + 1)[q] == x);
        }
        if s.take(k + 1).contains(x) {
            let q = choose|q: int| 0 <= q < k + 1 && #[trigger] s.take(k + 1)[q] == x;
            if q < k {
                assert(s.take(k)[q] == x);
            }
        }
    }
    assert(s.take(k + 1).to_set() =~= s.take(k).to_set().insert(s[k]));
}

/// The administrator freezes every listed account (at most 50).
pub fn freeze_batch(t: &mut VeritixToken, admin: AccountId, targets: Vec<AccountId>) -> (r: Result<Vec<TokenEvent>, TokenError>)
    requires
        old(t).wf(),
    ensures
        final(t).wf(),
        match freeze_batch_error(old(t)@, admin, targets@.len() as int) {
            Some(e) => r == Err::<Vec<TokenEvent>, TokenError>(e) && final(t)@ == old(t)@,
            None => {
                &&& r is Ok
                &&& r->Ok_0@ == targets@.map_values(|a: AccountId| TokenEvent::Frozen { target: a, admin })
                    .push(TokenEvent::BatchFrozen { admin, count: targets@.len() as u32 })
                &&& final(t)@ == (TokenModel { frozen: old(t)@.frozen.union(targets@.to_set()), ..old(t)@ })
            },
        },
{
    check_admin(t, admin)?;
    if targets.len() > MAX_BATCH_TARGETS {
        return Err(TokenError::BatchTooLarge);
    }
    let n = targets.len();
    let ghost m0 = t@;
    let mut events: Vec<TokenEvent> = Vec::new();
    let mut k: usize = 0;
    proof {
        assert(m0.frozen.union(targets@.take(0).to_set()) =~= m0.frozen);
        assert(t@ == (TokenModel { frozen: m0.frozen.union(targets@.take(0).to_set()), ..m0 }));
    }
    while k < n
        invariant
            n == targets@.len(),
            0 <= k <= n,
            t.wf(),
            t@ == (TokenModel { frozen: m0.frozen.union(targets@.take(k as int).to_set()), ..m0 }),
            events@ == targets@.take(k as int).map_values(|a: AccountId| TokenEvent::Frozen { target: a, admin }),
        decreases n - k,
    {
        let target = targets[k];
        let ev = crate::token::freeze::freeze_account(t, admin, target);
        events.push(ev);
        proof {
            lemma_take_one_more_to_set(targets@, k as int);
            assert(m0.frozen.union(targets@.take(k as int + 1).to_set()) =~= m0.frozen.union(targets@.take(k as int).to_set()).insert(target));
        }
        k = k + 1;
    }
    proof {
        assert(targets@.take(n as int) =~= targets@);
    }
    events.push(TokenEvent::BatchFrozen { admin, count: n as u32 });
    Ok(events)
}

/// The administrator unfreezes every listed account (at most 50).
pub fn unfreeze_batch(t: &mut VeritixToken, admin: AccountId, targets: Vec<AccountId>) -> (r: Result<Vec<TokenEvent>, TokenError>)
    requires
        old(t).wf(),
    ensures
        final(t).wf(),
        match freeze_batch_error(old(t)@, admin, targets@.len() as int) {
            Some(e) => r == Err::<Vec<TokenEvent>, TokenError>(e) && final(t)@ == old(t)@,
            None => {
                &&& r is Ok
                &&& r->Ok_0@ == targets@.map_values(|a: AccountId| TokenEvent::Unfrozen { target: a, admin })
                    .push(TokenEvent::BatchUnfrozen { admin, count: targets@.len() as u32 })
                &&& final(t)@ == (TokenModel { frozen: old(t)@.frozen.difference(targets@.to_set()), ..old(t)@ })
            },
        },
{
    check_admin(t, admin)?;
    if targets.len() > MAX_BATCH_TARGETS {
        return Err(TokenError::BatchTooLarge);
    }
    let n = targets.len();
    let ghost m0 = t@;
    let mut events: Vec<TokenEvent> = Vec::new();
    let mut k: usize = 0;
    proof {
        assert(m0.frozen.difference(targets@.take(0).to_set()) =~= m0.frozen);
        assert(t@ == (TokenModel { frozen: m0.frozen.difference(targets@.take(0).to_set()), ..m0 }));
    }
    while k < n
        invariant
            n == targets@.len(),
            0 <= k <= n,
            t.wf(),
            t@ == (TokenModel { frozen: m0.frozen.difference(targets@.take(k as int).to_set()), ..m0 }),
            events@ == targets@.take(k as int).map_values(|a: AccountId| TokenEvent::Unfrozen { target: a, admin }),
        decreases n - k,
    {
        let target = targets[k];
        let ev = crate::token::freeze::unfreeze_account(t, admin, target);
        events.push(ev);
        proof {
            lemma_take_one_more_to_set(targets@, k as int);
            assert(m0.frozen.difference(targets@.take(k as int + 1).to_set()) =~= m0.frozen.difference(targets@.take(k as int).to_set()).remove(target));
        }
        k = k + 1;
    }
    proof {
        assert(targets@.take(n as int) =~= targets@);
    }
    events.push(TokenEvent::BatchUnfrozen { admin, count: n as u32 });
    Ok(events)
}

/// What the first `k` entries of a transfer batch send together.
pub open spec fn batch_total(es: Seq<BatchEntry>, k: int) -> int
    decreases k,
{
    if k <= 0 {
        0
    } else {
        batch_total(es, k - 1) + es[k - 1].amount
    }
}

/// The balances after `from` has made the first `k` transfers of a batch.
pub open spec fn sent(b: Map<AccountId, i128>, from: AccountId, es: Seq<BatchEntry>, k: int) -> Map<AccountId, i128>
    decreases k,
{
    if k <= 0 {
        b
    } else {
        moved(sent(b, from, es, k - 1), from, es[k - 1].address, es[k - 1].amount as int)
    }
}

/// The first check that a transfer batch fails, if any: more than 50
/// entries, a frozen sender, an amount that is not positive, or a sender
/// that does not hold the whole batch.
pub open spec fn transfer_batch_error(m: TokenModel, from: AccountId, es: Seq<BatchEntry>) -> Option<TokenError> {
    if es.len() > MAX_BATCH_TARGETS {
        Some(TokenError::TransferBatchTooLarge)
    } else if m.is_frozen(from) {
        Some(TokenError::AccountFrozen)
    } else if exists|j: int| 0 <= j < es.len() && (#[trigger] es[j]).amount <= 0 {
        Some(TokenError::NonPositiveAmount)
    } else if m.balance(from) < batch_total(es, es.len() as int) {
        Some(TokenError::InsufficientBalance)
    } else {
        None
    }
}

/// The sum of a batch grows with each positive entry.
pub(crate) proof fn lemma_batch_total_monotone(es: Seq<BatchEntry>, a: int, b: int)
    requires
        0 <= a <= b <= es.len(),
        forall|j: int| 0 <= j < es.len() ==> (#[trigger] es[j]).amount > 0,
    ensures
        0 <= batch_total(es, a) <= batch_total(es, b),
    decreases b,
{
    if a < b {
        lemma_batch_total_monotone(es, a, b - 1);
    } else if a > 0 {
        lemma_batch_total_monotone(es, a - 1, a - 1);
    }
}

/// `from` sends each entry's amount to its address, in order (the host checks
/// the sender's signature); the sender must hold the whole batch beforehand.
pub fn transfer_batch(t: &mut VeritixToken, from: AccountId, entries: Vec<BatchEntry>) -> (r: Result<Vec<TokenEvent>, TokenError>)
    requires
        old(t).wf(),
    ensures
        final(t).wf(),
        final(t)@.supply_gap() == old(t)@.supply_gap(),
        match transfer_batch_error(old(t)@, from, entries@) {
            Some(e) => r == Err::<Vec<TokenEvent>, TokenError>(e) && final(t)@ == old(t)@,
            None => {
                &&& r is Ok
                &&& r->Ok_0@ == entries@.map_values(|e: BatchEntry| TokenEvent::Transfer { from, to: e.address, amount: e.amount })
                &&& final(t)@ == with_balances(old(t)@, sent(old(t)@.balances, from, entries@, entries@.len() as int))
            },
        },
{
    if entries.len() > MAX_BATCH_TARGETS {
        return Err(TokenError::TransferBatchTooLarge);
    }
    crate::token::validation::require_not_frozen_account(t, &from)?;
    let n = entries.len();
    let ghost m0 = t@;
    let mut total: i128 = 0;
    let mut i: usize = 0;
    while i < n
        invariant
            n == entries@.len(),
            n <= MAX_BATCH_TARGETS,
            0 <= i <= n,
            t@ == m0,
            t.wf(),
            m0 == old(t)@,
            !m0.is_frozen(from),
            forall|j: int| 0 <= j < i ==> (#[trigger] entries@[j]).amount > 0,
            total == batch_total(entries@, i as int),
            0 <= total <= m0.balance(from),
        decreases n - i,
    {
        let amount = entries[i].amount;
        if amount <= 0 {
            assert(entries@[i as int].amount <= 0);
            return Err(TokenError::NonPositiveAmount);
        }
        if read_balance(t, from) - total < amount {
            let mut rest: usize = i + 1;
            while rest < n
                invariant
                    n == entries@.len(),
                    n <= MAX_BATCH_TARGETS,
                    i < rest <= n,
                    t@ == m0,
                    t.wf(),
                    m0 == old(t)@,
                    !m0.is_frozen(from),
                    forall|j: int| 0 <= j < rest ==> (#[trigger] entries@[j]).amount > 0,
                    total == batch_total(entries@, i as int),
                    m0.balance(from) < batch_total(entries@, i as int + 1),
                decreases n - rest,
            {
                if entries[rest].amount <= 0 {
                    assert(entries@[rest as int].amount <= 0);
                    return Err(TokenError::NonPositiveAmount);
                }
                rest = rest + 1;
            }
            proof {
                lemma_batch_total_monotone(entries@, i as int + 1, n as int);
            }
            return Err(TokenError::InsufficientBalance);
        }
        total = total + amount;
        i = i + 1;
    }
    let mut events: Vec<TokenEvent> = Vec::new();
    let mut k: usize = 0;
    proof {
        assert(m0.balances =~= sent(m0.balances, from, entries@, 0));
    }
    while k < n
        invariant
            n == entries@.len(),
            0 <= k <= n,
            t.wf(),
            m0 == old(t)@,
            forall|j: int| 0 <= j < n ==> (#[trigger] entries@[j]).amount > 0,
            m0.balance(from) >= batch_total(entries@, n as int),
            t@ == with_balances(m0, sent(m0.balances, from, entries@, k as int)),
            t@.balance(from) >= m0.balance(from) - batch_total(entries@, k as int),
            crate::sums::total_of(t@.balances) == crate::sums::total_of(m0.balances),
            events@ == entries@.take(k as int).map_values(|e: BatchEntry| TokenEvent::Transfer { from, to: e.address, amount: e.amount }),
        decreases n - k,
    {
        let e = entries[k];
        proof {
            lemma_batch_total_monotone(entries@, k as int + 1, n as int);
        }
        move_balance(t, from, e.address, e.amount);
        events.push(TokenEvent::Transfer { from, to: e.address, amount: e.amount });
        proof {
            assert(entries@.take(k as int + 1) =~= entries@.take(k as int).push(entries@[k as int]));
        }
        k = k + 1;
    }
    proof {
        assert(entries@.take(n as int) =~= entries@);
    }
    Ok(events)
}

} // verus!
