//! Balances and total supply.
use vstd::prelude::*;
use crate::sums::{total_of, value_at, all_non_negative, lemma_total_insert, lemma_value_le_total, lemma_two_values_le_total};
use crate::sums::{pairs_sum, lists_entries, lemma_pairs_sum_is_total, lemma_pairs_prefix_le};
use std::collections::HashMap;
use vstd::std_specs::hash::spec_hash_map_iter;
use vstd::std_specs::iter::IteratorSpec;
use crate::token::types::{AccountId, TokenError};
use crate::token::contract::{VeritixToken, TokenModel};

verus! {

broadcast use vstd::std_specs::hash::group_hash_axioms;

/// `b` with `amount` added to the balance of `a`.
pub open spec fn credit(b: Map<AccountId, i128>, a: AccountId, amount: int) -> Map<AccountId, i128> {
    b.insert(a, (value_at(b, a) + amount) as i128)
}

/// `b` after `amount` moved from `from` to `to`.
pub open spec fn moved(b: Map<AccountId, i128>, from: AccountId, to: AccountId, amount: int) -> Map<
    AccountId,
    i128,
> {
    credit(credit(b, from, -amount), to, amount)
}

/// `m` with its balances replaced by `b`.
pub open spec fn with_balances(m: TokenModel, b: Map<AccountId, i128>) -> TokenModel {
    TokenModel { balances: b, ..m }
}

/// Moving an amount that the sender holds keeps the sum of balances and keeps
/// every balance non-negative.
pub proof fn lemma_moved_keeps_total(b: Map<AccountId, i128>, from: AccountId, to: AccountId, amount: int)
    requires
        b.dom().finite(),
        all_non_negative(b),
        0 <= amount <= value_at(b, from),
        total_of(b) <= i128::MAX,
    ensures
        total_of(moved(b, from, to, amount)) == total_of(b),
        all_non_negative(moved(b, from, to, amount)),
        moved(b, from, to, amount).dom().finite(),
{
    let b1 = credit(b, from, -amount);
    lemma_total_insert(b, from, (value_at(b, from) - amount) as i128);
    assert(all_non_negative(b1));
    if from != to {
        lemma_two_values_le_total(b, from, to);
    }
    assert(value_at(b1, to) + amount <= i128::MAX);
    lemma_total_insert(b1, to, (value_at(b1, to) + amount) as i128);
}

/// The balance of `id`; an account never credited holds 0.
pub fn read_balance(t: &VeritixToken, id: AccountId) -> (r: i128)
    ensures
        r == t@.balance(id),
{
    match t.balances.get(&id) {
        Some(v) => *v,
        None => 0,
    }
}

/// The total supply of the token.
pub fn read_total_supply(t: &VeritixToken) -> (r: i128)
    ensures
        r == t@.total_supply,
{
    t.total_supply
}

/// Adds `amount` to the balance of `id`, which the sum of balances must leave room for.
pub(crate) fn credit_balance(t: &mut VeritixToken, id: AccountId, amount: i128)
    requires
        old(t).wf(),
        amount >= 0,
        total_of(old(t)@.balances) + amount <= i128::MAX,
    ensures
        final(t).wf(),
        final(t)@ == with_balances(old(t)@, credit(old(t)@.balances, id, amount as int)),
        total_of(final(t)@.balances) == total_of(old(t)@.balances) + amount,
{
    let cur = read_balance(t, id);
    proof {
        lemma_value_le_total(t.balances@, id);
        lemma_total_insert(t.balances@, id, (cur + amount) as i128);
    }
    t.balances.insert(id, cur + amount);
    t.balance_total = t.balance_total + amount;
}

/// Takes `amount` out of the balance of `id`, which must hold it.
pub(crate) fn debit_balance(t: &mut VeritixToken, id: AccountId, amount: i128)
    requires
        old(t).wf(),
        0 <= amount <= old(t)@.balance(id),
    ensures
        final(t).wf(),
        final(t)@ == with_balances(old(t)@, credit(old(t)@.balances, id, -amount)),
        total_of(final(t)@.balances) == total_of(old(t)@.balances) - amount,
{
    let cur = read_balance(t, id);
    proof {
        lemma_total_insert(t.balances@, id, (cur - amount) as i128);
        lemma_value_le_total(t.balances@, id);
    }
    t.balances.insert(id, cur - amount);
    t.balance_total = t.balance_total - amount;
}

/// Moves `amount` from `from` to `to`; `from` must hold it.
pub(crate) fn move_balance(t: &mut VeritixToken, from: AccountId, to: AccountId, amount: i128)
    requires
        old(t).wf(),
        0 <= amount <= old(t)@.balance(from),
    ensures
        final(t).wf(),
        final(t)@ == with_balances(old(t)@, moved(old(t)@.balances, from, to, amount as int)),
        total_of(final(t)@.balances) == total_of(old(t)@.balances),
{
    proof {
        lemma_moved_keeps_total(t.balances@, from, to, amount as int);
    }
    debit_balance(t, from, amount);
    credit_balance(t, to, amount);
}

/// Adds `amount` to the balance of `id`.
///
/// Fails with `Overflow`, changing nothing, when the sum of all balances
/// would leave the range of `i128`.
pub fn receive_balance(t: &mut VeritixToken, id: AccountId, amount: i128) -> (r: Result<(), TokenError>)
    requires
        old(t).wf(),
        amount >= 0,
    ensures
        final(t).wf(),
        r is Ok <==> total_of(old(t)@.balances) + amount <= i128::MAX,
        r is Ok ==> final(t)@ == with_balances(old(t)@, credit(old(t)@.balances, id, amount as int)),
        r is Err ==> r == Err::<(), TokenError>(TokenError::Overflow) && final(t)@ == old(t)@,
{
    if t.balance_total > i128::MAX - amount {
        return Err(TokenError::Overflow);
    }
    credit_balance(t, id, amount);
    Ok(())
}

/// Takes `amount` out of the balance of `id`.
///
/// Fails with `InsufficientBalance`, changing nothing, when `id` holds less.
pub fn spend_balance(t: &mut VeritixToken, id: AccountId, amount: i128) -> (r: Result<(), TokenError>)
    requires
        old(t).wf(),
        amount >= 0,
    ensures
        final(t).wf(),
        r is Ok <==> amount <= old(t)@.balance(id),
        r is Ok ==> final(t)@ == with_balances(old(t)@, credit(old(t)@.balances, id, -amount)),
        r is Err ==> r == Err::<(), TokenError>(TokenError::InsufficientBalance) && final(t)@ == old(t)@,
{
    if read_balance(t, id) < amount {
        return Err(TokenError::InsufficientBalance);
    }
    debit_balance(t, id, amount);
    Ok(())
}

/// Raises the total supply by `amount`; fails with `Overflow`, changing nothing,
/// when the supply would leave the range of `i128`.
pub fn increase_supply(t: &mut VeritixToken, amount: i128) -> (r: Result<(), TokenError>)
    requires
        old(t).wf(),
        amount >= 0,
    ensures
        final(t).wf(),
        r is Ok <==> old(t)@.total_supply + amount <= i128::MAX,
        r is Ok ==> final(t)@ == (TokenModel { total_supply: (old(t)@.total_supply + amount) as i128, ..old(t)@ }),
        r is Err ==> r == Err::<(), TokenError>(TokenError::Overflow) && final(t)@ == old(t)@,
{
    if t.total_supply > i128::MAX - amount {
        return Err(TokenError::Overflow);
    }
    t.total_supply = t.total_supply + amount;
    Ok(())
}

/// Lowers the total supply by `amount`; fails with `Overflow`, changing nothing,
/// when the supply would leave the range of `i128`.
pub fn decrease_supply(t: &mut VeritixToken, amount: i128) -> (r: Result<(), TokenError>)
    requires
        old(t).wf(),
        amount >= 0,
    ensures
        final(t).wf(),
        r is Ok <==> old(t)@.total_supply - amount >= i128::MIN,
        r is Ok ==> final(t)@ == (TokenModel { total_supply: (old(t)@.total_supply - amount) as i128, ..old(t)@ }),
        r is Err ==> r == Err::<(), TokenError>(TokenError::Overflow) && final(t)@ == old(t)@,
{
    if t.total_supply < i128::MIN + amount {
        return Err(TokenError::Overflow);
    }
    t.total_supply = t.total_supply - amount;
    Ok(())
}

/// Whether every balance is non-negative and the balances add up to `total`.
pub fn balances_add_up(balances: &HashMap<AccountId, i128>, total: i128) -> (b: bool)
    ensures
        b == (all_non_negative(balances@) && total == total_of(balances@)),
{
    broadcast use vstd::std_specs::hash::axiom_spec_hash_map_iter;
    let ghost m = balances@;
    let entries = balances.iter();
    let ghost raw = spec_hash_map_iter(balances).remaining();
    let ghost ps = raw.map_values(|p: (&u64, &i128)| (*p.0, *p.1));
    proof {
        assert(raw.no_duplicates());
        assert forall|i: int| #![auto] 0 <= i < ps.len() implies m.dom().contains(ps[i].0) && m[ps[i].0] == ps[i].1 by {
            assert(m.contains_key(*raw[i].0));
        }
        assert forall|i: int, j: int| #![auto] 0 <= i < j < ps.len() implies ps[i].0 != ps[j].0 by {
            if ps[i].0 == ps[j].0 {
                assert(m.contains_key(*raw[i].0));
                assert(m.contains_key(*raw[j].0));
                assert(raw[i] == raw[j]);
            }
        }
        assert(lists_entries(ps, m));
    }
    if total < 0 {
        proof {
            if all_non_negative(m) {
                lemma_pairs_sum_is_total(ps, m);
                lemma_pairs_prefix_le(ps, 0);
            }
        }
        return false;
    }
    let mut sum: i128 = 0;
    for p in it: entries
        invariant
            ps == raw.map_values(|p: (&u64, &i128)| (*p.0, *p.1)),
            raw == spec_hash_map_iter(balances).remaining(),
            it.seq() == raw,
            lists_entries(ps, m),
            m == balances@,
            0 <= sum <= total,
            sum == pairs_sum(ps.take(it.index())),
            forall|j: int| #![auto] 0 <= j < it.index() ==> ps[j].1 >= 0,
    {
        let v = *p.1;
        let ghost idx = it.index();
        proof {
            assert(ps.take(idx + 1).drop_last() =~= ps.take(idx));
        }
        if v < 0 {
            proof {
                assert(m.dom().contains(ps[idx].0));
            }
            return false;
        }
        if v > total - sum {
            proof {
                if all_non_negative(m) {
                    assert forall|i: int| #![auto] 0 <= i < ps.len() implies ps[i].1 >= 0 by {
                        assert(m.dom().contains(ps[i].0));
                    }
                    lemma_pairs_sum_is_total(ps, m);
                    lemma_pairs_prefix_le(ps, idx + 1);
                }
            }
            return false;
        }
        sum = sum + v;
    }
    proof {
        assert(ps.take(ps.len() as int) =~= ps);
        lemma_pairs_sum_is_total(ps, m);
        assert forall|k: u64| #[trigger] m.dom().contains(k) implies m[k] >= 0 by {
            assert(raw.contains((&k, &m[k])));
            let j = choose|j: int| 0 <= j < raw.len() && raw[j] == (&k, &m[k]);
            assert(ps[j].1 == m[k]);
        }
    }
    sum == total
}

} // verus!
