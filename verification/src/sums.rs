//! Sums of integer-valued finite maps, used to account for token balances.
use vstd::prelude::*;

verus! {

/// The sum of all values of a finite map (0 for an infinite or empty map).
pub open spec fn total_of(m: Map<u64, i128>) -> int
    decreases m.dom().len(),
{
    if m.dom().finite() && m.dom().len() > 0 {
        let k = m.dom().choose();
        m[k] + total_of(m.remove(k))
    } else {
        0
    }
}

/// The value that a map of balances holds for `k`, where an absent key holds 0.
pub open spec fn value_at(m: Map<u64, i128>, k: u64) -> int {
    if m.dom().contains(k) {
        m[k] as int
    } else {
        0
    }
}

/// Every value of the map is non-negative.
pub open spec fn all_non_negative(m: Map<u64, i128>) -> bool {
    forall|k: u64| #[trigger] m.dom().contains(k) ==> m[k] >= 0
}

/// Taking any key out of a finite map takes exactly its value out of the sum.
pub proof fn lemma_total_remove(m: Map<u64, i128>, k: u64)
    requires
        m.dom().finite(),
        m.dom().contains(k),
    ensures
        total_of(m) == m[k] + total_of(m.remove(k)),
    decreases m.dom().len(),
{
    let c = m.dom().choose();
    assert(m.dom().contains(c));
    if c != k {
        let mc = m.remove(c);
        let mk = m.remove(k);
        assert(mc.dom().contains(k));
        assert(mk.dom().contains(c));
        lemma_total_remove(mc, k);
        lemma_total_remove(mk, c);
        assert(mc.remove(k) =~= mk.remove(c));
    }
}

/// Writing `v` at `k` changes the sum by `v` minus the value that `k` held.
pub proof fn lemma_total_insert(m: Map<u64, i128>, k: u64, v: i128)
    requires
        m.dom().finite(),
    ensures
        total_of(m.insert(k, v)) == total_of(m) - value_at(m, k) + v,
        m.insert(k, v).dom().finite(),
{
    let mi = m.insert(k, v);
    assert(mi.dom().contains(k));
    lemma_total_remove(mi, k);
    if m.dom().contains(k) {
        lemma_total_remove(m, k);
        assert(mi.remove(k) =~= m.remove(k));
    } else {
        assert(mi.remove(k) =~= m);
    }
}

/// The sum of a map of non-negative values is non-negative.
pub proof fn lemma_total_non_negative(m: Map<u64, i128>)
    requires
        m.dom().finite(),
        all_non_negative(m),
    ensures
        total_of(m) >= 0,
    decreases m.dom().len(),
{
    if m.dom().len() > 0 {
        let k = m.dom().choose();
        assert(m.dom().contains(k));
        lemma_total_non_negative(m.remove(k));
    }
}

/// In a map of non-negative values, one value never exceeds the sum.
pub proof fn lemma_value_le_total(m: Map<u64, i128>, k: u64)
    requires
        m.dom().finite(),
        all_non_negative(m),
    ensures
        value_at(m, k) <= total_of(m),
{
    if m.dom().contains(k) {
        lemma_total_remove(m, k);
        lemma_total_non_negative(m.remove(k));
    } else {
        lemma_total_non_negative(m);
    }
}

/// In a map of non-negative values, two distinct values together never exceed the sum.
pub proof fn lemma_two_values_le_total(m: Map<u64, i128>, a: u64, b: u64)
    requires
        m.dom().finite(),
        all_non_negative(m),
        a != b,
    ensures
        value_at(m, a) + value_at(m, b) <= total_of(m),
{
    if m.dom().contains(a) {
        lemma_total_remove(m, a);
        let ma = m.remove(a);
        assert(value_at(ma, b) == value_at(m, b));
        lemma_value_le_total(ma, b);
    } else {
        lemma_value_le_total(m, b);
    }
}

/// The sum of the values of a list of pairs.
pub open spec fn pairs_sum(ps: Seq<(u64, i128)>) -> int
    decreases ps.len(),
{
    if ps.len() == 0 {
        0
    } else {
        pairs_sum(ps.drop_last()) + ps.last().1
    }
}

/// `ps` lists the entries of the finite map `m`, each key once.
pub open spec fn lists_entries(ps: Seq<(u64, i128)>, m: Map<u64, i128>) -> bool {
    &&& m.dom().finite()
    &&& ps.len() == m.dom().len()
    &&& forall|i: int| #![auto] 0 <= i < ps.len() ==> m.dom().contains(ps[i].0) && m[ps[i].0] == ps[i].1
    &&& forall|i: int, j: int| #![auto] 0 <= i < j < ps.len() ==> ps[i].0 != ps[j].0
}

/// A list of a map's entries adds up to the map's sum.
pub proof fn lemma_pairs_sum_is_total(ps: Seq<(u64, i128)>, m: Map<u64, i128>)
    requires
        lists_entries(ps, m),
    ensures
        pairs_sum(ps) == total_of(m),
    decreases ps.len(),
{
    if ps.len() > 0 {
        let last = ps.last();
        let rest = ps.drop_last();
        let k = last.0;
        assert(m.dom().contains(ps[ps.len() - 1].0));
        let mk = m.remove(k);
        assert forall|i: int| #![auto] 0 <= i < rest.len() implies mk.dom().contains(rest[i].0) && mk[rest[i].0] == rest[i].1 by {
            assert(ps[i].0 != ps[ps.len() - 1].0);
        }
        assert forall|i: int, j: int| #![auto] 0 <= i < j < rest.len() implies rest[i].0 != rest[j].0 by {
            assert(ps[i].0 != ps[j].0);
        }
        lemma_pairs_sum_is_total(rest, mk);
        lemma_total_remove(m, k);
    }
}

/// With non-negative values, a prefix of a list adds up to no more than the whole.
pub proof fn lemma_pairs_prefix_le(ps: Seq<(u64, i128)>, a: int)
    requires
        0 <= a <= ps.len(),
        forall|i: int| #![auto] 0 <= i < ps.len() ==> ps[i].1 >= 0,
    ensures
        0 <= pairs_sum(ps.take(a)) <= pairs_sum(ps),
    decreases ps.len(),
{
    if a == ps.len() {
        assert(ps.take(a) =~= ps);
        if ps.len() > 0 {
            lemma_pairs_prefix_le(ps.drop_last(), ps.len() - 1);
            assert(ps.drop_last().take(ps.len() - 1) =~= ps.drop_last());
        }
    } else {
        lemma_pairs_prefix_le(ps.drop_last(), a);
        assert(ps.drop_last().take(a) =~= ps.take(a));
        lemma_pairs_prefix_le(ps.drop_last(), ps.len() - 1);
        assert(ps.drop_last().take(ps.len() - 1) =~= ps.drop_last());
    }
}

} // verus!
