//! Sums over the entries of finite maps, for the accounting invariants.

use vstd::prelude::*;
use vstd::set::fold::{is_fun_commutative, lemma_fold_empty, lemma_fold_insert};

verus! {

/// Sum of `c(k)` over the keys `k` of `s`.
pub open spec fn sum_over(s: Set<u64>, c: spec_fn(u64) -> int) -> int {
    s.fold(0int, |acc: int, k: u64| acc + c(k))
}

/// Sum of `f(v)` over the values `v` of `m`.
pub open spec fn map_sum<V>(m: Map<u64, V>, f: spec_fn(V) -> int) -> int {
    sum_over(m.dom(), |k: u64| f(m[k]))
}

proof fn lemma_step_commutative(c: spec_fn(u64) -> int)
    ensures
        is_fun_commutative(|acc: int, k: u64| acc + c(k)),
{
    let g = |acc: int, k: u64| acc + c(k);
    assert forall|a1: u64, a2: u64, b: int| #[trigger] g(g(b, a2), a1) == g(g(b, a1), a2) by {}
}

/// The empty sum is zero.
pub proof fn lemma_sum_empty(c: spec_fn(u64) -> int)
    ensures
        sum_over(Set::empty(), c) == 0,
{
    lemma_fold_empty(0int, |acc: int, k: u64| acc + c(k));
}

/// Adding a new key adds its term.
pub proof fn lemma_sum_insert(s: Set<u64>, c: spec_fn(u64) -> int, k: u64)
    requires
        s.finite(),
        !s.contains(k),
    ensures
        sum_over(s.insert(k), c) == sum_over(s, c) + c(k),
{
    lemma_step_commutative(c);
    lemma_fold_insert(s, 0int, |acc: int, k: u64| acc + c(k), k);
}

/// Removing a key takes its term away.
pub proof fn lemma_sum_remove(s: Set<u64>, c: spec_fn(u64) -> int, k: u64)
    requires
        s.finite(),
        s.contains(k),
    ensures
        sum_over(s, c) == sum_over(s.remove(k), c) + c(k),
{
    lemma_sum_insert(s.remove(k), c, k);
    assert(s.remove(k).insert(k) =~= s);
}

/// Sums of terms that agree on every key are equal.
pub proof fn lemma_sum_congruent(s: Set<u64>, c1: spec_fn(u64) -> int, c2: spec_fn(u64) -> int)
    requires
        s.finite(),
        forall|k: u64| s.contains(k) ==> c1(k) == c2(k),
    ensures
        sum_over(s, c1) == sum_over(s, c2),
    decreases s.len(),
{
    if s.len() == 0 {
        assert(s =~= Set::<u64>::empty());
        lemma_sum_empty(c1);
        lemma_sum_empty(c2);
    } else {
        let k = s.choose();
        lemma_sum_congruent(s.remove(k), c1, c2);
        lemma_sum_remove(s, c1, k);
        lemma_sum_remove(s, c2, k);
    }
}

/// Storing `v` under `k` replaces the term of the old value, if any, by
/// the term of `v`.
pub proof fn lemma_map_sum_insert<V>(m: Map<u64, V>, f: spec_fn(V) -> int, k: u64, v: V)
    requires
        m.dom().finite(),
    ensures
        map_sum(m.insert(k, v), f) == map_sum(m, f) - (if m.dom().contains(k) {
            f(m[k])
        } else {
            0
        }) + f(v),
{
    let m2 = m.insert(k, v);
    let c1 = |j: u64| f(m[j]);
    let c2 = |j: u64| f(m2[j]);
    let rest = m.dom().remove(k);
    lemma_sum_congruent(rest, c1, c2);
    assert(m2.dom() =~= rest.insert(k));
    lemma_sum_insert(rest, c2, k);
    if m.dom().contains(k) {
        lemma_sum_remove(m.dom(), c1, k);
    } else {
        assert(rest =~= m.dom());
    }
}

/// Removing `k` takes its value's term away.
pub proof fn lemma_map_sum_remove<V>(m: Map<u64, V>, f: spec_fn(V) -> int, k: u64)
    requires
        m.dom().finite(),
        m.dom().contains(k),
    ensures
        map_sum(m.remove(k), f) == map_sum(m, f) - f(m[k]),
{
    let m2 = m.remove(k);
    let c1 = |j: u64| f(m[j]);
    let c2 = |j: u64| f(m2[j]);
    assert(m2.dom() =~= m.dom().remove(k));
    lemma_sum_congruent(m2.dom(), c1, c2);
    lemma_sum_remove(m.dom(), c1, k);
}

/// The empty map sums to zero.
pub proof fn lemma_map_sum_empty<V>(f: spec_fn(V) -> int)
    ensures
        map_sum(Map::<u64, V>::empty(), f) == 0,
{
    assert(Map::<u64, V>::empty().dom() =~= Set::<u64>::empty());
    lemma_sum_empty(|k: u64| f(Map::<u64, V>::empty()[k]));
}

/// A sum of nonnegative terms is nonnegative.
pub proof fn lemma_sum_nonneg(s: Set<u64>, c: spec_fn(u64) -> int)
    requires
        s.finite(),
        forall|k: u64| s.contains(k) ==> c(k) >= 0,
    ensures
        sum_over(s, c) >= 0,
    decreases s.len(),
{
    if s.len() == 0 {
        assert(s =~= Set::<u64>::empty());
        lemma_sum_empty(c);
    } else {
        let k = s.choose();
        lemma_sum_nonneg(s.remove(k), c);
        lemma_sum_remove(s, c, k);
    }
}

/// A map whose values all have nonnegative terms sums to at least zero.
pub proof fn lemma_map_sum_nonneg<V>(m: Map<u64, V>, f: spec_fn(V) -> int)
    requires
        m.dom().finite(),
        forall|k: u64| m.dom().contains(k) ==> f(m[k]) >= 0,
    ensures
        map_sum(m, f) >= 0,
{
    lemma_sum_nonneg(m.dom(), |k: u64| f(m[k]));
}

} // verus!
