//! Sums over finite sets, used to state the accounting invariants.

use vstd::prelude::*;
use vstd::set::fold::{is_fun_commutative, lemma_fold_empty, lemma_fold_insert};

verus! {

/// Addition of a weighted element to a running total.
pub open spec fn add_weight<K>(w: spec_fn(K) -> int) -> spec_fn(int, K) -> int {
    |acc: int, k: K| acc + w(k)
}

/// The sum of `w(k)` over the elements `k` of the finite set `s`.
pub open spec fn sum_over<K>(s: Set<K>, w: spec_fn(K) -> int) -> int {
    s.fold(0int, add_weight(w))
}

proof fn lemma_add_weight_commutative<K>(w: spec_fn(K) -> int)
    ensures
        is_fun_commutative(add_weight(w)),
{
    assert forall|a1: K, a2: K, b: int| #[trigger] add_weight(w)(add_weight(w)(b, a2), a1) == add_weight(w)(
        add_weight(w)(b, a1),
        a2,
    ) by {}
}

/// The sum over the empty set is zero.
pub proof fn lemma_sum_empty<K>(w: spec_fn(K) -> int)
    ensures
        sum_over(Set::<K>::empty(), w) == 0,
{
    lemma_fold_empty(0int, add_weight(w));
}

/// Adding a new element adds its weight.
pub proof fn lemma_sum_insert<K>(s: Set<K>, w: spec_fn(K) -> int, a: K)
    requires
        s.finite(),
        !s.contains(a),
    ensures
        sum_over(s.insert(a), w) == sum_over(s, w) + w(a),
{
    lemma_add_weight_commutative(w);
    lemma_fold_insert(s, 0int, add_weight(w), a);
}

/// Removing an element subtracts its weight.
pub proof fn lemma_sum_remove<K>(s: Set<K>, w: spec_fn(K) -> int, a: K)
    requires
        s.finite(),
        s.contains(a),
    ensures
        sum_over(s, w) == sum_over(s.remove(a), w) + w(a),
{
    lemma_sum_insert(s.remove(a), w, a);
    assert(s.remove(a).insert(a) =~= s);
}

/// Weights that agree on the set give the same sum.
pub proof fn lemma_sum_agree<K>(s: Set<K>, w1: spec_fn(K) -> int, w2: spec_fn(K) -> int)
    requires
        s.finite(),
        forall|k: K| s.contains(k) ==> w1(k) == w2(k),
    ensures
        sum_over(s, w1) == sum_over(s, w2),
    decreases s.len(),
{
    if s.len() == 0 {
        assert(s =~= Set::<K>::empty());
        lemma_sum_empty(w1);
        lemma_sum_empty(w2);
    } else {
        let a = s.choose();
        assert(s.contains(a));
        lemma_sum_remove(s, w1, a);
        lemma_sum_remove(s, w2, a);
        lemma_sum_agree(s.remove(a), w1, w2);
    }
}

/// Non-negative weights give a sum at least the weight of any element.
pub proof fn lemma_sum_bounds_element<K>(s: Set<K>, w: spec_fn(K) -> int, a: K)
    requires
        s.finite(),
        s.contains(a),
        forall|k: K| s.contains(k) ==> w(k) >= 0,
    ensures
        sum_over(s, w) >= w(a),
        sum_over(s, w) >= 0,
    decreases s.len(),
{
    lemma_sum_remove(s, w, a);
    lemma_sum_nonneg(s.remove(a), w);
}

/// Non-negative weights give a non-negative sum.
pub proof fn lemma_sum_nonneg<K>(s: Set<K>, w: spec_fn(K) -> int)
    requires
        s.finite(),
        forall|k: K| s.contains(k) ==> w(k) >= 0,
    ensures
        sum_over(s, w) >= 0,
    decreases s.len(),
{
    if s.len() == 0 {
        assert(s =~= Set::<K>::empty());
        lemma_sum_empty(w);
    } else {
        let a = s.choose();
        assert(s.contains(a));
        lemma_sum_remove(s, w, a);
        lemma_sum_nonneg(s.remove(a), w);
    }
}

/// Changing the weight of one element of a finite set (or adding it, with
/// `w1(a)` standing for its former weight of zero) changes the sum by the
/// difference of the two weights.
pub proof fn lemma_sum_update<K>(s: Set<K>, w1: spec_fn(K) -> int, w2: spec_fn(K) -> int, a: K)
    requires
        s.finite(),
        forall|k: K| s.contains(k) && k != a ==> w1(k) == w2(k),
    ensures
        sum_over(s.insert(a), w2) == sum_over(s, w1) - (if s.contains(a) { w1(a) } else { 0 }) + w2(a),
{
    let r = s.remove(a);
    assert(r.finite());
    lemma_sum_agree(r, w1, w2);
    lemma_sum_insert(r, w2, a);
    assert(r.insert(a) =~= s.insert(a));
    if s.contains(a) {
        lemma_sum_remove(s, w1, a);
    } else {
        assert(r =~= s);
    }
}

} // verus!

verus! {

/// Weights of zero or one sum to at most the size of the set.
pub proof fn lemma_sum_indicator_le_len<K>(s: Set<K>, w: spec_fn(K) -> int)
    requires
        s.finite(),
        forall|k: K| s.contains(k) ==> w(k) == 0 || w(k) == 1,
    ensures
        0 <= sum_over(s, w) <= s.len(),
    decreases s.len(),
{
    if s.len() == 0 {
        assert(s =~= Set::<K>::empty());
        lemma_sum_empty(w);
    } else {
        let a = s.choose();
        assert(s.contains(a));
        lemma_sum_remove(s, w, a);
        lemma_sum_indicator_le_len(s.remove(a), w);
    }
}

} // verus!

verus! {

/// The elements of `s` whose weight is one.
pub open spec fn weight_one<K>(s: Set<K>, w: spec_fn(K) -> int) -> Set<K> {
    s.filter(|k: K| w(k) == 1)
}

/// Weights of zero or one sum to the number of elements of weight one.
pub proof fn lemma_sum_indicator_counts<K>(s: Set<K>, w: spec_fn(K) -> int)
    requires
        s.finite(),
        forall|k: K| s.contains(k) ==> w(k) == 0 || w(k) == 1,
    ensures
        sum_over(s, w) == weight_one(s, w).len(),
    decreases s.len(),
{
    let f = |k: K| w(k) == 1;
    s.lemma_len_filter(f);
    if s.len() == 0 {
        assert(s =~= Set::<K>::empty());
        lemma_sum_empty(w);
        assert(weight_one(s, w) =~= Set::<K>::empty());
    } else {
        let a = s.choose();
        assert(s.contains(a));
        lemma_sum_remove(s, w, a);
        lemma_sum_indicator_counts(s.remove(a), w);
        if w(a) == 1 {
            assert(weight_one(s.remove(a), w) =~= weight_one(s, w).remove(a));
            assert(weight_one(s, w).contains(a));
        } else {
            assert(weight_one(s.remove(a), w) =~= weight_one(s, w));
        }
    }
}

/// Weights that are all zero sum to zero.
pub proof fn lemma_sum_zero<K>(s: Set<K>, w: spec_fn(K) -> int)
    requires
        s.finite(),
        forall|k: K| s.contains(k) ==> w(k) == 0,
    ensures
        sum_over(s, w) == 0,
    decreases s.len(),
{
    if s.len() == 0 {
        assert(s =~= Set::<K>::empty());
        lemma_sum_empty(w);
    } else {
        let a = s.choose();
        assert(s.contains(a));
        lemma_sum_remove(s, w, a);
        lemma_sum_zero(s.remove(a), w);
    }
}

} // verus!
