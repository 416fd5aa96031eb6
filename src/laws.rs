//! Properties of checked summation over whole classes of inputs.
use vstd::prelude::*;

use crate::add::{fits, CheckedAdd};
use crate::sum::{checked_total, partial_sums_fit, total};

verus! {

/// Whether the items of `s` all stand for non-negative integers, or all for
/// non-positive ones. Every sequence of an unsigned type is of this kind.
pub open spec fn same_sign<T: CheckedAdd>(s: Seq<T>) -> bool {
    (forall|i: int| 0 <= i < s.len() ==> #[trigger] s[i].value() >= 0) || (forall|i: int|
        0 <= i < s.len() ==> #[trigger] s[i].value() <= 0)
}

/// Over items of one sign the running totals move monotonically from zero to
/// the whole sum, so each lies between the two.
proof fn lemma_running_total_between<T: CheckedAdd>(s: Seq<T>, k: int)
    requires
        same_sign(s),
        0 <= k <= s.len(),
    ensures
        (forall|i: int| 0 <= i < s.len() ==> #[trigger] s[i].value() >= 0) ==> 0 <= total(
            s.take(k),
        ) <= total(s),
        (forall|i: int| 0 <= i < s.len() ==> #[trigger] s[i].value() <= 0) ==> total(s) <= total(
            s.take(k),
        ) <= 0,
    decreases s.len(),
{
    if s.len() == 0 {
        assert(s.take(k) =~= s);
    } else if k == s.len() {
        assert(s.take(k) =~= s);
        let t = s.drop_last();
        assert(same_sign(t));
        lemma_running_total_between(t, t.len() as int);
        assert(t.take(t.len() as int) =~= t);
    } else {
        let t = s.drop_last();
        assert(same_sign(t));
        lemma_running_total_between(t, k);
        lemma_running_total_between(t, t.len() as int);
        assert(t.take(k) =~= s.take(k));
        assert(t.take(t.len() as int) =~= t);
    }
}

/// When the true sum of items of one sign fits the type, no running total
/// overflows, and the checked sum is that true sum.
pub proof fn lemma_fitting_sum_is_returned<T: CheckedAdd>(s: Seq<T>)
    requires
        same_sign(s),
        fits::<T>(total(s)),
    ensures
        checked_total(s) == Some(total(s)),
{
    T::lemma_zero_in_range();
    assert forall|k: int| 0 <= k <= s.len() implies fits::<T>(#[trigger] total(s.take(k))) by {
        lemma_running_total_between(s, k);
    }
    assert(partial_sums_fit(s));
}

/// When the true sum does not fit the type, the checked sum is absent.
pub proof fn lemma_overflowing_sum_is_absent<T: CheckedAdd>(s: Seq<T>)
    requires
        !fits::<T>(total(s)),
    ensures
        checked_total(s) is None,
{
    assert(s.take(s.len() as int) =~= s);
    assert(!fits::<T>(total(s.take(s.len() as int))));
}

/// The checked sum of nothing is zero.
pub proof fn lemma_empty_sum_is_zero<T: CheckedAdd>()
    ensures
        checked_total(Seq::<T>::empty()) == Some(0int),
{
    let s = Seq::<T>::empty();
    T::lemma_zero_in_range();
    assert forall|k: int| 0 <= k <= s.len() implies fits::<T>(#[trigger] total(s.take(k))) by {
        assert(s.take(k) =~= s);
    }
}

/// Taking one item out of a sequence takes its value out of the sum.
proof fn lemma_total_remove<T: CheckedAdd>(s: Seq<T>, j: int)
    requires
        0 <= j < s.len(),
    ensures
        total(s) == total(s.remove(j)) + s[j].value(),
    decreases s.len(),
{
    if j == s.len() - 1 {
        assert(s.remove(j) =~= s.drop_last());
    } else {
        let t = s.drop_last();
        lemma_total_remove(t, j);
        assert(s.remove(j).drop_last() =~= t.remove(j));
        assert(s.remove(j).last() == s.last());
    }
}

/// Two sequences holding the same items, in any order, have the same sum.
proof fn lemma_total_permutation<T: CheckedAdd>(s1: Seq<T>, s2: Seq<T>)
    requires
        s1.to_multiset() == s2.to_multiset(),
    ensures
        total(s1) == total(s2),
    decreases s1.len(),
{
    broadcast use vstd::seq_lib::group_to_multiset_ensures;

    if s1.len() == 0 {
        vstd::seq_lib::to_multiset_len(s1);
        vstd::seq_lib::to_multiset_len(s2);
    } else {
        let x = s1.last();
        let t1 = s1.drop_last();
        assert(s1 =~= t1.push(x));
        assert(s1.contains(x)) by {
            assert(s1[s1.len() - 1] == x);
        }
        assert(s1.to_multiset().count(x) > 0);
        assert(s2.to_multiset().count(x) > 0);
        let j = choose|j: int| 0 <= j < s2.len() && s2[j] == x;
        let t2 = s2.remove(j);
        assert(t2.to_multiset() =~= t1.to_multiset()) by {
            assert(t1.to_multiset().insert(x).remove(x) =~= t1.to_multiset());
        }
        lemma_total_permutation(t1, t2);
        lemma_total_remove(s2, j);
    }
}

/// Reordering items of one sign changes neither whether the checked sum is
/// present nor its value.
pub proof fn lemma_order_does_not_matter<T: CheckedAdd>(s1: Seq<T>, s2: Seq<T>)
    requires
        s1.to_multiset() == s2.to_multiset(),
        same_sign(s1),
    ensures
        checked_total(s1) == checked_total(s2),
{
    broadcast use vstd::seq_lib::group_to_multiset_ensures;

    lemma_total_permutation(s1, s2);
    assert forall|i: int| 0 <= i < s2.len() implies s1.contains(#[trigger] s2[i]) by {
        assert(s2.contains(s2[i]));
        assert(s2.to_multiset().count(s2[i]) > 0);
        assert(s1.to_multiset().count(s2[i]) > 0);
    }
    assert(same_sign(s2));
    if fits::<T>(total(s1)) {
        lemma_fitting_sum_is_returned(s1);
        lemma_fitting_sum_is_returned(s2);
    } else {
        lemma_overflowing_sum_is_absent(s1);
        lemma_overflowing_sum_is_absent(s2);
    }
}

} // verus!
