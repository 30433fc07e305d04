//! Sums over sequences, and how they move when a sequence changes.
use vstd::prelude::*;

verus! {

/// The sum of the elements of `s`.
pub open spec fn sum(s: Seq<int>) -> int
    decreases s.len(),
{
    if s.len() == 0 {
        0
    } else {
        sum(s.drop_last()) + s.last()
    }
}

/// Appending an element adds it to the sum.
pub proof fn lemma_sum_push(s: Seq<int>, x: int)
    ensures
        sum(s.push(x)) == sum(s) + x,
{
    assert(s.push(x).drop_last() =~= s);
}

/// Replacing an element moves the sum by the difference.
pub proof fn lemma_sum_update(s: Seq<int>, i: int, x: int)
    requires
        0 <= i < s.len(),
    ensures
        sum(s.update(i, x)) == sum(s) - s[i] + x,
    decreases s.len(),
{
    if i == s.len() - 1 {
        assert(s.update(i, x).drop_last() =~= s.drop_last());
    } else {
        assert(s.update(i, x).drop_last() =~= s.drop_last().update(i, x));
        lemma_sum_update(s.drop_last(), i, x);
    }
}

/// Taking an element out takes it off the sum.
pub proof fn lemma_sum_remove(s: Seq<int>, i: int)
    requires
        0 <= i < s.len(),
    ensures
        sum(s.remove(i)) == sum(s) - s[i],
    decreases s.len(),
{
    if i == s.len() - 1 {
        assert(s.remove(i) =~= s.drop_last());
    } else {
        assert(s.remove(i).drop_last() =~= s.drop_last().remove(i));
        lemma_sum_remove(s.drop_last(), i);
    }
}

/// Where no element is negative, none is above the sum.
pub proof fn lemma_sum_bounds(s: Seq<int>, i: int)
    requires
        forall|k: int| 0 <= k < s.len() ==> s[k] >= 0,
        0 <= i < s.len(),
    ensures
        0 <= s[i] <= sum(s),
    decreases s.len(),
{
    lemma_sum_nonnegative(s.drop_last());
    if i < s.len() - 1 {
        lemma_sum_bounds(s.drop_last(), i);
    }
}

/// Where no element is negative, the sum is not.
pub proof fn lemma_sum_nonnegative(s: Seq<int>)
    requires
        forall|k: int| 0 <= k < s.len() ==> s[k] >= 0,
    ensures
        sum(s) >= 0,
    decreases s.len(),
{
    if s.len() > 0 {
        lemma_sum_nonnegative(s.drop_last());
    }
}

/// The sum of differences is the difference of the sums.
pub proof fn lemma_sum_difference(a: Seq<int>, b: Seq<int>, d: Seq<int>)
    requires
        a.len() == b.len(),
        a.len() == d.len(),
        forall|k: int| 0 <= k < a.len() ==> d[k] == a[k] - b[k],
    ensures
        sum(d) == sum(a) - sum(b),
    decreases a.len(),
{
    if a.len() > 0 {
        lemma_sum_difference(a.drop_last(), b.drop_last(), d.drop_last());
    }
}

} // verus!
