//! The mathematical model of a tally vector: an ordered sequence of
//! non-negative counters that only ever grows, padded with zeroes up to the
//! highest option index that has received a vote, and mutated by exactly one
//! operation: an increment of a single slot.

use vstd::prelude::*;

verus! {

/// The sum of all counters in a tally vector.
pub open spec fn sum_of(s: Seq<u64>) -> int
    decreases s.len(),
{
    if s.len() == 0 {
        0
    } else {
        sum_of(s.drop_last()) + s.last()
    }
}

/// `s` padded with zero-valued entries until its length is at least `n`.
/// A vector that is already long enough is left unchanged.
pub open spec fn padded_to(s: Seq<u64>, n: int) -> Seq<u64> {
    if n <= s.len() {
        s
    } else {
        s + Seq::new((n - s.len()) as nat, |j: int| 0u64)
    }
}

/// The tally vector after one vote lands on option `i`: the vector is first
/// padded so that index `i` exists, then the counter at `i` goes up by one.
pub open spec fn bumped_at(s: Seq<u64>, i: int) -> Seq<u64>
    recommends
        0 <= i,
{
    let p = padded_to(s, i + 1);
    p.update(i, (p[i] + 1) as u64)
}

/// The counter at index `k`, reading a slot beyond the end of the vector as
/// the zero it would be padded with.
pub open spec fn entry(s: Seq<u64>, k: int) -> u64 {
    if 0 <= k < s.len() {
        s[k]
    } else {
        0
    }
}

/// A sum of non-negative counters is non-negative.
pub proof fn lemma_sum_nonneg(s: Seq<u64>)
    ensures
        sum_of(s) >= 0,
    decreases s.len(),
{
    if s.len() > 0 {
        lemma_sum_nonneg(s.drop_last());
    }
}

/// No single counter exceeds the sum of the whole vector.
pub proof fn lemma_elem_le_sum(s: Seq<u64>, i: int)
    requires
        0 <= i < s.len(),
    ensures
        s[i] <= sum_of(s),
    decreases s.len(),
{
    if i == s.len() - 1 {
        lemma_sum_nonneg(s.drop_last());
    } else {
        lemma_elem_le_sum(s.drop_last(), i);
    }
}

/// Overwriting one slot changes the sum by the difference at that slot.
pub proof fn lemma_sum_update(s: Seq<u64>, i: int, v: u64)
    requires
        0 <= i < s.len(),
    ensures
        sum_of(s.update(i, v)) == sum_of(s) - s[i] + v,
    decreases s.len(),
{
    if i == s.len() - 1 {
        assert(s.update(i, v).drop_last() =~= s.drop_last());
    } else {
        assert(s.update(i, v).drop_last() =~= s.drop_last().update(i, v));
        lemma_sum_update(s.drop_last(), i, v);
    }
}

/// Zero-padding never changes the sum.
pub proof fn lemma_sum_padded(s: Seq<u64>, n: int)
    ensures
        sum_of(padded_to(s, n)) == sum_of(s),
    decreases n - s.len(),
{
    if n > s.len() {
        let shorter = padded_to(s, n - 1);
        assert(padded_to(s, n).drop_last() =~= shorter);
        lemma_sum_padded(s, n - 1);
    }
}

/// The sum of a prefix, extended by one element.
pub proof fn lemma_sum_take_succ(s: Seq<u64>, i: int)
    requires
        0 <= i < s.len(),
    ensures
        sum_of(s.take(i + 1)) == sum_of(s.take(i)) + s[i],
{
    assert(s.take(i + 1).drop_last() =~= s.take(i));
}

/// One vote changes exactly one entry: at `i` the counter goes up by one,
/// every other index keeps the counter it had (or the zero it stood for).
pub proof fn lemma_bumped_entry(s: Seq<u64>, i: int, k: int)
    requires
        0 <= i,
    ensures
        bumped_at(s, i).len() == if s.len() >= i + 1 {
            s.len() as int
        } else {
            i + 1
        },
        k == i ==> entry(bumped_at(s, i), k) == ((entry(s, i) + 1) as u64),
        k != i ==> entry(bumped_at(s, i), k) == entry(s, k),
{
}

/// Votes commute: the tally vector after votes on two options is the same
/// whichever of the two lands first.
pub proof fn lemma_bump_commutes(s: Seq<u64>, i: int, j: int)
    requires
        0 <= i,
        0 <= j,
    ensures
        bumped_at(bumped_at(s, i), j) == bumped_at(bumped_at(s, j), i),
{
    let a = bumped_at(bumped_at(s, i), j);
    let b = bumped_at(bumped_at(s, j), i);
    assert forall|k: int| 0 <= k < a.len() implies a[k] == b[k] by {
        lemma_bumped_entry(s, i, k);
        lemma_bumped_entry(s, j, k);
        lemma_bumped_entry(bumped_at(s, i), j, k);
        lemma_bumped_entry(bumped_at(s, j), i, k);
    }
    assert(a =~= b);
}

/// A prefix never sums to more than the whole vector.
pub proof fn lemma_sum_take_le(s: Seq<u64>, i: int)
    requires
        0 <= i <= s.len(),
    ensures
        sum_of(s.take(i)) <= sum_of(s),
    decreases s.len() - i,
{
    if i == s.len() {
        assert(s.take(i) =~= s);
    } else {
        lemma_sum_take_succ(s, i);
        lemma_sum_take_le(s, i + 1);
    }
}

} // verus!
