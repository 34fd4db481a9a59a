use vstd::prelude::*;

verus! {

/// Returns the largest value in a non-empty slice: an element of the slice
/// that no other element exceeds.
pub fn largest(list: &[i32]) -> (max: i32)
    requires
        list.len() > 0,
    ensures
        list@.contains(max),
        forall|i: int| 0 <= i < list@.len() ==> list@[i] <= max,
{
    let mut max = list[0];
    let mut idx: usize = 1;
    while idx < list.len()
        invariant
            1 <= idx <= list@.len(),
            exists|j: int| 0 <= j < idx && list@[j] == max,
            forall|i: int| 0 <= i < idx ==> list@[i] <= max,
        decreases list@.len() - idx,
    {
        if list[idx] > max {
            max = list[idx];
        }
        idx = idx + 1;
    }
    max
}

/// The sum of `2 * x` over the strictly positive elements `x` of `s`,
/// taken in order.
pub open spec fn doubled_positive_sum(s: Seq<i32>) -> int
    decreases s.len(),
{
    if s.len() == 0 {
        0
    } else {
        doubled_positive_sum(s.drop_last()) + if s.last() > 0 {
            2 * s.last()
        } else {
            0
        }
    }
}

/// Every element contributes a non-negative amount, so the sum is non-negative.
pub proof fn lemma_doubled_positive_sum_nonneg(s: Seq<i32>)
    ensures
        doubled_positive_sum(s) >= 0,
    decreases s.len(),
{
    if s.len() > 0 {
        lemma_doubled_positive_sum_nonneg(s.drop_last());
    }
}

/// The sum over a prefix never exceeds the sum over the whole sequence.
pub proof fn lemma_doubled_positive_sum_take_le(s: Seq<i32>, i: int)
    requires
        0 <= i <= s.len(),
    ensures
        doubled_positive_sum(s.take(i)) <= doubled_positive_sum(s),
    decreases s.len() - i,
{
    if i < s.len() {
        assert(s.take(i + 1).drop_last() =~= s.take(i));
        assert(s.take(i + 1).last() == s[i]);
        lemma_doubled_positive_sum_take_le(s, i + 1);
    } else {
        assert(s.take(i) =~= s);
    }
}

/// Filters the positive values, doubles them, and sums the results.
pub fn zero_cost_example(values: &[i32]) -> (total: i32)
    requires
        doubled_positive_sum(values@) <= i32::MAX,
    ensures
        total == doubled_positive_sum(values@),
{
    let mut total: i32 = 0;
    let mut idx: usize = 0;
    while idx < values.len()
        invariant
            0 <= idx <= values@.len(),
            total == doubled_positive_sum(values@.take(idx as int)),
            doubled_positive_sum(values@) <= i32::MAX,
        decreases values@.len() - idx,
    {
        let x = values[idx];
        proof {
            assert(values@.take(idx as int + 1).drop_last() =~= values@.take(idx as int));
            assert(values@.take(idx as int + 1).last() == values@[idx as int]);
            lemma_doubled_positive_sum_take_le(values@, idx as int + 1);
            lemma_doubled_positive_sum_nonneg(values@.take(idx as int));
        }
        if x > 0 {
            total = total + x * 2;
        }
        idx = idx + 1;
    }
    proof {
        assert(values@.take(values@.len() as int) =~= values@);
    }
    total
}

} // verus!
