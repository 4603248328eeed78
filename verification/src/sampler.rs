//! The sampler's reduction: from the timings of a set of concurrent trials
//! to their arithmetic mean.

use crate::duration::{max_nanos, Duration};
use vstd::prelude::*;

verus! {

/// The sum of `samples`, in nanoseconds.
pub open spec fn total_nanos(samples: Seq<Duration>) -> nat
    decreases samples.len(),
{
    if samples.len() == 0 {
        0
    } else {
        total_nanos(samples.drop_last()) + samples.last()@
    }
}

/// The sum of `samples` divided by `count`, in whole nanoseconds.
pub open spec fn mean_nanos(samples: Seq<Duration>, count: nat) -> nat {
    total_nanos(samples) / count
}

/// Every one of `samples` is at least `low` and at most `high` nanoseconds
/// long.
pub open spec fn samples_within(samples: Seq<Duration>, low: nat, high: nat) -> bool {
    forall|i: int| 0 <= i < samples.len() ==> low <= (#[trigger] samples[i])@ <= high
}

/// The sum of samples lies between as many times their lower bound and as
/// many times their upper bound.
pub proof fn lemma_total_within(samples: Seq<Duration>, low: nat, high: nat)
    requires
        samples_within(samples, low, high),
    ensures
        samples.len() * low <= total_nanos(samples) <= samples.len() * high,
    decreases samples.len(),
{
    if samples.len() > 0 {
        let front = samples.drop_last();
        assert(samples_within(front, low, high));
        lemma_total_within(front, low, high);
        assert(samples.len() * low == front.len() * low + low) by (nonlinear_arith)
            requires
                samples.len() == front.len() + 1,
        ;
        assert(samples.len() * high == front.len() * high + high) by (nonlinear_arith)
            requires
                samples.len() == front.len() + 1,
        ;
    } else {
        assert(samples.len() * low == 0 && samples.len() * high == 0) by (nonlinear_arith)
            requires
                samples.len() == 0,
        ;
    }
}

/// The mean is the sum divided by the count and rounded down to a whole
/// nanosecond: `count` times the mean falls short of the sum by less than
/// `count`.
pub proof fn lemma_mean_rounds_down(samples: Seq<Duration>, count: nat)
    requires
        count > 0,
    ensures
        count * mean_nanos(samples, count) <= total_nanos(samples) < count * mean_nanos(
            samples,
            count,
        ) + count,
{
    let total = total_nanos(samples);
    assert(count * (total / count) <= total < count * (total / count) + count)
        by (nonlinear_arith)
        requires
            count > 0,
    ;
}

/// The mean of as many samples as the count lies within any bounds that
/// all the samples lie within.
pub proof fn lemma_mean_within(samples: Seq<Duration>, low: nat, high: nat)
    requires
        samples.len() > 0,
        samples_within(samples, low, high),
    ensures
        low <= mean_nanos(samples, samples.len()) <= high,
{
    lemma_total_within(samples, low, high);
    let total = total_nanos(samples);
    let count = samples.len();
    assert(low <= total / count <= high) by (nonlinear_arith)
        requires
            count > 0,
            count * low <= total <= count * high,
    ;
}

/// The sum of samples is the sum of the others and the one at `i`.
proof fn lemma_total_remove(samples: Seq<Duration>, i: int)
    requires
        0 <= i < samples.len(),
    ensures
        total_nanos(samples) == total_nanos(samples.remove(i)) + samples[i]@,
    decreases samples.len(),
{
    if i < samples.len() - 1 {
        lemma_total_remove(samples.drop_last(), i);
        assert(samples.remove(i).drop_last() =~= samples.drop_last().remove(i));
    }
}

/// The mean does not depend on the order in which the trials' timings
/// stand: two sequences of the same samples have the same sum and the same
/// mean.
pub proof fn lemma_mean_ignores_order(first: Seq<Duration>, second: Seq<Duration>, count: nat)
    requires
        first.to_multiset() =~= second.to_multiset(),
    ensures
        total_nanos(first) == total_nanos(second),
        mean_nanos(first, count) == mean_nanos(second, count),
    decreases first.len(),
{
    first.to_multiset_ensures();
    second.to_multiset_ensures();
    if first.len() > 0 {
        let sample = first.last();
        let front = first.drop_last();
        front.to_multiset_ensures();
        assert(front.push(sample) =~= first);
        assert(second.to_multiset().count(sample) > 0);
        assert(second.contains(sample));
        let i = choose|i: int| 0 <= i < second.len() && second[i] == sample;
        let others = second.remove(i);
        assert(others.to_multiset() =~= front.to_multiset());
        lemma_mean_ignores_order(front, others, count);
        lemma_total_remove(second, i);
    }
}

/// The arithmetic mean of `samples`, the timings of `count` trials, rounded
/// down to a whole nanosecond.
pub fn mean(samples: &Vec<Duration>, count: u32) -> (mean: Duration)
    requires
        count > 0,
        samples.len() == count,
    ensures
        mean.wf(),
        mean@ == mean_nanos(samples@, count as nat),
{
    let mut total: u128 = 0;
    let mut i: usize = 0;
    while i < samples.len()
        invariant
            i <= samples.len(),
            samples.len() <= u32::MAX,
            total == total_nanos(samples@.take(i as int)),
            total <= i * max_nanos(),
        decreases samples.len() - i,
    {
        let nanos: u128 = samples[i].as_nanos();
        proof {
            assert(samples@.take(i + 1).drop_last() =~= samples@.take(i as int));
            let bound = max_nanos();
            assert((i + 1) * bound == i * bound + bound && (i + 1) * bound <= u128::MAX)
                by (nonlinear_arith)
                requires
                    i < u32::MAX,
                    bound < 0x1_0000_0000_0000_0000_0000_0000,
            ;
        }
        total = total + nanos;
        i = i + 1;
    }
    proof {
        assert(samples@.take(i as int) =~= samples@);
        let bound = max_nanos();
        assert(total / (count as u128) <= bound) by (nonlinear_arith)
            requires
                count > 0,
                total <= count * bound,
        ;
    }
    Duration::from_nanos(total / (count as u128))
}

/// What the sampler returns once its `count` concurrent trials have been
/// joined: their failure, if the join failed, and else the mean of their
/// timings. A failed join leaves no timings, so it never yields a mean.
pub fn time_many<E>(trials: Result<Vec<Duration>, E>, count: u32) -> (outcome: Result<Duration, E>)
    requires
        count > 0,
        trials matches Ok(samples) ==> samples.len() == count,
    ensures
        match trials {
            Ok(samples) => outcome matches Ok(mean) && mean.wf() && mean@ == mean_nanos(
                samples@,
                count as nat,
            ),
            Err(error) => outcome == Err::<Duration, E>(error),
        },
{
    match trials {
        Ok(samples) => Ok(mean(&samples, count)),
        Err(error) => Err(error),
    }
}

} // verus!
