//! The buckets of a latency histogram: which bucket counts an observation,
//! and what a reader of the cumulative counts sees of it.

use vstd::prelude::*;

verus! {

/// Upper bounds of the latency buckets, in nanoseconds: 5 ms up to 10 s.
pub open spec fn latency_bounds() -> Seq<u64> {
    seq![
        5_000_000u64,
        10_000_000u64,
        25_000_000u64,
        50_000_000u64,
        100_000_000u64,
        250_000_000u64,
        500_000_000u64,
        1_000_000_000u64,
        2_500_000_000u64,
        5_000_000_000u64,
        10_000_000_000u64,
    ]
}

/// The bounds of `latency_bounds`, for the histograms that are made from them.
pub fn latency_bucket_bounds() -> (bounds: Vec<u64>)
    ensures
        bounds@ == latency_bounds(),
{
    let mut bounds: Vec<u64> = Vec::new();
    bounds.push(5_000_000);
    bounds.push(10_000_000);
    bounds.push(25_000_000);
    bounds.push(50_000_000);
    bounds.push(100_000_000);
    bounds.push(250_000_000);
    bounds.push(500_000_000);
    bounds.push(1_000_000_000);
    bounds.push(2_500_000_000);
    bounds.push(5_000_000_000);
    bounds.push(10_000_000_000);
    assert(bounds@ =~= latency_bounds());
    bounds
}

/// Index of the first bound that `nanos` does not exceed; the number of
/// bounds where it exceeds them all.
pub open spec fn first_bucket(bounds: Seq<u64>, nanos: u64) -> int
    decreases bounds.len(),
{
    if bounds.len() == 0 || bounds[0] >= nanos {
        0
    } else {
        1 + first_bucket(bounds.drop_first(), nanos)
    }
}

/// The bucket an observation of `nanos` is counted in. Index 11 is the bucket
/// without a bound.
pub open spec fn latency_bucket(nanos: u64) -> int {
    first_bucket(latency_bounds(), nanos)
}

/// The buckets of a histogram nothing was observed in: one for each bound and
/// one without a bound.
pub open spec fn empty_buckets() -> Seq<u64> {
    Seq::new(12, |i: int| 0u64)
}

/// The buckets after one more observation of `nanos`.
pub open spec fn observed(buckets: Seq<u64>, nanos: u64) -> Seq<u64> {
    buckets.update(latency_bucket(nanos), (buckets[latency_bucket(nanos)] + 1) as u64)
}

/// How many observations a histogram counted: the sum of its buckets.
pub open spec fn observations(buckets: Seq<u64>) -> nat
    decreases buckets.len(),
{
    if buckets.len() == 0 {
        0
    } else {
        observations(buckets.drop_last()) + buckets.last() as nat
    }
}

/// What an exposition shows for bucket `i`: the observations counted in it
/// and in every bucket before it.
pub open spec fn cumulative(buckets: Seq<u64>, i: int) -> nat {
    observations(buckets.take(i + 1))
}

/// Whether each bound is below the next.
pub open spec fn increasing(bounds: Seq<u64>) -> bool {
    forall|i: int, j: int| 0 <= i < j < bounds.len() ==> bounds[i] < bounds[j]
}

/// The first bucket is the only candidate: every bound before it is below
/// the observation, and its own bound is not.
pub proof fn lemma_first_bucket(bounds: Seq<u64>, nanos: u64)
    ensures
        0 <= first_bucket(bounds, nanos) <= bounds.len(),
        forall|i: int| 0 <= i < first_bucket(bounds, nanos) ==> bounds[i] < nanos,
        first_bucket(bounds, nanos) < bounds.len() ==> bounds[first_bucket(bounds, nanos)] >= nanos,
    decreases bounds.len(),
{
    if bounds.len() == 0 || bounds[0] >= nanos {
    } else {
        let rest = bounds.drop_first();
        lemma_first_bucket(rest, nanos);
        let k = first_bucket(rest, nanos);
        assert forall|i: int| 0 <= i < 1 + k implies bounds[i] < nanos by {
            if i > 0 {
                assert(rest[i - 1] == bounds[i]);
            }
        }
        if k < rest.len() {
            assert(rest[k] == bounds[k + 1]);
        }
    }
}

/// Nothing was observed in empty buckets.
pub proof fn lemma_no_observations(n: nat)
    ensures
        observations(Seq::new(n, |i: int| 0u64)) == 0,
    decreases n,
{
    if n > 0 {
        assert(Seq::new(n, |i: int| 0u64).drop_last() =~= Seq::new((n - 1) as nat, |i: int| 0u64));
        lemma_no_observations((n - 1) as nat);
    }
}

/// A changed bucket changes the sum by as much.
pub proof fn lemma_observations_update(buckets: Seq<u64>, i: int, value: u64)
    requires
        0 <= i < buckets.len(),
    ensures
        observations(buckets.update(i, value)) == observations(buckets) - buckets[i] + value,
        buckets[i] <= observations(buckets),
    decreases buckets.len(),
{
    let last = buckets.len() - 1;
    if i == last {
        assert(buckets.update(i, value).drop_last() =~= buckets.drop_last());
    } else {
        assert(buckets.update(i, value).drop_last() =~= buckets.drop_last().update(i, value));
        lemma_observations_update(buckets.drop_last(), i, value);
    }
}

/// One observation more is counted in the bucket of `nanos`, which the
/// histogram has, and in no other.
pub proof fn lemma_observed(buckets: Seq<u64>, nanos: u64)
    requires
        buckets.len() == 12,
        observations(buckets) < u64::MAX,
    ensures
        0 <= latency_bucket(nanos) < 12,
        observed(buckets, nanos).len() == 12,
        observed(buckets, nanos)[latency_bucket(nanos)] == buckets[latency_bucket(nanos)] + 1,
        observations(observed(buckets, nanos)) == observations(buckets) + 1,
{
    lemma_first_bucket(latency_bounds(), nanos);
    let k = latency_bucket(nanos);
    lemma_observations_update(buckets, k, (buckets[k] + 1) as u64);
}

/// The cumulative-histogram law. An observation adds one to the cumulative
/// count of every bucket whose bound is not below it and to that of the
/// bucket without a bound, leaves the other cumulative counts as they were,
/// and adds one to the number of observations.
pub proof fn lemma_cumulative_histogram(buckets: Seq<u64>, nanos: u64)
    requires
        buckets.len() == 12,
        observations(buckets) < u64::MAX,
    ensures
        forall|i: int|
            0 <= i < 11 ==> #[trigger] cumulative(observed(buckets, nanos), i) == cumulative(
                buckets,
                i,
            ) + (if latency_bounds()[i] >= nanos {
                1nat
            } else {
                0nat
            }),
        cumulative(observed(buckets, nanos), 11) == cumulative(buckets, 11) + 1,
        observations(observed(buckets, nanos)) == observations(buckets) + 1,
{
    lemma_first_bucket(latency_bounds(), nanos);
    lemma_observed(buckets, nanos);
    let k = latency_bucket(nanos);
    let after = observed(buckets, nanos);
    let bounds = latency_bounds();
    assert(increasing(bounds));
    assert forall|i: int| 0 <= i < 12 implies cumulative(after, i) == cumulative(buckets, i) + (if i
        >= k {
        1nat
    } else {
        0nat
    }) by {
        if i >= k {
            assert(after.take(i + 1) =~= buckets.take(i + 1).update(k, (buckets[k] + 1) as u64));
            lemma_observations_update(buckets.take(i + 1), k, (buckets[k] + 1) as u64);
        } else {
            assert(after.take(i + 1) =~= buckets.take(i + 1));
        }
    }
    assert forall|i: int| 0 <= i < 11 implies #[trigger] cumulative(after, i) == cumulative(
        buckets,
        i,
    ) + (if bounds[i] >= nanos {
        1nat
    } else {
        0nat
    }) by {
        if i >= k {
            assert(bounds[k] >= nanos);
            assert(bounds[i] >= bounds[k]);
        } else {
            assert(bounds[i] < nanos);
        }
    }
    assert(buckets.take(12) =~= buckets);
    assert(after.take(12) =~= after);
}

} // verus!
