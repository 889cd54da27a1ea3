//! The metric families and the registry of `prometheus_client`, with what the
//! rest of the library relies on them to do. The contracts in this file are
//! not proved: each states what the source of that crate shows.

use vstd::prelude::*;
use prometheus_client::encoding::text::encode;
use prometheus_client::metrics::counter::Counter;
use prometheus_client::metrics::family::Family;
use prometheus_client::metrics::histogram::Histogram;
use prometheus_client::registry::Registry;
use std::sync::atomic::AtomicU64;
use std::time::Duration;
use crate::observability::buckets::{empty_buckets, latency_bucket_bounds, observations, observed};
use crate::observability::exposition::{
    describes,
    end_of_exposition,
    ends_with,
    shows_counters,
    shows_latencies,
};
use crate::observability::labels::{LabelKey, LabelPairs};

verus! {

/// The buckets of the series `key`; those of an empty histogram for a series
/// that was never observed.
pub open spec fn buckets_of(samples: Map<LabelKey, Seq<u64>>, key: LabelKey) -> Seq<u64> {
    if samples.contains_key(key) {
        samples[key]
    } else {
        empty_buckets()
    }
}

/// The value of the series `key`; zero for a series that was never counted.
pub open spec fn count_of(samples: Map<LabelKey, u64>, key: LabelKey) -> u64 {
    if samples.contains_key(key) {
        samples[key]
    } else {
        0
    }
}

/// The successor of a counter value, which starts again at zero after the
/// largest.
pub open spec fn next_count(value: u64) -> u64 {
    if value == u64::MAX {
        0
    } else {
        (value + 1) as u64
    }
}

/// What a counter family holds before its first use.
pub open spec fn no_counters() -> Map<LabelKey, u64> {
    Map::empty()
}

/// What a histogram family holds before its first use.
pub open spec fn no_histograms() -> Map<LabelKey, Seq<u64>> {
    Map::empty()
}

/// `Family<Vec<(String, String)>, Counter<u64, AtomicU64>>` of
/// `prometheus_client`: a family of 64-bit counters, one for each label set
/// it was asked for. The family is kept opaque, since its third parameter is
/// a function pointer; what it holds is `counter_samples`.
#[verifier::external_body]
pub struct CounterFamily {
    inner: Family<LabelPairs, Counter<u64, AtomicU64>>,
}

/// `Family<Vec<(String, String)>, Histogram>` of `prometheus_client`: a
/// family of latency histograms with the buckets of `latency_bounds`, one for
/// each label set it was asked for. Kept opaque as `CounterFamily` is; what it
/// holds is `latency_samples`.
#[verifier::external_body]
pub struct LatencyFamily {
    inner: Family<LabelPairs, Histogram>,
}

/// The counters a family holds: each label set with its value.
pub uninterp spec fn counter_samples(family: CounterFamily) -> Map<LabelKey, u64>;

/// The histograms a family holds: each label set with the number of
/// observations counted in each bucket. The counts are per bucket, not
/// cumulative. The sum of the observed values, which a histogram keeps as a
/// float, is no part of this.
pub uninterp spec fn latency_samples(family: LatencyFamily) -> Map<LabelKey, Seq<u64>>;

/// The families registered with a registry without a unit, in the order of
/// registration: each with its name and the help text the registry keeps for
/// it.
pub uninterp spec fn registered(registry: Registry) -> Seq<(Seq<char>, Seq<char>)>;

/// The prefix a registry writes before every family name, if it has one.
pub uninterp spec fn registry_prefix(registry: Registry) -> Option<Seq<char>>;

/// Whether a registry holds nothing but families of the two kinds of this
/// file, registered without a unit: no label of its own, no collector and no
/// registry below it.
pub uninterp spec fn families_only(registry: Registry) -> bool;

/// Whether `registry` holds, under `name`, a clone of `family`: the two share
/// their counters, so that the registry exposes what the family counts.
pub uninterp spec fn exposes_counters(
    registry: Registry,
    name: Seq<char>,
    family: CounterFamily,
) -> bool;

/// Whether `registry` holds, under `name`, a clone of `family`: the two share
/// their histograms, so that the registry exposes what the family observes.
pub uninterp spec fn exposes_latencies(
    registry: Registry,
    name: Seq<char>,
    family: LatencyFamily,
) -> bool;

/// `registry::Registry` of `prometheus_client`, opaque: what it holds is
/// `registered` and `registry_prefix`.
#[verifier::external_type_specification]
#[verifier::external_body]
pub struct ExRegistry(Registry);

/// `std::fmt::Error`, the error of the text encoder, opaque.
#[verifier::external_type_specification]
#[verifier::external_body]
pub struct ExFmtError(std::fmt::Error);

/// `metrics::histogram::Histogram` of `prometheus_client`, opaque.
#[verifier::external_type_specification]
#[verifier::external_body]
pub struct ExHistogram(Histogram);

/// `Family::default`: a family that holds no counter yet.
#[verifier::external_body]
pub(crate) fn new_counter_family() -> (family: CounterFamily)
    ensures
        counter_samples(family) == no_counters(),
{
    CounterFamily { inner: Family::default() }
}

/// `Histogram::new`: a histogram that has observed nothing, with the bounds
/// of `latency_bucket_bounds`, which it is handed in seconds, and one more
/// bucket without a bound. The families call it for each new label set.
#[verifier::external_body]
fn new_latency_histogram() -> Histogram {
    Histogram::new(
        latency_bucket_bounds().into_iter().map(|n| Duration::from_nanos(n).as_secs_f64()),
    )
}

/// `Family::new_with_constructor`: a family that holds no histogram yet and
/// makes each one with `new_latency_histogram`.
#[verifier::external_body]
pub(crate) fn new_latency_family() -> (family: LatencyFamily)
    ensures
        latency_samples(family) == no_histograms(),
{
    LatencyFamily { inner: Family::new_with_constructor(new_latency_histogram) }
}

/// `Family::get_or_create` followed by `Counter::inc`: the counter of the
/// label set is made on first use, then moves to its successor. No other
/// counter changes, and the family stays the one that its clones share.
#[verifier::external_body]
pub(crate) fn increment(family: &mut CounterFamily, labels: &LabelPairs)
    ensures
        counter_samples(*final(family)) == counter_samples(*old(family)).insert(
            labels.deep_view(),
            next_count(count_of(counter_samples(*old(family)), labels.deep_view())),
        ),
        forall|registry: Registry, name: Seq<char>| #[trigger]
            exposes_counters(registry, name, *old(family)) ==> exposes_counters(
                registry,
                name,
                *final(family),
            ),
{
    family.inner.get_or_create(labels).inc();
}

/// `Family::get_or_create` followed by `Histogram::observe`, which is handed
/// the duration in seconds: the histogram of the label set is made on first
/// use, then counts the observation in the first bucket whose bound is not
/// below it. Bounds and observation reach the histogram through the same
/// conversion from nanoseconds, which keeps their order: it never decreases,
/// and one nanosecond above a bound gives a larger number of seconds than
/// the bound. `observe` adds one to the count of the histogram as well, which
/// must not be at its largest value. No other histogram changes, and the
/// family stays the one that its clones share.
#[verifier::external_body]
pub(crate) fn observe(family: &mut LatencyFamily, labels: &LabelPairs, nanos: u64)
    requires
        observations(buckets_of(latency_samples(*old(family)), labels.deep_view())) < u64::MAX,
    ensures
        latency_samples(*final(family)) == latency_samples(*old(family)).insert(
            labels.deep_view(),
            observed(buckets_of(latency_samples(*old(family)), labels.deep_view()), nanos),
        ),
        forall|registry: Registry, name: Seq<char>| #[trigger]
            exposes_latencies(registry, name, *old(family)) ==> exposes_latencies(
                registry,
                name,
                *final(family),
            ),
{
    family.inner.get_or_create(labels).observe(Duration::from_nanos(nanos).as_secs_f64());
}

/// `Registry::with_prefix`: a registry with that prefix and nothing else.
#[verifier::external_body]
pub(crate) fn registry_with_prefix(prefix: &str) -> (registry: Registry)
    ensures
        registry_prefix(registry) == Some(prefix@),
        registered(registry) == Seq::<(Seq<char>, Seq<char>)>::empty(),
        families_only(registry),
{
    Registry::with_prefix(prefix)
}

/// `Registry::register` of a clone of a counter family: the registry keeps
/// the name and the help text, to which it adds a full stop, after those it
/// has, and under that name the clone, which shares the counters of the
/// family. What it held before it holds still.
#[verifier::external_body]
pub(crate) fn register_counters(
    registry: &mut Registry,
    name: &str,
    help: &str,
    family: &CounterFamily,
)
    ensures
        registry_prefix(*final(registry)) == registry_prefix(*old(registry)),
        registered(*final(registry)) == registered(*old(registry)).push((name@, help@ + "."@)),
        families_only(*old(registry)) ==> families_only(*final(registry)),
        exposes_counters(*final(registry), name@, *family),
        forall|other: Seq<char>, earlier: CounterFamily| #[trigger]
            exposes_counters(*old(registry), other, earlier) ==> exposes_counters(
                *final(registry),
                other,
                earlier,
            ),
        forall|other: Seq<char>, earlier: LatencyFamily| #[trigger]
            exposes_latencies(*old(registry), other, earlier) ==> exposes_latencies(
                *final(registry),
                other,
                earlier,
            ),
{
    registry.register(name, help, family.inner.clone());
}

/// `Registry::register` of a clone of a histogram family: as for a counter
/// family.
#[verifier::external_body]
pub(crate) fn register_latencies(
    registry: &mut Registry,
    name: &str,
    help: &str,
    family: &LatencyFamily,
)
    ensures
        registry_prefix(*final(registry)) == registry_prefix(*old(registry)),
        registered(*final(registry)) == registered(*old(registry)).push((name@, help@ + "."@)),
        families_only(*old(registry)) ==> families_only(*final(registry)),
        exposes_latencies(*final(registry), name@, *family),
        forall|other: Seq<char>, earlier: CounterFamily| #[trigger]
            exposes_counters(*old(registry), other, earlier) ==> exposes_counters(
                *final(registry),
                other,
                earlier,
            ),
        forall|other: Seq<char>, earlier: LatencyFamily| #[trigger]
            exposes_latencies(*old(registry), other, earlier) ==> exposes_latencies(
                *final(registry),
                other,
                earlier,
            ),
{
    registry.register(name, help, family.inner.clone());
}

/// `encoding::text::encode` into a fresh string, for a registry that holds
/// families only. The encoder hands on the errors of the writer and makes
/// none of its own, and a string takes whatever is written, so the text is
/// always there. It holds the help line of every registered family and ends
/// with the end-of-exposition line. Of each family handed in that the
/// registry exposes, it holds the type line and the lines of what the family
/// holds at this moment: the sample line of each counter, and the count line
/// and the bucket lines of each histogram.
#[verifier::external_body]
pub(crate) fn encode_text(
    registry: &Registry,
    counters: &CounterFamily,
    first: &LatencyFamily,
    second: &LatencyFamily,
) -> (text: Result<String, std::fmt::Error>)
    requires
        families_only(*registry),
    ensures
        text is Ok,
        ends_with(text->Ok_0@, end_of_exposition()),
        describes(text->Ok_0@, registry_prefix(*registry), registered(*registry)),
        forall|name: Seq<char>| #[trigger]
            exposes_counters(*registry, name, *counters) ==> shows_counters(
                text->Ok_0@,
                registry_prefix(*registry),
                name,
                counter_samples(*counters),
            ),
        forall|name: Seq<char>| #[trigger]
            exposes_latencies(*registry, name, *first) ==> shows_latencies(
                text->Ok_0@,
                registry_prefix(*registry),
                name,
                latency_samples(*first),
            ),
        forall|name: Seq<char>| #[trigger]
            exposes_latencies(*registry, name, *second) ==> shows_latencies(
                text->Ok_0@,
                registry_prefix(*registry),
                name,
                latency_samples(*second),
            ),
{
    let mut buffer = String::new();
    encode(&mut buffer, registry).map(|_| buffer)
}

} // verus!
