//! The instrumentation of requests: every answered request is counted once
//! and its latency observed once.

use vstd::prelude::*;
use vstd::string::*;
use crate::observability::buckets::{
    cumulative,
    latency_bounds,
    lemma_cumulative_histogram,
    lemma_no_observations,
    lemma_observed,
    observations,
    observed,
};
use crate::observability::families::{buckets_of, count_of};
use crate::observability::labels::{
    label_key,
    lemma_label_key_injective,
    HttpRequestLabels,
    LabelKey,
    Method,
};
use crate::observability::metrics::{
    no_requests,
    recorded_request,
    within_recorded,
    HttpMetrics,
    LatencyClass,
    MetricsRegistry,
    MetricsView,
};

verus! {

/// The latency family of a response: a status code above 200 and below 400
/// is a success, every other one, 200 itself included, is not.
pub open spec fn latency_class(status_code: u32) -> LatencyClass {
    if 200 < status_code && status_code < 400 {
        LatencyClass::Success
    } else {
        LatencyClass::Error
    }
}

/// The latency family in which a response with this status code is observed.
pub fn classify(status_code: u32) -> (class: LatencyClass)
    ensures
        class == latency_class(status_code),
        class == LatencyClass::Success <==> 200 < status_code < 400,
{
    if status_code > 200 && status_code < 400 {
        LatencyClass::Success
    } else {
        LatencyClass::Error
    }
}

/// The status code a request is recorded with when its handler panicked: the
/// one that the panic boundary answers with.
pub const PANIC_STATUS: u16 = 500;

/// A request whose handler panicked is observed as an error.
pub proof fn lemma_panic_is_an_error()
    ensures
        latency_class(PANIC_STATUS as u32) == LatencyClass::Error,
{
}

/// The path a request is labelled with: the route that matched it, or its
/// raw path where no route did.
pub open spec fn resolved_path(matched_path: Option<&str>, raw_path: &str) -> Seq<char> {
    match matched_path {
        Some(route) => route@,
        None => raw_path@,
    }
}

/// The path a request is labelled with.
pub fn resolve_path(matched_path: Option<&str>, raw_path: &str) -> (path: String)
    ensures
        path@ == resolved_path(matched_path, raw_path),
{
    match matched_path {
        Some(route) => String::from_str(route),
        None => String::from_str(raw_path),
    }
}

/// Records one answered request: counts it under its method, resolved path
/// and status code, and observes the `elapsed_nanos` it took in the latency
/// family of its status code. Says whether the request was recorded: it is,
/// unless as many were recorded as the counters can hold.
pub fn metrics_middleware(
    state: &mut HttpMetrics,
    method: &str,
    matched_path: Option<&str>,
    raw_path: &str,
    status_code: u16,
    elapsed_nanos: u64,
) -> (counted: bool)
    requires
        old(state).wf(),
    ensures
        final(state).wf(),
        final(state)@ == recorded_request(
            old(state)@,
            label_key(
                Method::named(method@),
                resolved_path(matched_path, raw_path),
                status_code as u32,
            ),
            latency_class(status_code as u32),
            elapsed_nanos,
        ),
        counted == (old(state)@.recorded < u64::MAX),
        forall|registry: MetricsRegistry| #[trigger]
            old(state).exposed_by(&registry) ==> final(state).exposed_by(&registry),
{
    let labels = HttpRequestLabels {
        method: Method::from_name(method),
        path: resolve_path(matched_path, raw_path),
        status_code: status_code as u32,
    };
    state.record(&labels, classify(labels.status_code), elapsed_nanos)
}

/// One answered request, as the metrics see it.
pub struct Answered {
    pub method: Method,
    pub path: Seq<char>,
    pub status_code: u32,
    pub elapsed_nanos: u64,
}

/// The metrics after the requests of `answered` were recorded in their
/// order, starting from the metrics `start`.
pub open spec fn replayed_from(start: MetricsView, answered: Seq<Answered>) -> MetricsView
    decreases answered.len(),
{
    if answered.len() == 0 {
        start
    } else {
        recorded_request(
            replayed_from(start, answered.drop_last()),
            label_key(answered.last().method, answered.last().path, answered.last().status_code),
            latency_class(answered.last().status_code),
            answered.last().elapsed_nanos,
        )
    }
}

/// The metrics after the requests of `answered` were recorded in their
/// order, starting from metrics that have seen none.
pub open spec fn replayed(answered: Seq<Answered>) -> MetricsView {
    replayed_from(no_requests(), answered)
}

/// The latency family of `class`.
pub open spec fn latencies(view: MetricsView, class: LatencyClass) -> Map<
    LabelKey,
    Seq<u64>,
> {
    match class {
        LatencyClass::Success => view.latency_success,
        LatencyClass::Error => view.latency_error,
    }
}

/// The latency family a response of `class` is not observed in.
pub open spec fn other_class(class: LatencyClass) -> LatencyClass {
    match class {
        LatencyClass::Success => LatencyClass::Error,
        LatencyClass::Error => LatencyClass::Success,
    }
}


/// How many requests of `answered` have this method, path and status code.
pub open spec fn occurrences(
    answered: Seq<Answered>,
    method: Method,
    path: Seq<char>,
    status_code: u32,
) -> nat
    decreases answered.len(),
{
    if answered.len() == 0 {
        0
    } else {
        occurrences(answered.drop_last(), method, path, status_code) + (if answered.last().method
            == method && answered.last().path == path && answered.last().status_code
            == status_code {
            1nat
        } else {
            0nat
        })
    }
}

/// What one request does to valid metrics with room for it. Its counter
/// grows by one. In the latency family of its class the histogram of its
/// label set counts one observation more: the cumulative count of every
/// bucket whose bound is not below the latency grows by one, as does that of
/// the bucket without a bound, and the other cumulative counts stay. The
/// other latency family is untouched, and the metrics stay valid.
pub proof fn lemma_request_recorded(
    view: MetricsView,
    key: LabelKey,
    class: LatencyClass,
    nanos: u64,
)
    requires
        within_recorded(view),
        view.recorded < u64::MAX,
    ensures
        within_recorded(recorded_request(view, key, class, nanos)),
        recorded_request(view, key, class, nanos).recorded == view.recorded + 1,
        count_of(recorded_request(view, key, class, nanos).total_requests, key) == count_of(
            view.total_requests,
            key,
        ) + 1,
        latencies(recorded_request(view, key, class, nanos), other_class(class)) == latencies(
            view,
            other_class(class),
        ),
        buckets_of(latencies(recorded_request(view, key, class, nanos), class), key) == observed(
            buckets_of(latencies(view, class), key),
            nanos,
        ),
        observations(buckets_of(latencies(recorded_request(view, key, class, nanos), class), key))
            == observations(buckets_of(latencies(view, class), key)) + 1,
        forall|i: int|
            0 <= i < 11 ==> #[trigger] cumulative(
                buckets_of(latencies(recorded_request(view, key, class, nanos), class), key),
                i,
            ) == cumulative(buckets_of(latencies(view, class), key), i) + (if latency_bounds()[i]
                >= nanos {
                1nat
            } else {
                0nat
            }),
        cumulative(
            buckets_of(latencies(recorded_request(view, key, class, nanos), class), key),
            11,
        ) == cumulative(buckets_of(latencies(view, class), key), 11) + 1,
{
    let after = recorded_request(view, key, class, nanos);
    let before = buckets_of(latencies(view, class), key);
    if !latencies(view, class).contains_key(key) {
        lemma_no_observations(12);
    }
    lemma_observed(before, nanos);
    lemma_cumulative_histogram(before, nanos);
    assert(latencies(after, class) == latencies(view, class).insert(key, observed(before, nanos)));
    assert forall|other: LabelKey|
        latencies(after, class).contains_key(other) implies (#[trigger] latencies(
        after,
        class,
    )[other]).len() == 12 && observations(latencies(after, class)[other]) <= after.recorded by {
        if other != key {
            assert(latencies(view, class).contains_key(other));
            assert(latencies(view, class)[other].len() == 12);
        }
    }
    assert forall|other: LabelKey|
        latencies(after, other_class(class)).contains_key(other) implies (#[trigger] latencies(
        after,
        other_class(class),
    )[other]).len() == 12 && observations(latencies(after, other_class(class))[other])
        <= after.recorded by {
        assert(latencies(view, other_class(class)).contains_key(other));
        assert(latencies(view, other_class(class))[other].len() == 12);
    }
}

/// Counting from any valid state. After a sequence of requests for which
/// the counters have room, the counter of a label set has grown by the
/// number of requests with that method, path and status code, and the
/// metrics are valid still.
pub proof fn lemma_counts_every_request(
    start: MetricsView,
    answered: Seq<Answered>,
    method: Method,
    path: Seq<char>,
    status_code: u32,
)
    requires
        within_recorded(start),
        start.recorded + answered.len() <= u64::MAX,
    ensures
        within_recorded(replayed_from(start, answered)),
        replayed_from(start, answered).recorded == start.recorded + answered.len(),
        count_of(replayed_from(start, answered).total_requests, label_key(method, path, status_code))
            == count_of(start.total_requests, label_key(method, path, status_code)) + occurrences(
            answered,
            method,
            path,
            status_code,
        ),
        occurrences(answered, method, path, status_code) <= answered.len(),
    decreases answered.len(),
{
    if answered.len() > 0 {
        let last = answered.last();
        let before = replayed_from(start, answered.drop_last());
        lemma_counts_every_request(start, answered.drop_last(), method, path, status_code);
        lemma_label_key_injective(
            last.method,
            last.path,
            last.status_code,
            method,
            path,
            status_code,
        );
        lemma_request_recorded(
            before,
            label_key(last.method, last.path, last.status_code),
            latency_class(last.status_code),
            last.elapsed_nanos,
        );
    }
}

/// Exactly-once counting. After any sequence of requests that the counters
/// can hold, the counter of a label set stands at the number of requests
/// with that method, path and status code. A label set that no request had
/// has no counter.
pub proof fn lemma_exactly_once(
    answered: Seq<Answered>,
    method: Method,
    path: Seq<char>,
    status_code: u32,
)
    requires
        answered.len() <= u64::MAX,
    ensures
        replayed(answered).recorded == answered.len(),
        count_of(replayed(answered).total_requests, label_key(method, path, status_code))
            == occurrences(answered, method, path, status_code),
        replayed(answered).total_requests.contains_key(label_key(method, path, status_code))
            <==> occurrences(answered, method, path, status_code) > 0,
        occurrences(answered, method, path, status_code) <= answered.len(),
    decreases answered.len(),
{
    if answered.len() > 0 {
        let last = answered.last();
        lemma_exactly_once(answered.drop_last(), method, path, status_code);
        lemma_label_key_injective(
            last.method,
            last.path,
            last.status_code,
            method,
            path,
            status_code,
        );
    }
}

} // verus!
