//! The request metrics of the service and the registry that exposes them.

use vstd::prelude::*;
use vstd::string::*;
use prometheus_client::registry::Registry;
use crate::configuration::Settings;
use crate::observability::buckets::{
    lemma_no_observations,
    lemma_observed,
    observations,
    observed,
};
use crate::observability::families::{
    buckets_of,
    count_of,
    counter_samples,
    encode_text,
    exposes_counters,
    exposes_latencies,
    families_only,
    increment,
    latency_samples,
    new_counter_family,
    new_latency_family,
    observe,
    register_counters,
    register_latencies,
    registered,
    registry_prefix,
    registry_with_prefix,
    CounterFamily,
    LatencyFamily,
};
use crate::observability::exposition::{
    describes,
    end_of_exposition,
    ends_with,
    shows_counters,
    shows_latencies,
};
use crate::observability::labels::LabelKey;
use crate::text::same_text;

pub use crate::observability::labels::{HttpRequestLabels, Method};

verus! {

/// The two latency families a response can be observed in.
#[derive(Clone, Copy, Debug, PartialEq, Eq, Structural)]
pub enum LatencyClass {
    Success,
    Error,
}

/// What the request metrics hold.
pub struct MetricsView {
    /// Requests counted for each label set.
    pub total_requests: Map<LabelKey, u64>,
    /// Observations in each bucket, for each label set.
    pub latency_error: Map<LabelKey, Seq<u64>>,
    pub latency_success: Map<LabelKey, Seq<u64>>,
    /// Requests recorded so far, whatever their labels.
    pub recorded: u64,
}

/// The metrics before the first request.
pub open spec fn no_requests() -> MetricsView {
    MetricsView {
        total_requests: Map::empty(),
        latency_error: Map::empty(),
        latency_success: Map::empty(),
        recorded: 0,
    }
}

/// The metrics after one more request with the labels `key`, whose latency
/// of `nanos` is observed in the family of `class`. Once as many requests are
/// recorded as the counters can hold, nothing more is.
pub open spec fn recorded_request(
    view: MetricsView,
    key: LabelKey,
    class: LatencyClass,
    nanos: u64,
) -> MetricsView {
    if view.recorded == u64::MAX {
        view
    } else {
        MetricsView {
            total_requests: view.total_requests.insert(
                key,
                (count_of(view.total_requests, key) + 1) as u64,
            ),
            latency_error: if class == LatencyClass::Error {
                view.latency_error.insert(key, observed(buckets_of(view.latency_error, key), nanos))
            } else {
                view.latency_error
            },
            latency_success: if class == LatencyClass::Success {
                view.latency_success.insert(
                    key,
                    observed(buckets_of(view.latency_success, key), nanos),
                )
            } else {
                view.latency_success
            },
            recorded: (view.recorded + 1) as u64,
        }
    }
}

/// Whether no counter holds more than `limit`.
pub open spec fn counters_within(samples: Map<LabelKey, u64>, limit: u64) -> bool {
    forall|key: LabelKey| samples.contains_key(key) ==> #[trigger] samples[key] <= limit
}

/// Whether every histogram has the twelve latency buckets and no more than
/// `limit` observations.
pub open spec fn histograms_within(samples: Map<LabelKey, Seq<u64>>, limit: u64) -> bool {
    forall|key: LabelKey|
        samples.contains_key(key) ==> (#[trigger] samples[key]).len() == 12 && observations(
            samples[key],
        ) <= limit
}

/// Whether the metrics are as valid metrics are: no counter stands above
/// the number of requests recorded, and every histogram has the latency
/// buckets and no more observations than that.
pub open spec fn within_recorded(view: MetricsView) -> bool {
    &&& counters_within(view.total_requests, view.recorded)
    &&& histograms_within(view.latency_error, view.recorded)
    &&& histograms_within(view.latency_success, view.recorded)
}

/// Label-keyed metrics of the requests the service has answered.
pub struct HttpMetrics {
    total_requests: CounterFamily,
    latency_error: LatencyFamily,
    latency_success: LatencyFamily,
    recorded: u64,
}

impl View for HttpMetrics {
    type V = MetricsView;

    closed spec fn view(&self) -> MetricsView {
        MetricsView {
            total_requests: counter_samples(self.total_requests),
            latency_error: latency_samples(self.latency_error),
            latency_success: latency_samples(self.latency_success),
            recorded: self.recorded,
        }
    }
}

/// Name and help text of the families of `HttpMetrics`, as a registry keeps
/// them.
pub open spec fn http_families() -> Seq<(Seq<char>, Seq<char>)> {
    seq![
        ("total_request"@, "Total amount of requests."@),
        ("latency_error"@, "Latency error."@),
        ("latency_success"@, "Latency success."@),
    ]
}

/// The names of `families`, in their order.
pub open spec fn family_names(families: Seq<(Seq<char>, Seq<char>)>) -> Seq<Seq<char>> {
    Seq::new(families.len(), |i: int| families[i].0)
}

/// Whether a family of that name is among `families`.
pub open spec fn has_name(families: Seq<(Seq<char>, Seq<char>)>, name: Seq<char>) -> bool {
    exists|i: int| 0 <= i < families.len() && (#[trigger] families[i]).0 == name
}

/// Whether one of the names of `http_families` is among `families`.
pub open spec fn has_http_family(families: Seq<(Seq<char>, Seq<char>)>) -> bool {
    has_name(families, "total_request"@) || has_name(families, "latency_error"@) || has_name(
        families,
        "latency_success"@,
    )
}

/// Why families could not be registered.
#[derive(Clone, Copy, Debug, PartialEq, Eq, Structural)]
pub enum RegisterError {
    /// The registry has a family of one of the names already.
    DuplicateFamily,
}

/// Whether `text` shows what the request metrics hold: each family under its
/// name with its type line, every counter with its sample line, and every
/// histogram with its count line and its bucket lines.
pub open spec fn exposition_shows(
    text: Seq<char>,
    prefix: Option<Seq<char>>,
    view: MetricsView,
) -> bool {
    &&& shows_counters(text, prefix, "total_request"@, view.total_requests)
    &&& shows_latencies(text, prefix, "latency_error"@, view.latency_error)
    &&& shows_latencies(text, prefix, "latency_success"@, view.latency_success)
}

/// A registry of metric families that knows the names it holds.
pub struct MetricsRegistry {
    registry: Registry,
    names: Vec<String>,
}

impl MetricsRegistry {
    /// The names of the registered families are kept beside the registry,
    /// which holds families only.
    pub closed spec fn wf(&self) -> bool {
        &&& self.names.deep_view() == family_names(registered(self.registry))
        &&& families_only(self.registry)
    }

    /// The registered families in the order of registration: name and help.
    pub closed spec fn families(&self) -> Seq<(Seq<char>, Seq<char>)> {
        registered(self.registry)
    }

    /// What is written before the name of every family, if anything is.
    pub closed spec fn prefix(&self) -> Option<Seq<char>> {
        registry_prefix(self.registry)
    }

    /// A registry without families.
    pub fn with_prefix(prefix: &str) -> (registry: MetricsRegistry)
        ensures
            registry.wf(),
            registry.prefix() == Some(prefix@),
            registry.families() == Seq::<(Seq<char>, Seq<char>)>::empty(),
    {
        let registry = MetricsRegistry { registry: registry_with_prefix(prefix), names: Vec::new() };
        assert(registry.names.deep_view() =~= family_names(registered(registry.registry)));
        registry
    }

    /// Whether a family of that name is registered.
    pub fn has_family(&self, name: &str) -> (found: bool)
        requires
            self.wf(),
        ensures
            found == has_name(self.families(), name@),
    {
        let ghost families = self.families();
        assert(self.names.deep_view().len() == self.names.len());
        let mut i: usize = 0;
        while i < self.names.len()
            invariant
                self.wf(),
                families == self.families(),
                0 <= i <= self.names.len(),
                self.names.len() == families.len(),
                forall|j: int| 0 <= j < i ==> (#[trigger] families[j]).0 != name@,
            decreases self.names.len() - i,
        {
            assert(self.names.deep_view()[i as int] == families[i as int].0);
            if same_text(self.names[i].as_str(), name) {
                return true;
            }
            i += 1;
        }
        false
    }

    /// The exposition of all registered families in the OpenMetrics text
    /// format, as they are at the moment of the call. It holds the help line
    /// of every registered family and ends with the end-of-exposition line.
    /// Where the registry exposes `metrics`, it shows what they hold at this
    /// moment.
    pub fn encode(&self, metrics: &HttpMetrics) -> (text: String)
        requires
            self.wf(),
        ensures
            ends_with(text@, end_of_exposition()),
            describes(text@, self.prefix(), self.families()),
            metrics.exposed_by(self) ==> exposition_shows(text@, self.prefix(), metrics@),
    {
        match encode_text(
            &self.registry,
            &metrics.total_requests,
            &metrics.latency_error,
            &metrics.latency_success,
        ) {
            Ok(text) => text,
            Err(_) => unreached(),
        }
    }
}

impl HttpMetrics {
    /// No counter and no histogram holds more than was recorded, and every
    /// histogram has the latency buckets.
    pub closed spec fn wf(&self) -> bool {
        &&& counters_within(counter_samples(self.total_requests), self.recorded)
        &&& histograms_within(latency_samples(self.latency_error), self.recorded)
        &&& histograms_within(latency_samples(self.latency_success), self.recorded)
    }

    /// Whether `registry` exposes these very metrics: it holds each family
    /// under its name, sharing what the family counts or observes.
    pub closed spec fn exposed_by(&self, registry: &MetricsRegistry) -> bool {
        &&& exposes_counters(registry.registry, "total_request"@, self.total_requests)
        &&& exposes_latencies(registry.registry, "latency_error"@, self.latency_error)
        &&& exposes_latencies(registry.registry, "latency_success"@, self.latency_success)
    }

    /// What validity gives: no counter stands above the number of requests
    /// recorded, and every histogram has the latency buckets and no more
    /// observations than that.
    pub proof fn lemma_wf(&self)
        requires
            self.wf(),
        ensures
            within_recorded(self@),
    {
    }

    /// Metrics that have seen no request.
    pub fn new() -> (metrics: HttpMetrics)
        ensures
            metrics.wf(),
            metrics@ == no_requests(),
    {
        HttpMetrics {
            total_requests: new_counter_family(),
            latency_error: new_latency_family(),
            latency_success: new_latency_family(),
            recorded: 0,
        }
    }

    /// Attaches the three families to `registry` under their names, unless
    /// the registry has a family of one of these names already. Afterwards the
    /// registry exposes these very families, each under its own name.
    pub fn register(&self, registry: &mut MetricsRegistry) -> (result: Result<(), RegisterError>)
        requires
            old(registry).wf(),
        ensures
            final(registry).wf(),
            final(registry).prefix() == old(registry).prefix(),
            has_http_family(old(registry).families()) ==> result == Err::<(), RegisterError>(
                RegisterError::DuplicateFamily,
            ) && final(registry).families() == old(registry).families(),
            !has_http_family(old(registry).families()) ==> result == Ok::<(), RegisterError>(())
                && final(registry).families() == old(registry).families() + http_families(),
            result is Ok ==> self.exposed_by(final(registry)),
            forall|other: HttpMetrics| #[trigger]
                other.exposed_by(old(registry)) ==> other.exposed_by(final(registry)),
    {
        if registry.has_family("total_request") || registry.has_family("latency_error")
            || registry.has_family("latency_success") {
            return Err(RegisterError::DuplicateFamily);
        }
        proof {
            reveal_strlit("Total amount of requests");
            reveal_strlit("Total amount of requests.");
            reveal_strlit("Latency error");
            reveal_strlit("Latency error.");
            reveal_strlit("Latency success");
            reveal_strlit("Latency success.");
            reveal_strlit(".");
            assert("Total amount of requests"@ + "."@ =~= "Total amount of requests."@);
            assert("Latency error"@ + "."@ =~= "Latency error."@);
            assert("Latency success"@ + "."@ =~= "Latency success."@);
        }
        let ghost names_before = registry.names@;
        register_counters(
            &mut registry.registry,
            "total_request",
            "Total amount of requests",
            &self.total_requests,
        );
        registry.names.push(String::from_str("total_request"));
        register_latencies(
            &mut registry.registry,
            "latency_error",
            "Latency error",
            &self.latency_error,
        );
        registry.names.push(String::from_str("latency_error"));
        register_latencies(
            &mut registry.registry,
            "latency_success",
            "Latency success",
            &self.latency_success,
        );
        registry.names.push(String::from_str("latency_success"));
        proof {
            assert(registered(registry.registry) =~= registered(old(registry).registry)
                + http_families());
            let n = names_before.len() as int;
            assert(old(registry).names.deep_view().len() == n);
            assert(registry.names@.len() == n + 3);
            assert forall|j: int| 0 <= j < n + 3 implies #[trigger] registry.names.deep_view()[j]
                == family_names(registered(registry.registry))[j] by {
                if j < n {
                    assert(registry.names@[j] == names_before[j]);
                    assert(old(registry).names.deep_view()[j] == family_names(
                        registered(old(registry).registry),
                    )[j]);
                }
            }
            assert(registry.names.deep_view() =~= family_names(registered(registry.registry)));
        }
        Ok(())
    }

    /// Counts one request under `labels` and observes its latency of `nanos`
    /// nanoseconds in the family of `class`. Says whether the request was
    /// recorded: it is, unless as many were recorded as the counters can hold.
    pub fn record(&mut self, labels: &HttpRequestLabels, class: LatencyClass, nanos: u64) -> (counted:
        bool)
        requires
            old(self).wf(),
        ensures
            final(self).wf(),
            final(self)@ == recorded_request(old(self)@, labels.key(), class, nanos),
            counted == (old(self)@.recorded < u64::MAX),
            forall|registry: MetricsRegistry| #[trigger]
                old(self).exposed_by(&registry) ==> final(self).exposed_by(&registry),
    {
        if self.recorded == u64::MAX {
            return false;
        }
        let pairs = labels.pairs();
        let ghost key = labels.key();
        let ghost before = self@;
        increment(&mut self.total_requests, &pairs);
        match class {
            LatencyClass::Error => {
                proof {
                    lemma_within(before.latency_error, key, before.recorded, nanos);
                }
                observe(&mut self.latency_error, &pairs, nanos);
            },
            LatencyClass::Success => {
                proof {
                    lemma_within(before.latency_success, key, before.recorded, nanos);
                }
                observe(&mut self.latency_success, &pairs, nanos);
            },
        }
        self.recorded = self.recorded + 1;
        proof {
            assert(self@.total_requests == recorded_request(
                before,
                key,
                class,
                nanos,
            ).total_requests);
            assert(self@ == recorded_request(before, key, class, nanos));
        }
        true
    }
}

impl Default for HttpMetrics {
    fn default() -> (metrics: HttpMetrics)
        ensures
            metrics.wf(),
            metrics@ == no_requests(),
    {
        HttpMetrics::new()
    }
}

/// A histogram family within its limit has room for one more observation
/// below the largest count, and stays within the next limit.
proof fn lemma_within(samples: Map<LabelKey, Seq<u64>>, key: LabelKey, limit: u64, nanos: u64)
    requires
        histograms_within(samples, limit),
        limit < u64::MAX,
    ensures
        observations(buckets_of(samples, key)) < u64::MAX,
        histograms_within(samples.insert(key, observed(buckets_of(samples, key), nanos)), (limit
            + 1) as u64),
{
    let buckets = buckets_of(samples, key);
    if !samples.contains_key(key) {
        lemma_no_observations(12);
    }
    lemma_observed(buckets, nanos);
    let after = samples.insert(key, observed(buckets, nanos));
    assert forall|other: LabelKey| after.contains_key(other) implies (#[trigger] after[other]).len()
        == 12 && observations(after[other]) <= (limit + 1) as u64 by {
        if other != key {
            assert(samples.contains_key(other));
            assert(samples[other].len() == 12);
        }
    }
}

/// The metric handles of the service.
pub struct Metrics {
    pub http: HttpMetrics,
}

/// Makes the request metrics and a registry, prefixed with the name of the
/// application, that exposes these very metrics.
pub fn init_metrics(settings: &Settings) -> (made: (Metrics, MetricsRegistry))
    ensures
        made.0.http.wf(),
        made.0.http@ == no_requests(),
        made.1.wf(),
        made.1.prefix() == Some(settings.application.name@),
        made.1.families() == http_families(),
        made.0.http.exposed_by(&made.1),
{
    let mut registry = MetricsRegistry::with_prefix(settings.application.name.as_str());
    let http_metrics = HttpMetrics::default();
    proof {
        assert(!has_http_family(registry.families()));
    }
    let _ = http_metrics.register(&mut registry);
    proof {
        assert(Seq::<(Seq<char>, Seq<char>)>::empty() + http_families() =~= http_families());
    }
    (Metrics { http: http_metrics }, registry)
}

} // verus!
