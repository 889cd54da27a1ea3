//! What the two listeners serve: the application behind its middleware, and
//! the exposition of the metrics.

use vstd::prelude::*;
use vstd::string::*;
use crate::configuration::{socket_address, Settings};
use crate::observability::exposition::{describes, end_of_exposition, ends_with};
use crate::observability::metrics::{exposition_shows, HttpMetrics, MetricsRegistry};

verus! {

/// One layer of the middleware around the application routes.
#[derive(Clone, Copy, Debug, PartialEq, Eq, Structural)]
pub enum Layer {
    /// Counts the request and observes its latency.
    RequestMetrics,
    /// Continues the trace of the caller and hands the trace on in the
    /// response.
    TracePropagation,
    /// Logs the request and its response.
    RequestLog,
    /// Drops a trailing slash from the path.
    NormalizePath,
    /// Refuses a request that does not accept `application/json`.
    AcceptJson,
    /// Compresses the response, at the fastest level.
    Compression,
    /// Ends a request whose body is not read within so many seconds.
    RequestBodyTimeout { seconds: u64 },
    /// Ends a request that is not answered within so many seconds.
    RequestTimeout { seconds: u64 },
    /// Answers with status 500 where a handler panicked.
    CatchPanic,
}

/// The layers around the application routes, the innermost first, where
/// requests get `timeout` seconds.
pub open spec fn middleware_stack(timeout: u64) -> Seq<Layer> {
    seq![
        Layer::RequestMetrics,
        Layer::TracePropagation,
        Layer::RequestLog,
        Layer::NormalizePath,
        Layer::AcceptJson,
        Layer::Compression,
        Layer::RequestBodyTimeout { seconds: timeout },
        Layer::RequestTimeout { seconds: timeout },
        Layer::CatchPanic,
    ]
}

/// What the application listener serves.
#[derive(Clone, Debug)]
pub struct Application {
    /// `host:port` to bind.
    pub address: String,
    /// Path under which the routes are mounted.
    pub prefix: String,
    /// Route of the health check, below the prefix.
    pub health_route: String,
    /// The layers around the routes, the innermost first.
    pub layers: Vec<Layer>,
}

/// Lays out the application listener for these settings.
pub fn app(settings: &Settings) -> (application: Application)
    ensures
        application.address@ == socket_address(settings.http.host@, settings.http.port),
        application.prefix@ == settings.http.prefix@,
        application.health_route@ == "/healthz"@,
        application.layers@ == middleware_stack(settings.http.timeout),
{
    let mut layers: Vec<Layer> = Vec::new();
    layers.push(Layer::RequestMetrics);
    layers.push(Layer::TracePropagation);
    layers.push(Layer::RequestLog);
    layers.push(Layer::NormalizePath);
    layers.push(Layer::AcceptJson);
    layers.push(Layer::Compression);
    layers.push(Layer::RequestBodyTimeout { seconds: settings.http.timeout });
    layers.push(Layer::RequestTimeout { seconds: settings.http.timeout });
    layers.push(Layer::CatchPanic);
    assert(layers@ =~= middleware_stack(settings.http.timeout));
    Application {
        address: settings.http.address(),
        prefix: settings.http.prefix.clone(),
        health_route: String::from_str("/healthz"),
        layers,
    }
}

/// What the metrics listener serves: the exposition, under one path.
#[derive(Clone, Debug)]
pub struct MetricsEndpoint {
    /// `host:port` to bind: every interface, on the configured port.
    pub address: String,
    /// The one path that is answered.
    pub path: String,
}

/// Lays out the metrics listener for these settings.
pub fn metrics_server(settings: &Settings) -> (endpoint: MetricsEndpoint)
    ensures
        endpoint.address@ == socket_address("0.0.0.0"@, settings.prometheus.port),
        endpoint.path@ == settings.prometheus.path@,
{
    MetricsEndpoint {
        address: settings.prometheus.address(),
        path: settings.prometheus.path.clone(),
    }
}

/// The content type of an exposition.
pub open spec fn openmetrics_content_type() -> Seq<char> {
    "application/openmetrics-text; version=1.0.0; charset=utf-8"@
}

/// The answer to a scrape.
#[derive(Clone, Debug)]
pub struct MetricsResponse {
    pub status: u16,
    pub content_type: String,
    pub body: String,
}

/// Answers a scrape with the exposition of everything `registry` holds: the
/// body holds the help line of every registered family and ends with the
/// end-of-exposition line. Where the registry exposes `metrics`, the body
/// shows what they hold at this moment.
pub fn metrics_handler(registry: &MetricsRegistry, metrics: &HttpMetrics) -> (response:
    MetricsResponse)
    requires
        registry.wf(),
    ensures
        response.status == 200,
        response.content_type@ == openmetrics_content_type(),
        ends_with(response.body@, end_of_exposition()),
        describes(response.body@, registry.prefix(), registry.families()),
        metrics.exposed_by(registry) ==> exposition_shows(
            response.body@,
            registry.prefix(),
            metrics@,
        ),
{
    MetricsResponse {
        status: 200,
        content_type: String::from_str(
            "application/openmetrics-text; version=1.0.0; charset=utf-8",
        ),
        body: registry.encode(metrics),
    }
}

} // verus!
