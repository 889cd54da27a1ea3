//! How spans leave the process.

use vstd::prelude::*;
use crate::configuration::{service_attributes, OpenTelemetrySettings, Resource, Settings};

verus! {

/// Where finished spans are sent.
#[derive(Clone, Debug)]
pub enum SpanExport {
    /// In batches, to the collector at `endpoint`.
    Collector { endpoint: String },
    /// One by one, to the standard output of the process.
    Stdout,
}

/// Which spans are recorded.
#[derive(Clone, Copy, Debug, PartialEq, Eq, Structural)]
pub enum Sampling {
    AlwaysOn,
}

/// How trace and span identifiers are made.
#[derive(Clone, Copy, Debug, PartialEq, Eq, Structural)]
pub enum IdGeneration {
    Random,
}

/// What the tracer provider of the process is built from.
#[derive(Clone, Debug)]
pub struct TracePipeline {
    pub export: SpanExport,
    pub sampling: Sampling,
    pub id_generation: IdGeneration,
    /// Attached to every span.
    pub resource: Resource,
}

/// Where spans go under these settings: to the configured collector when
/// telemetry is enabled, to the standard output when it is not.
pub open spec fn span_export(otel: OpenTelemetrySettings) -> SpanExport {
    if otel.enable {
        SpanExport::Collector { endpoint: otel.endpoint }
    } else {
        SpanExport::Stdout
    }
}

impl SpanExport {
    /// Whether spans leave the machine.
    pub open spec fn is_remote(self) -> bool {
        self is Collector
    }
}

/// Chooses the trace pipeline of the process from its settings.
pub fn init_trace(settings: &Settings) -> (pipeline: TracePipeline)
    ensures
        pipeline.export == span_export(settings.otel),
        pipeline.export.is_remote() == settings.otel.enable,
        pipeline.sampling == Sampling::AlwaysOn,
        pipeline.id_generation == IdGeneration::Random,
        pipeline.resource@ == service_attributes(settings.application),
{
    let export = if settings.otel.enable {
        SpanExport::Collector { endpoint: settings.otel.endpoint.clone() }
    } else {
        SpanExport::Stdout
    };
    TracePipeline {
        export,
        sampling: Sampling::AlwaysOn,
        id_generation: IdGeneration::Random,
        resource: settings.get_resource(),
    }
}

} // verus!
