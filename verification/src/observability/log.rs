//! How log records leave the process.

use vstd::prelude::*;
use crate::configuration::{service_attributes, OpenTelemetrySettings, Resource, Settings};
use crate::observability::trace::span_export;

verus! {

/// Where log records are sent.
#[derive(Clone, Debug)]
pub enum LogExport {
    /// In batches, to the collector at `endpoint`.
    Collector { endpoint: String },
    /// Nowhere: the provider has no exporter.
    Discard,
}

/// What the logger provider of the process is built from.
#[derive(Clone, Debug)]
pub struct LogPipeline {
    pub export: LogExport,
    /// Attached to every log record.
    pub resource: Resource,
}

/// Where log records go under these settings: to the configured collector
/// when telemetry is enabled, nowhere when it is not.
pub open spec fn log_export(otel: OpenTelemetrySettings) -> LogExport {
    if otel.enable {
        LogExport::Collector { endpoint: otel.endpoint }
    } else {
        LogExport::Discard
    }
}

impl LogExport {
    /// Whether log records leave the machine.
    pub open spec fn is_remote(self) -> bool {
        self is Collector
    }
}

/// Chooses the log pipeline of the process from its settings.
pub fn init_log(settings: &Settings) -> (pipeline: LogPipeline)
    ensures
        pipeline.export == log_export(settings.otel),
        pipeline.export.is_remote() == settings.otel.enable,
        pipeline.resource@ == service_attributes(settings.application),
{
    let export = if settings.otel.enable {
        LogExport::Collector { endpoint: settings.otel.endpoint.clone() }
    } else {
        LogExport::Discard
    };
    LogPipeline { export, resource: settings.get_resource() }
}

/// With telemetry disabled neither pipeline has a remote exporter; with it
/// enabled both send to the configured endpoint and to no other.
pub proof fn lemma_telemetry_policy(otel: OpenTelemetrySettings)
    ensures
        !otel.enable ==> !span_export(otel).is_remote() && !log_export(otel).is_remote(),
        otel.enable ==> span_export(otel)->endpoint == otel.endpoint && log_export(otel)->endpoint
            == otel.endpoint,
{
}

} // verus!
