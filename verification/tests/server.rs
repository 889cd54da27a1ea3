use scrum_discord_bot::configuration::{
    ApplicationSettings, Environment, HttpSettings, OpenTelemetrySettings, PrometheusSettings,
    Settings,
};
use scrum_discord_bot::drivers::http::server::{app, metrics_server, Layer};
use scrum_discord_bot::observability::log::{init_log, LogExport};
use scrum_discord_bot::observability::trace::{init_trace, IdGeneration, Sampling, SpanExport};

fn settings(enable: bool) -> Settings {
    Settings {
        application: ApplicationSettings {
            name: "bot".to_string(),
            version: "2.0.0".to_string(),
        },
        http: HttpSettings {
            port: 3000,
            host: "0.0.0.0".to_string(),
            prefix: "/api".to_string(),
            timeout: 15,
        },
        otel: OpenTelemetrySettings {
            endpoint: "http://collector:4317".to_string(),
            enable,
        },
        prometheus: PrometheusSettings {
            port: 9100,
            path: "/metrics".to_string(),
        },
        env: Environment::Production,
    }
}

fn service_attributes() -> Vec<(String, String)> {
    vec![
        ("service.name".to_string(), "bot".to_string()),
        ("service.version".to_string(), "2.0.0".to_string()),
    ]
}

#[test]
fn application_is_mounted_under_the_prefix() {
    let application = app(&settings(false));
    assert_eq!(application.address, "0.0.0.0:3000");
    assert_eq!(application.prefix, "/api");
    assert_eq!(application.health_route, "/healthz");
}

#[test]
fn middleware_runs_from_metrics_out_to_the_panic_boundary() {
    let application = app(&settings(false));
    assert_eq!(
        application.layers,
        vec![
            Layer::RequestMetrics,
            Layer::TracePropagation,
            Layer::RequestLog,
            Layer::NormalizePath,
            Layer::AcceptJson,
            Layer::Compression,
            Layer::RequestBodyTimeout { seconds: 15 },
            Layer::RequestTimeout { seconds: 15 },
            Layer::CatchPanic,
        ]
    );
}

#[test]
fn metrics_listener_answers_one_path_on_every_interface() {
    let endpoint = metrics_server(&settings(true));
    assert_eq!(endpoint.address, "0.0.0.0:9100");
    assert_eq!(endpoint.path, "/metrics");
}

#[test]
fn disabled_telemetry_stays_on_the_machine() {
    let trace = init_trace(&settings(false));
    assert!(matches!(trace.export, SpanExport::Stdout));
    assert_eq!(trace.sampling, Sampling::AlwaysOn);
    assert_eq!(trace.id_generation, IdGeneration::Random);
    assert_eq!(trace.resource.attributes, service_attributes());
    let log = init_log(&settings(false));
    assert!(matches!(log.export, LogExport::Discard));
    assert_eq!(log.resource.attributes, service_attributes());
}

#[test]
fn enabled_telemetry_goes_to_the_configured_collector() {
    let trace = init_trace(&settings(true));
    match trace.export {
        SpanExport::Collector { endpoint } => assert_eq!(endpoint, "http://collector:4317"),
        SpanExport::Stdout => panic!("spans stay local"),
    }
    assert_eq!(trace.resource.attributes, service_attributes());
    let log = init_log(&settings(true));
    match log.export {
        LogExport::Collector { endpoint } => assert_eq!(endpoint, "http://collector:4317"),
        LogExport::Discard => panic!("log records are discarded"),
    }
    assert_eq!(log.resource.attributes, service_attributes());
}
