use scrum_discord_bot::configuration::{
    ApplicationSettings, Environment, HttpSettings, OpenTelemetrySettings, PrometheusSettings,
    Settings,
};
use scrum_discord_bot::drivers::http::middlewares::{
    classify, metrics_middleware, resolve_path, PANIC_STATUS,
};
use scrum_discord_bot::drivers::http::server::metrics_handler;
use scrum_discord_bot::observability::buckets::latency_bucket_bounds;
use scrum_discord_bot::observability::labels::{HttpRequestLabels, Method};
use scrum_discord_bot::observability::metrics::{
    init_metrics, HttpMetrics, LatencyClass, MetricsRegistry, RegisterError,
};

fn settings(name: &str) -> Settings {
    Settings {
        application: ApplicationSettings {
            name: name.to_string(),
            version: "0.1.0".to_string(),
        },
        http: HttpSettings {
            port: 8080,
            host: "127.0.0.1".to_string(),
            prefix: "/api".to_string(),
            timeout: 30,
        },
        otel: OpenTelemetrySettings {
            endpoint: "http://localhost:4317".to_string(),
            enable: false,
        },
        prometheus: PrometheusSettings {
            port: 9100,
            path: "/metrics".to_string(),
        },
        env: Environment::Local,
    }
}

fn lines(text: &str) -> Vec<String> {
    text.lines().map(|line| line.to_string()).collect()
}

fn has_line(text: &str, line: &str) -> bool {
    text.lines().any(|found| found == line)
}

const HEALTHZ_200: &str = "{method=\"GET\",path=\"/healthz\",status_code=\"200\"}";

#[test]
fn method_names() {
    assert_eq!(Method::Get.as_str(), "GET");
    assert_eq!(Method::Put.as_str(), "PUT");
    assert_eq!(Method::Post.as_str(), "POST");
    assert_eq!(Method::Delete.as_str(), "DELETE");
    assert_eq!(Method::Head.as_str(), "HEAD");
    assert_eq!(Method::Options.as_str(), "OPTIONS");
    assert_eq!(Method::Connect.as_str(), "CONNECT");
    assert_eq!(Method::Patch.as_str(), "PATCH");
    assert_eq!(Method::Trace.as_str(), "TRACE");
    assert_eq!(Method::Other.as_str(), "OTHER");
}

#[test]
fn methods_are_read_from_their_names() {
    for method in [
        Method::Get,
        Method::Put,
        Method::Post,
        Method::Delete,
        Method::Head,
        Method::Options,
        Method::Connect,
        Method::Patch,
        Method::Trace,
    ] {
        assert_eq!(Method::from_name(method.as_str()), method);
    }
    assert_eq!(Method::from_name("PROPFIND"), Method::Other);
    assert_eq!(Method::from_name("get"), Method::Other);
    assert_eq!(Method::from_name(""), Method::Other);
}

#[test]
fn labels_are_equal_when_all_three_fields_are() {
    let labels = HttpRequestLabels {
        method: Method::Get,
        path: "/healthz".to_string(),
        status_code: 200,
    };
    assert!(labels == labels.clone());
    assert!(labels != HttpRequestLabels { method: Method::Put, ..labels.clone() });
    assert!(labels != HttpRequestLabels { path: "/other".to_string(), ..labels.clone() });
    assert!(labels != HttpRequestLabels { status_code: 201, ..labels.clone() });
}

#[test]
fn label_pairs_follow_the_fields() {
    let labels = HttpRequestLabels {
        method: Method::Post,
        path: "/v1/items/:id".to_string(),
        status_code: 404,
    };
    assert_eq!(
        labels.pairs(),
        vec![
            ("method".to_string(), "POST".to_string()),
            ("path".to_string(), "/v1/items/:id".to_string()),
            ("status_code".to_string(), "404".to_string()),
        ]
    );
}

#[test]
fn bucket_bounds_are_the_eleven_latencies() {
    assert_eq!(
        latency_bucket_bounds(),
        vec![
            5_000_000,
            10_000_000,
            25_000_000,
            50_000_000,
            100_000_000,
            250_000_000,
            500_000_000,
            1_000_000_000,
            2_500_000_000,
            5_000_000_000,
            10_000_000_000,
        ]
    );
}

#[test]
fn status_200_is_no_success() {
    assert_eq!(classify(200), LatencyClass::Error);
    assert_eq!(classify(201), LatencyClass::Success);
    assert_eq!(classify(302), LatencyClass::Success);
    assert_eq!(classify(399), LatencyClass::Success);
    assert_eq!(classify(400), LatencyClass::Error);
    assert_eq!(classify(500), LatencyClass::Error);
    assert_eq!(classify(199), LatencyClass::Error);
    assert_eq!(classify(0), LatencyClass::Error);
}

#[test]
fn matched_route_wins_over_raw_path() {
    assert_eq!(resolve_path(Some("/users/:id"), "/users/42"), "/users/:id");
    assert_eq!(resolve_path(None, "/users/42"), "/users/42");
}

#[test]
fn fresh_registry_exposes_the_three_families() {
    let (metrics, registry) = init_metrics(&settings("app"));
    let text = registry.encode(&metrics.http);
    assert_eq!(
        text,
        "# HELP app_total_request Total amount of requests.\n\
         # TYPE app_total_request counter\n\
         # HELP app_latency_error Latency error.\n\
         # TYPE app_latency_error histogram\n\
         # HELP app_latency_success Latency success.\n\
         # TYPE app_latency_success histogram\n\
         # EOF\n"
    );
    assert!(registry.has_family("total_request"));
    assert!(registry.has_family("latency_success"));
    assert!(!registry.has_family("app_total_request"));
}

#[test]
fn health_check_is_counted_once() {
    let (mut metrics, registry) = init_metrics(&settings("scrum"));
    assert!(metrics_middleware(
        &mut metrics.http,
        "GET",
        Some("/healthz"),
        "/healthz",
        200,
        1_500_000
    ));
    let response = metrics_handler(&registry, &metrics.http);
    assert_eq!(response.status, 200);
    assert!(response.content_type.contains("openmetrics-text"));
    assert_eq!(
        response.content_type,
        "application/openmetrics-text; version=1.0.0; charset=utf-8"
    );
    assert!(has_line(
        &response.body,
        &format!("scrum_total_request_total{} 1", HEALTHZ_200)
    ));
    assert!(response.body.ends_with("# EOF\n"));
}

#[test]
fn every_request_of_a_label_set_is_counted() {
    let (mut metrics, registry) = init_metrics(&settings("app"));
    for _ in 0..5 {
        assert!(metrics_middleware(&mut metrics.http, "GET", Some("/healthz"), "/healthz", 200, 10));
    }
    for _ in 0..3 {
        assert!(metrics_middleware(&mut metrics.http, "PUT", None, "/items/7", 404, 10));
    }
    assert!(metrics_middleware(&mut metrics.http, "GET", Some("/healthz"), "/healthz", 503, 10));
    let text = registry.encode(&metrics.http);
    assert!(has_line(&text, &format!("app_total_request_total{} 5", HEALTHZ_200)));
    assert!(has_line(
        &text,
        "app_total_request_total{method=\"PUT\",path=\"/items/7\",status_code=\"404\"} 3"
    ));
    assert!(has_line(
        &text,
        "app_total_request_total{method=\"GET\",path=\"/healthz\",status_code=\"503\"} 1"
    ));
    let counted = lines(&text)
        .iter()
        .filter(|line| line.starts_with("app_total_request_total{"))
        .count();
    assert_eq!(counted, 3);
}

#[test]
fn status_200_is_observed_in_the_error_family_only() {
    let (mut metrics, registry) = init_metrics(&settings("app"));
    metrics_middleware(&mut metrics.http, "GET", Some("/healthz"), "/healthz", 200, 1_000);
    let text = registry.encode(&metrics.http);
    assert!(has_line(&text, &format!("app_latency_error_count{} 1", HEALTHZ_200)));
    assert!(!text.contains("app_latency_success_"));
}

#[test]
fn status_201_and_399_are_observed_in_the_success_family() {
    let (mut metrics, registry) = init_metrics(&settings("app"));
    metrics_middleware(&mut metrics.http, "POST", Some("/items"), "/items", 201, 1_000);
    metrics_middleware(&mut metrics.http, "GET", Some("/items"), "/items", 399, 1_000);
    let text = registry.encode(&metrics.http);
    assert!(has_line(
        &text,
        "app_latency_success_count{method=\"POST\",path=\"/items\",status_code=\"201\"} 1"
    ));
    assert!(has_line(
        &text,
        "app_latency_success_count{method=\"GET\",path=\"/items\",status_code=\"399\"} 1"
    ));
    assert!(!text.contains("app_latency_error_"));
}

#[test]
fn status_199_and_400_are_observed_in_the_error_family() {
    let (mut metrics, registry) = init_metrics(&settings("app"));
    metrics_middleware(&mut metrics.http, "GET", Some("/items"), "/items", 199, 1_000);
    metrics_middleware(&mut metrics.http, "GET", Some("/items"), "/items", 400, 1_000);
    let text = registry.encode(&metrics.http);
    assert!(has_line(
        &text,
        "app_latency_error_count{method=\"GET\",path=\"/items\",status_code=\"199\"} 1"
    ));
    assert!(has_line(
        &text,
        "app_latency_error_count{method=\"GET\",path=\"/items\",status_code=\"400\"} 1"
    ));
    assert!(!text.contains("app_latency_success_"));
}

#[test]
fn observation_on_a_bucket_edge_counts_in_that_bucket() {
    let (mut metrics, registry) = init_metrics(&settings("app"));
    let labels = HttpRequestLabels {
        method: Method::Get,
        path: "/slow".to_string(),
        status_code: 204,
    };
    assert!(metrics.http.record(&labels, LatencyClass::Success, 100_000_000));
    let text = registry.encode(&metrics.http);
    let series = "method=\"GET\",path=\"/slow\",status_code=\"204\"";
    let expected = [
        ("0.005", 0),
        ("0.01", 0),
        ("0.025", 0),
        ("0.05", 0),
        ("0.1", 1),
        ("0.25", 1),
        ("0.5", 1),
        ("1.0", 1),
        ("2.5", 1),
        ("5.0", 1),
        ("10.0", 1),
        ("+Inf", 1),
    ];
    for (bound, count) in expected {
        assert!(
            has_line(
                &text,
                &format!("app_latency_success_bucket{{le=\"{}\",{}}} {}", bound, series, count)
            ),
            "bucket {} in\n{}",
            bound,
            text
        );
    }
    assert!(has_line(&text, &format!("app_latency_success_count{{{}}} 1", series)));
    assert!(has_line(&text, &format!("app_latency_success_sum{{{}}} 0.1", series)));
}

#[test]
fn observations_spread_over_the_buckets() {
    let (mut metrics, registry) = init_metrics(&settings("app"));
    let labels = HttpRequestLabels {
        method: Method::Get,
        path: "/".to_string(),
        status_code: 500,
    };
    for nanos in [0, 5_000_000, 5_000_001, 999_999_999, 10_000_000_000, 10_000_000_001, u64::MAX] {
        assert!(metrics.http.record(&labels, LatencyClass::Error, nanos));
    }
    let text = registry.encode(&metrics.http);
    let series = "method=\"GET\",path=\"/\",status_code=\"500\"";
    let expected = [
        ("0.005", 2),
        ("0.01", 3),
        ("0.025", 3),
        ("0.05", 3),
        ("0.1", 3),
        ("0.25", 3),
        ("0.5", 3),
        ("1.0", 4),
        ("2.5", 4),
        ("5.0", 4),
        ("10.0", 5),
        ("+Inf", 7),
    ];
    for (bound, count) in expected {
        assert!(
            has_line(
                &text,
                &format!("app_latency_error_bucket{{le=\"{}\",{}}} {}", bound, series, count)
            ),
            "bucket {} in\n{}",
            bound,
            text
        );
    }
    assert!(has_line(&text, &format!("app_latency_error_count{{{}}} 7", series)));
}

#[test]
fn encoding_twice_gives_the_same_text() {
    let (mut metrics, registry) = init_metrics(&settings("app"));
    metrics_middleware(&mut metrics.http, "GET", Some("/a"), "/a", 200, 7);
    metrics_middleware(&mut metrics.http, "GET", Some("/b"), "/b", 301, 8_000_000);
    metrics_middleware(&mut metrics.http, "PUT", Some("/c"), "/c", 500, 3_000_000_000);
    let first = registry.encode(&metrics.http);
    let second = registry.encode(&metrics.http);
    assert_eq!(first, second);
}

#[test]
fn registering_twice_is_refused() {
    let (metrics, mut registry) = init_metrics(&settings("app"));
    let before = registry.encode(&metrics.http);
    assert_eq!(
        metrics.http.register(&mut registry),
        Err(RegisterError::DuplicateFamily)
    );
    assert_eq!(registry.encode(&metrics.http), before);
    let other = HttpMetrics::new();
    assert_eq!(other.register(&mut registry), Err(RegisterError::DuplicateFamily));
}

#[test]
fn registering_with_an_empty_registry_succeeds() {
    let mut registry = MetricsRegistry::with_prefix("other");
    assert!(!registry.has_family("total_request"));
    let metrics = HttpMetrics::new();
    assert_eq!(metrics.register(&mut registry), Ok(()));
    assert!(registry.has_family("total_request"));
    assert!(!registry.has_family("requests_with_error"));
    assert!(registry.has_family("latency_error"));
    assert!(registry.has_family("latency_success"));
    assert!(registry.encode(&metrics).starts_with("# HELP other_total_request "));
}

#[test]
fn unregistered_method_is_labelled_other() {
    let (mut metrics, registry) = init_metrics(&settings("app"));
    metrics_middleware(&mut metrics.http, "PROPFIND", None, "/dav", 207, 1);
    let text = registry.encode(&metrics.http);
    assert!(has_line(
        &text,
        "app_total_request_total{method=\"OTHER\",path=\"/dav\",status_code=\"207\"} 1"
    ));
}

#[test]
fn exposition_describes_every_family() {
    let (mut metrics, registry) = init_metrics(&settings("bot"));
    metrics_middleware(&mut metrics.http, "GET", None, "/", 200, 1);
    let text = metrics_handler(&registry, &metrics.http).body;
    assert!(has_line(&text, "# HELP bot_total_request Total amount of requests."));
    assert!(has_line(&text, "# HELP bot_latency_error Latency error."));
    assert!(has_line(&text, "# HELP bot_latency_success Latency success."));
    assert!(has_line(&text, "# TYPE bot_total_request counter"));
    assert!(has_line(&text, "# TYPE bot_latency_error histogram"));
    assert!(has_line(&text, "# TYPE bot_latency_success histogram"));
    let described = lines(&text)
        .iter()
        .filter(|line| line.starts_with("# HELP "))
        .count();
    assert_eq!(described, 3);
}

#[test]
fn registry_exposes_what_the_metrics_record_afterwards() {
    let (mut metrics, registry) = init_metrics(&settings("app"));
    let before = registry.encode(&metrics.http);
    assert!(!before.contains("app_total_request_total"));
    for _ in 0..4 {
        metrics_middleware(&mut metrics.http, "GET", Some("/healthz"), "/healthz", 204, 2_000_000_000);
    }
    let text = registry.encode(&metrics.http);
    assert!(has_line(
        &text,
        "app_total_request_total{method=\"GET\",path=\"/healthz\",status_code=\"204\"} 4"
    ));
    assert!(has_line(
        &text,
        "app_latency_success_count{method=\"GET\",path=\"/healthz\",status_code=\"204\"} 4"
    ));
    assert!(has_line(
        &text,
        "app_latency_success_bucket{le=\"2.5\",method=\"GET\",path=\"/healthz\",status_code=\"204\"} 4"
    ));
    assert!(!text.contains("app_latency_error_"));
}

#[test]
fn panicked_handler_counts_as_an_error() {
    assert_eq!(PANIC_STATUS, 500);
    assert_eq!(classify(u32::from(PANIC_STATUS)), LatencyClass::Error);
    let (mut metrics, registry) = init_metrics(&settings("app"));
    metrics_middleware(&mut metrics.http, "GET", Some("/boom"), "/boom", PANIC_STATUS, 10);
    let text = registry.encode(&metrics.http);
    assert!(has_line(
        &text,
        "app_total_request_total{method=\"GET\",path=\"/boom\",status_code=\"500\"} 1"
    ));
    assert!(has_line(
        &text,
        "app_latency_error_count{method=\"GET\",path=\"/boom\",status_code=\"500\"} 1"
    ));
}

#[test]
fn empty_registry_exposes_the_end_line_only() {
    let registry = MetricsRegistry::with_prefix("empty");
    assert_eq!(registry.encode(&HttpMetrics::new()), "# EOF\n");
}

#[test]
fn exposition_is_that_of_the_registered_metrics() {
    let (mut metrics, registry) = init_metrics(&settings("app"));
    metrics_middleware(&mut metrics.http, "GET", Some("/healthz"), "/healthz", 200, 1);
    let mut other = HttpMetrics::new();
    metrics_middleware(&mut other, "PUT", None, "/elsewhere", 404, 1);
    let text = registry.encode(&other);
    assert_eq!(text, registry.encode(&metrics.http));
    assert!(has_line(&text, &format!("app_total_request_total{} 1", HEALTHZ_200)));
    assert!(!text.contains("/elsewhere"));
}

#[test]
fn label_text_is_written_as_it_is() {
    let (mut metrics, registry) = init_metrics(&settings("app"));
    metrics_middleware(&mut metrics.http, "GET", None, "/a\"b\\c", 301, 1);
    let response = metrics_handler(&registry, &metrics.http);
    assert_eq!(response.status, 200);
    assert!(response.body.contains(
        "app_total_request_total{method=\"GET\",path=\"/a\"b\\c\",status_code=\"301\"} 1\n"
    ));
    assert!(response.body.ends_with("# EOF\n"));
}
