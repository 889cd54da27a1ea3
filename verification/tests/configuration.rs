use scrum_discord_bot::configuration::{
    ApplicationSettings, Environment, HttpSettings, OpenTelemetrySettings, PrometheusSettings,
    Settings,
};
use scrum_discord_bot::text::to_decimal;

fn settings() -> Settings {
    Settings {
        application: ApplicationSettings {
            name: "bot".to_string(),
            version: "1.2.3".to_string(),
        },
        http: HttpSettings {
            port: 8080,
            host: "127.0.0.1".to_string(),
            prefix: "/api".to_string(),
            timeout: 30,
        },
        otel: OpenTelemetrySettings {
            endpoint: "http://localhost:4317".to_string(),
            enable: false,
        },
        prometheus: PrometheusSettings {
            port: 9100,
            path: "/metrics".to_string(),
        },
        env: Environment::Local,
    }
}

#[test]
fn environment_names() {
    assert_eq!(Environment::Local.as_str(), "local");
    assert_eq!(Environment::Production.as_str(), "production");
}

#[test]
fn environment_is_read_whatever_the_case() {
    assert_eq!(Environment::try_from("local".to_string()), Ok(Environment::Local));
    assert_eq!(Environment::try_from("LOCAL".to_string()), Ok(Environment::Local));
    assert_eq!(
        Environment::try_from("Production".to_string()),
        Ok(Environment::Production)
    );
}

#[test]
fn unknown_environment_is_refused_with_its_lowercase_name() {
    assert_eq!(
        Environment::try_from("Staging".to_string()),
        Err(
            "staging is not a supported environment. Use either `local` or `production`."
                .to_string()
        )
    );
    assert_eq!(
        Environment::try_from(String::new()),
        Err(" is not a supported environment. Use either `local` or `production`.".to_string())
    );
}

#[test]
fn from_name_reads_the_name_as_written() {
    assert_eq!(Environment::from_name("production"), Ok(Environment::Production));
    assert_eq!(
        Environment::from_name("LOCAL"),
        Err("LOCAL is not a supported environment. Use either `local` or `production`.".to_string())
    );
}

#[test]
fn environment_file_names() {
    assert_eq!(Environment::Local.file_name(), "local.yaml");
    assert_eq!(Environment::Production.file_name(), "production.yaml");
}

#[test]
fn application_address_joins_host_and_port() {
    assert_eq!(settings().http.address(), "127.0.0.1:8080");
    let mut http = settings().http;
    http.port = 0;
    assert_eq!(http.address(), "127.0.0.1:0");
    http.port = 65535;
    http.host = "localhost".to_string();
    assert_eq!(http.address(), "localhost:65535");
}

#[test]
fn metrics_address_binds_every_interface() {
    assert_eq!(settings().prometheus.address(), "0.0.0.0:9100");
}

#[test]
fn resource_names_the_service_and_its_version() {
    let resource = settings().get_resource();
    assert_eq!(
        resource.attributes,
        vec![
            ("service.name".to_string(), "bot".to_string()),
            ("service.version".to_string(), "1.2.3".to_string()),
        ]
    );
}

#[test]
fn decimal_numerals() {
    assert_eq!(to_decimal(0), "0");
    assert_eq!(to_decimal(7), "7");
    assert_eq!(to_decimal(10), "10");
    assert_eq!(to_decimal(200), "200");
    assert_eq!(to_decimal(1_000_000), "1000000");
    assert_eq!(to_decimal(u64::MAX), "18446744073709551615");
}
