[package]
name = "scrum_discord_bot"
version = "0.1.0"
edition = "2021"
publish = false

[dependencies]
anyhow = "1"
axum = "0.7"
axum-tracing-opentelemetry = "0.19"
config = { version = "0.14", default-features = false, features = ["yaml"] }
mimalloc = "0.1"
mongodb = "2.8"
opentelemetry = "0.24"
opentelemetry-appender-tracing = "0.5"
opentelemetry-otlp = { version = "0.17", features = ["logs"] }
opentelemetry_sdk = { version = "0.24", features = ["rt-tokio", "logs"] }
opentelemetry-semantic-conventions = "0.16"
opentelemetry-stdout = { version = "0.5", features = ["trace"] }
prometheus-client = "0.22"
secrecy = { version = "0.8", features = ["serde"] }
serde = { version = "1", features = ["derive"] }
serde-aux = "4"
tokio = { version = "1", features = ["macros", "rt-multi-thread", "net", "signal", "sync"] }
tower = "0.5"
tower-http = { version = "0.5", features = ["catch-panic", "compression-gzip", "normalize-path", "timeout", "trace", "validate-request"] }
tracing = "0.1"
tracing-bunyan-formatter = "0.3"
tracing-log = "0.2"
tracing-opentelemetry = "0.25"
tracing-subscriber = { version = "0.3", features = ["registry", "env-filter"] }
