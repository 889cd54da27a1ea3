//! Observability-instrumented service bootstrap: settings, request metrics,
//! telemetry policy and the life cycle of the two listeners.

pub mod configuration;
pub mod drivers;
pub mod observability;
pub mod text;
