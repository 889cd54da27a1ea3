//! The HTTP side of the service.

pub mod lifecycle;
pub mod middlewares;
pub mod server;
