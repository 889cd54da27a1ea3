//! What drives the service from outside.

pub mod http;
