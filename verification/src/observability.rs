//! Metrics, traces and logs of the service.

use vstd::prelude::*;
use tracing::dispatcher::SetGlobalDefaultError;
use tracing::Dispatch;
use tracing_log::log::SetLoggerError;
use tracing_log::LogTracer;

pub mod buckets;
pub mod exposition;
pub mod families;
pub mod labels;
pub mod log;
pub mod metrics;
pub mod trace;

verus! {

/// `Dispatch` of `tracing`: a subscriber ready to be installed, opaque.
#[verifier::external_type_specification]
#[verifier::external_body]
pub struct ExDispatch(Dispatch);

/// `dispatcher::SetGlobalDefaultError` of `tracing`, opaque.
#[verifier::external_type_specification]
#[verifier::external_body]
pub struct ExSetGlobalDefaultError(SetGlobalDefaultError);

/// `SetLoggerError` of `log`, as `tracing_log` hands it on, opaque.
#[verifier::external_type_specification]
#[verifier::external_body]
pub struct ExSetLoggerError(SetLoggerError);

/// `LogTracer::init` of `tracing_log`: makes the records of the `log` crate
/// events of `tracing`, once in a process. Whether it succeeds depends on
/// what the process has installed before.
#[verifier::external_body]
fn install_log_tracer() -> Result<(), SetLoggerError> {
    LogTracer::init()
}

/// `dispatcher::set_global_default` of `tracing`: makes `dispatch` the
/// default of the whole process, once in a process. Whether it succeeds
/// depends on what the process has installed before.
#[verifier::external_body]
fn install_dispatch(dispatch: Dispatch) -> Result<(), SetGlobalDefaultError> {
    tracing::dispatcher::set_global_default(dispatch)
}

/// Why the subscriber could not be made the default of the process.
#[derive(Clone, Copy, Debug, PartialEq, Eq, Structural)]
pub enum SubscriberError {
    /// A logger was installed before.
    LoggerAlreadySet,
    /// A default subscriber was installed before.
    SubscriberAlreadySet,
}

/// What the answer of the logger installation means for the caller.
pub fn logger_installed(answer: Result<(), SetLoggerError>) -> (result: Result<(), SubscriberError>)
    ensures
        answer is Ok ==> result == Ok::<(), SubscriberError>(()),
        answer is Err ==> result == Err::<(), SubscriberError>(SubscriberError::LoggerAlreadySet),
{
    match answer {
        Ok(()) => Ok(()),
        Err(_) => Err(SubscriberError::LoggerAlreadySet),
    }
}

/// What the answer of the subscriber installation means for the caller.
pub fn dispatch_installed(answer: Result<(), SetGlobalDefaultError>) -> (result: Result<
    (),
    SubscriberError,
>)
    ensures
        answer is Ok ==> result == Ok::<(), SubscriberError>(()),
        answer is Err ==> result == Err::<(), SubscriberError>(
            SubscriberError::SubscriberAlreadySet,
        ),
{
    match answer {
        Ok(()) => Ok(()),
        Err(_) => Err(SubscriberError::SubscriberAlreadySet),
    }
}

/// Register a subscriber as global default to process span data, after the
/// bridge that turns log records into events.
///
/// It should only be called once! A second call finds the logger installed
/// and says so; the subscriber is installed only after the logger was.
pub fn init_subscriber(subscriber: Dispatch) -> (result: Result<(), SubscriberError>) {
    match logger_installed(install_log_tracer()) {
        Ok(()) => dispatch_installed(install_dispatch(subscriber)),
        Err(error) => Err(error),
    }
}

} // verus!
