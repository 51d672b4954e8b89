//! The outside work of a shutdown, shared by the phases of the server.

use vstd::prelude::*;

use crate::async_server_error::AsyncServerError;
use crate::poll::{Async, Poll, Step};

verus! {

/// A piece of outside work that shutting a phase down asks for.
#[derive(Debug, Clone, Copy, PartialEq, Eq, Structural)]
pub enum StopWork {
    /// Ask the service instance to stop.
    ForceStop,
    /// Create a service instance with the factory, only to ask it to stop.
    CreateServiceAndForceStop,
}

/// What shutting a phase down hands back to its driver.
pub type StopStep<S, P> = Step<StopWork, (), AsyncServerError<S, P>>;

/// The outcome of the outside work of a shutdown: the service's answer to
/// the request to stop, or the failure to create the service.
pub type StopOutcome<S> = Result<Result<(), S>, std::io::Error>;

/// What a shutdown amounts to, given the service's answer to the request to
/// stop.
pub open spec fn shutdown_result<S, P>(stopped: Result<(), S>) -> Poll<(), AsyncServerError<S, P>> {
    match stopped {
        Ok(_) => Ok(Async::Ready(())),
        Err(error) => Err(AsyncServerError::ServiceShutdownError(error)),
    }
}

/// What a shutdown amounts to, given the outcome of its outside work.
pub open spec fn stop_result<S, P>(outcome: StopOutcome<S>) -> Poll<(), AsyncServerError<S, P>> {
    match outcome {
        Ok(stopped) => shutdown_result(stopped),
        Err(cause) => Err(AsyncServerError::ServiceCreationError(cause)),
    }
}

/// Converts the service's answer to the request to stop into the result of
/// the shutdown: complete if the service stopped, failed with the service's
/// error otherwise.
pub fn service_stopped<S, P>(stopped: Result<(), S>) -> (result: Poll<(), AsyncServerError<S, P>>)
    ensures
        result == shutdown_result::<S, P>(stopped),
{
    match stopped {
        Ok(()) => Ok(Async::Ready(())),
        Err(error) => Err(AsyncServerError::ServiceShutdownError(error)),
    }
}

} // verus!
