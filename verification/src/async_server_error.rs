//! The failures that the server reports to whoever drives it.

use vstd::prelude::*;
use vstd::std_specs::convert::FromSpecImpl;

use crate::bound_connection_future::BindConnectionError;
use crate::errors::ErrorKind;

verus! {

/// A failure of the server. `S` is the service's error and `P` the error of
/// the codec and its framed transport.
#[derive(Debug)]
pub enum AsyncServerError<S, P> {
    /// No framed transport could be produced for the connection.
    BindError(BindConnectionError<P>),
    /// Flushing the framed transport failed.
    FlushResponsesError(P),
    /// The listening phase was shut down after it had handed its service on.
    IncorrectShutdownInListeningServer,
    /// The start phase was shut down after it had handed its factory on.
    IncorrectShutdownInStartServer,
    /// The framed transport failed to decode a request.
    NewRequestError(P),
    /// A request's completion resolved to an error.
    NewResponseError(S),
    /// The framed transport failed to encode or write a response.
    SendResponseError(P),
    /// The server was polled after it was shut down.
    ServerWasShutDown,
    /// The service factory failed.
    ServiceCreationError(std::io::Error),
    /// The service failed when asked whether it had finished.
    ServiceFinishedCheckError(S),
    /// The service failed to stop.
    ServiceShutdownError(S),
    /// The server was polled while it was shutting down.
    ShuttingDown,
    /// A failure in the old format.
    OldError(OldErrorWrapper),
}

/// Carries a failure in the old format inside an [`AsyncServerError`].
#[derive(Debug)]
pub struct OldErrorWrapper(pub ErrorKind);

impl OldErrorWrapper {
    /// The description of the failure that is carried.
    pub fn message(&self) -> (text: String)
        ensures
            text@ == self.0.message_text(),
    {
        self.0.message()
    }

    /// The fixed description that every wrapped failure shares.
    pub fn description(&self) -> (text: String)
        ensures
            text@ == "failed to display error description"@,
    {
        "failed to display error description".to_owned()
    }

    /// The failure behind this one: there never is one.
    pub fn cause(&self) -> (cause: Option<ErrorKind>)
        ensures
            cause is None,
    {
        None
    }
}

impl<S, P> AsyncServerError<S, P> {
    /// The text that describes each variant.
    pub open spec fn message_text(self) -> Seq<char> {
        match self {
            AsyncServerError::BindError(_) => {
                "failed to bind connection into protocol transport"@
            },
            AsyncServerError::FlushResponsesError(_) => {
                "failed to flush responses in protocol transport"@
            },
            AsyncServerError::IncorrectShutdownInListeningServer => {
                "ListeningServer can't shutdown server after a connection is made"@
            },
            AsyncServerError::IncorrectShutdownInStartServer => {
                "StartServer can't shutdown server after it started"@
            },
            AsyncServerError::NewRequestError(_) => {
                "failed to get a new request from the protocol transport"@
            },
            AsyncServerError::NewResponseError(_) => "failed to get a response from the service"@,
            AsyncServerError::SendResponseError(_) => {
                "failed to send response through protocol transport"@
            },
            AsyncServerError::ServerWasShutDown => "AsyncServer was shut down"@,
            AsyncServerError::ServiceCreationError(_) => "service creation error"@,
            AsyncServerError::ServiceFinishedCheckError(_) => {
                "service failed when asked if it had finished"@
            },
            AsyncServerError::ServiceShutdownError(_) => "service error"@,
            AsyncServerError::ShuttingDown => "AsyncServer is shutting down"@,
            AsyncServerError::OldError(_) => "old format error"@,
        }
    }

    /// A short description of the failure.
    pub fn message(&self) -> (text: String)
        ensures
            text@ == self.message_text(),
    {
        match self {
            AsyncServerError::BindError(_) => {
                "failed to bind connection into protocol transport".to_owned()
            },
            AsyncServerError::FlushResponsesError(_) => {
                "failed to flush responses in protocol transport".to_owned()
            },
            AsyncServerError::IncorrectShutdownInListeningServer => {
                "ListeningServer can't shutdown server after a connection is made".to_owned()
            },
            AsyncServerError::IncorrectShutdownInStartServer => {
                "StartServer can't shutdown server after it started".to_owned()
            },
            AsyncServerError::NewRequestError(_) => {
                "failed to get a new request from the protocol transport".to_owned()
            },
            AsyncServerError::NewResponseError(_) => {
                "failed to get a response from the service".to_owned()
            },
            AsyncServerError::SendResponseError(_) => {
                "failed to send response through protocol transport".to_owned()
            },
            AsyncServerError::ServerWasShutDown => "AsyncServer was shut down".to_owned(),
            AsyncServerError::ServiceCreationError(_) => "service creation error".to_owned(),
            AsyncServerError::ServiceFinishedCheckError(_) => {
                "service failed when asked if it had finished".to_owned()
            },
            AsyncServerError::ServiceShutdownError(_) => "service error".to_owned(),
            AsyncServerError::ShuttingDown => "AsyncServer is shutting down".to_owned(),
            AsyncServerError::OldError(_) => "old format error".to_owned(),
        }
    }
}

impl<S, P> From<ErrorKind> for AsyncServerError<S, P> {
    /// Wraps a failure in the old format.
    fn from(error: ErrorKind) -> (wrapped: Self) {
        AsyncServerError::OldError(OldErrorWrapper(error))
    }
}

impl<S, P> FromSpecImpl<ErrorKind> for AsyncServerError<S, P> {
    open spec fn obeys_from_spec() -> bool {
        true
    }

    open spec fn from_spec(error: ErrorKind) -> Self {
        AsyncServerError::OldError(OldErrorWrapper(error))
    }
}

} // verus!
