//! Failures of turning an accepted connection into a framed transport.

use vstd::prelude::*;

use crate::connection_error::ConnectionError;

verus! {

/// Why no framed transport was produced. `P` is the codec's own error.
#[derive(Debug)]
pub enum BindConnectionError<P> {
    /// The codec failed to bind the socket.
    BindError(P),
    /// There was no socket to bind, because accepting failed.
    NoConnectionToBind(ConnectionError),
    /// The lock around the shared codec was poisoned.
    ProtocolLockError,
}

impl<P> BindConnectionError<P> {
    /// The text that describes each variant.
    pub open spec fn message_text(self) -> Seq<char> {
        match self {
            BindConnectionError::BindError(_) => "bind connection failed"@,
            BindConnectionError::NoConnectionToBind(_) => "no connection to bind"@,
            BindConnectionError::ProtocolLockError => {
                "an other thread panicked with the protocol locked"@
            },
        }
    }

    /// A short description of the failure.
    pub fn message(&self) -> (text: String)
        ensures
            text@ == self.message_text(),
    {
        match self {
            BindConnectionError::BindError(_) => "bind connection failed".to_owned(),
            BindConnectionError::NoConnectionToBind(_) => "no connection to bind".to_owned(),
            BindConnectionError::ProtocolLockError => {
                "an other thread panicked with the protocol locked".to_owned()
            },
        }
    }
}

} // verus!
