//! Failures of accepting the one connection that the server serves.

use vstd::prelude::*;

verus! {

/// Declares `std::io::Error`, the failure that the operating system reports.
/// The server carries such a value along, and nothing is claimed of what it
/// holds.
#[verifier::external_type_specification]
#[verifier::external_body]
pub struct ExIoError(std::io::Error);

/// Why no connection was accepted.
#[derive(Debug)]
pub enum ConnectionError {
    /// Accepting on the listening socket failed.
    FailedToReceiveConnection(std::io::Error),
    /// The stream of incoming connections ended before any arrived.
    NoConnectionsReceived,
}

impl ConnectionError {
    /// The text that describes each variant.
    pub open spec fn message_text(self) -> Seq<char> {
        match self {
            ConnectionError::FailedToReceiveConnection(_) => "failed to receive a connection"@,
            ConnectionError::NoConnectionsReceived => "no connections were received"@,
        }
    }

    /// A short description of the failure.
    pub fn message(&self) -> (text: String)
        ensures
            text@ == self.message_text(),
    {
        match self {
            ConnectionError::FailedToReceiveConnection(_) => {
                "failed to receive a connection".to_owned()
            },
            ConnectionError::NoConnectionsReceived => "no connections were received".to_owned(),
        }
    }
}

} // verus!
