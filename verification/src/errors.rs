//! The old, flat error format, which the binding phase still reports.

use vstd::prelude::*;

verus! {

/// A failure in the old, flat format.
#[derive(Debug)]
pub enum ErrorKind {
    /// The operating system reported a failure, such as a refused bind.
    Io(std::io::Error),
    /// No connection could be received.
    FailedToReceiveConnection,
    /// The connection could not be bound to a transport.
    FailedToBindConnection,
    /// An `Active` status was asked for its poll result.
    ActiveStatusHasNoPollEquivalent,
    /// The start phase was polled after it had handed its factory on.
    AttemptToStartServerTwice,
    /// The listening phase was polled after it had handed its service on.
    AttemptToListenTwice,
    /// The server was polled after it was shut down.
    AsyncServerWasShutDown,
    /// The server was polled while it was shutting down.
    AsyncServerIsShuttingDown,
}

impl ErrorKind {
    /// The text that describes each kind.
    pub open spec fn message_text(self) -> Seq<char> {
        match self {
            ErrorKind::Io(_) => "input/output failure"@,
            ErrorKind::FailedToReceiveConnection => "failed to receive a connection"@,
            ErrorKind::FailedToBindConnection => {
                "failed to bind the connection to receive requests"@
            },
            ErrorKind::ActiveStatusHasNoPollEquivalent => {
                "active server status means processing hasn't finished"@
            },
            ErrorKind::AttemptToStartServerTwice => "attempt to start the server twice"@,
            ErrorKind::AttemptToListenTwice => {
                "server listening state can't be polled for two connections"@
            },
            ErrorKind::AsyncServerWasShutDown => "server was shut down"@,
            ErrorKind::AsyncServerIsShuttingDown => "server is shutting down"@,
        }
    }

    /// A short description of the failure.
    pub fn message(&self) -> (text: String)
        ensures
            text@ == self.message_text(),
    {
        match self {
            ErrorKind::Io(_) => "input/output failure".to_owned(),
            ErrorKind::FailedToReceiveConnection => "failed to receive a connection".to_owned(),
            ErrorKind::FailedToBindConnection => {
                "failed to bind the connection to receive requests".to_owned()
            },
            ErrorKind::ActiveStatusHasNoPollEquivalent => {
                "active server status means processing hasn't finished".to_owned()
            },
            ErrorKind::AttemptToStartServerTwice => {
                "attempt to start the server twice".to_owned()
            },
            ErrorKind::AttemptToListenTwice => {
                "server listening state can't be polled for two connections".to_owned()
            },
            ErrorKind::AsyncServerWasShutDown => "server was shut down".to_owned(),
            ErrorKind::AsyncServerIsShuttingDown => "server is shutting down".to_owned(),
        }
    }
}

} // verus!
