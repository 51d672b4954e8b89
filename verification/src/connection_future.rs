//! Accepting exactly one connection.

use vstd::prelude::*;

use crate::connection_error::ConnectionError;
use crate::poll::{Async, Poll};

verus! {

/// Resolves with the first connection that the listener accepts.
#[derive(Debug, Clone, Copy, PartialEq, Eq, Structural)]
pub struct ConnectionFuture {}

/// What polling the stream of incoming connections amounts to: the first
/// connection resolves the future, the end of the stream and a failure to
/// accept are two different errors.
pub open spec fn connection_result<C>(incoming: Poll<Option<C>, std::io::Error>) -> Poll<
    C,
    ConnectionError,
> {
    match incoming {
        Ok(Async::Ready(Some(connection))) => Ok(Async::Ready(connection)),
        Ok(Async::Ready(None)) => Err(ConnectionError::NoConnectionsReceived),
        Ok(Async::NotReady) => Ok(Async::NotReady),
        Err(cause) => Err(ConnectionError::FailedToReceiveConnection(cause)),
    }
}

impl ConnectionFuture {
    /// A future for the next connection of a listener.
    pub fn from() -> (future: Self)
        ensures
            future == (ConnectionFuture {  }),
    {
        ConnectionFuture {  }
    }

    /// Takes what polling the stream of incoming connections gave.
    pub fn poll<C>(&mut self, incoming: Poll<Option<C>, std::io::Error>) -> (result: Poll<
        C,
        ConnectionError,
    >)
        ensures
            result == connection_result(incoming),
    {
        match incoming {
            Ok(Async::Ready(Some(connection))) => Ok(Async::Ready(connection)),
            Ok(Async::Ready(None)) => Err(ConnectionError::NoConnectionsReceived),
            Ok(Async::NotReady) => Ok(Async::NotReady),
            Err(cause) => Err(ConnectionError::FailedToReceiveConnection(cause)),
        }
    }
}

} // verus!
