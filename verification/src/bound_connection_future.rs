//! Accepting one connection and binding the codec to it.

pub mod bind_connection_error;
pub mod state;

use vstd::prelude::*;

use crate::connection_future::ConnectionFuture;
use crate::poll::Step;

pub use bind_connection_error::BindConnectionError;
pub use state::{ConnectOutcome, ConnectStep, ConnectWork, ProtocolLock, State};

verus! {

/// Resolves with the framed transport of the first connection: it accepts
/// the connection and then has the shared codec bind the socket.
#[derive(Debug, Clone, Copy, PartialEq, Eq, Structural)]
pub struct BoundConnectionFuture {
    state: State,
}

impl View for BoundConnectionFuture {
    type V = State;

    closed spec fn view(&self) -> State {
        self.state
    }
}

impl BoundConnectionFuture {
    /// A future that has yet to accept its connection.
    pub fn from() -> (future: Self)
        ensures
            future@ == State::WaitingForConnection(ConnectionFuture {  }),
    {
        let connection = ConnectionFuture::from();

        BoundConnectionFuture { state: State::start_with(connection) }
    }

    /// How far the binding has come.
    pub fn state(&self) -> (state: State)
        ensures
            state == self@,
    {
        self.state
    }

    /// Names the outside work that the future waits for.
    pub fn poll<P>(&self) -> (step: ConnectStep<P>)
        ensures
            step == Step::<ConnectWork, (), BindConnectionError<P>>::Perform(self@.work()),
    {
        self.state.poll()
    }

    /// Takes the outcome of a piece of outside work and names what comes
    /// next, or resolves.
    pub fn advance<P>(&mut self, outcome: ConnectOutcome<P>) -> (step: ConnectStep<P>)
        ensures
            (final(self)@, step) == old(self)@.advanced(outcome),
    {
        self.state.advance(outcome)
    }
}

} // verus!
