//! The states of binding a connection, and the moves between them.

use vstd::prelude::*;

use crate::bound_connection_future::bind_connection_error::BindConnectionError;
use crate::connection_future::{connection_result, ConnectionFuture};
use crate::poll::{Async, Poll, Step};

verus! {

/// How far the binding of the connection has come.
#[derive(Debug, Clone, Copy, PartialEq, Eq, Structural)]
pub enum State {
    /// No connection has been accepted yet.
    WaitingForConnection(ConnectionFuture),
    /// The codec is binding the accepted socket.
    Binding,
    /// A connection was accepted and awaits the codec.
    Processing,
}

/// A piece of outside work on the way to a framed transport.
#[derive(Debug, Clone, Copy, PartialEq, Eq, Structural)]
pub enum ConnectWork {
    /// Poll the listener for an incoming connection.
    AcceptConnection,
    /// Lock the shared codec and have it bind the accepted socket.
    BindTransport,
    /// Poll the codec's binding of the socket.
    PollTransport,
}

/// What locking the shared codec gave.
#[derive(Debug, Clone, Copy, PartialEq, Eq, Structural)]
pub enum ProtocolLock {
    /// The codec was locked and has begun to bind the socket.
    Acquired,
    /// The lock is poisoned.
    Poisoned,
}

/// The outcome of a piece of outside work, as the driver reports it.
#[derive(Debug)]
pub enum ConnectOutcome<P> {
    /// What polling the listener gave: `Some` stands for a connection, `None`
    /// for the end of the stream of connections.
    Accepted(Poll<Option<()>, std::io::Error>),
    /// What locking the codec gave.
    Locked(ProtocolLock),
    /// What polling the codec's binding gave: `Ready` stands for the framed
    /// transport.
    Bound(Poll<(), P>),
}

/// What binding a connection hands back to its driver.
pub type ConnectStep<P> = Step<ConnectWork, (), BindConnectionError<P>>;

impl State {
    /// The state in which binding begins.
    pub fn start_with(connection: ConnectionFuture) -> (state: Self)
        ensures
            state == State::WaitingForConnection(connection),
    {
        State::WaitingForConnection(connection)
    }

    /// The work that each state waits for.
    pub open spec fn work(self) -> ConnectWork {
        match self {
            State::WaitingForConnection(_) => ConnectWork::AcceptConnection,
            State::Processing => ConnectWork::BindTransport,
            State::Binding => ConnectWork::PollTransport,
        }
    }

    /// The state after an outcome, and what the future hands back.
    ///
    /// An accepted connection goes to the codec at once, and a codec that
    /// was locked is polled at once. A failure leaves the future where it
    /// was, but for a poisoned lock, after which it waits for a connection
    /// again. An outcome that the state does not wait for changes nothing.
    pub open spec fn advanced<P>(self, outcome: ConnectOutcome<P>) -> (State, ConnectStep<P>) {
        match (self, outcome) {
            (State::WaitingForConnection(_), ConnectOutcome::Accepted(incoming)) => {
                match connection_result(incoming) {
                    Ok(Async::Ready(_)) => (
                        State::Processing,
                        Step::Perform(ConnectWork::BindTransport),
                    ),
                    Ok(Async::NotReady) => (self, Step::Return(Ok(Async::NotReady))),
                    Err(cause) => (
                        self,
                        Step::Return(Err(BindConnectionError::NoConnectionToBind(cause))),
                    ),
                }
            },
            (State::Processing, ConnectOutcome::Locked(ProtocolLock::Acquired)) => (
                State::Binding,
                Step::Perform(ConnectWork::PollTransport),
            ),
            (State::Processing, ConnectOutcome::Locked(ProtocolLock::Poisoned)) => (
                State::WaitingForConnection(ConnectionFuture {  }),
                Step::Return(Err(BindConnectionError::ProtocolLockError)),
            ),
            (State::Binding, ConnectOutcome::Bound(Ok(transport))) => (
                self,
                Step::Return(Ok(transport)),
            ),
            (State::Binding, ConnectOutcome::Bound(Err(cause))) => (
                self,
                Step::Return(Err(BindConnectionError::BindError(cause))),
            ),
            _ => (self, Step::Perform(self.work())),
        }
    }

    /// Names the outside work that the state waits for.
    pub fn poll<P>(&self) -> (step: ConnectStep<P>)
        ensures
            step == Step::<ConnectWork, (), BindConnectionError<P>>::Perform(self.work()),
    {
        match self {
            State::WaitingForConnection(_) => Step::Perform(ConnectWork::AcceptConnection),
            State::Processing => Step::Perform(ConnectWork::BindTransport),
            State::Binding => Step::Perform(ConnectWork::PollTransport),
        }
    }

    /// Takes the outcome of a piece of outside work, moves to the state that
    /// follows, and names what comes next.
    pub fn advance<P>(&mut self, outcome: ConnectOutcome<P>) -> (step: ConnectStep<P>)
        ensures
            (*final(self), step) == old(self).advanced(outcome),
    {
        let state = *self;
        let (step, new_state) = state.advance_to_new_state(outcome);
        *self = new_state;

        step
    }

    fn advance_to_new_state<P>(self, outcome: ConnectOutcome<P>) -> (moved: (ConnectStep<P>, State))
        ensures
            (moved.1, moved.0) == self.advanced(outcome),
    {
        match (self, outcome) {
            (State::WaitingForConnection(mut connection), ConnectOutcome::Accepted(incoming)) => {
                match connection.poll(incoming) {
                    Ok(Async::Ready(_)) => (
                        Step::Perform(ConnectWork::BindTransport),
                        State::Processing,
                    ),
                    Ok(Async::NotReady) => (Step::Return(Ok(Async::NotReady)), self),
                    Err(cause) => (
                        Step::Return(Err(BindConnectionError::NoConnectionToBind(cause))),
                        self,
                    ),
                }
            },
            (State::Processing, ConnectOutcome::Locked(ProtocolLock::Acquired)) => (
                Step::Perform(ConnectWork::PollTransport),
                State::Binding,
            ),
            (State::Processing, ConnectOutcome::Locked(ProtocolLock::Poisoned)) => (
                Step::Return(Err(BindConnectionError::ProtocolLockError)),
                State::start_with(ConnectionFuture::from()),
            ),
            (State::Binding, ConnectOutcome::Bound(Ok(transport))) => (
                Step::Return(Ok(transport)),
                self,
            ),
            (State::Binding, ConnectOutcome::Bound(Err(cause))) => (
                Step::Return(Err(BindConnectionError::BindError(cause))),
                self,
            ),
            _ => (self.poll(), self),
        }
    }
}

} // verus!
