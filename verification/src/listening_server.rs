//! The phase that waits for the one connection.

use vstd::prelude::*;

use crate::active_server::{ActiveServer, PumpState};
use crate::async_server_error::{AsyncServerError, OldErrorWrapper};
use crate::bound_connection_future::{BoundConnectionFuture, ConnectOutcome, ConnectWork, State};
use crate::connection_future::ConnectionFuture;
use crate::errors::ErrorKind;
use crate::poll::{Async, Poll, Step};
use crate::shutdown::{service_stopped, shutdown_result, StopStep, StopWork};

verus! {

/// Waits for the framed transport of the first connection, and keeps what
/// creating the service gave until then.
#[derive(Debug)]
pub struct ListeningServer {
    connection: BoundConnectionFuture,
    service: Option<Result<(), std::io::Error>>,
}

/// The abstract state of the listening phase.
pub struct ListeningState {
    /// How far the binding of the connection has come.
    pub connection: State,
    /// What creating the service gave, until the service is handed on.
    pub service: Option<Result<(), std::io::Error>>,
}

/// What the listening phase hands back to its driver, with the new pump seen
/// as its abstract state.
pub type ListeningStep<R, S, P> = Step<ConnectWork, PumpState<R, S, P>, AsyncServerError<S, P>>;

/// A step in which a pump is seen as its abstract state.
pub open spec fn step_view<W, R, S, P>(
    step: Step<W, ActiveServer<R, S, P>, AsyncServerError<S, P>>,
) -> Step<W, PumpState<R, S, P>, AsyncServerError<S, P>> {
    match step {
        Step::Perform(work) => Step::Perform(work),
        Step::Return(Ok(Async::Ready(server))) => Step::Return(Ok(Async::Ready(server@))),
        Step::Return(Ok(Async::NotReady)) => Step::Return(Ok(Async::NotReady)),
        Step::Return(Err(error)) => Step::Return(Err(error)),
    }
}

impl ListeningState {
    /// The state of a listening phase that has just been made.
    pub open spec fn initial(service: Result<(), std::io::Error>) -> Self {
        ListeningState {
            connection: State::WaitingForConnection(ConnectionFuture {  }),
            service: Some(service),
        }
    }

    /// The state after an outcome, and what the phase hands back.
    ///
    /// While the transport is on its way the phase passes on what the
    /// binding asks for, and a failure of the binding is a failure of the
    /// phase. Once the transport is there the service leaves its slot: a
    /// service that was created starts a fresh pump, a failure to create it
    /// is reported, and an empty slot means that the phase has been polled
    /// for a second connection.
    pub open spec fn advanced<R, S, P>(self, outcome: ConnectOutcome<P>) -> (
        Self,
        ListeningStep<R, S, P>,
    ) {
        let (connection, step) = self.connection.advanced(outcome);
        match step {
            Step::Perform(work) => (ListeningState { connection, ..self }, Step::Perform(work)),
            Step::Return(Ok(Async::NotReady)) => (
                ListeningState { connection, ..self },
                Step::Return(Ok(Async::NotReady)),
            ),
            Step::Return(Err(cause)) => (
                ListeningState { connection, ..self },
                Step::Return(Err(AsyncServerError::BindError(cause))),
            ),
            Step::Return(Ok(Async::Ready(_))) => (
                ListeningState { connection, service: None },
                Step::Return(
                    match self.service {
                        Some(Ok(_)) => Ok(Async::Ready(PumpState::initial())),
                        Some(Err(cause)) => Err(AsyncServerError::ServiceCreationError(cause)),
                        None => Err(
                            AsyncServerError::OldError(
                                OldErrorWrapper(ErrorKind::AttemptToListenTwice),
                            ),
                        ),
                    },
                ),
            ),
        }
    }

    /// The state after a request to shut down, and what the phase hands back:
    /// a service that was created leaves its slot to be stopped, and without
    /// one the shutdown is refused.
    pub open spec fn shut_down<S, P>(self) -> (Self, StopStep<S, P>) {
        match self.service {
            Some(Ok(_)) => (
                ListeningState { service: None, ..self },
                Step::Perform(StopWork::ForceStop),
            ),
            _ => (
                self,
                Step::Return(Err(AsyncServerError::IncorrectShutdownInListeningServer)),
            ),
        }
    }
}

impl View for ListeningServer {
    type V = ListeningState;

    closed spec fn view(&self) -> ListeningState {
        ListeningState { connection: self.connection@, service: self.service }
    }
}

impl ListeningServer {
    /// A listening phase for a listener that has just been bound. `service`
    /// is what the service factory gave; it is kept as it is until the
    /// connection is there.
    pub fn new(service: Result<(), std::io::Error>) -> (server: Self)
        ensures
            server@ == ListeningState::initial(service),
    {
        ListeningServer { service: Some(service), connection: BoundConnectionFuture::from() }
    }

    /// Names the outside work that the phase waits for.
    pub fn poll(&self) -> (work: ConnectWork)
        ensures
            work == self@.connection.work(),
    {
        match self.connection.state() {
            State::WaitingForConnection(_) => ConnectWork::AcceptConnection,
            State::Processing => ConnectWork::BindTransport,
            State::Binding => ConnectWork::PollTransport,
        }
    }

    /// Takes the outcome of a piece of outside work and names what comes
    /// next, or ends the poll: with a fresh pump once the transport is there
    /// and the service was created.
    pub fn advance<R, S, P>(&mut self, outcome: ConnectOutcome<P>) -> (step: Step<
        ConnectWork,
        ActiveServer<R, S, P>,
        AsyncServerError<S, P>,
    >)
        ensures
            (final(self)@, step_view(step)) == old(self)@.advanced::<R, S, P>(outcome),
    {
        match self.connection.advance(outcome) {
            Step::Perform(work) => Step::Perform(work),
            Step::Return(Ok(Async::NotReady)) => Step::Return(Ok(Async::NotReady)),
            Step::Return(Err(cause)) => Step::Return(Err(AsyncServerError::BindError(cause))),
            Step::Return(Ok(Async::Ready(_))) => {
                let service = self.service.take();

                Step::Return(
                    match service {
                        Some(Ok(_)) => Ok(Async::Ready(ActiveServer::new())),
                        Some(Err(cause)) => Err(AsyncServerError::ServiceCreationError(cause)),
                        None => Err(AsyncServerError::from(ErrorKind::AttemptToListenTwice)),
                    },
                )
            },
        }
    }

    /// Begins a shutdown: the service, if it was created and is still here,
    /// leaves its slot to be stopped; else the shutdown is refused.
    pub fn shutdown<S, P>(&mut self) -> (step: StopStep<S, P>)
        ensures
            (final(self)@, step) == old(self)@.shut_down::<S, P>(),
    {
        let created = match &self.service {
            Some(Ok(_)) => true,
            _ => false,
        };

        if created {
            self.service = None;
            Step::Perform(StopWork::ForceStop)
        } else {
            Step::Return(Err(AsyncServerError::IncorrectShutdownInListeningServer))
        }
    }

    /// Ends a shutdown with the service's answer to the request to stop.
    pub fn stopped<S, P>(&self, stopped: Result<(), S>) -> (result: Poll<
        (),
        AsyncServerError<S, P>,
    >)
        ensures
            result == shutdown_result::<S, P>(stopped),
    {
        service_stopped(stopped)
    }
}

} // verus!
