//! The server: a state machine over the phases of its life.
//!
//! A server binds its listener, waits for one connection and pumps requests
//! and responses until the service has finished. [`AsyncServer::poll`] names
//! the next piece of outside work; [`AsyncServer::advance`] takes its outcome
//! and names the one after it, until the poll is over. A shutdown proceeds
//! in the same way, through [`AsyncServer::shutdown`] and
//! [`AsyncServer::stopped`].

pub mod lifecycle;
pub mod phase;

use vstd::prelude::*;

use crate::active_server::{ActiveServer, PumpOutcome, PumpStep};
use crate::async_server_error::AsyncServerError;
use crate::listening_server::ListeningServer;
use crate::poll::{Async, Poll, Step};
use crate::shutdown::{StopOutcome, StopStep};
use crate::start_server::StartServer;

pub use phase::{Outcome, Phase, ServerStep, Work};

verus! {

/// The server, in one of the phases of its life.
#[derive(Debug)]
pub enum AsyncServer<R, S, P> {
    /// The listener is yet to be bound.
    Binding(StartServer),
    /// A shutdown of the binding phase is under way.
    BindCancelled(StartServer),
    /// The connection is yet to be made.
    Listening(ListeningServer),
    /// A shutdown of the listening phase is under way.
    ListenCancelled(ListeningServer),
    /// The pump runs.
    Active(ActiveServer<R, S, P>),
    /// A shutdown of the pump is under way.
    Disconnecting(ActiveServer<R, S, P>),
    /// The server is over.
    Dead,
}

impl<R, S, P> View for AsyncServer<R, S, P> {
    type V = Phase<R, S, P>;

    open spec fn view(&self) -> Phase<R, S, P> {
        match *self {
            AsyncServer::Binding(handler) => Phase::Binding(handler.has_factory()),
            AsyncServer::BindCancelled(handler) => Phase::BindCancelled(handler.has_factory()),
            AsyncServer::Listening(handler) => Phase::Listening(handler@),
            AsyncServer::ListenCancelled(handler) => Phase::ListenCancelled(handler@),
            AsyncServer::Active(handler) => Phase::Active(handler@),
            AsyncServer::Disconnecting(handler) => Phase::Disconnecting(handler@),
            AsyncServer::Dead => Phase::Dead,
        }
    }
}

impl<R, S, P> AsyncServer<R, S, P> {
    /// A server that has yet to bind its listener.
    pub fn new() -> (server: Self)
        ensures
            server@ == Phase::<R, S, P>::Binding(true),
    {
        AsyncServer::Binding(StartServer::new())
    }

    /// True iff the server is over.
    pub fn is_dead(&self) -> (dead: bool)
        ensures
            dead == (self@ is Dead),
    {
        match self {
            AsyncServer::Dead => true,
            _ => false,
        }
    }

    fn take(&mut self) -> (state: Self)
        ensures
            state == *old(self),
            *final(self) == AsyncServer::<R, S, P>::Dead,
    {
        let mut state = AsyncServer::Dead;
        core::mem::swap(self, &mut state);

        state
    }

    fn pumped(&mut self, handler: ActiveServer<R, S, P>, step: PumpStep<R, S, P>) -> (next:
        ServerStep<R, S, P>)
        ensures
            (final(self)@, next) == Phase::pumped(handler@, step),
    {
        match step {
            Step::Perform(work) => {
                *self = AsyncServer::Active(handler);
                Step::Perform(Work::Pump(work))
            },
            Step::Return(Ok(Async::NotReady)) => {
                *self = AsyncServer::Active(handler);
                Step::Return(Ok(Async::NotReady))
            },
            Step::Return(Ok(Async::Ready(_))) => {
                *self = AsyncServer::Dead;
                Step::Return(Ok(Async::Ready(())))
            },
            Step::Return(Err(error)) => {
                *self = AsyncServer::Dead;
                Step::Return(Err(error))
            },
        }
    }

    /// Polls the server: names the outside work that the phase in effect
    /// waits for, or ends the poll.
    ///
    /// A pump that is done ends the server, and so does a failure. A server
    /// that is over fails with `ServerWasShutDown`, and one whose shutdown is
    /// under way with `ShuttingDown`.
    pub fn poll(&mut self) -> (step: ServerStep<R, S, P>)
        ensures
            (final(self)@, step) == old(self)@.polled(),
    {
        match self.take() {
            AsyncServer::Binding(handler) => {
                match handler.poll() {
                    Step::Perform(work) => {
                        *self = AsyncServer::Binding(handler);
                        Step::Perform(Work::Start(work))
                    },
                    Step::Return(Ok(_)) => {
                        *self = AsyncServer::Binding(handler);
                        Step::Return(Ok(Async::NotReady))
                    },
                    Step::Return(Err(error)) => Step::Return(Err(AsyncServerError::from(error))),
                }
            },
            AsyncServer::Listening(handler) => {
                let work = handler.poll();
                *self = AsyncServer::Listening(handler);
                Step::Perform(Work::Connect(work))
            },
            AsyncServer::Active(mut handler) => {
                let step = handler.poll();
                self.pumped(handler, step)
            },
            AsyncServer::Dead => Step::Return(Err(AsyncServerError::ServerWasShutDown)),
            shutting_down_state => {
                *self = shutting_down_state;
                Step::Return(Err(AsyncServerError::ShuttingDown))
            },
        }
    }

    /// Takes the outcome of a piece of outside work and names what comes
    /// next, or ends the poll.
    ///
    /// The phase in effect takes the outcome. When the listener is bound the
    /// listening phase begins, and when the framed transport is there the
    /// pump begins; the new phase is polled at once. An outcome that the
    /// phase in effect does not wait for is dropped.
    pub fn advance(&mut self, outcome: Outcome<R, S, P>) -> (step: ServerStep<R, S, P>)
        requires
            (old(self)@ is Active && outcome matches Outcome::Pump(
                PumpOutcome::NewRequest(Ok(Async::Ready(Some(_)))),
            )) ==> old(self)@->Active_0.live_requests < usize::MAX,
        ensures
            (final(self)@, step) == old(self)@.advanced(outcome),
    {
        match (self.take(), outcome) {
            (AsyncServer::Binding(mut handler), Outcome::Started(started)) => {
                match handler.start_server(started) {
                    Ok(Async::Ready(listening)) => {
                        *self = AsyncServer::Listening(listening);
                        self.poll()
                    },
                    Ok(Async::NotReady) => {
                        *self = AsyncServer::Binding(handler);
                        Step::Return(Ok(Async::NotReady))
                    },
                    Err(error) => Step::Return(Err(AsyncServerError::from(error))),
                }
            },
            (AsyncServer::Listening(mut handler), Outcome::Connect(connect)) => {
                match handler.advance(connect) {
                    Step::Perform(work) => {
                        *self = AsyncServer::Listening(handler);
                        Step::Perform(Work::Connect(work))
                    },
                    Step::Return(Ok(Async::Ready(active))) => {
                        *self = AsyncServer::Active(active);
                        self.poll()
                    },
                    Step::Return(Ok(Async::NotReady)) => {
                        *self = AsyncServer::Listening(handler);
                        Step::Return(Ok(Async::NotReady))
                    },
                    Step::Return(Err(error)) => Step::Return(Err(error)),
                }
            },
            (AsyncServer::Active(mut handler), Outcome::Pump(pumped)) => {
                let step = handler.advance(pumped);
                self.pumped(handler, step)
            },
            (state, _) => {
                *self = state;
                self.poll()
            },
        }
    }

    /// Settles the server once the shutdown of the phase in effect has come
    /// to `shutdown_result`, and answers whoever asked for the shutdown.
    ///
    /// A shutdown that is not complete yet turns the phase into its
    /// cancelled counterpart, which keeps its state. One that is complete or
    /// has failed ends the server. A phase whose shutdown was under way
    /// already stays as it is. On a server that is over the answer is
    /// `Ready(())`.
    pub fn complete_shutdown(&mut self, shutdown_result: Poll<(), AsyncServerError<S, P>>) -> (
        result: Poll<(), AsyncServerError<S, P>>)
        ensures
            (final(self)@, result) == old(self)@.completed(shutdown_result),
    {
        let not_ready = match &shutdown_result {
            Ok(Async::NotReady) => true,
            _ => false,
        };

        match self.take() {
            AsyncServer::Binding(handler) => {
                if not_ready {
                    *self = AsyncServer::BindCancelled(handler);
                }
                shutdown_result
            },
            AsyncServer::Listening(handler) => {
                if not_ready {
                    *self = AsyncServer::ListenCancelled(handler);
                }
                shutdown_result
            },
            AsyncServer::Active(handler) => {
                if not_ready {
                    *self = AsyncServer::Disconnecting(handler);
                }
                shutdown_result
            },
            AsyncServer::Dead => Ok(Async::Ready(())),
            shutting_down_state => {
                *self = shutting_down_state;
                shutdown_result
            },
        }
    }

    /// Begins a shutdown: names the outside work that stops the phase in
    /// effect, or ends the shutdown at once.
    ///
    /// A binding phase gives up its factory, a listening phase its service,
    /// and the pump has its service stopped. A phase that has nothing left
    /// to stop refuses, which ends the server unless a shutdown was under
    /// way already. On a server that is over the shutdown is complete:
    /// `Ready(())`.
    pub fn shutdown(&mut self) -> (step: StopStep<S, P>)
        ensures
            (final(self)@, step) == old(self)@.shut_down(),
    {
        match self.take() {
            AsyncServer::Binding(mut handler) => {
                let step = handler.shutdown();
                *self = AsyncServer::Binding(handler);
                self.settle(step)
            },
            AsyncServer::BindCancelled(mut handler) => {
                let step = handler.shutdown();
                *self = AsyncServer::BindCancelled(handler);
                step
            },
            AsyncServer::Listening(mut handler) => {
                let step = handler.shutdown();
                *self = AsyncServer::Listening(handler);
                self.settle(step)
            },
            AsyncServer::ListenCancelled(mut handler) => {
                let step = handler.shutdown();
                *self = AsyncServer::ListenCancelled(handler);
                step
            },
            AsyncServer::Active(handler) => {
                let step = handler.shutdown();
                *self = AsyncServer::Active(handler);
                step
            },
            AsyncServer::Disconnecting(handler) => {
                let step = handler.shutdown();
                *self = AsyncServer::Disconnecting(handler);
                step
            },
            AsyncServer::Dead => Step::Return(Ok(Async::Ready(()))),
        }
    }

    fn settle(&mut self, step: StopStep<S, P>) -> (settled: StopStep<S, P>)
        requires
            !(old(self)@ is Dead),
        ensures
            settled == step,
            final(self)@ == match step {
                Step::Perform(_) => old(self)@,
                Step::Return(result) => old(self)@.completed(result).0,
            },
    {
        match step {
            Step::Perform(work) => Step::Perform(work),
            Step::Return(result) => Step::Return(self.complete_shutdown(result)),
        }
    }

    /// Ends a shutdown with the outcome of its outside work, and settles the
    /// server as [`AsyncServer::complete_shutdown`] does.
    pub fn stopped(&mut self, outcome: StopOutcome<S>) -> (result: Poll<
        (),
        AsyncServerError<S, P>,
    >)
        ensures
            (final(self)@, result) == old(self)@.stopped(outcome),
    {
        let shutdown_result = match outcome {
            Ok(Ok(())) => Ok(Async::Ready(())),
            Ok(Err(error)) => Err(AsyncServerError::ServiceShutdownError(error)),
            Err(cause) => Err(AsyncServerError::ServiceCreationError(cause)),
        };

        self.complete_shutdown(shutdown_result)
    }
}

} // verus!
