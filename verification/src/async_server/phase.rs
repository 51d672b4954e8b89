//! The lifecycle of the server as a mathematical state machine.

use vstd::prelude::*;

use crate::active_server::{PumpOutcome, PumpState, PumpStep, PumpWork};
use crate::async_server_error::{AsyncServerError, OldErrorWrapper};
use crate::bound_connection_future::{ConnectOutcome, ConnectWork};
use crate::errors::ErrorKind;
use crate::listening_server::ListeningState;
use crate::poll::{Async, Poll, Step};
use crate::shutdown::{stop_result, StopOutcome, StopStep, StopWork};
use crate::start_server::{
    factory_after_start,
    start_result,
    start_shut_down,
    StartOutcome,
    StartWork,
};

verus! {

/// A piece of outside work that the server asks for.
#[derive(Debug)]
pub enum Work<R> {
    /// Work of the phase that binds the listener.
    Start(StartWork),
    /// Work of the phase that waits for the connection.
    Connect(ConnectWork),
    /// Work of the pump.
    Pump(PumpWork<R>),
}

/// The outcome of a piece of outside work, as the driver reports it.
#[derive(Debug)]
pub enum Outcome<R, S, P> {
    /// What binding the listener gave.
    Started(StartOutcome),
    /// What a piece of work on the way to the framed transport gave.
    Connect(ConnectOutcome<P>),
    /// What a piece of work of the pump gave.
    Pump(PumpOutcome<R, S, P>),
}

/// What the server hands back to its driver.
pub type ServerStep<R, S, P> = Step<Work<R>, (), AsyncServerError<S, P>>;

/// The abstract state of the server: the phase it is in, with the abstract
/// state of that phase.
pub enum Phase<R, S, P> {
    /// The listener is yet to be bound; holds whether the factory is there.
    Binding(bool),
    /// A shutdown of the binding phase is under way.
    BindCancelled(bool),
    /// The connection is yet to be made.
    Listening(ListeningState),
    /// A shutdown of the listening phase is under way.
    ListenCancelled(ListeningState),
    /// The pump runs.
    Active(PumpState<R, S, P>),
    /// A shutdown of the pump is under way.
    Disconnecting(PumpState<R, S, P>),
    /// The server is over.
    Dead,
}

impl<R, S, P> Phase<R, S, P> {
    /// How far along the lifecycle the phase lies.
    pub open spec fn progress(self) -> nat {
        match self {
            Phase::Binding(_) | Phase::BindCancelled(_) => 0,
            Phase::Listening(_) | Phase::ListenCancelled(_) => 1,
            Phase::Active(_) | Phase::Disconnecting(_) => 2,
            Phase::Dead => 3,
        }
    }

    /// True iff a shutdown of the phase is under way.
    pub open spec fn is_cancelled(self) -> bool {
        self is BindCancelled || self is ListenCancelled || self is Disconnecting
    }

    /// The state after a step of the pump at `pump`, and what the server
    /// hands back: a pump that is done ends the server, and so does one that
    /// failed.
    pub open spec fn pumped(pump: PumpState<R, S, P>, step: PumpStep<R, S, P>) -> (
        Self,
        ServerStep<R, S, P>,
    ) {
        match step {
            Step::Perform(work) => (Phase::Active(pump), Step::Perform(Work::Pump(work))),
            Step::Return(Ok(Async::NotReady)) => (
                Phase::Active(pump),
                Step::Return(Ok(Async::NotReady)),
            ),
            Step::Return(Ok(Async::Ready(_))) => (Phase::Dead, Step::Return(Ok(Async::Ready(())))),
            Step::Return(Err(error)) => (Phase::Dead, Step::Return(Err(error))),
        }
    }

    /// The state after a poll, and what the server hands back.
    ///
    /// A phase that makes progress names its next piece of outside work. A
    /// binding phase without its factory refuses to start twice, which ends
    /// the server. A server that is over reports that it was shut down, and
    /// one that is being shut down reports that.
    pub open spec fn polled(self) -> (Self, ServerStep<R, S, P>) {
        match self {
            Phase::Binding(has_factory) => if has_factory {
                (self, Step::Perform(Work::Start(StartWork::BindListener)))
            } else {
                (
                    Phase::Dead,
                    Step::Return(
                        Err(
                            AsyncServerError::OldError(
                                OldErrorWrapper(ErrorKind::AttemptToStartServerTwice),
                            ),
                        ),
                    ),
                )
            },
            Phase::Listening(listening) => (
                self,
                Step::Perform(Work::Connect(listening.connection.work())),
            ),
            Phase::Active(pump) => Self::pumped(pump.next().0, pump.next().1),
            Phase::Dead => (self, Step::Return(Err(AsyncServerError::ServerWasShutDown))),
            _ => (self, Step::Return(Err(AsyncServerError::ShuttingDown))),
        }
    }

    /// The state after an outcome, and what the server hands back.
    ///
    /// The phase in effect takes the outcome. A phase that completes is
    /// followed by the next one, which is polled at once. A failure ends the
    /// server. An outcome that the phase does not wait for is dropped, and
    /// the server is polled as if nothing had been reported.
    pub open spec fn advanced(self, outcome: Outcome<R, S, P>) -> (Self, ServerStep<R, S, P>) {
        match (self, outcome) {
            (Phase::Binding(has_factory), Outcome::Started(started)) => {
                match start_result(has_factory, started) {
                    Ok(Async::Ready(listening)) => Phase::Listening(listening).polled(),
                    Ok(Async::NotReady) => (
                        Phase::Binding(factory_after_start(has_factory, started)),
                        Step::Return(Ok(Async::NotReady)),
                    ),
                    Err(error) => (
                        Phase::Dead,
                        Step::Return(Err(AsyncServerError::OldError(OldErrorWrapper(error)))),
                    ),
                }
            },
            (Phase::Listening(listening), Outcome::Connect(connect)) => {
                let (after, step) = listening.advanced::<R, S, P>(connect);
                match step {
                    Step::Perform(work) => (
                        Phase::Listening(after),
                        Step::Perform(Work::Connect(work)),
                    ),
                    Step::Return(Ok(Async::Ready(pump))) => Phase::Active(pump).polled(),
                    Step::Return(Ok(Async::NotReady)) => (
                        Phase::Listening(after),
                        Step::Return(Ok(Async::NotReady)),
                    ),
                    Step::Return(Err(error)) => (Phase::Dead, Step::Return(Err(error))),
                }
            },
            (Phase::Active(pump), Outcome::Pump(pumped)) => Self::pumped(
                pump.after(pumped).next().0,
                pump.after(pumped).next().1,
            ),
            _ => self.polled(),
        }
    }

    /// The state after the shutdown of the phase in effect has come to
    /// `result`, and what the server answers.
    ///
    /// If the shutdown is not complete yet, the phase becomes its cancelled
    /// counterpart and keeps its state. If it is complete or has failed, the
    /// server is over. A phase whose shutdown was under way already stays as
    /// it is. A server that is over answers that the shutdown is complete,
    /// whatever `result` holds.
    pub open spec fn completed(self, result: Poll<(), AsyncServerError<S, P>>) -> (
        Self,
        Poll<(), AsyncServerError<S, P>>,
    ) {
        match self {
            Phase::Binding(has_factory) => (
                if result matches Ok(Async::NotReady) {
                    Phase::BindCancelled(has_factory)
                } else {
                    Phase::Dead
                },
                result,
            ),
            Phase::Listening(listening) => (
                if result matches Ok(Async::NotReady) {
                    Phase::ListenCancelled(listening)
                } else {
                    Phase::Dead
                },
                result,
            ),
            Phase::Active(pump) => (
                if result matches Ok(Async::NotReady) {
                    Phase::Disconnecting(pump)
                } else {
                    Phase::Dead
                },
                result,
            ),
            Phase::Dead => (self, Ok(Async::Ready(()))),
            _ => (self, result),
        }
    }

    /// The phase in which the server waits for the outside work of a
    /// shutdown, and that work; or the state after a shutdown that needs no
    /// outside work, and its result.
    ///
    /// A binding phase gives up its factory, a listening phase its service,
    /// and the pump has its service stopped. A phase that has nothing left
    /// to stop refuses, which ends the server unless a shutdown was under
    /// way already. A server that is over answers that the shutdown is
    /// complete.
    pub open spec fn shut_down(self) -> (Self, StopStep<S, P>) {
        match self {
            Phase::Binding(has_factory) => match start_shut_down::<S, P>(has_factory) {
                Step::Perform(work) => (Phase::Binding(false), Step::Perform(work)),
                Step::Return(result) => (
                    Phase::<R, S, P>::Binding(false).completed(result).0,
                    Step::Return(result),
                ),
            },
            Phase::BindCancelled(has_factory) => (
                Phase::BindCancelled(false),
                start_shut_down::<S, P>(has_factory),
            ),
            Phase::Listening(listening) => match listening.shut_down::<S, P>().1 {
                Step::Perform(work) => (
                    Phase::Listening(listening.shut_down::<S, P>().0),
                    Step::Perform(work),
                ),
                Step::Return(result) => (
                    Phase::<R, S, P>::Listening(listening.shut_down::<S, P>().0).completed(
                        result,
                    ).0,
                    Step::Return(result),
                ),
            },
            Phase::ListenCancelled(listening) => (
                Phase::ListenCancelled(listening.shut_down::<S, P>().0),
                listening.shut_down::<S, P>().1,
            ),
            Phase::Active(_) | Phase::Disconnecting(_) => (
                self,
                Step::Perform(StopWork::ForceStop),
            ),
            Phase::Dead => (self, Step::Return(Ok(Async::Ready(())))),
        }
    }

    /// The state after the outside work of a shutdown, and what the server
    /// answers.
    pub open spec fn stopped(self, outcome: StopOutcome<S>) -> (
        Self,
        Poll<(), AsyncServerError<S, P>>,
    ) {
        self.completed(stop_result(outcome))
    }
}

} // verus!
