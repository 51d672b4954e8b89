//! The phase that binds the listening socket.

use vstd::prelude::*;

use crate::async_server_error::AsyncServerError;
use crate::errors::ErrorKind;
use crate::listening_server::{ListeningServer, ListeningState};
use crate::poll::{Async, Poll, Step};
use crate::shutdown::{service_stopped, stop_result, StopOutcome, StopStep, StopWork};

verus! {

/// Binds the listening socket and hands the service factory on to the
/// listening phase, once.
#[derive(Debug)]
pub struct StartServer {
    service_factory: Option<()>,
}

/// A piece of outside work that the start phase asks for.
#[derive(Debug, Clone, Copy, PartialEq, Eq, Structural)]
pub enum StartWork {
    /// Bind the listening socket to the address; if that succeeds, create
    /// the service instance with the factory.
    BindListener,
}

/// The outcome of binding the listener: the failure to bind, or else what
/// creating the service gave.
pub type StartOutcome = Result<Result<(), std::io::Error>, std::io::Error>;

/// What the start phase hands back to its driver when it is polled.
pub type StartStep = Step<StartWork, (), ErrorKind>;

/// What polling the start phase hands back, given whether the factory is
/// still there.
pub open spec fn start_step(has_factory: bool) -> StartStep {
    if has_factory {
        Step::Perform(StartWork::BindListener)
    } else {
        Step::Return(Err(ErrorKind::AttemptToStartServerTwice))
    }
}

/// Whether the factory is still there after the outcome of binding: it stays
/// if binding failed, and is handed on otherwise.
pub open spec fn factory_after_start(has_factory: bool, outcome: StartOutcome) -> bool {
    has_factory && outcome is Err
}

/// What starting gives, with the listening phase seen as its abstract state:
/// the failure to bind, a listening phase that keeps what creating the
/// service gave, or the refusal to start twice.
pub open spec fn start_result(has_factory: bool, outcome: StartOutcome) -> Poll<
    ListeningState,
    ErrorKind,
> {
    match outcome {
        Err(cause) => Err(ErrorKind::Io(cause)),
        Ok(service) => if has_factory {
            Ok(Async::Ready(ListeningState::initial(service)))
        } else {
            Err(ErrorKind::AttemptToStartServerTwice)
        },
    }
}

/// A poll result in which a listening phase is seen as its abstract state.
pub open spec fn started_view(result: Poll<ListeningServer, ErrorKind>) -> Poll<
    ListeningState,
    ErrorKind,
> {
    match result {
        Ok(Async::Ready(server)) => Ok(Async::Ready(server@)),
        Ok(Async::NotReady) => Ok(Async::NotReady),
        Err(error) => Err(error),
    }
}

/// What a request to shut the start phase down hands back: with the factory
/// there, a throwaway service is to be created and stopped; without it the
/// shutdown is refused.
pub open spec fn start_shut_down<S, P>(has_factory: bool) -> StopStep<S, P> {
    if has_factory {
        Step::Perform(StopWork::CreateServiceAndForceStop)
    } else {
        Step::Return(Err(AsyncServerError::IncorrectShutdownInStartServer))
    }
}

impl StartServer {
    /// True iff the service factory has not been handed on yet.
    pub closed spec fn has_factory(&self) -> bool {
        self.service_factory is Some
    }

    /// A start phase that holds the service factory.
    pub fn new() -> (server: Self)
        ensures
            server.has_factory(),
    {
        StartServer { service_factory: Some(()) }
    }

    /// True iff the service factory has not been handed on yet.
    pub fn can_start(&self) -> (can: bool)
        ensures
            can == self.has_factory(),
    {
        self.service_factory.is_some()
    }

    /// Names the outside work that the phase waits for: binding the
    /// listener, as long as the factory is there. Without the factory the
    /// phase has started a server already, and refuses.
    pub fn poll(&self) -> (step: StartStep)
        ensures
            step == start_step(self.has_factory()),
    {
        if self.service_factory.is_some() {
            Step::Perform(StartWork::BindListener)
        } else {
            Step::Return(Err(ErrorKind::AttemptToStartServerTwice))
        }
    }

    /// Takes the outcome of binding the listener. A failure to bind is
    /// reported and leaves the factory in place. Else the factory is handed
    /// on, and the listening phase begins with what creating the service
    /// gave.
    pub fn start_server(&mut self, outcome: StartOutcome) -> (result: Poll<
        ListeningServer,
        ErrorKind,
    >)
        ensures
            started_view(result) == start_result(old(self).has_factory(), outcome),
            final(self).has_factory() == factory_after_start(old(self).has_factory(), outcome),
    {
        match outcome {
            Err(cause) => Err(ErrorKind::Io(cause)),
            Ok(service) => {
                if let Some(_) = self.service_factory.take() {
                    Ok(Async::Ready(ListeningServer::new(service)))
                } else {
                    Err(ErrorKind::AttemptToStartServerTwice)
                }
            },
        }
    }

    /// Begins a shutdown: the factory, if it is still here, leaves to create
    /// a service that is stopped at once; else the shutdown is refused.
    pub fn shutdown<S, P>(&mut self) -> (step: StopStep<S, P>)
        ensures
            step == start_shut_down::<S, P>(old(self).has_factory()),
            !final(self).has_factory(),
    {
        if let Some(_) = self.service_factory.take() {
            Step::Perform(StopWork::CreateServiceAndForceStop)
        } else {
            Step::Return(Err(AsyncServerError::IncorrectShutdownInStartServer))
        }
    }

    /// Ends a shutdown with the outcome of creating and stopping the
    /// throwaway service.
    pub fn stopped<S, P>(&self, outcome: StopOutcome<S>) -> (result: Poll<
        (),
        AsyncServerError<S, P>,
    >)
        ensures
            result == stop_result::<S, P>(outcome),
    {
        match outcome {
            Ok(stopped) => service_stopped(stopped),
            Err(cause) => Err(AsyncServerError::ServiceCreationError(cause)),
        }
    }
}

/// A start phase that is polled a second time, with nothing having put the
/// factory back, refuses to start twice.
pub proof fn lemma_second_start_is_refused(has_factory: bool, outcome: StartOutcome)
    requires
        start_result(has_factory, outcome) matches Ok(Async::Ready(_)),
    ensures
        !factory_after_start(has_factory, outcome),
        start_step(factory_after_start(has_factory, outcome)) == StartStep::Return(
            Err(ErrorKind::AttemptToStartServerTwice),
        ),
        forall|second: StartOutcome|
            second is Ok ==> #[trigger] start_result(
                factory_after_start(has_factory, outcome),
                second,
            ) == Err::<Async<ListeningState>, _>(ErrorKind::AttemptToStartServerTwice),
{
}

} // verus!
