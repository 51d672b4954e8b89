//! What holds of the lifecycle in every state.

use vstd::prelude::*;

use crate::active_server::PumpState;
use crate::async_server::phase::{Outcome, Phase, ServerStep};
use crate::async_server_error::AsyncServerError;
use crate::poll::{Async, Poll, Step};
use crate::shutdown::{StopOutcome, StopStep};

verus! {

/// True iff the lifecycle may lead from `before` to `after`: never back to
/// an earlier phase, and never out of a shutdown that is under way.
pub open spec fn leads_to<R, S, P>(before: Phase<R, S, P>, after: Phase<R, S, P>) -> bool {
    &&& before.progress() <= after.progress()
    &&& before.is_cancelled() ==> after.is_cancelled() && after.progress() == before.progress()
}

/// Shutting down a server that is over is complete at once, and leaves the
/// server over: however often it is asked for, the answer is `Ready(())`.
pub proof fn lemma_shutdown_of_dead_is_ready<R, S, P>(
    outcome: StopOutcome<S>,
    result: Poll<(), AsyncServerError<S, P>>,
)
    ensures
        Phase::<R, S, P>::Dead.shut_down() == (
            Phase::<R, S, P>::Dead,
            StopStep::<S, P>::Return(Ok(Async::Ready(()))),
        ),
        Phase::<R, S, P>::Dead.stopped(outcome) == (
            Phase::<R, S, P>::Dead,
            Ok::<_, AsyncServerError<S, P>>(Async::Ready(())),
        ),
        Phase::<R, S, P>::Dead.completed(result) == (
            Phase::<R, S, P>::Dead,
            Ok::<_, AsyncServerError<S, P>>(Async::Ready(())),
        ),
        Phase::<R, S, P>::Dead.shut_down().0.shut_down() == Phase::<R, S, P>::Dead.shut_down(),
{
}

/// A server that is over stays over: every poll and every outcome meets
/// `ServerWasShutDown`.
pub proof fn lemma_dead_is_terminal<R, S, P>(outcome: Outcome<R, S, P>)
    ensures
        Phase::<R, S, P>::Dead.polled() == (
            Phase::<R, S, P>::Dead,
            ServerStep::<R, S, P>::Return(Err(AsyncServerError::ServerWasShutDown)),
        ),
        Phase::<R, S, P>::Dead.advanced(outcome) == Phase::<R, S, P>::Dead.polled(),
{
}

/// A server whose shutdown is under way answers every poll and every
/// outcome with `ShuttingDown`, and stays as it is.
pub proof fn lemma_cancelled_refuses_polls<R, S, P>(
    phase: Phase<R, S, P>,
    outcome: Outcome<R, S, P>,
)
    requires
        phase.is_cancelled(),
    ensures
        phase.polled() == (
            phase,
            ServerStep::<R, S, P>::Return(Err(AsyncServerError::ShuttingDown)),
        ),
        phase.advanced(outcome) == phase.polled(),
{
}

/// Every operation leads forward: from binding to listening to the pump to
/// the end, never back, and never out of a shutdown that is under way.
pub proof fn lemma_phases_only_move_forward<R, S, P>(
    phase: Phase<R, S, P>,
    outcome: Outcome<R, S, P>,
    stop_outcome: StopOutcome<S>,
    result: Poll<(), AsyncServerError<S, P>>,
)
    ensures
        leads_to(phase, phase.polled().0),
        leads_to(phase, phase.advanced(outcome).0),
        leads_to(phase, phase.shut_down().0),
        leads_to(phase, phase.stopped(stop_outcome).0),
        leads_to(phase, phase.completed(result).0),
{
}

/// A shutdown that is complete or has failed ends the server, and one that
/// is not complete yet turns a phase into its cancelled counterpart, which
/// keeps the state of the phase.
pub proof fn lemma_shutdown_settles<R, S, P>(
    phase: Phase<R, S, P>,
    result: Poll<(), AsyncServerError<S, P>>,
)
    requires
        !phase.is_cancelled(),
    ensures
        !(result matches Ok(Async::NotReady)) ==> phase.completed(result).0 is Dead,
        result matches Ok(Async::NotReady) ==> match phase {
            Phase::Binding(has_factory) => phase.completed(result).0 == Phase::<
                R,
                S,
                P,
            >::BindCancelled(has_factory),
            Phase::Listening(listening) => phase.completed(result).0 == Phase::<
                R,
                S,
                P,
            >::ListenCancelled(listening),
            Phase::Active(pump) => phase.completed(result).0 == Phase::Disconnecting(pump),
            _ => phase.completed(result).0 is Dead,
        },
{
}

/// The pump ends the server exactly when its poll is over with `Ready` or
/// with a failure; a poll that is over with `NotReady` leaves the pump in
/// place for the next poll.
pub proof fn lemma_pump_ends_the_server<R, S, P>(pump: PumpState<R, S, P>)
    ensures
        match pump.next().1 {
            Step::Return(Ok(Async::NotReady)) | Step::Perform(_) => Phase::Active(pump).polled().0
                == Phase::Active(pump.next().0),
            _ => Phase::Active(pump).polled().0 is Dead,
        },
{
}

} // verus!
