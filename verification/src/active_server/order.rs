//! What holds of every run of the pump: the order in which responses leave
//! it, and when the service is asked whether it has finished.

use vstd::prelude::*;

use crate::active_server::model::{PumpOutcome, PumpState, PumpStep, PumpWork, Stage};
use crate::poll::{Async, AsyncSink, Step};

verus! {

/// True iff `outcome` is an answer to `work`: it is of the kind that the
/// work produces, and a response that the transport hands back is the one
/// that was offered to it.
pub open spec fn answers<R, S, P>(work: PumpWork<R>, outcome: PumpOutcome<R, S, P>) -> bool {
    match work {
        PumpWork::GetNewRequest => outcome is NewRequest,
        PumpWork::GetNewResponse => outcome is NewResponse,
        PumpWork::SendResponse(offered) => match outcome {
            PumpOutcome::Sent(Ok(AsyncSink::NotReady(returned))) => returned == offered,
            PumpOutcome::Sent(_) => true,
            _ => false,
        },
        PumpWork::FlushResponses => outcome is Flushed,
        PumpWork::CheckIfFinished => outcome is FinishedCheck,
    }
}

/// What a driver has seen of the pump over a run of outcomes.
pub struct Run<R, S, P> {
    /// The state of the pump after the last outcome.
    pub state: PumpState<R, S, P>,
    /// The responses that completions have produced, in the order in which
    /// they became ready.
    pub received: Seq<R>,
    /// The responses that have left the pump for good, in the order in which
    /// they were offered: the transport took them, or failed on them.
    pub departed: Seq<R>,
    /// Whether every outcome was an answer to the work that the pump had
    /// asked for.
    pub faithful: bool,
}

impl<R, S, P> PumpState<R, S, P> {
    /// The work that the pump asks for next, and the state in which it waits
    /// for the outcome. Where a poll ends in between, the driver polls again.
    pub open spec fn next_work(self) -> (Self, PumpWork<R>) {
        match self.next().1 {
            Step::Perform(work) => (self.next().0, work),
            Step::Return(_) => (self.next().0, PumpWork::GetNewRequest),
        }
    }

    /// The run in which the driver performs each piece of work that the pump
    /// asks for and reports `outcomes` in turn.
    pub open spec fn run(self, outcomes: Seq<PumpOutcome<R, S, P>>) -> Run<R, S, P>
        decreases outcomes.len(),
    {
        if outcomes.len() == 0 {
            Run { state: self, received: Seq::empty(), departed: Seq::empty(), faithful: true }
        } else {
            let (waiting, work) = self.next_work();
            let rest = waiting.after(outcomes[0]).run(outcomes.skip(1));
            Run {
                state: rest.state,
                received: received_by::<R, S, P>(outcomes[0]) + rest.received,
                departed: departed_by(work, outcomes[0]) + rest.departed,
                faithful: answers(work, outcomes[0]) && rest.faithful,
            }
        }
    }

    /// The response that the pump offers first in a run, if it offers any.
    pub open spec fn first_offered(self, outcomes: Seq<PumpOutcome<R, S, P>>) -> Option<R>
        decreases outcomes.len(),
    {
        if outcomes.len() == 0 {
            match self.next_work().1 {
                PumpWork::SendResponse(offered) => Some(offered),
                _ => None,
            }
        } else {
            let (waiting, work) = self.next_work();
            match work {
                PumpWork::SendResponse(offered) => Some(offered),
                _ => waiting.after(outcomes[0]).first_offered(outcomes.skip(1)),
            }
        }
    }
}

/// The response that an outcome adds to the queue, if any.
pub open spec fn received_by<R, S, P>(outcome: PumpOutcome<R, S, P>) -> Seq<R> {
    match outcome {
        PumpOutcome::NewResponse(Ok(Async::Ready(Some(response)))) => seq![response],
        _ => Seq::empty(),
    }
}

/// The response that leaves the pump for good with an outcome, if any.
pub open spec fn departed_by<R, S, P>(work: PumpWork<R>, outcome: PumpOutcome<R, S, P>) -> Seq<R> {
    match work {
        PumpWork::SendResponse(offered) => match outcome {
            PumpOutcome::Sent(Ok(AsyncSink::NotReady(_))) => Seq::empty(),
            _ => seq![offered],
        },
        _ => Seq::empty(),
    }
}

/// Asking for work changes the queue only by taking its head to offer it.
pub proof fn lemma_next_work_takes_the_head<R, S, P>(state: PumpState<R, S, P>)
    ensures
        match state.next_work().1 {
            PumpWork::SendResponse(offered) => {
                &&& state.live_responses.len() > 0
                &&& offered == state.live_responses[0]
                &&& state.next_work().0.live_responses == state.live_responses.skip(1)
            },
            _ => state.next_work().0.live_responses == state.live_responses,
        },
        state.next_work().0.live_requests == state.live_requests,
{
    reveal_with_fuel(PumpState::next, 5);
}

/// The service is asked whether it has finished only when no completion is
/// in flight and no response waits to be written.
pub proof fn lemma_finished_check_waits_for_quiet<R, S, P>(state: PumpState<R, S, P>)
    ensures
        (state.next().1 matches Step::Perform(work) && work is CheckIfFinished) ==> {
            &&& state.is_quiet()
            &&& state.next().0.is_quiet()
            &&& state.next().0.is_running()
        },
        !state.is_quiet() ==> !(state.next_work().1 is CheckIfFinished),
{
    reveal_with_fuel(PumpState::next, 5);
}

/// A poll that is over leaves the pump afresh: the status is `Active` again,
/// the next poll begins a new iteration, and the first thing it asks for is
/// a request, whatever waits in the queue.
pub proof fn lemma_poll_ends_afresh<R, S, P>(state: PumpState<R, S, P>)
    requires
        state.next().1 is Return,
    ensures
        state.next().0.status is Active,
        state.next().0.stage == Stage::NewRequest,
        state.next().0.live_responses == state.live_responses,
        state.next().0.live_requests == state.live_requests,
        state.next().0.next() == (
            state.next().0,
            PumpStep::<R, S, P>::Perform(PumpWork::GetNewRequest),
        ),
        !(state.status is Active),
        state.next().1 == PumpStep::<R, S, P>::Return(state.status.poll_result()),
{
    reveal_with_fuel(PumpState::next, 5);
}

/// With no traffic the poll is over with `NotReady`: if the transport has no
/// request, no completion is in flight, nothing is queued, the flush goes
/// through and the service has not finished, then the pump asks for exactly
/// these four things and yields, with its status `Active` again.
pub proof fn lemma_empty_traffic_blocks<R, S, P>(state: PumpState<R, S, P>)
    requires
        state.status is Active,
        state.stage == Stage::NewRequest,
        state.is_quiet(),
    ensures
        ({
            let asked = state.next();
            let read = asked.0.after_new_request(Ok(Async::NotReady)).next();
            let collected = read.0.after_new_response(Ok(Async::Ready(None))).next();
            let flushed = collected.0.after_flush(Ok(Async::Ready(()))).next();
            let checked = flushed.0.after_finished_check(Ok(false)).next();
            &&& asked.1 == PumpStep::<R, S, P>::Perform(PumpWork::GetNewRequest)
            &&& read.1 == PumpStep::<R, S, P>::Perform(PumpWork::GetNewResponse)
            &&& collected.1 == PumpStep::<R, S, P>::Perform(PumpWork::FlushResponses)
            &&& flushed.1 == PumpStep::<R, S, P>::Perform(PumpWork::CheckIfFinished)
            &&& checked.1 == PumpStep::<R, S, P>::Return(Ok(Async::NotReady))
            &&& checked.0 == state
        }),
{
    reveal_with_fuel(PumpState::next, 5);
}

/// A service that answers that it has finished ends the poll with `Ready`,
/// whether or not a sub-step of the same iteration had to wait.
pub proof fn lemma_finished_service_ends_the_poll<R, S, P>(state: PumpState<R, S, P>)
    requires
        state.is_running(),
    ensures
        state.after_finished_check(Ok(true)).next().1 == PumpStep::<R, S, P>::Return(
            Ok(Async::Ready(())),
        ),
        state.status is Active ==> state.after_finished_check(Ok(false)).next().1 == PumpStep::<R, S, P>::Perform(PumpWork::GetNewRequest),
{
    reveal_with_fuel(PumpState::next, 5);
}

/// A failure is fatal at once: after it no sub-step of the iteration asks
/// for outside work, and the poll is over with the failure that came first.
pub proof fn lemma_failure_ends_the_poll<R, S, P>(state: PumpState<R, S, P>)
    requires
        state.status is Error,
    ensures
        state.next().1 == PumpStep::<R, S, P>::Return(Err(state.status->Error_0)),
{
    reveal_with_fuel(PumpState::next, 5);
}

/// The pump never reports that it is done while a completion is in flight
/// or a response waits to be written: if the poll is over with `Ready` after
/// a faithful outcome, the pump is quiet.
pub proof fn lemma_done_only_when_quiet<R, S, P>(
    state: PumpState<R, S, P>,
    outcome: PumpOutcome<R, S, P>,
)
    requires
        state.next().1 is Perform,
        answers(state.next().1->Perform_0, outcome),
        state.next().0.after(outcome).next().1 == PumpStep::<R, S, P>::Return(
            Ok(Async::Ready(())),
        ),
    ensures
        outcome == PumpOutcome::<R, S, P>::FinishedCheck(Ok(true)),
        state.is_quiet(),
        state.next().0.after(outcome).next().0.is_quiet(),
{
    reveal_with_fuel(PumpState::next, 5);
}

/// Responses leave the pump in the order in which they entered the queue:
/// over any faithful run, the responses that have left followed by those
/// still queued are the responses queued at the start followed by those
/// received since, in the order in which they became ready.
pub proof fn lemma_responses_leave_in_queue_order<R, S, P>(
    state: PumpState<R, S, P>,
    outcomes: Seq<PumpOutcome<R, S, P>>,
)
    requires
        state.run(outcomes).faithful,
    ensures
        state.run(outcomes).departed + state.run(outcomes).state.live_responses
            == state.live_responses + state.run(outcomes).received,
    decreases outcomes.len(),
{
    if outcomes.len() == 0 {
        assert(Seq::<R>::empty() + state.live_responses =~= state.live_responses + Seq::<
            R,
        >::empty());
    } else {
        let (waiting, work) = state.next_work();
        let after = waiting.after(outcomes[0]);
        let rest = after.run(outcomes.skip(1));
        lemma_next_work_takes_the_head(state);
        lemma_responses_leave_in_queue_order(after, outcomes.skip(1));
        assert(departed_by(work, outcomes[0]) + after.live_responses =~= state.live_responses
            + received_by::<R, S, P>(outcomes[0]));
        assert(state.run(outcomes).departed + rest.state.live_responses =~= departed_by(
            work,
            outcomes[0],
        ) + (rest.departed + rest.state.live_responses));
        assert(state.live_responses + state.run(outcomes).received =~= (state.live_responses
            + received_by::<R, S, P>(outcomes[0])) + rest.received);
        assert(departed_by(work, outcomes[0]) + (after.live_responses + rest.received) =~= (
        departed_by(work, outcomes[0]) + after.live_responses) + rest.received);
    }
}

/// Whatever order the completions resolve in, that is the order in which the
/// transport gets the responses: a pump that starts and ends with an empty
/// queue, over a faithful run, has sent exactly the responses that it
/// received, in the order in which they became ready.
pub proof fn lemma_responses_leave_in_completion_order<R, S, P>(
    state: PumpState<R, S, P>,
    outcomes: Seq<PumpOutcome<R, S, P>>,
)
    requires
        state.run(outcomes).faithful,
        state.live_responses.len() == 0,
        state.run(outcomes).state.live_responses.len() == 0,
    ensures
        state.run(outcomes).departed == state.run(outcomes).received,
{
    lemma_responses_leave_in_queue_order(state, outcomes);
    let run = state.run(outcomes);
    assert(run.departed + run.state.live_responses =~= run.departed);
    assert(state.live_responses + run.received =~= run.received);
}

/// A response that the transport hands back is the one that the pump offers
/// next: over any faithful run that follows, no other response is offered
/// before it.
pub proof fn lemma_rejected_response_is_offered_next<R, S, P>(
    state: PumpState<R, S, P>,
    rejected: R,
    outcomes: Seq<PumpOutcome<R, S, P>>,
)
    requires
        state.after_send(Ok(AsyncSink::NotReady(rejected))).run(outcomes).faithful,
    ensures
        state.after_send(Ok(AsyncSink::NotReady(rejected))).live_responses[0] == rejected,
        match state.after_send(Ok(AsyncSink::NotReady(rejected))).first_offered(outcomes) {
            Some(offered) => offered == rejected,
            None => true,
        },
{
    let after = state.after_send(Ok(AsyncSink::NotReady(rejected)));
    lemma_head_is_offered_first(after, outcomes);
}

/// The response at the head of the queue is the first that the pump offers.
pub proof fn lemma_head_is_offered_first<R, S, P>(
    state: PumpState<R, S, P>,
    outcomes: Seq<PumpOutcome<R, S, P>>,
)
    requires
        state.live_responses.len() > 0,
        state.run(outcomes).faithful,
    ensures
        match state.first_offered(outcomes) {
            Some(offered) => offered == state.live_responses[0],
            None => true,
        },
    decreases outcomes.len(),
{
    lemma_next_work_takes_the_head(state);
    if outcomes.len() > 0 {
        let (waiting, work) = state.next_work();
        if !(work is SendResponse) {
            let after = waiting.after(outcomes[0]);
            assert(after.live_responses.len() > 0 && after.live_responses[0]
                == state.live_responses[0]);
            lemma_head_is_offered_first(after, outcomes.skip(1));
        }
    }
}

} // verus!
