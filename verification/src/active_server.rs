//! The request/response pump of an established connection.
//!
//! The pump repeats five sub-steps: read a request, collect a response, write
//! the queued responses, flush, and ask the service whether it has finished.
//! It performs none of them itself. [`ActiveServer::poll`] names the next
//! piece of outside work, and the method that takes the outcome of that work
//! names the one after it, until the poll is over.

pub mod model;
pub mod order;

use std::collections::VecDeque;
use vstd::prelude::*;

use crate::async_server_error::AsyncServerError;
use crate::poll::{Async, AsyncSink, Poll, StartSend, Step};
use crate::shutdown::{service_stopped, shutdown_result, StopStep, StopWork};
use crate::status::Status;

pub use model::{PumpOutcome, PumpState, PumpStep, PumpWork, Stage};

verus! {

/// The pump: the responses that wait to be written, the number of
/// completions in flight, and the merged status of the current iteration.
///
/// `R` is the response type, `S` the service's error and `P` the error of the
/// framed transport.
#[derive(Debug)]
pub struct ActiveServer<R, S, P> {
    live_requests: usize,
    live_responses: VecDeque<R>,
    status: Status<AsyncServerError<S, P>>,
    stage: Stage,
}

impl<R, S, P> View for ActiveServer<R, S, P> {
    type V = PumpState<R, S, P>;

    closed spec fn view(&self) -> PumpState<R, S, P> {
        PumpState {
            live_requests: self.live_requests as nat,
            live_responses: self.live_responses@,
            status: self.status,
            stage: self.stage,
        }
    }
}

impl<R, S, P> ActiveServer<R, S, P> {
    /// A pump for a connection that has just been established.
    pub fn new() -> (server: Self)
        ensures
            server@ == PumpState::<R, S, P>::initial(),
    {
        ActiveServer {
            live_requests: 0,
            live_responses: VecDeque::new(),
            status: Status::Active,
            stage: Stage::NewRequest,
        }
    }

    /// The number of completions in flight.
    pub fn live_requests(&self) -> (count: usize)
        ensures
            count == self@.live_requests,
    {
        self.live_requests
    }

    /// The number of responses that wait to be written.
    pub fn live_responses(&self) -> (count: usize)
        ensures
            count == self@.live_responses.len(),
    {
        self.live_responses.len()
    }

    /// The sub-step that comes next.
    pub fn stage(&self) -> (stage: Stage)
        ensures
            stage == self@.stage,
    {
        self.stage
    }

    /// True iff the merged status is `Active`.
    pub fn is_active(&self) -> (active: bool)
        ensures
            active == (self@.status is Active),
    {
        self.status.is_active()
    }

    /// True iff the merged status is `Active` or `WouldBlock`.
    pub fn is_running(&self) -> (running: bool)
        ensures
            running == self@.is_running(),
    {
        self.status.is_running()
    }

    /// Begins a shutdown: the service is to be asked to stop. Queued
    /// responses are left where they are.
    pub fn shutdown(&self) -> (step: StopStep<S, P>)
        ensures
            step == StopStep::<S, P>::Perform(StopWork::ForceStop),
    {
        Step::Perform(StopWork::ForceStop)
    }

    /// Ends a shutdown with the service's answer to the request to stop: the
    /// shutdown is complete if the service stopped, and fails with the
    /// service's error otherwise.
    pub fn stopped(&self, stopped: Result<(), S>) -> (result: Poll<(), AsyncServerError<S, P>>)
        ensures
            result == shutdown_result::<S, P>(stopped),
    {
        service_stopped(stopped)
    }

    /// Takes the status out, leaving `Active` for the next poll, and converts
    /// it to a poll result.
    pub fn poll_status(&mut self) -> (result: Poll<(), AsyncServerError<S, P>>)
        requires
            !(old(self)@.status is Active),
        ensures
            result == old(self)@.status.poll_result(),
            final(self)@ == (PumpState { status: Status::Active, ..old(self)@ }),
    {
        let mut resulting_status = Status::Active;
        core::mem::swap(&mut self.status, &mut resulting_status);

        resulting_status.into_poll()
    }

    fn head(&mut self) -> (step: PumpStep<R, S, P>)
        ensures
            (final(self)@, step) == old(self)@.head(),
    {
        if self.status.is_active() {
            Step::Perform(PumpWork::GetNewRequest)
        } else {
            Step::Return(self.poll_status())
        }
    }

    /// Names the outside work that the pump waits for, or ends the poll.
    ///
    /// Sub-steps whose turn it is are skipped once the status has stopped
    /// running. The next queued response, if any, leaves the queue with the
    /// request to write it. The service is asked whether it has finished only
    /// when nothing is in flight and nothing is queued. At the head of an
    /// iteration a status other than `Active` ends the poll: it is returned
    /// as the poll result, and the pump starts afresh.
    pub fn poll(&mut self) -> (step: PumpStep<R, S, P>)
        ensures
            (final(self)@, step) == old(self)@.next(),
    {
        loop
            invariant
                self@.next() == old(self)@.next(),
            decreases 5 - self.stage.position(),
        {
            match self.stage {
                Stage::NewRequest => {
                    return self.head();
                },
                Stage::NewResponse => {
                    if self.status.is_running() {
                        return Step::Perform(PumpWork::GetNewResponse);
                    }
                    self.stage = Stage::SendResponses;
                },
                Stage::SendResponses => {
                    if self.status.is_running() {
                        if let Some(response) = self.live_responses.pop_front() {
                            return Step::Perform(PumpWork::SendResponse(response));
                        }
                    }
                    self.stage = Stage::FlushResponses;
                },
                Stage::FlushResponses => {
                    if self.status.is_running() {
                        return Step::Perform(PumpWork::FlushResponses);
                    }
                    self.stage = Stage::FinishedCheck;
                },
                Stage::FinishedCheck => {
                    let no_pending_requests = self.live_requests == 0;
                    let no_pending_responses = self.live_responses.len() == 0;

                    if self.status.is_running() && no_pending_requests && no_pending_responses {
                        return Step::Perform(PumpWork::CheckIfFinished);
                    }
                    self.stage = Stage::NewRequest;
                    return self.head();
                },
            }
        }
    }

    /// Takes the outcome of a piece of outside work, whatever its kind, and
    /// names what comes next.
    pub fn advance(&mut self, outcome: PumpOutcome<R, S, P>) -> (step: PumpStep<R, S, P>)
        requires
            outcome matches PumpOutcome::NewRequest(Ok(Async::Ready(Some(_)))) ==> old(
                self,
            )@.live_requests < usize::MAX,
        ensures
            (final(self)@, step) == old(self)@.after(outcome).next(),
    {
        match outcome {
            PumpOutcome::NewRequest(new_request) => self.try_to_get_new_request(new_request),
            PumpOutcome::NewResponse(maybe_response) => {
                self.try_to_get_new_response(maybe_response)
            },
            PumpOutcome::Sent(sent) => self.try_to_send_responses(sent),
            PumpOutcome::Flushed(flushed) => self.try_to_flush_responses(flushed),
            PumpOutcome::FinishedCheck(finished) => self.check_if_finished(finished),
        }
    }

    /// Takes the outcome of reading a request and names what comes next.
    ///
    /// A request that was read and handed to the service is one more
    /// completion in flight. The end of the stream, a transport that is not
    /// ready and a decoding failure are merged into the status.
    pub fn try_to_get_new_request(&mut self, new_request: Poll<Option<()>, P>) -> (step: PumpStep<
        R,
        S,
        P,
    >)
        requires
            new_request matches Ok(Async::Ready(Some(_))) ==> old(self)@.live_requests
                < usize::MAX,
        ensures
            (final(self)@, step) == old(self)@.after_new_request(new_request).next(),
    {
        match new_request {
            Ok(Async::Ready(Some(_))) => {
                self.live_requests = self.live_requests + 1;
            },
            Ok(Async::Ready(None)) => {
                self.status.update(Status::Active);
            },
            Ok(Async::NotReady) => {
                self.status.update(Status::WouldBlock);
            },
            Err(error) => {
                self.status.update(Status::Error(AsyncServerError::NewRequestError(error)));
            },
        }
        self.stage = Stage::NewResponse;

        self.poll()
    }

    /// Takes the outcome of polling the in-flight completions and names what
    /// comes next.
    ///
    /// A response goes to the tail of the queue. An empty in-flight set, one
    /// in which nothing is ready and a completion that failed are merged into
    /// the status.
    pub fn try_to_get_new_response(&mut self, maybe_response: Poll<Option<R>, S>) -> (step:
        PumpStep<R, S, P>)
        ensures
            (final(self)@, step) == old(self)@.after_new_response(maybe_response).next(),
    {
        match maybe_response {
            Ok(Async::Ready(Some(response))) => {
                self.one_resolved();
                self.live_responses.push_back(response);
            },
            Ok(Async::Ready(None)) => {
                self.status.update(Status::Active);
            },
            Ok(Async::NotReady) => {
                self.status.update(Status::WouldBlock);
            },
            Err(error) => {
                self.one_resolved();
                self.status.update(Status::Error(AsyncServerError::NewResponseError(error)));
            },
        }
        self.stage = Stage::SendResponses;

        self.poll()
    }

    fn one_resolved(&mut self)
        ensures
            final(self)@ == (PumpState { live_requests: old(self)@.one_resolved(), ..old(self)@ }),
    {
        if self.live_requests > 0 {
            self.live_requests = self.live_requests - 1;
        }
    }

    /// Takes the outcome of offering a response to the framed transport and
    /// names what comes next.
    ///
    /// After a response that the transport took, the next queued response
    /// follows. A response that the transport handed back returns to the head
    /// of the queue, and no further response is offered in this iteration;
    /// nor is one after a failure.
    pub fn try_to_send_responses(&mut self, sent: StartSend<R, P>) -> (step: PumpStep<R, S, P>)
        ensures
            (final(self)@, step) == old(self)@.after_send(sent).next(),
    {
        match sent {
            Ok(AsyncSink::Ready) => {
                self.stage = Stage::SendResponses;
            },
            Ok(AsyncSink::NotReady(response)) => {
                self.live_responses.push_front(response);
                self.status.update(Status::WouldBlock);
                self.stage = Stage::FlushResponses;
            },
            Err(error) => {
                self.status.update(Status::Error(AsyncServerError::SendResponseError(error)));
                self.stage = Stage::FlushResponses;
            },
        }

        self.poll()
    }

    /// Takes the outcome of flushing the framed transport and names what
    /// comes next.
    pub fn try_to_flush_responses(&mut self, flushed: Poll<(), P>) -> (step: PumpStep<R, S, P>)
        ensures
            (final(self)@, step) == old(self)@.after_flush(flushed).next(),
    {
        match flushed {
            Ok(Async::Ready(_)) => {
                self.status.update(Status::Active);
            },
            Ok(Async::NotReady) => {
                self.status.update(Status::WouldBlock);
            },
            Err(error) => {
                self.status.update(Status::Error(AsyncServerError::FlushResponsesError(error)));
            },
        }
        self.stage = Stage::FinishedCheck;

        self.poll()
    }

    /// Takes the service's answer to "have you finished?" and names what
    /// comes next. A service that has finished ends the pump; one that has
    /// not keeps it going; a failure is fatal.
    pub fn check_if_finished(&mut self, finished: Result<bool, S>) -> (step: PumpStep<R, S, P>)
        ensures
            (final(self)@, step) == old(self)@.after_finished_check(finished).next(),
    {
        let service_status = match finished {
            Ok(true) => Status::Finished,
            Ok(false) => Status::Active,
            Err(error) => Status::Error(AsyncServerError::ServiceFinishedCheckError(error)),
        };
        self.status.update(service_status);
        self.stage = Stage::NewRequest;

        self.poll()
    }
}

} // verus!
