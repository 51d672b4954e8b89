//! The pump as a mathematical state machine.

use vstd::prelude::*;

use crate::async_server_error::AsyncServerError;
use crate::poll::{Async, AsyncSink, Poll, StartSend, Step};
use crate::status::Status;

verus! {

/// The sub-step of a pump iteration that comes next.
#[derive(Debug, Clone, Copy, PartialEq, Eq, Structural)]
pub enum Stage {
    /// Read one request from the framed transport.
    NewRequest,
    /// Collect one response from the in-flight completions.
    NewResponse,
    /// Write queued responses to the framed transport.
    SendResponses,
    /// Flush the framed transport.
    FlushResponses,
    /// Ask the service whether it has finished.
    FinishedCheck,
}

/// A piece of outside work that the pump asks for.
#[derive(Debug)]
pub enum PumpWork<R> {
    /// Poll the framed transport for one request. If one is ready, hand it
    /// to the service and add its completion to the in-flight set.
    GetNewRequest,
    /// Poll the in-flight set for one completion.
    GetNewResponse,
    /// Offer this response to the framed transport.
    SendResponse(R),
    /// Flush the framed transport.
    FlushResponses,
    /// Ask the service whether it has finished.
    CheckIfFinished,
}

/// The outcome of a piece of outside work, as the driver reports it.
#[derive(Debug)]
pub enum PumpOutcome<R, S, P> {
    /// What reading a request gave: `Some` stands for a request that was read
    /// and handed to the service, `None` for the end of the stream.
    NewRequest(Poll<Option<()>, P>),
    /// What polling the in-flight completions gave: a response, or `None` if
    /// nothing is in flight.
    NewResponse(Poll<Option<R>, S>),
    /// What the framed transport did with the response offered to it.
    Sent(StartSend<R, P>),
    /// What flushing the framed transport gave.
    Flushed(Poll<(), P>),
    /// What the service answered when asked whether it had finished.
    FinishedCheck(Result<bool, S>),
}

/// What the pump hands back to its driver.
pub type PumpStep<R, S, P> = Step<PumpWork<R>, (), AsyncServerError<S, P>>;

/// The abstract state of the pump.
pub struct PumpState<R, S, P> {
    /// How many completions are in flight.
    pub live_requests: nat,
    /// The responses that wait to be written, oldest first.
    pub live_responses: Seq<R>,
    /// The merged outcome of the sub-steps so far.
    pub status: Status<AsyncServerError<S, P>>,
    /// The sub-step that comes next.
    pub stage: Stage,
}

impl Stage {
    /// How many sub-steps of the iteration lie behind this one.
    pub open spec fn position(self) -> nat {
        match self {
            Stage::NewRequest => 0,
            Stage::NewResponse => 1,
            Stage::SendResponses => 2,
            Stage::FlushResponses => 3,
            Stage::FinishedCheck => 4,
        }
    }
}

/// The status that stands for the outcome of reading a request.
pub open spec fn new_request_status<S, P>(outcome: Poll<Option<()>, P>) -> Status<
    AsyncServerError<S, P>,
> {
    match outcome {
        Ok(Async::Ready(_)) => Status::Active,
        Ok(Async::NotReady) => Status::WouldBlock,
        Err(error) => Status::Error(AsyncServerError::NewRequestError(error)),
    }
}

/// The status that stands for the outcome of collecting a response.
pub open spec fn new_response_status<R, S, P>(outcome: Poll<Option<R>, S>) -> Status<
    AsyncServerError<S, P>,
> {
    match outcome {
        Ok(Async::Ready(_)) => Status::Active,
        Ok(Async::NotReady) => Status::WouldBlock,
        Err(error) => Status::Error(AsyncServerError::NewResponseError(error)),
    }
}

/// The status that stands for the outcome of writing a response.
pub open spec fn send_status<R, S, P>(outcome: StartSend<R, P>) -> Status<AsyncServerError<S, P>> {
    match outcome {
        Ok(AsyncSink::Ready) => Status::Active,
        Ok(AsyncSink::NotReady(_)) => Status::WouldBlock,
        Err(error) => Status::Error(AsyncServerError::SendResponseError(error)),
    }
}

/// The status that stands for the outcome of flushing.
pub open spec fn flush_status<S, P>(outcome: Poll<(), P>) -> Status<AsyncServerError<S, P>> {
    match outcome {
        Ok(Async::Ready(_)) => Status::Active,
        Ok(Async::NotReady) => Status::WouldBlock,
        Err(error) => Status::Error(AsyncServerError::FlushResponsesError(error)),
    }
}

/// The status that stands for the service's answer to "have you finished?".
pub open spec fn finished_status<S, P>(outcome: Result<bool, S>) -> Status<AsyncServerError<S, P>> {
    match outcome {
        Ok(true) => Status::Finished,
        Ok(false) => Status::Active,
        Err(error) => Status::Error(AsyncServerError::ServiceFinishedCheckError(error)),
    }
}

impl<R, S, P> PumpState<R, S, P> {
    /// The state of a pump that has done nothing yet.
    pub open spec fn initial() -> Self {
        PumpState {
            live_requests: 0,
            live_responses: Seq::empty(),
            status: Status::Active,
            stage: Stage::NewRequest,
        }
    }

    /// True iff the sub-steps of the current iteration go on.
    pub open spec fn is_running(self) -> bool {
        self.status is Active || self.status is WouldBlock
    }

    /// True iff nothing is in flight and nothing waits to be written.
    pub open spec fn is_quiet(self) -> bool {
        self.live_requests == 0 && self.live_responses.len() == 0
    }

    /// The state after the outcome of reading a request: a request that was
    /// read is in flight, anything else is merged into the status.
    pub open spec fn after_new_request(self, outcome: Poll<Option<()>, P>) -> Self {
        match outcome {
            Ok(Async::Ready(Some(_))) => PumpState {
                live_requests: self.live_requests + 1,
                stage: Stage::NewResponse,
                ..self
            },
            _ => PumpState {
                status: self.status.merged(new_request_status(outcome)),
                stage: Stage::NewResponse,
                ..self
            },
        }
    }

    /// The number of completions in flight once one of them has resolved.
    pub open spec fn one_resolved(self) -> nat {
        if self.live_requests > 0 {
            (self.live_requests - 1) as nat
        } else {
            0
        }
    }

    /// The state after the outcome of collecting a response: a response goes
    /// to the tail of the queue, anything else is merged into the status. A
    /// completion that resolved, to a response or to an error, is no longer
    /// in flight.
    pub open spec fn after_new_response(self, outcome: Poll<Option<R>, S>) -> Self {
        match outcome {
            Ok(Async::Ready(Some(response))) => PumpState {
                live_requests: self.one_resolved(),
                live_responses: self.live_responses.push(response),
                stage: Stage::SendResponses,
                ..self
            },
            Err(_) => PumpState {
                live_requests: self.one_resolved(),
                status: self.status.merged(new_response_status(outcome)),
                stage: Stage::SendResponses,
                ..self
            },
            _ => PumpState {
                status: self.status.merged(new_response_status(outcome)),
                stage: Stage::SendResponses,
                ..self
            },
        }
    }

    /// The state after the outcome of writing a response. A response that
    /// the sink took is gone and the next one may follow. One that the sink
    /// handed back returns to the head of the queue, and writing stops for
    /// this iteration; so it does after an error.
    pub open spec fn after_send(self, outcome: StartSend<R, P>) -> Self {
        match outcome {
            Ok(AsyncSink::Ready) => PumpState { stage: Stage::SendResponses, ..self },
            Ok(AsyncSink::NotReady(response)) => PumpState {
                live_responses: seq![response] + self.live_responses,
                status: self.status.merged(Status::WouldBlock),
                stage: Stage::FlushResponses,
                ..self
            },
            Err(_) => PumpState {
                status: self.status.merged(send_status(outcome)),
                stage: Stage::FlushResponses,
                ..self
            },
        }
    }

    /// The state after the outcome of flushing.
    pub open spec fn after_flush(self, outcome: Poll<(), P>) -> Self {
        PumpState {
            status: self.status.merged(flush_status(outcome)),
            stage: Stage::FinishedCheck,
            ..self
        }
    }

    /// The state after the service's answer to "have you finished?". The
    /// iteration ends here.
    pub open spec fn after_finished_check(self, outcome: Result<bool, S>) -> Self {
        PumpState {
            status: self.status.merged(finished_status(outcome)),
            stage: Stage::NewRequest,
            ..self
        }
    }

    /// The state after an outcome of any kind.
    pub open spec fn after(self, outcome: PumpOutcome<R, S, P>) -> Self {
        match outcome {
            PumpOutcome::NewRequest(new_request) => self.after_new_request(new_request),
            PumpOutcome::NewResponse(maybe_response) => self.after_new_response(maybe_response),
            PumpOutcome::Sent(sent) => self.after_send(sent),
            PumpOutcome::Flushed(flushed) => self.after_flush(flushed),
            PumpOutcome::FinishedCheck(finished) => self.after_finished_check(finished),
        }
    }

    /// What happens at the head of an iteration: the pump goes on iff the
    /// status is `Active`; else it returns the status as a poll result and
    /// starts afresh.
    pub open spec fn head(self) -> (Self, PumpStep<R, S, P>) {
        if self.status is Active {
            (self, Step::Perform(PumpWork::GetNewRequest))
        } else {
            (PumpState { status: Status::Active, ..self }, Step::Return(self.status.poll_result()))
        }
    }

    /// The state in which the pump waits for its driver, and what it asks
    /// for. Sub-steps are skipped once the status has stopped running, and
    /// the service is asked only when the pump is quiet.
    pub open spec fn next(self) -> (Self, PumpStep<R, S, P>)
        decreases 5 - self.stage.position(),
    {
        match self.stage {
            Stage::NewRequest => self.head(),
            Stage::NewResponse => {
                if self.is_running() {
                    (self, Step::Perform(PumpWork::GetNewResponse))
                } else {
                    PumpState { stage: Stage::SendResponses, ..self }.next()
                }
            },
            Stage::SendResponses => {
                if self.is_running() && self.live_responses.len() > 0 {
                    (
                        PumpState { live_responses: self.live_responses.skip(1), ..self },
                        Step::Perform(PumpWork::SendResponse(self.live_responses[0])),
                    )
                } else {
                    PumpState { stage: Stage::FlushResponses, ..self }.next()
                }
            },
            Stage::FlushResponses => {
                if self.is_running() {
                    (self, Step::Perform(PumpWork::FlushResponses))
                } else {
                    PumpState { stage: Stage::FinishedCheck, ..self }.next()
                }
            },
            Stage::FinishedCheck => {
                if self.is_running() && self.is_quiet() {
                    (self, Step::Perform(PumpWork::CheckIfFinished))
                } else {
                    PumpState { stage: Stage::NewRequest, ..self }.head()
                }
            },
        }
    }
}

} // verus!
