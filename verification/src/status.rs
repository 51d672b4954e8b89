//! The severity-merged status of one pump iteration.

use core::cmp::Ordering;
use vstd::prelude::*;
use vstd::std_specs::cmp::PartialEqSpecImpl;
use vstd::std_specs::cmp::PartialOrdSpecImpl;
use vstd::std_specs::convert::FromSpecImpl;

use crate::errors::ErrorKind;
use crate::poll::{Async, AsyncSink, Poll, StartSend};

verus! {

/// Aggregate outcome of the sub-steps performed so far.
///
/// The variants are ordered by severity:
/// `Active < WouldBlock < Finished < Error`.
#[derive(Debug)]
pub enum Status<E> {
    /// Every sub-step made progress; keep looping.
    Active,
    /// The service has completed its work.
    Finished,
    /// Some sub-step had to wait for the outside world.
    WouldBlock,
    /// A sub-step failed; the first failure is kept.
    Error(E),
}

impl<E> Status<E> {
    /// Position of the status in the severity order.
    pub open spec fn severity(self) -> nat {
        match self {
            Status::Active => 0,
            Status::WouldBlock => 1,
            Status::Finished => 2,
            Status::Error(_) => 3,
        }
    }

    /// The status that results from merging `update` into `self`: the update
    /// wins only if it is strictly more severe.
    pub open spec fn merged(self, update: Status<E>) -> Status<E> {
        if update.severity() > self.severity() {
            update
        } else {
            self
        }
    }

    /// The status reached by merging every element of `updates`, in order.
    pub open spec fn merged_all(self, updates: Seq<Status<E>>) -> Status<E>
        decreases updates.len(),
    {
        if updates.len() == 0 {
            self
        } else {
            self.merged_all(updates.drop_last()).merged(updates.last())
        }
    }

    /// The greatest severity among `self` and `updates`.
    pub open spec fn max_severity(self, updates: Seq<Status<E>>) -> nat
        decreases updates.len(),
    {
        if updates.len() == 0 {
            self.severity()
        } else {
            let before = self.max_severity(updates.drop_last());
            if updates.last().severity() > before {
                updates.last().severity()
            } else {
                before
            }
        }
    }

    /// True iff the status is `Active`.
    pub fn is_active(&self) -> (active: bool)
        ensures
            active == (self is Active),
    {
        match *self {
            Status::Active => true,
            _ => false,
        }
    }

    /// True iff the sub-steps of the current iteration should go on, that is
    /// iff the status is `Active` or `WouldBlock`.
    pub fn is_running(&self) -> (running: bool)
        ensures
            running == (self is Active || self is WouldBlock),
    {
        match *self {
            Status::Active => true,
            Status::WouldBlock => true,
            _ => false,
        }
    }

    /// Merges `status_update` into the status: it replaces the current value
    /// iff it is strictly more severe. An error never replaces an error.
    pub fn update(&mut self, status_update: Status<E>)
        ensures
            *final(self) == old(self).merged(status_update),
            final(self).severity() == if status_update.severity() > old(self).severity() {
                status_update.severity()
            } else {
                old(self).severity()
            },
    {
        if status_update.is_more_severe_than(self) {
            *self = status_update;
        }
    }

    /// True iff `self` is strictly more severe than `other`.
    pub fn is_more_severe_than(&self, other: &Status<E>) -> (more: bool)
        ensures
            more == (self.severity() > other.severity()),
    {
        match (self, other) {
            (_, Status::Error(_)) => false,
            (Status::Error(_), _) => true,
            (_, Status::Finished) => false,
            (Status::Finished, _) => true,
            (_, Status::WouldBlock) => false,
            (Status::WouldBlock, _) => true,
            _ => false,
        }
    }

    /// What a status amounts to when it leaves the pump.
    pub open spec fn poll_result(self) -> Poll<(), E>
        recommends
            !(self is Active),
    {
        match self {
            Status::Error(error) => Err(error),
            Status::Finished => Ok(Async::Ready(())),
            _ => Ok(Async::NotReady),
        }
    }

    /// Converts the status into a poll result where any status may come:
    /// `Active` is refused with `ActiveStatusHasNoPollEquivalent`.
    pub fn try_into_poll(self) -> (result: Result<Poll<(), E>, ErrorKind>)
        ensures
            result == if self is Active {
                Err::<Poll<(), E>, _>(ErrorKind::ActiveStatusHasNoPollEquivalent)
            } else {
                Ok(self.poll_result())
            },
    {
        match self {
            Status::Active => Err(ErrorKind::ActiveStatusHasNoPollEquivalent),
            other => Ok(other.into_poll()),
        }
    }

    /// Converts the status into the result handed to whoever polls the pump:
    /// `Finished` is `Ready(())`, `WouldBlock` is `NotReady`, an error is
    /// itself. `Active` means "keep looping" and has no equivalent.
    pub fn into_poll(self) -> (result: Poll<(), E>)
        requires
            !(self is Active),
        ensures
            result == self.poll_result(),
    {
        match self {
            Status::Finished => Ok(Async::Ready(())),
            Status::Error(error) => Err(error),
            _ => Ok(Async::NotReady),
        }
    }
}

/// Merging never lowers the severity, and the severity after a run of merges
/// is the greatest severity among the initial status and the updates.
pub proof fn lemma_merge_is_maximum<E>(initial: Status<E>, updates: Seq<Status<E>>)
    ensures
        initial.merged_all(updates).severity() == initial.max_severity(updates),
        initial.merged_all(updates).severity() >= initial.severity(),
        forall|i: int|
            0 <= i < updates.len() ==> initial.merged_all(updates).severity()
                >= #[trigger] updates[i].severity(),
    decreases updates.len(),
{
    if updates.len() > 0 {
        let front = updates.drop_last();
        lemma_merge_is_maximum(initial, front);
        assert forall|i: int| 0 <= i < updates.len() implies initial.merged_all(
            updates,
        ).severity() >= #[trigger] updates[i].severity() by {
            if i < front.len() {
                assert(front[i] == updates[i]);
            }
        }
    }
}

/// Once an error is stored, no later merge replaces it: the first error wins.
pub proof fn lemma_first_error_wins<E>(error: E, updates: Seq<Status<E>>)
    ensures
        Status::Error(error).merged_all(updates) == Status::Error(error),
    decreases updates.len(),
{
    if updates.len() > 0 {
        lemma_first_error_wins(error, updates.drop_last());
    }
}

impl<T, E> From<Poll<T, E>> for Status<E> {
    /// A value that is ready is progress, one that is not ready blocks, and
    /// an error is an error.
    fn from(poll: Poll<T, E>) -> (status: Self) {
        match poll {
            Ok(Async::Ready(_)) => Status::Active,
            Ok(Async::NotReady) => Status::WouldBlock,
            Err(error) => Status::Error(error),
        }
    }
}

impl<T, E> FromSpecImpl<Poll<T, E>> for Status<E> {
    open spec fn obeys_from_spec() -> bool {
        true
    }

    open spec fn from_spec(poll: Poll<T, E>) -> Self {
        match poll {
            Ok(Async::Ready(_)) => Status::Active,
            Ok(Async::NotReady) => Status::WouldBlock,
            Err(error) => Status::Error(error),
        }
    }
}

impl<T, E> From<StartSend<T, E>> for Status<E> {
    /// An item that the sink took is progress, one handed back blocks, and an
    /// error is an error.
    fn from(start_send: StartSend<T, E>) -> (status: Self) {
        match start_send {
            Ok(AsyncSink::Ready) => Status::Active,
            Ok(AsyncSink::NotReady(_)) => Status::WouldBlock,
            Err(error) => Status::Error(error),
        }
    }
}

impl<T, E> FromSpecImpl<StartSend<T, E>> for Status<E> {
    open spec fn obeys_from_spec() -> bool {
        true
    }

    open spec fn from_spec(start_send: StartSend<T, E>) -> Self {
        match start_send {
            Ok(AsyncSink::Ready) => Status::Active,
            Ok(AsyncSink::NotReady(_)) => Status::WouldBlock,
            Err(error) => Status::Error(error),
        }
    }
}

impl<E> PartialEq for Status<E> {
    /// Two statuses are equal iff they are the same variant and not errors:
    /// an error is equal to nothing, not even to itself.
    fn eq(&self, other: &Self) -> (equal: bool) {
        match (self, other) {
            (Status::Error(_), Status::Error(_)) => false,
            (Status::WouldBlock, Status::WouldBlock) => true,
            (Status::Finished, Status::Finished) => true,
            (Status::Active, Status::Active) => true,
            _ => false,
        }
    }
}

impl<E> PartialEqSpecImpl for Status<E> {
    open spec fn obeys_eq_spec() -> bool {
        true
    }

    open spec fn eq_spec(&self, other: &Self) -> bool {
        self.severity() == other.severity() && !(self is Error)
    }
}

impl<E> PartialOrd for Status<E> {
    /// Orders two statuses by severity. Two errors are each greater than the
    /// other.
    fn partial_cmp(&self, other: &Self) -> (ordering: Option<Ordering>) {
        let ordering = if self.eq(other) {
            Ordering::Equal
        } else {
            match (self, other) {
                (Status::Error(_), _) => Ordering::Greater,
                (_, Status::Error(_)) => Ordering::Less,
                (Status::Finished, _) => Ordering::Greater,
                (_, Status::Finished) => Ordering::Less,
                (Status::WouldBlock, _) => Ordering::Greater,
                _ => Ordering::Less,
            }
        };

        Some(ordering)
    }
}

impl<E> PartialOrdSpecImpl for Status<E> {
    open spec fn obeys_partial_cmp_spec() -> bool {
        true
    }

    open spec fn partial_cmp_spec(&self, other: &Self) -> Option<Ordering> {
        if self is Error || self.severity() > other.severity() {
            Some(Ordering::Greater)
        } else if self.severity() < other.severity() {
            Some(Ordering::Less)
        } else {
            Some(Ordering::Equal)
        }
    }
}

} // verus!
