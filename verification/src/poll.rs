//! Readiness values exchanged between the server core and its driver.

use vstd::prelude::*;

verus! {

/// The outcome of asking for a value that may not be available yet.
#[derive(Debug)]
pub enum Async<T> {
    /// The value is available.
    Ready(T),
    /// The value is not available yet; ask again later.
    NotReady,
}

/// The outcome of offering an item to a sink.
#[derive(Debug)]
pub enum AsyncSink<T> {
    /// The sink took the item.
    Ready,
    /// The sink is full and hands the item back.
    NotReady(T),
}

/// Result of polling: a readiness value, or a fatal error.
pub type Poll<T, E> = Result<Async<T>, E>;

/// Result of offering an item to a sink: taken, handed back, or a fatal error.
pub type StartSend<T, E> = Result<AsyncSink<T>, E>;

/// What a state machine of the server asks of its driver next.
#[derive(Debug)]
pub enum Step<W, T, E> {
    /// Perform this piece of outside work and report its outcome.
    Perform(W),
    /// The current poll is over, with this result.
    Return(Poll<T, E>),
}

impl<T> Async<T> {
    /// True iff a value is available.
    pub fn is_ready(&self) -> (ready: bool)
        ensures
            ready == (self is Ready),
    {
        match self {
            Async::Ready(_) => true,
            Async::NotReady => false,
        }
    }
}

} // verus!
