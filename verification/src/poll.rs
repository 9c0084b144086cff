//! Poll-step vocabulary and the capabilities the scheduler drives.
//!
//! A poll is one non-blocking attempt to advance a computation. The enums
//! here report its outcome; the traits are implemented by the computations
//! the library runs: value-producing futures, item streams, item sinks, and
//! no-payload fire-and-forget tasks. A computation that reports a pending
//! outcome is expected to wake the signal it was handed once re-polling may
//! be worthwhile; the scheduler otherwise parks.

use vstd::prelude::*;

use crate::spawn::TaskContext;
use crate::wake::WakeSignal;

verus! {

/// Outcome of polling a value-producing computation.
#[derive(Debug, PartialEq, Eq)]
pub enum Progress<T, E> {
    /// Not done yet; a wake will say when to try again.
    Pending,
    /// Finished with a value.
    Ready(T),
    /// Finished with a failure.
    Failed(E),
}

/// Outcome of polling a sequence producer.
#[derive(Debug, PartialEq, Eq)]
pub enum StreamEvent<T, E> {
    /// No item yet; a wake will say when to try again.
    Pending,
    /// One more item.
    Item(T),
    /// End of the sequence.
    End,
    /// The producer failed.
    Failed(E),
}

/// Outcome of offering one item to a consumer.
#[derive(Debug, PartialEq, Eq)]
pub enum SinkAccept<T, E> {
    /// The item was taken.
    Accepted,
    /// The item was not taken and is handed back untouched.
    Rejected(T),
    /// The consumer failed.
    Failed(E),
}

/// Outcome of polling a no-payload fire-and-forget task.
#[derive(Debug, Clone, Copy, PartialEq, Eq, Structural)]
pub enum TaskPoll {
    /// Not done yet.
    Pending,
    /// Reached its terminal state.
    Done,
    /// Reached its terminal state by failing.
    Failed,
}

/// A value-producing poll-based computation.
pub trait PollFuture {
    /// The value a successful run ends with.
    type Output;

    /// The failure a run can end with.
    type Error;

    /// One non-blocking attempt to finish.
    fn poll_once(&mut self, wake: &mut WakeSignal) -> Progress<Self::Output, Self::Error>;
}

/// A poll-based sequence producer.
pub trait PollStream {
    /// The items produced.
    type Item;

    /// The failure the producer can report.
    type Error;

    /// One non-blocking attempt to produce the next item.
    fn poll_item(&mut self, wake: &mut WakeSignal) -> StreamEvent<Self::Item, Self::Error>;
}

/// A poll-based item consumer.
pub trait PollSink {
    /// The items consumed.
    type Item;

    /// The failure the consumer can report.
    type Error;

    /// One non-blocking attempt to hand over an item.
    fn try_send(&mut self, value: Self::Item, wake: &mut WakeSignal) -> SinkAccept<
        Self::Item,
        Self::Error,
    >;

    /// One non-blocking attempt to push buffered items through.
    fn poll_flush(&mut self, wake: &mut WakeSignal) -> Progress<(), Self::Error>;

    /// One non-blocking attempt to shut the consumer down.
    fn poll_close(&mut self, wake: &mut WakeSignal) -> Progress<(), Self::Error>;
}

/// A no-payload fire-and-forget task. Mid-poll it may register further tasks
/// through the context; they are buffered and only admitted between passes.
pub trait Task: Sized {
    /// One non-blocking attempt to make progress.
    fn poll_task(&mut self, cx: &mut TaskContext<Self>, wake: &mut WakeSignal) -> TaskPoll;
}

/// What one poll outcome decides for the task that reported it: a pending
/// task stays in the live set; a task reaching a terminal state, done and
/// failed alike, leaves it, and its terminal event reports the daemon tag
/// and nothing else.
pub fn task_stays_live(step: TaskPoll) -> (keep: bool)
    ensures
        keep <==> step is Pending,
{
    match step {
        TaskPoll::Pending => true,
        TaskPoll::Done => false,
        TaskPoll::Failed => false,
    }
}

} // verus!
