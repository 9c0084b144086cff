//! The sequence bridge: blocking iteration over a poll-based producer.
//!
//! `BlockingStream` wraps one poll-based sequence producer and turns it into
//! step-by-step calls: each `next` polls the producer on the signal its
//! caller hands in — one fresh signal per blocking call — retrying as long
//! as a wake is pending, and reports `Stalled` when the thread would have to
//! park for an outside wake. The sequence is not restartable, and once the
//! producer reports its end or a failure, what further polls return is the
//! producer's own affair.

use vstd::prelude::*;

use crate::poll::{PollStream, StreamEvent};
use crate::wake::WakeSignal;

verus! {

/// How one bounded `next` call ended.
#[derive(Debug, PartialEq, Eq)]
pub enum NextOutcome<T, E> {
    /// The producer yielded one more item.
    Item(T),
    /// The sequence is over.
    End,
    /// The producer failed; the failure is passed through unchanged.
    Failed(E),
    /// No item is coming until a wake arrives: park and call again.
    Stalled,
    /// The retry budget ran out first.
    Spent,
}

/// What one poll outcome settles for `next`: an item, the end and a failure
/// settle the call with exactly that result; a pending outcome settles
/// nothing and the bridge waits.
pub fn resolve_stream_event<T, E>(ev: StreamEvent<T, E>) -> (r: Option<NextOutcome<T, E>>)
    ensures
        r == (match ev {
            StreamEvent::Item(v) => Some(NextOutcome::<T, E>::Item(v)),
            StreamEvent::End => Some(NextOutcome::<T, E>::End),
            StreamEvent::Failed(e) => Some(NextOutcome::<T, E>::Failed(e)),
            StreamEvent::Pending => None::<NextOutcome<T, E>>,
        }),
{
    match ev {
        StreamEvent::Item(v) => Some(NextOutcome::Item(v)),
        StreamEvent::End => Some(NextOutcome::End),
        StreamEvent::Failed(e) => Some(NextOutcome::Failed(e)),
        StreamEvent::Pending => None,
    }
}

/// Blocking iteration over one poll-based sequence producer.
pub struct BlockingStream<S> {
    stream: S,
}

impl<S> BlockingStream<S> {
    /// The wrapped producer.
    pub closed spec fn producer(&self) -> S {
        self.stream
    }

    /// Wrap a producer.
    pub fn new(s: S) -> (b: BlockingStream<S>)
        ensures
            b.producer() == s,
    {
        BlockingStream { stream: s }
    }

    /// Borrow the wrapped producer.
    pub fn get_ref(&self) -> (r: &S)
        ensures
            *r == self.producer(),
    {
        &self.stream
    }

    /// Borrow the wrapped producer mutably.
    pub fn get_mut(&mut self) -> (r: &mut S)
        ensures
            *r == old(self).producer(),
            final(self).producer() == *final(r),
    {
        &mut self.stream
    }

    /// Take the producer back out.
    pub fn into_inner(self) -> (r: S)
        ensures
            r == self.producer(),
    {
        self.stream
    }
}

impl<S: PollStream> BlockingStream<S> {
    /// One step of blocking iteration: poll the producer, retrying as long
    /// as a wake is pending on the caller's signal. What
    /// [`resolve_stream_event`] makes of each poll is what comes back: an
    /// item, the end of the sequence and a failure are reported as they
    /// came; `Stalled` asks the caller to park and call again, and leaves no
    /// wake pending, so parking loses nothing.
    pub fn next(&mut self, wake: &mut WakeSignal, fuel: u64) -> (r: NextOutcome<S::Item, S::Error>)
        ensures
            r is Stalled ==> !final(wake)@,
    {
        let mut fuel = fuel;
        loop
            decreases fuel,
        {
            let ev = self.stream.poll_item(wake);
            match resolve_stream_event(ev) {
                Some(out) => return out,
                None => {},
            }
            if !wake.consume() {
                return NextOutcome::Stalled;
            }
            if fuel == 0 {
                return NextOutcome::Spent;
            }
            fuel = fuel - 1;
        }
    }
}

} // verus!
