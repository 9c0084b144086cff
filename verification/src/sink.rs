//! The sink bridge: blocking writes into a poll-based consumer.
//!
//! `BlockingSink` wraps one poll-based consumer. `send` keeps offering the
//! still-unconsumed item, retrying as long as a wake is pending; `flush` and
//! `close` keep polling the respective operation the same way. Each call
//! polls on the signal its caller hands in — one fresh signal per blocking
//! call — and each reports `Stalled`, handing any unconsumed item back, when
//! the thread would have to park for an outside wake; a `Stalled` return
//! leaves no wake pending, so parking loses nothing.

use vstd::prelude::*;

use crate::poll::{PollSink, Progress, SinkAccept};
use crate::wake::WakeSignal;

verus! {

/// How one bounded `send` call ended.
#[derive(Debug, PartialEq, Eq)]
pub enum SendOutcome<T, E> {
    /// The consumer took the item.
    Sent,
    /// The consumer failed; the failure is passed through unchanged.
    Failed(E),
    /// The consumer keeps rejecting and no wake is pending: the item the
    /// consumer handed back comes back to the caller, to park and offer
    /// again.
    Stalled(T),
    /// The retry budget ran out; the item the consumer handed back comes
    /// back to the caller.
    Spent(T),
}

/// How one bounded `flush` or `close` call ended.
#[derive(Debug, PartialEq, Eq)]
pub enum FlushOutcome<E> {
    /// The operation completed.
    Done,
    /// The consumer failed; the failure is passed through unchanged.
    Failed(E),
    /// No progress until a wake arrives: park and call again.
    Stalled,
    /// The retry budget ran out first.
    Spent,
}

/// What one hand-off outcome settles for `send`: acceptance settles the call
/// with success, a failure settles it with exactly that failure, and a
/// rejection settles nothing — the item the consumer handed back goes into
/// the next attempt.
pub fn resolve_send_attempt<T, E>(a: SinkAccept<T, E>) -> (r: Result<SendOutcome<T, E>, T>)
    ensures
        r == (match a {
            SinkAccept::Accepted => Ok::<SendOutcome<T, E>, T>(SendOutcome::<T, E>::Sent),
            SinkAccept::Failed(e) => Ok::<SendOutcome<T, E>, T>(SendOutcome::<T, E>::Failed(e)),
            SinkAccept::Rejected(v) => Err::<SendOutcome<T, E>, T>(v),
        }),
{
    match a {
        SinkAccept::Accepted => Ok(SendOutcome::Sent),
        SinkAccept::Failed(e) => Ok(SendOutcome::Failed(e)),
        SinkAccept::Rejected(v) => Err(v),
    }
}

/// What one flush or close poll settles: completion settles the call with
/// success, a failure settles it with exactly that failure, and a pending
/// outcome settles nothing — the bridge waits.
pub fn resolve_flush_poll<E>(p: Progress<(), E>) -> (r: Option<FlushOutcome<E>>)
    ensures
        r == (match p {
            Progress::Ready(_) => Some(FlushOutcome::<E>::Done),
            Progress::Failed(e) => Some(FlushOutcome::<E>::Failed(e)),
            Progress::Pending => None::<FlushOutcome<E>>,
        }),
{
    match p {
        Progress::Ready(_) => Some(FlushOutcome::Done),
        Progress::Failed(e) => Some(FlushOutcome::Failed(e)),
        Progress::Pending => None,
    }
}

/// Blocking writes into one poll-based consumer.
pub struct BlockingSink<S> {
    sink: S,
}

impl<S> BlockingSink<S> {
    /// The wrapped consumer.
    pub closed spec fn consumer(&self) -> S {
        self.sink
    }

    /// Wrap a consumer.
    pub fn new(s: S) -> (b: BlockingSink<S>)
        ensures
            b.consumer() == s,
    {
        BlockingSink { sink: s }
    }

    /// Borrow the wrapped consumer.
    pub fn get_ref(&self) -> (r: &S)
        ensures
            *r == self.consumer(),
    {
        &self.sink
    }

    /// Borrow the wrapped consumer mutably.
    pub fn get_mut(&mut self) -> (r: &mut S)
        ensures
            *r == old(self).consumer(),
            final(self).consumer() == *final(r),
    {
        &mut self.sink
    }

    /// Take the consumer back out.
    pub fn into_inner(self) -> (r: S)
        ensures
            r == self.consumer(),
    {
        self.sink
    }
}

impl<S: PollSink> BlockingSink<S> {
    /// Offer the item until the consumer takes it, retrying as long as a
    /// wake is pending on the caller's signal. What [`resolve_send_attempt`]
    /// makes of each attempt is what comes back: a rejected item is offered
    /// again after a wake and handed back in `Stalled` or `Spent` when
    /// waiting would mean parking; a failure is passed through unchanged. A
    /// `Stalled` return leaves no wake pending, so parking loses nothing.
    pub fn send(&mut self, value: S::Item, wake: &mut WakeSignal, fuel: u64) -> (r: SendOutcome<
        S::Item,
        S::Error,
    >)
        ensures
            r is Stalled ==> !final(wake)@,
    {
        let mut v = value;
        let mut fuel = fuel;
        loop
            decreases fuel,
        {
            let attempt = self.sink.try_send(v, wake);
            match resolve_send_attempt(attempt) {
                Ok(settled) => return settled,
                Err(v2) => {
                    if !wake.consume() {
                        return SendOutcome::Stalled(v2);
                    }
                    if fuel == 0 {
                        return SendOutcome::Spent(v2);
                    }
                    v = v2;
                },
            }
            fuel = fuel - 1;
        }
    }

    /// Poll the flush operation until it completes, retrying as long as a
    /// wake is pending on the caller's signal. What [`resolve_flush_poll`]
    /// makes of each poll is what comes back. A `Stalled` return leaves no
    /// wake pending, so parking loses nothing.
    pub fn flush(&mut self, wake: &mut WakeSignal, fuel: u64) -> (r: FlushOutcome<S::Error>)
        ensures
            r is Stalled ==> !final(wake)@,
    {
        let mut fuel = fuel;
        loop
            decreases fuel,
        {
            let step = self.sink.poll_flush(wake);
            match resolve_flush_poll(step) {
                Some(settled) => return settled,
                None => {},
            }
            if !wake.consume() {
                return FlushOutcome::Stalled;
            }
            if fuel == 0 {
                return FlushOutcome::Spent;
            }
            fuel = fuel - 1;
        }
    }

    /// Poll the close operation until it completes, retrying as long as a
    /// wake is pending on the caller's signal. What [`resolve_flush_poll`]
    /// makes of each poll is what comes back. A `Stalled` return leaves no
    /// wake pending, so parking loses nothing.
    pub fn close(&mut self, wake: &mut WakeSignal, fuel: u64) -> (r: FlushOutcome<S::Error>)
        ensures
            r is Stalled ==> !final(wake)@,
    {
        let mut fuel = fuel;
        loop
            decreases fuel,
        {
            let step = self.sink.poll_close(wake);
            match resolve_flush_poll(step) {
                Some(settled) => return settled,
                None => {},
            }
            if !wake.consume() {
                return FlushOutcome::Stalled;
            }
            if fuel == 0 {
                return FlushOutcome::Spent;
            }
            fuel = fuel - 1;
        }
    }
}

} // verus!
