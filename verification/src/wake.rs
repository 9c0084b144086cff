//! The wake-notification primitive.
//!
//! One `WakeSignal` belongs to one blocking episode. Any context that thinks
//! progress may be possible calls [`WakeSignal::wake`]; the owner calls
//! [`WakeSignal::consume`] before deciding to park. The flag is idempotent
//! and sticky: once set it stays set until the owner consumes it, so a wake
//! that arrives before the owner checks is never lost, and many wakes before
//! one check collapse into a single pending wake.

use vstd::prelude::*;

verus! {

/// A wake flag for one blocking episode.
pub struct WakeSignal {
    signaled: bool,
}

impl View for WakeSignal {
    type V = bool;

    closed spec fn view(&self) -> bool {
        self.signaled
    }
}

/// The flag after one wake: set, whatever it held before.
pub open spec fn after_wake(s: bool) -> bool {
    true
}

/// The flag after `n` wakes in a row.
pub open spec fn after_wakes(s: bool, n: nat) -> bool
    decreases n,
{
    if n == 0 {
        s
    } else {
        after_wake(after_wakes(s, (n - 1) as nat))
    }
}

impl WakeSignal {
    /// A fresh signal with no wake pending.
    pub fn new() -> (s: WakeSignal)
        ensures
            !s@,
    {
        WakeSignal { signaled: false }
    }

    /// Record that re-polling may now be worthwhile.
    pub fn wake(&mut self)
        ensures
            final(self)@ == after_wake(old(self)@),
    {
        self.signaled = true;
    }

    /// Take the pending wake, if one is there: the owner checks this before
    /// parking, and a `true` result means a wake arrived since the last check,
    /// so the owner must not park. Exactly one pending wake is consumed.
    pub fn consume(&mut self) -> (was: bool)
        ensures
            was == old(self)@,
            !final(self)@,
    {
        let was = self.signaled;
        self.signaled = false;
        was
    }

    /// Whether a wake is pending, without consuming it.
    pub fn is_pending(&self) -> (b: bool)
        ensures
            b == self@,
    {
        self.signaled
    }
}

/// A wake strictly before the owner's check is observed by the check: after a
/// wake, a pending wake is there to consume, so the check returns at once and
/// the owner never parks.
pub proof fn lemma_wake_before_wait(s: bool)
    ensures
        after_wake(s),
{
}

/// Wakes coalesce: any run of one or more wakes leaves the flag exactly as a
/// single wake would, so `n` wakes followed by one check behave as one wake
/// followed by one check.
pub proof fn lemma_wakes_coalesce(s: bool, n: nat)
    requires
        n >= 1,
    ensures
        after_wakes(s, n) == after_wake(s),
    decreases n,
{
    if n > 1 {
        lemma_wakes_coalesce(s, (n - 1) as nat);
    }
}

} // verus!
