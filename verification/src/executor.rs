//! The reentrancy guard for one thread's execution context.
//!
//! Starting a second blocking or scheduling context on a thread already
//! inside one is a programmer error, reported immediately rather than left
//! to deadlock or nest silently. The flag itself belongs to the embedding
//! program (one per thread); the functions here are the guarded transitions
//! on it. `enter` demands a clear flag, so a caller that may already be
//! inside a context tests first with `try_enter` and reports the error its
//! own way.

use vstd::prelude::*;

verus! {

/// Witness that the execution context was entered; give it back to
/// [`Enter::exit`] to leave the context.
#[derive(Debug)]
pub struct Enter {}

/// Enter the execution context: the flag must be clear and is set.
pub fn enter(entered: &mut bool) -> (g: Enter)
    requires
        !*old(entered),
    ensures
        *final(entered),
{
    *entered = true;
    Enter {  }
}

/// Enter the execution context unless the thread is already inside one:
/// a guard and a set flag when it was clear, nothing when it was set.
pub fn try_enter(entered: &mut bool) -> (r: Option<Enter>)
    ensures
        *old(entered) ==> r == None::<Enter> && *final(entered),
        !*old(entered) ==> r is Some && *final(entered),
{
    if *entered {
        None
    } else {
        *entered = true;
        Some(Enter {  })
    }
}

impl Enter {
    /// Leave the execution context: the flag is cleared, and the guard is
    /// gone, so leaving twice does not typecheck.
    pub fn exit(self, entered: &mut bool)
        ensures
            !*final(entered),
    {
        *entered = false;
    }
}

} // verus!
