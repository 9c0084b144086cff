//! A cooperative, single-threaded task-execution core.
//!
//! The crate drives poll-based computations to completion on one thread:
//! a wake-notification primitive ([`wake::WakeSignal`]), a multi-task
//! scheduler ([`runner::TaskRunner`] with [`spawn::Spawner`] handles), and
//! blocking bridges that turn poll-based producers and consumers into
//! step-by-step calls ([`stream::BlockingStream`], [`sink::BlockingSink`]).
//!
//! Every function here is bounded: where a blocking executor would park the
//! thread until an outside wake arrives, these return a `Stalled` status and
//! the embedding program parks and calls again.

pub mod executor;
pub mod multiplex;
pub mod sink;
pub mod stream;
pub mod poll;
pub mod runner;
pub mod spawn;
pub mod wake;
