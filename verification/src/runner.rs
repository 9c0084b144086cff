//! The scheduler core: a runner driving a dynamically growing task set.
//!
//! A pass is one drain-then-merge cycle: the drain polls every live task
//! until none can immediately progress, removing each task that reached a
//! terminal state and keeping the non-daemon count right; the merge then
//! admits everything the polls registered meanwhile. The run loop repeats
//! passes until no non-daemon task is left, consuming one pending wake
//! between passes; when no wake is pending it reports `Stalled` so the
//! embedding program can park the thread and call again. Every loop is
//! bounded by an explicit pass budget, reported as `Spent` when it runs out.

use vstd::prelude::*;

use crate::multiplex::{
    count_non_daemon, lemma_non_daemon_count_le_len, lemma_non_daemon_count_push,
    non_daemon_count, TaskMultiplexer,
};
use crate::poll::{PollFuture, Progress, Task};
use crate::spawn::{Spawner, TaskContext};
use crate::wake::WakeSignal;

verus! {

/// How a bounded run of the pass loop ended.
#[derive(Debug, Clone, Copy, PartialEq, Eq, Structural)]
pub enum RunStatus {
    /// Every non-daemon task reached a terminal state; leftover daemon tasks
    /// are abandoned.
    Finished,
    /// Non-daemon tasks remain, nothing was pending admission, and no wake
    /// was pending: the caller should park and run again after a wake.
    Stalled,
    /// The pass budget ran out before the run settled.
    Spent,
}

/// How a bounded blocking wait for one future ended.
#[derive(Debug, PartialEq, Eq)]
pub enum BlockOutcome<T, E> {
    /// The awaited computation finished with this value.
    Ready(T),
    /// The awaited computation failed; the failure is passed through unchanged.
    Failed(E),
    /// No progress is possible until a wake arrives: park and call again.
    Stalled,
    /// The pass budget ran out before the computation settled.
    Spent,
}

/// What one poll outcome settles for a blocking wait: a ready value or a
/// failure settles the wait with exactly that outcome, unchanged; a pending
/// outcome settles nothing and the wait goes on.
pub fn resolve_progress<T, E>(p: Progress<T, E>) -> (r: Option<BlockOutcome<T, E>>)
    ensures
        r == (match p {
            Progress::Ready(v) => Some(BlockOutcome::<T, E>::Ready(v)),
            Progress::Failed(e) => Some(BlockOutcome::<T, E>::Failed(e)),
            Progress::Pending => None::<BlockOutcome<T, E>>,
        }),
{
    match p {
        Progress::Ready(v) => Some(BlockOutcome::Ready(v)),
        Progress::Failed(e) => Some(BlockOutcome::Failed(e)),
        Progress::Pending => None,
    }
}

/// Drives spawned tasks to completion on the current thread.
pub struct TaskRunner<U> {
    ctx: TaskContext<U>,
    mux: TaskMultiplexer<U>,
    wake: WakeSignal,
    non_daemons: usize,
}

impl<U> TaskRunner<U> {
    /// The runner's non-daemon count agrees with the live set.
    pub closed spec fn wf(&self) -> bool {
        self.non_daemons == non_daemon_count(self.mux.tags())
    }

    /// Daemon tags of the live tasks, in poll order.
    pub closed spec fn live_tags(&self) -> Seq<bool> {
        self.mux.tags()
    }

    /// How many live tasks gate termination.
    pub open spec fn live_non_daemons(&self) -> nat {
        non_daemon_count(self.live_tags())
    }

    /// How many tasks are live, daemons included.
    pub open spec fn live_tasks(&self) -> nat {
        self.live_tags().len()
    }

    /// How many registrations await admission.
    pub open spec fn pending_count(&self) -> nat {
        self.pending_entries().len()
    }

    /// The registrations awaiting admission, oldest first, each the spawned
    /// task itself with its daemon tag.
    pub closed spec fn pending_entries(&self) -> Seq<(U, bool)> {
        self.ctx.pending_entries()
    }

    /// Daemon tags of the registrations awaiting admission, oldest first.
    pub closed spec fn pending_tags(&self) -> Seq<bool> {
        self.ctx.pending_tags()
    }

    /// How many registrations awaiting admission gate termination.
    pub open spec fn pending_non_daemons(&self) -> nat {
        non_daemon_count(self.pending_tags())
    }

    /// Whether a wake is pending on the runner's signal.
    pub closed spec fn wake_pending(&self) -> bool {
        self.wake@
    }

    /// Whether spawn handles still reach this runner.
    pub closed spec fn spawner_live(&self) -> bool {
        self.ctx.live()
    }

    /// A fresh runner: nothing live, nothing pending, handles live.
    pub fn new() -> (r: TaskRunner<U>)
        ensures
            r.wf(),
            r.live_tags() == Seq::<bool>::empty(),
            r.live_non_daemons() == 0,
            r.pending_count() == 0,
            r.pending_tags() == Seq::<bool>::empty(),
            r.pending_non_daemons() == 0,
            r.spawner_live(),
            !r.wake_pending(),
    {
        TaskRunner {
            ctx: TaskContext::fresh(true),
            mux: TaskMultiplexer::new(),
            wake: WakeSignal::new(),
            non_daemons: 0,
        }
    }

    /// A handle through which tasks can be registered.
    pub fn spawner(&self) -> Spawner {
        Spawner {  }
    }

    /// Buffer a task the run loop must wait for.
    pub fn spawn(&mut self, task: U)
        ensures
            final(self).wf() == old(self).wf(),
            final(self).live_tags() == old(self).live_tags(),
            final(self).spawner_live() == old(self).spawner_live(),
            final(self).wake_pending() == old(self).wake_pending(),
            old(self).spawner_live() ==> final(self).pending_entries()
                == old(self).pending_entries().push((task, false))
                && final(self).pending_tags() == old(self).pending_tags().push(false),
            !old(self).spawner_live() ==> final(self).pending_entries()
                == old(self).pending_entries()
                && final(self).pending_tags() == old(self).pending_tags(),
    {
        proof {
            self.ctx.lemma_pending_tags_len();
        }
        self.ctx.spawn(task);
    }

    /// Buffer a background task that does not gate termination.
    pub fn spawn_daemon(&mut self, task: U)
        ensures
            final(self).wf() == old(self).wf(),
            final(self).live_tags() == old(self).live_tags(),
            final(self).spawner_live() == old(self).spawner_live(),
            final(self).wake_pending() == old(self).wake_pending(),
            old(self).spawner_live() ==> final(self).pending_entries()
                == old(self).pending_entries().push((task, true))
                && final(self).pending_tags() == old(self).pending_tags().push(true),
            !old(self).spawner_live() ==> final(self).pending_entries()
                == old(self).pending_entries()
                && final(self).pending_tags() == old(self).pending_tags(),
    {
        proof {
            self.ctx.lemma_pending_tags_len();
        }
        self.ctx.spawn_daemon(task);
    }

    /// How many live tasks gate termination.
    pub fn non_daemon_count(&self) -> (n: usize)
        requires
            self.wf(),
        ensures
            n == self.live_non_daemons(),
    {
        self.non_daemons
    }

    /// How many registrations await admission.
    pub fn pending_registrations(&self) -> (n: usize)
        ensures
            n == self.pending_count(),
    {
        self.ctx.pending_len()
    }

    /// Record on the runner's signal that re-polling may be worthwhile. The
    /// wake is sticky: it stays pending until a run loop consumes it, also
    /// across calls.
    pub fn wake(&mut self)
        ensures
            final(self).wf() == old(self).wf(),
            final(self).live_tags() == old(self).live_tags(),
            final(self).spawner_live() == old(self).spawner_live(),
            final(self).pending_count() == old(self).pending_count(),
            final(self).wake_pending(),
    {
        self.wake.wake();
    }

    /// End the runner's life. The context survives it, but deactivated:
    /// spawn calls that still reach it fall on the floor without a fault.
    pub fn retire(self) -> (cx: TaskContext<U>)
        ensures
            !cx.live(),
            cx.pending_entries().len() == self.pending_count(),
    {
        let mut cx = self.ctx;
        cx.deactivate();
        cx
    }

    /// Admit everything the pending buffer holds into the live set, in
    /// registration order, counting each non-daemon admission: the live
    /// tags afterwards are exactly the old live tags followed by the old
    /// pending tags. The pass loop runs this only between drains, never
    /// while the live set is being iterated.
    pub fn merge_pending(&mut self)
        requires
            old(self).wf(),
        ensures
            final(self).wf(),
            final(self).pending_count() == 0,
            final(self).live_tags() == old(self).live_tags() + old(self).pending_tags(),
            final(self).spawner_live() == old(self).spawner_live(),
            final(self).wake_pending() == old(self).wake_pending(),
    {
        let ghost m0: Seq<bool> = self.mux.tags();
        let ghost p0: Seq<bool> = self.ctx.pending_tags();
        let ghost l0: bool = self.ctx.live();
        let ghost w0: bool = self.wake@;
        proof {
            self.ctx.lemma_pending_tags_len();
        }
        loop
            invariant
                self.wf(),
                self.ctx.live() == l0,
                self.wake@ == w0,
                self.mux.tags() + self.ctx.pending_tags() == m0 + p0,
                self.ctx.pending_tags().len() == self.ctx.pending_entries().len(),
            ensures
                self.wf(),
                self.ctx.live() == l0,
                self.wake@ == w0,
                self.ctx.pending_entries().len() == 0,
                self.mux.tags() == m0 + p0,
            decreases self.ctx.pending_entries().len(),
        {
            let ghost m_before: Seq<bool> = self.mux.tags();
            let ghost p_before: Seq<bool> = self.ctx.pending_tags();
            match self.ctx.take_next_pending() {
                None => {
                    proof {
                        assert(self.ctx.pending_tags() =~= Seq::<bool>::empty());
                        assert(self.mux.tags() + self.ctx.pending_tags() =~= self.mux.tags());
                    }
                    break ;
                },
                Some((task, daemon)) => {
                    self.mux.push(task, daemon);
                    proof {
                        lemma_non_daemon_count_push(m_before, daemon);
                    }
                    if !daemon {
                        let c = self.mux.task_count();
                        proof {
                            lemma_non_daemon_count_le_len(m_before);
                        }
                        self.non_daemons = self.non_daemons + 1;
                    }
                    proof {
                        assert(p_before =~= seq![daemon] + p_before.drop_first());
                        assert(m_before.push(daemon) =~= m_before + seq![daemon]);
                        assert((m_before + seq![daemon]) + p_before.drop_first() =~= m_before + (
                        seq![daemon] + p_before.drop_first()));
                        assert(self.mux.tags() + self.ctx.pending_tags() == m0 + p0);
                    }
                },
            }
        }
    }
}

impl<U: Task> TaskRunner<U> {
    /// Poll every live task until none can immediately progress, removing
    /// terminal tasks and keeping the non-daemon count right.
    fn drain(&mut self)
        requires
            old(self).wf(),
        ensures
            final(self).wf(),
            final(self).live_tasks() <= old(self).live_tasks(),
            final(self).spawner_live() == old(self).spawner_live(),
            old(self).pending_tags().is_prefix_of(final(self).pending_tags()),
    {
        proof {
            assert(self.pending_tags().subrange(0, self.pending_tags().len() as int)
                =~= self.pending_tags());
        }
        loop
            invariant
                self.wf(),
                self.live_tasks() <= old(self).live_tasks(),
                self.spawner_live() == old(self).spawner_live(),
                old(self).pending_tags().is_prefix_of(self.pending_tags()),
            ensures
                self.wf(),
                self.live_tasks() <= old(self).live_tasks(),
                self.spawner_live() == old(self).spawner_live(),
                old(self).pending_tags().is_prefix_of(self.pending_tags()),
            decreases self.mux.tags().len(),
        {
            let (finished, _) = self.mux.sweep(&mut self.ctx, &mut self.wake);
            proof {
                assert(old(self).pending_tags().is_prefix_of(self.pending_tags())) by {
                    assert(self.pending_tags().subrange(
                        0,
                        old(self).pending_tags().len() as int,
                    ) =~= old(self).pending_tags());
                }
            }
            let k = count_non_daemon(&finished);
            self.non_daemons = self.non_daemons - k;
            if finished.len() == 0 {
                break ;
            }
        }
    }

    /// Run passes until no non-daemon task is left, consuming one pending
    /// wake between passes. A run that starts with no non-daemon task —
    /// live or awaiting admission — finishes at once, touching nothing: no
    /// daemon task is polled or admitted, and leftover daemons are simply
    /// abandoned. Otherwise `Finished` means every non-daemon task reached
    /// a terminal state, whatever daemon tasks remain; `Stalled` means the
    /// run settled with non-daemon tasks still live and no wake pending, so
    /// the caller should park and call again after a wake; `Spent` means
    /// the pass budget ran out first. A wake recorded before the call is
    /// kept and consumed like any other.
    pub fn block_on_all(&mut self, fuel: u64) -> (r: RunStatus)
        requires
            old(self).wf(),
        ensures
            final(self).wf(),
            final(self).spawner_live() == old(self).spawner_live(),
            r == RunStatus::Finished ==> final(self).live_non_daemons() == 0
                && final(self).pending_non_daemons() == 0,
            r == RunStatus::Stalled ==> final(self).live_non_daemons() > 0
                && final(self).pending_count() == 0 && !final(self).wake_pending(),
            r == RunStatus::Spent ==> final(self).pending_count() == 0,
            old(self).live_non_daemons() == 0 && old(self).pending_non_daemons() == 0
                ==> r == RunStatus::Finished && *final(self) == *old(self),
    {
        if self.non_daemons == 0 && self.ctx.pending_non_daemon_len() == 0 {
            return RunStatus::Finished;
        }
        let mut fuel = fuel;
        loop
            invariant
                self.wf(),
                self.spawner_live() == old(self).spawner_live(),
                old(self).live_non_daemons() > 0 || old(self).pending_non_daemons() > 0,
            decreases fuel,
        {
            self.drain();
            if self.ctx.pending_len() > 0 {
                self.merge_pending();
            } else {
                if self.non_daemons == 0 {
                    proof {
                        self.ctx.lemma_pending_tags_len();
                    }
                    return RunStatus::Finished;
                }
                if !self.wake.consume() {
                    return RunStatus::Stalled;
                }
            }
            if fuel == 0 {
                return RunStatus::Spent;
            }
            fuel = fuel - 1;
        }
    }

    /// Drive one awaited future while background tasks keep running: poll
    /// the future, then give the live set a pass, consuming one pending wake
    /// before trying again. What [`resolve_progress`] makes of each poll is
    /// what comes back: the awaited future's value or failure is returned,
    /// unchanged, as soon as it settles; background tasks stay live for
    /// later calls. `Stalled` asks the caller to park and call again; a
    /// wake recorded before the call is kept and consumed like any other.
    pub fn block_until<F: PollFuture>(&mut self, f: &mut F, fuel: u64) -> (r: BlockOutcome<
        F::Output,
        F::Error,
    >)
        requires
            old(self).wf(),
        ensures
            final(self).wf(),
            final(self).spawner_live() == old(self).spawner_live(),
            r is Stalled ==> final(self).pending_count() == 0 && !final(self).wake_pending(),
            r is Spent ==> final(self).pending_count() == 0,
    {
        let mut fuel = fuel;
        loop
            invariant
                self.wf(),
                self.spawner_live() == old(self).spawner_live(),
            decreases fuel,
        {
            let step = f.poll_once(&mut self.wake);
            match resolve_progress(step) {
                Some(settled) => return settled,
                None => {},
            }
            self.drain();
            if self.ctx.pending_len() > 0 {
                self.merge_pending();
            } else if !self.wake.consume() {
                return BlockOutcome::Stalled;
            }
            if fuel == 0 {
                return BlockOutcome::Spent;
            }
            fuel = fuel - 1;
        }
    }
}

/// Poll one future to completion on the current thread, with no task set:
/// poll on the caller's signal, and between polls consume one pending wake
/// or report `Stalled` so the caller can park. What [`resolve_progress`]
/// makes of each poll is what comes back: the future's value or failure is
/// passed through unchanged; failures of background tasks never reach here.
/// A `Stalled` return leaves no wake pending, so parking loses nothing.
pub fn block_until<F: PollFuture>(f: &mut F, wake: &mut WakeSignal, fuel: u64) -> (r: BlockOutcome<
    F::Output,
    F::Error,
>)
    ensures
        r is Stalled ==> !final(wake)@,
{
    let mut fuel = fuel;
    loop
        decreases fuel,
    {
        let step = f.poll_once(wake);
        match resolve_progress(step) {
            Some(settled) => return settled,
            None => {},
        }
        if !wake.consume() {
            return BlockOutcome::Stalled;
        }
        if fuel == 0 {
            return BlockOutcome::Spent;
        }
        fuel = fuel - 1;
    }
}

} // verus!
