//! The pending-registration queue and the spawn handles.
//!
//! A `TaskContext` is the scheduler state that spawn calls reach: an
//! append-only buffer of (task, daemon-tag) registrations awaiting admission,
//! plus a liveness flag. Registrations are buffered here and merged into the
//! live set only between passes, never mid-iteration, so a task spawning
//! another task mid-poll cannot corrupt the drain in progress. Once the
//! owning runner retires, the flag goes false and every further spawn is a
//! silent no-op.

use vstd::prelude::*;

use crate::multiplex::{lemma_non_daemon_count_push, non_daemon_count};

verus! {

/// The scheduler state reachable from spawn calls: the pending-registration
/// buffer and the owning runner's liveness flag.
pub struct TaskContext<U> {
    alive: bool,
    pending: Vec<(U, bool)>,
}

impl<U> TaskContext<U> {
    /// Whether the owning runner is still there to admit registrations.
    pub closed spec fn live(&self) -> bool {
        self.alive
    }

    /// The buffered registrations, oldest first, each with its daemon tag.
    pub closed spec fn pending_entries(&self) -> Seq<(U, bool)> {
        self.pending@
    }

    /// The daemon tags of the buffered registrations, in the same order.
    pub closed spec fn pending_tags(&self) -> Seq<bool> {
        self.pending@.map_values(|e: (U, bool)| e.1)
    }

    /// There is one tag per buffered registration.
    pub proof fn lemma_pending_tags_len(&self)
        ensures
            self.pending_tags().len() == self.pending_entries().len(),
    {
    }

    pub(crate) fn fresh(alive: bool) -> (c: Self)
        ensures
            c.live() == alive,
            c.pending_entries() == Seq::<(U, bool)>::empty(),
            c.pending_tags() == Seq::<bool>::empty(),
    {
        let c = TaskContext { alive, pending: Vec::new() };
        proof {
            assert(c.pending_tags() =~= Seq::<bool>::empty());
        }
        c
    }

    /// Take every registration the other context buffered, in order, after
    /// whatever this one already holds. The other context is consumed.
    pub(crate) fn absorb(&mut self, other: TaskContext<U>)
        ensures
            final(self).live() == old(self).live(),
            final(self).pending_entries() == old(self).pending_entries()
                + other.pending_entries(),
            final(self).pending_tags() == old(self).pending_tags() + other.pending_tags(),
    {
        let ghost brought: Seq<bool> = other.pending_tags();
        let mut taken = other;
        self.pending.append(&mut taken.pending);
        proof {
            assert(self.pending_tags() =~= old(self).pending_tags() + brought);
        }
    }

    /// Mark the owning runner gone: spawns from now on fall on the floor.
    pub(crate) fn deactivate(&mut self)
        ensures
            !final(self).live(),
            final(self).pending_entries() == old(self).pending_entries(),
            final(self).pending_tags() == old(self).pending_tags(),
    {
        self.alive = false;
    }

    fn push_entry(&mut self, task: U, daemon: bool)
        requires
            old(self).live(),
        ensures
            final(self).live(),
            final(self).pending_entries() == old(self).pending_entries().push((task, daemon)),
            final(self).pending_tags() == old(self).pending_tags().push(daemon),
    {
        self.pending.push((task, daemon));
        proof {
            assert(self.pending_tags() =~= old(self).pending_tags().push(daemon));
        }
    }

    /// Register a task whose completion the runner must wait for. After the
    /// owning runner is gone this has no effect and raises no fault.
    pub fn spawn(&mut self, task: U)
        ensures
            final(self).live() == old(self).live(),
            old(self).live() ==> final(self).pending_entries()
                == old(self).pending_entries().push((task, false))
                && final(self).pending_tags() == old(self).pending_tags().push(false),
            !old(self).live() ==> final(self).pending_entries() == old(self).pending_entries()
                && final(self).pending_tags() == old(self).pending_tags(),
    {
        if self.alive {
            self.push_entry(task, false);
        }
    }

    /// Register a background task whose completion does not gate termination.
    /// After the owning runner is gone this has no effect and raises no fault.
    pub fn spawn_daemon(&mut self, task: U)
        ensures
            final(self).live() == old(self).live(),
            old(self).live() ==> final(self).pending_entries()
                == old(self).pending_entries().push((task, true))
                && final(self).pending_tags() == old(self).pending_tags().push(true),
            !old(self).live() ==> final(self).pending_entries() == old(self).pending_entries()
                && final(self).pending_tags() == old(self).pending_tags(),
    {
        if self.alive {
            self.push_entry(task, true);
        }
    }

    /// How many registrations are buffered.
    pub fn pending_len(&self) -> (n: usize)
        ensures
            n == self.pending_entries().len(),
    {
        self.pending.len()
    }

    /// How many buffered registrations are non-daemon.
    pub fn pending_non_daemon_len(&self) -> (n: usize)
        ensures
            n == non_daemon_count(self.pending_tags()),
    {
        let ghost tags: Seq<bool> = self.pending_tags();
        let mut n: usize = 0;
        let mut i: usize = 0;
        proof {
            assert(tags.take(0) =~= Seq::<bool>::empty());
        }
        while i < self.pending.len()
            invariant
                i <= self.pending@.len(),
                n <= i,
                tags == self.pending_tags(),
                tags.len() == self.pending@.len(),
                n == non_daemon_count(tags.take(i as int)),
            decreases self.pending@.len() - i,
        {
            if !self.pending[i].1 {
                n = n + 1;
            }
            proof {
                assert(tags[i as int] == self.pending@[i as int].1);
                assert(tags.take(i as int + 1) =~= tags.take(i as int).push(tags[i as int]));
                lemma_non_daemon_count_push(tags.take(i as int), tags[i as int]);
            }
            i = i + 1;
        }
        proof {
            assert(tags.take(tags.len() as int) =~= tags);
        }
        n
    }

    /// Whether the owning runner is still live.
    pub fn is_live(&self) -> (b: bool)
        ensures
            b == self.live(),
    {
        self.alive
    }

    pub(crate) fn take_next_pending(&mut self) -> (r: Option<(U, bool)>)
        ensures
            final(self).live() == old(self).live(),
            old(self).pending_entries().len() == 0 ==> r == None::<(U, bool)>
                && final(self).pending_entries() == old(self).pending_entries()
                && final(self).pending_tags() == old(self).pending_tags(),
            old(self).pending_entries().len() > 0 ==> r == Some(old(self).pending_entries()[0])
                && final(self).pending_entries() == old(self).pending_entries().drop_first()
                && final(self).pending_tags() == old(self).pending_tags().drop_first()
                && old(self).pending_tags()[0] == old(self).pending_entries()[0].1,
    {
        if self.pending.len() == 0 {
            None
        } else {
            let e = self.pending.remove(0);
            proof {
                assert(self.pending@ =~= old(self).pending@.drop_first());
                assert(self.pending_tags() =~= old(self).pending_tags().drop_first());
            }
            Some(e)
        }
    }
}

/// A cloneable handle through which tasks are registered. It holds no
/// ownership of the scheduler state: every call goes through the context,
/// whose liveness flag decides whether the registration is admitted.
#[derive(Clone, Copy)]
pub struct Spawner {}

impl Spawner {
    /// Register a task the runner must wait for; a no-op once the runner is gone.
    pub fn spawn<U>(&self, cx: &mut TaskContext<U>, task: U)
        ensures
            final(cx).live() == old(cx).live(),
            old(cx).live() ==> final(cx).pending_entries()
                == old(cx).pending_entries().push((task, false))
                && final(cx).pending_tags() == old(cx).pending_tags().push(false),
            !old(cx).live() ==> final(cx).pending_entries() == old(cx).pending_entries()
                && final(cx).pending_tags() == old(cx).pending_tags(),
    {
        cx.spawn(task)
    }

    /// Register a background task; a no-op once the runner is gone.
    pub fn spawn_daemon<U>(&self, cx: &mut TaskContext<U>, task: U)
        ensures
            final(cx).live() == old(cx).live(),
            old(cx).live() ==> final(cx).pending_entries()
                == old(cx).pending_entries().push((task, true))
                && final(cx).pending_tags() == old(cx).pending_tags().push(true),
            !old(cx).live() ==> final(cx).pending_entries() == old(cx).pending_entries()
                && final(cx).pending_tags() == old(cx).pending_tags(),
    {
        cx.spawn_daemon(task)
    }
}

} // verus!
