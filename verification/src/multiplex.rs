//! The live task set: many pollable units behind one sweep.
//!
//! A `TaskMultiplexer` holds the spawned tasks that have been admitted, each
//! with its daemon tag. One sweep polls every live task once, in insertion
//! order, and removes each task that reached a terminal state, reporting its
//! daemon tag so the runner can keep its non-daemon count right. Tasks
//! registered mid-poll go to the context's pending buffer, never into the set
//! being swept.

use vstd::prelude::*;

use crate::poll::{task_stays_live, Task};
use crate::spawn::TaskContext;
use crate::wake::WakeSignal;

verus! {

/// How many tags in the sequence are non-daemon (`false`).
pub open spec fn non_daemon_count(tags: Seq<bool>) -> nat
    decreases tags.len(),
{
    if tags.len() == 0 {
        0
    } else {
        (if tags[0] {
            0nat
        } else {
            1nat
        }) + non_daemon_count(tags.drop_first())
    }
}

/// No more non-daemon tags than tags.
pub proof fn lemma_non_daemon_count_le_len(tags: Seq<bool>)
    ensures
        non_daemon_count(tags) <= tags.len(),
    decreases tags.len(),
{
    if tags.len() > 0 {
        lemma_non_daemon_count_le_len(tags.drop_first());
    }
}

/// Appending one tag adds one to the count exactly when it is non-daemon.
pub proof fn lemma_non_daemon_count_push(tags: Seq<bool>, d: bool)
    ensures
        non_daemon_count(tags.push(d)) == non_daemon_count(tags) + (if d {
            0nat
        } else {
            1nat
        }),
    decreases tags.len(),
{
    assert(non_daemon_count(tags.push(d)) == (if tags.push(d)[0] {
        0nat
    } else {
        1nat
    }) + non_daemon_count(tags.push(d).drop_first()));
    if tags.len() == 0 {
        assert(tags.push(d)[0] == d);
        assert(tags.push(d).drop_first() =~= Seq::<bool>::empty());
    } else {
        assert(tags.push(d)[0] == tags[0]);
        assert(tags.push(d).drop_first() =~= tags.drop_first().push(d));
        lemma_non_daemon_count_push(tags.drop_first(), d);
    }
}

/// Count the non-daemon tags in a reported batch.
pub fn count_non_daemon(tags: &Vec<bool>) -> (n: usize)
    ensures
        n == non_daemon_count(tags@),
{
    let mut n: usize = 0;
    let mut i: usize = 0;
    proof {
        assert(tags@.take(0) =~= Seq::<bool>::empty());
    }
    while i < tags.len()
        invariant
            i <= tags@.len(),
            n <= i,
            n == non_daemon_count(tags@.take(i as int)),
        decreases tags@.len() - i,
    {
        if !tags[i] {
            n = n + 1;
        }
        proof {
            assert(tags@.take(i as int + 1) =~= tags@.take(i as int).push(tags@[i as int]));
            lemma_non_daemon_count_push(tags@.take(i as int), tags@[i as int]);
        }
        i = i + 1;
    }
    proof {
        assert(tags@.take(tags@.len() as int) =~= tags@);
    }
    n
}

/// One side of an order-preserving partition: the tags whose mask entry
/// equals `keep`, in their original order.
pub open spec fn mask_side(tags: Seq<bool>, mask: Seq<bool>, keep: bool) -> Seq<bool>
    decreases tags.len(),
{
    if tags.len() == 0 {
        Seq::empty()
    } else if mask[0] == keep {
        seq![tags[0]] + mask_side(tags.drop_first(), mask.drop_first(), keep)
    } else {
        mask_side(tags.drop_first(), mask.drop_first(), keep)
    }
}

/// Extending tags and mask by one entry extends the matching side by that
/// tag and leaves the other side alone.
pub proof fn lemma_mask_side_push(tags: Seq<bool>, mask: Seq<bool>, t: bool, b: bool, keep: bool)
    requires
        tags.len() == mask.len(),
    ensures
        mask_side(tags.push(t), mask.push(b), keep) == mask_side(tags, mask, keep) + (if b == keep {
            seq![t]
        } else {
            Seq::<bool>::empty()
        }),
    decreases tags.len(),
{
    let ghost tail: Seq<bool> = (if b == keep {
        seq![t]
    } else {
        Seq::<bool>::empty()
    });
    assert(mask_side(tags.push(t), mask.push(b), keep) == (if mask.push(b)[0] == keep {
        seq![tags.push(t)[0]] + mask_side(
            tags.push(t).drop_first(),
            mask.push(b).drop_first(),
            keep,
        )
    } else {
        mask_side(tags.push(t).drop_first(), mask.push(b).drop_first(), keep)
    }));
    if tags.len() == 0 {
        assert(tags.push(t).drop_first() =~= Seq::<bool>::empty());
        assert(mask.push(b).drop_first() =~= Seq::<bool>::empty());
        assert(tags.push(t)[0] == t);
        assert(mask.push(b)[0] == b);
        if b == keep {
            assert(seq![t] + Seq::<bool>::empty() =~= seq![t]);
            assert(mask_side(tags, mask, keep) + tail =~= seq![t]);
        } else {
            assert(mask_side(tags, mask, keep) + tail =~= Seq::<bool>::empty());
        }
    } else {
        assert(tags.push(t).drop_first() =~= tags.drop_first().push(t));
        assert(mask.push(b).drop_first() =~= mask.drop_first().push(b));
        assert(tags.push(t)[0] == tags[0]);
        assert(mask.push(b)[0] == mask[0]);
        lemma_mask_side_push(tags.drop_first(), mask.drop_first(), t, b, keep);
        if mask[0] == keep {
            assert(seq![tags[0]] + (mask_side(tags.drop_first(), mask.drop_first(), keep) + tail)
                =~= (seq![tags[0]] + mask_side(tags.drop_first(), mask.drop_first(), keep))
                + tail);
        }
    }
}

/// One admitted fire-and-forget task with its daemon tag.
pub(crate) struct SpawnedTask<U> {
    pub(crate) daemon: bool,
    pub(crate) inner: U,
}

pub(crate) open spec fn tags_of<U>(s: Seq<SpawnedTask<U>>) -> Seq<bool> {
    s.map_values(|t: SpawnedTask<U>| t.daemon)
}

/// The live set of spawned tasks, polled in insertion order.
pub struct TaskMultiplexer<U> {
    tasks: Vec<SpawnedTask<U>>,
}

impl<U> TaskMultiplexer<U> {
    /// The daemon tags of the live tasks, in poll order.
    pub closed spec fn tags(&self) -> Seq<bool> {
        tags_of(self.tasks@)
    }

    /// An empty live set.
    pub fn new() -> (m: Self)
        ensures
            m.tags() == Seq::<bool>::empty(),
    {
        let m = TaskMultiplexer { tasks: Vec::new() };
        proof {
            assert(m.tags() =~= Seq::<bool>::empty());
        }
        m
    }

    /// How many tasks are live.
    pub fn task_count(&self) -> (n: usize)
        ensures
            n == self.tags().len(),
    {
        self.tasks.len()
    }

    /// Admit one task into the live set.
    pub fn push(&mut self, task: U, daemon: bool)
        ensures
            final(self).tags() == old(self).tags().push(daemon),
    {
        self.tasks.push(SpawnedTask { daemon, inner: task });
        proof {
            assert(self.tags() =~= old(self).tags().push(daemon));
        }
    }
}

impl<U: Task> TaskMultiplexer<U> {
    /// Poll every live task once, in order. A task stays live exactly when
    /// its own poll reports pending ([`task_stays_live`]); a task reaching
    /// a terminal state, done and failed alike, is removed and reported by
    /// its daemon tag and nothing else. The report and the survivors form
    /// an order-preserving partition of the old set, witnessed by the
    /// returned mask: the task at position `i` of the old set survives
    /// exactly where the mask holds true. Each poll runs against a scratch
    /// context whose registrations are appended to the caller's context
    /// afterwards, so whatever a poll does, the registrations the context
    /// held at entry survive in order, its liveness is untouched, and the
    /// set being swept is never reached from a poll. An empty set is left
    /// entirely alone.
    pub fn sweep(&mut self, cx: &mut TaskContext<U>, wake: &mut WakeSignal) -> (r: (
        Vec<bool>,
        Ghost<Seq<bool>>,
    ))
        ensures
            final(self).tags().len() + r.0@.len() == old(self).tags().len(),
            non_daemon_count(old(self).tags()) == non_daemon_count(final(self).tags())
                + non_daemon_count(r.0@),
            final(cx).live() == old(cx).live(),
            old(cx).pending_entries().is_prefix_of(final(cx).pending_entries()),
            old(cx).pending_tags().is_prefix_of(final(cx).pending_tags()),
            r.1@.len() == old(self).tags().len(),
            final(self).tags() == mask_side(old(self).tags(), r.1@, true),
            r.0@ == mask_side(old(self).tags(), r.1@, false),
            old(self).tags().len() == 0 ==> r.0@.len() == 0 && final(self).tags() == old(
                self,
            ).tags() && *final(cx) == *old(cx) && *final(wake) == *old(wake),
    {
        if self.tasks.len() == 0 {
            let empty: Vec<bool> = Vec::new();
            proof {
                assert(cx.pending_entries().subrange(0, cx.pending_entries().len() as int)
                    =~= cx.pending_entries());
                assert(cx.pending_tags().subrange(0, cx.pending_tags().len() as int)
                    =~= cx.pending_tags());
                assert(self.tags() =~= Seq::<bool>::empty());
            }
            return (empty, Ghost(Seq::empty()));
        }
        let ghost orig: Seq<bool> = self.tags();
        let ghost live0: bool = cx.live();
        let ghost entries0: Seq<(U, bool)> = cx.pending_entries();
        let ghost ptags0: Seq<bool> = cx.pending_tags();
        let mut kept: Vec<SpawnedTask<U>> = Vec::new();
        let mut finished: Vec<bool> = Vec::new();
        let ghost mut mask: Seq<bool> = Seq::empty();
        proof {
            assert(tags_of(kept@) =~= Seq::<bool>::empty());
            assert(orig.take(0) =~= Seq::<bool>::empty());
            assert(orig.skip(0) =~= orig);
        }
        while self.tasks.len() > 0
            invariant
                mask.len() + self.tasks@.len() == orig.len(),
                tags_of(self.tasks@) == orig.skip(mask.len() as int),
                tags_of(kept@) == mask_side(orig.take(mask.len() as int), mask, true),
                finished@ == mask_side(orig.take(mask.len() as int), mask, false),
                non_daemon_count(orig) == non_daemon_count(tags_of(self.tasks@))
                    + non_daemon_count(tags_of(kept@)) + non_daemon_count(finished@),
                orig.len() == self.tasks@.len() + kept@.len() + finished@.len(),
                cx.live() == live0,
                entries0.is_prefix_of(cx.pending_entries()),
                ptags0.is_prefix_of(cx.pending_tags()),
            decreases self.tasks.len(),
        {
            let ghost k: int = mask.len() as int;
            let ghost before: Seq<SpawnedTask<U>> = self.tasks@;
            let mut t = self.tasks.remove(0);
            proof {
                assert(self.tasks@ =~= before.drop_first());
                assert(tags_of(self.tasks@) =~= tags_of(before).drop_first());
                assert(tags_of(before)[0] == t.daemon);
                assert(tags_of(self.tasks@) =~= orig.skip(k + 1));
                assert(t.daemon == orig[k]);
                assert(orig.take(k + 1) =~= orig.take(k).push(orig[k]));
            }
            let ghost tag: bool = t.daemon;
            let mut scratch: TaskContext<U> = TaskContext::fresh(cx.is_live());
            let step = t.inner.poll_task(&mut scratch, wake);
            cx.absorb(scratch);
            proof {
                assert(entries0.is_prefix_of(cx.pending_entries())) by {
                    assert(cx.pending_entries().subrange(0, entries0.len() as int)
                        =~= entries0);
                }
                assert(ptags0.is_prefix_of(cx.pending_tags())) by {
                    assert(cx.pending_tags().subrange(0, ptags0.len() as int) =~= ptags0);
                }
            }
            if task_stays_live(step) {
                let ghost kept_before: Seq<SpawnedTask<U>> = kept@;
                kept.push(t);
                proof {
                    assert(tags_of(kept@) =~= tags_of(kept_before).push(tag));
                    lemma_non_daemon_count_push(tags_of(kept_before), tag);
                    lemma_mask_side_push(orig.take(k), mask, orig[k], true, true);
                    lemma_mask_side_push(orig.take(k), mask, orig[k], true, false);
                    assert(tags_of(kept_before).push(tag) =~= tags_of(kept_before)
                        + seq![tag]);
                    assert(finished@ + Seq::<bool>::empty() =~= finished@);
                    mask = mask.push(true);
                }
            } else {
                let ghost fin_before: Seq<bool> = finished@;
                finished.push(t.daemon);
                proof {
                    lemma_non_daemon_count_push(fin_before, tag);
                    lemma_mask_side_push(orig.take(k), mask, orig[k], false, false);
                    lemma_mask_side_push(orig.take(k), mask, orig[k], false, true);
                    assert(fin_before.push(tag) =~= fin_before + seq![tag]);
                    assert(tags_of(kept@) + Seq::<bool>::empty() =~= tags_of(kept@));
                    mask = mask.push(false);
                }
            }
        }
        self.tasks = kept;
        proof {
            assert(orig.take(mask.len() as int) =~= orig);
        }
        (finished, Ghost(mask))
    }
}

} // verus!
