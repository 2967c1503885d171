//! The runner: entering a run context and the drain-and-park loop.
//!
//! A run publishes a fresh queue into the context state, then loops: honour
//! a pending cancellation, poll the root once, drain the ready queue, and
//! park when no runnable work is left. It exits once the root has resolved
//! and no non-daemon task remains, unpublishing the queue and dropping
//! whatever is still in it.
//!
//! The queues are owned by the context for the whole run and every poll
//! happens on the owning thread, so a drain attempt can only yield a task
//! or exhaustion; there is no torn state from a concurrent push to detect
//! and retry. Cross-thread wake delivery happens inside the [`Park`]
//! implementation, which hands back a mask over the wake-pending set.
//!
//! Every run carries an explicit step budget: an upper bound on the
//! scheduling steps (task polls and loop turns, parks included) it may take.
//! A cooperative executor cannot know that its tasks quiesce — a task may
//! respawn itself forever, or every wake may be spurious — so the bound is
//! the caller's; a run that exhausts it gives up, discards what is still
//! queued, and reports that it did not finish.

use vstd::prelude::*;

use crate::context::CurrentRunner;
use crate::context::lemma_count_concat;
use crate::context::lemma_count_first;
use crate::context::lemma_count_nonneg;
use crate::context::lemma_count_push;
use crate::context::lemma_evolution_accounting;
use crate::context::lemma_evolution_refl;
use crate::context::lemma_quiescent_only_daemons;
use crate::context::lemma_wake_split;
use crate::context::same_state;
use crate::context::task_weight;
use crate::context::woken;
use crate::task::Async;
use crate::task::Park;
use crate::task::RootFuture;
use crate::task::RunInit;
use crate::task::SpawnedTask;
use crate::task::TaskFuture;

verus! {

/// Settles one drained task according to its poll outcome. A task that
/// resolved (`Ready`) or failed (`Err`) is removed permanently, the two
/// treated exactly alike: failure counts as completion for the accounting,
/// no error escapes, and the counter steps down by the task's weight — by
/// one exactly when it was non-daemon. A not-ready task is parked at the
/// back of the wake-pending set instead, not counted as complete, to be
/// re-queued by a later external wake. The ready queue and the cancellation
/// flag are untouched either way.
fn settle<T: TaskFuture>(
    state: &mut CurrentRunner<T>,
    entry: SpawnedTask<T>,
    res: Result<Async<()>, ()>,
)
    requires
        old(state).is_active(),
        old(state).non_daemon_counter() >= task_weight(entry),
    ensures
        final(state).is_active(),
        final(state).ready_q() == old(state).ready_q(),
        final(state).cancel_requested() == old(state).cancel_requested(),
        res matches Ok(Async::NotReady) ==> {
            &&& final(state).pending_q() == old(state).pending_q().push(entry)
            &&& final(state).non_daemon_counter() == old(state).non_daemon_counter()
        },
        !(res matches Ok(Async::NotReady)) ==> {
            &&& final(state).pending_q() == old(state).pending_q()
            &&& final(state).non_daemon_counter() == old(state).non_daemon_counter()
                - task_weight(entry)
        },
{
    match res {
        Ok(Async::NotReady) => {
            state.push_pending(entry);
        },
        _ => {
            if !entry.daemon {
                state.retire_non_daemon();
            }
        },
    }
}

/// Drains the ready queue: repeatedly takes the front task and polls it,
/// with the context in scope so the poll may spawn re-entrantly, then
/// settles it by the outcome (see [`settle`]). Draining stops at an empty
/// queue, at an exhausted budget — each task poll costs one step — or as
/// soon as a cancellation request is seen: once one is pending, no queued
/// task is run any further. Returns the budget left. The wake-pending set
/// only grows here: no parked task is dropped, reordered, or re-polled by a
/// drain.
fn poll_all<T: TaskFuture>(state: &mut CurrentRunner<T>, steps: usize) -> (rem: usize)
    requires
        old(state).is_active(),
        old(state).accounted(),
    ensures
        rem <= steps,
        final(state).is_active(),
        final(state).accounted(),
        old(state).pending_q().is_prefix_of(final(state).pending_q()),
        final(state).cancel_requested() || final(state).ready_q().len() == 0 || rem == 0,
        old(state).cancel_requested() ==> same_state(*old(state), *final(state)) && rem == steps,
{
    let mut rem = steps;
    if state.cancel_pending() {
        return rem;
    }
    loop
        invariant
            rem <= steps,
            state.is_active(),
            state.accounted(),
            !old(state).cancel_requested(),
            old(state).pending_q().is_prefix_of(state.pending_q()),
        decreases rem,
    {
        if rem == 0 {
            return rem;
        }
        if state.cancel_pending() {
            return rem;
        }
        let ghost before = *state;
        let popped = state.pop_ready();
        match popped {
            None => {
                return rem;
            },
            Some(mut entry) => {
                rem = rem - 1;
                let ghost w = task_weight(entry);
                proof {
                    lemma_count_first(before.ready_q());
                }
                let ghost mid = *state;
                let res = entry.inner.poll(state);
                proof {
                    lemma_evolution_accounting(mid, *state, w);
                    lemma_count_nonneg(state.ready_q());
                    lemma_count_nonneg(state.pending_q());
                    lemma_count_push(state.pending_q(), entry);
                }
                settle(state, entry, res);
                proof {
                    assert(old(state).pending_q() =~= state.pending_q().subrange(
                        0,
                        old(state).pending_q().len() as int,
                    ));
                }
            },
        }
    }
}

/// Enters a run context on `state` and drives `root`, together with
/// everything spawned into the context, until the root has resolved and no
/// non-daemon task is left — or cancellation has discarded the spawned work.
/// Parks on `park` whenever there is no runnable work.
///
/// Returns `Some` with the root's own result on quiescence, and `None` when
/// the step budget ran out first; beside it, for the reasoning of callers, a
/// ghost snapshot of the context state at the moment of exit, before the
/// queue was unpublished. On a `Some` exit that snapshot holds the counter
/// at zero under the accounting invariant: every non-daemon task has
/// completed or been discarded, and whatever is still queued is daemon work
/// the run never owed a wait.
///
/// On exit the queue is unpublished and its tasks are dropped: the state is
/// inactive again, owes nothing, and carries no stale cancellation into a
/// later run. A zero budget gives up at once, before anything is polled.
/// Entering on a state whose context is already active is a programmer
/// error, excluded here: nested run contexts are rejected.
///
/// Should a poll implementation panic, the unwind leaves the state active:
/// an embedder that catches such a panic must discard the state value
/// rather than enter a later run on it.
pub fn run<T: TaskFuture, F: RootFuture<T>, P: Park>(
    state: &mut CurrentRunner<T>,
    root: F,
    park: &mut P,
    steps: usize,
) -> (res: (Option<Result<F::Item, F::Error>>, Ghost<CurrentRunner<T>>))
    requires
        !old(state).is_active(),
        old(state).non_daemon_counter() == 0,
    ensures
        !final(state).is_active(),
        final(state).non_daemon_counter() == 0,
        !final(state).cancel_requested(),
        res.1@.is_active(),
        res.1@.accounted(),
        res.0 is Some ==> res.1@.non_daemon_counter() == 0,
        res.0 is Some ==> forall|i: int|
            0 <= i < res.1@.ready_q().len() ==> res.1@.ready_q()[i].daemon,
        res.0 is Some ==> forall|i: int|
            0 <= i < res.1@.pending_q().len() ==> res.1@.pending_q()[i].daemon,
        steps == 0 ==> res.0 is None,
{
    state.publish();
    let mut root = root;
    let mut rem = steps;
    let mut result: Option<Result<F::Item, F::Error>> = None;
    loop
        invariant
            state.is_active(),
            state.accounted(),
            rem <= steps,
            steps == 0 ==> result is None,
        decreases rem,
    {
        if rem == 0 {
            let ghost exit = *state;
            state.unpublish();
            return (None, Ghost(exit));
        }
        rem = rem - 1;
        if state.cancel_pending() {
            state.reset_after_cancel();
        }
        if result.is_none() {
            let ghost mid = *state;
            let res = root.poll(state);
            proof {
                lemma_evolution_accounting(mid, *state, 0);
            }
            match res {
                Ok(Async::Ready(v)) => {
                    result = Some(Ok(v));
                },
                Ok(Async::NotReady) => {},
                Err(e) => {
                    result = Some(Err(e));
                },
            }
        }
        rem = poll_all(state, rem);
        if state.non_daemons() == 0 {
            let done = result.take();
            match done {
                Some(r) => {
                    let ghost exit = *state;
                    proof {
                        lemma_quiescent_only_daemons(exit);
                    }
                    state.unpublish();
                    return (Some(r), Ghost(exit));
                },
                None => {},
            }
        }
        // No park when a cancellation is about to discard the queues, nor
        // when the budget is spent and the next turn gives up anyway.
        if rem != 0 && !state.cancel_pending() {
            let pending = state.pending_len();
            let mask = park.park(pending);
            let ghost pre = *state;
            state.apply_wakes(&mask);
            proof {
                lemma_count_concat(pre.ready_q(), woken(pre.pending_q(), mask@));
                lemma_wake_split(pre.pending_q(), mask@);
            }
        }
    }
}

/// The trivial, always-succeeding root used by `block_with_init`: its first
/// poll runs the one-shot initialization — which may spawn — and it is
/// resolved from then on.
pub(crate) struct InitRoot<I> {
    pub(crate) init: Option<I>,
}

impl<T: TaskFuture, I: RunInit<T>> RootFuture<T> for InitRoot<I> {
    type Item = ();

    type Error = ();

    fn poll(&mut self, ctx: &mut CurrentRunner<T>) -> (r: Result<Async<()>, ()>) {
        let step = self.init.take();
        match step {
            Some(init) => {
                init.init(ctx);
            },
            None => {
                proof {
                    lemma_evolution_refl(*ctx);
                }
            },
        }
        Ok(Async::Ready(()))
    }
}

} // verus!
