//! The run-context state: the active queue, the live non-daemon counter and
//! the cancellation flag, together with the submission logic.
//!
//! One `CurrentRunner` value stands for one thread's run-context record. It
//! is inactive between runs; a run publishes a fresh queue into it for its
//! whole dynamic extent, including the nested polls through which re-entrant
//! spawns arrive, and unpublishes it on exit.

use vstd::prelude::*;

use crate::task::ExecuteError;
use crate::task::ExecuteErrorKind;
use crate::task::SpawnedTask;

verus! {

/// 1 for a task the run must wait for, 0 for a daemon task.
pub open spec fn task_weight<T>(t: SpawnedTask<T>) -> int {
    if t.daemon {
        0
    } else {
        1
    }
}

/// How many tasks of a queue are non-daemon.
pub open spec fn non_daemon_count<T>(q: Seq<SpawnedTask<T>>) -> int
    decreases q.len(),
{
    if q.len() == 0 {
        0
    } else {
        non_daemon_count(q.drop_last()) + task_weight(q.last())
    }
}

/// The queues a run owns: tasks ready to poll, and tasks that returned
/// not-ready and wait for an external wake.
struct Scheduler<T> {
    ready: Vec<SpawnedTask<T>>,
    pending: Vec<SpawnedTask<T>>,
}

/// One thread's run-context state.
///
/// `scheduler` is the published queue: `Some` for the entire dynamic extent
/// of a run context and exactly `None` otherwise. `non_daemons` counts the
/// non-daemon tasks not yet completed, and `cancel` records a pending
/// cancellation request, observed at the top of the next drain-loop
/// iteration.
pub struct CurrentRunner<T> {
    scheduler: Option<Scheduler<T>>,
    non_daemons: usize,
    cancel: bool,
}

impl<T> CurrentRunner<T> {
    /// Whether a run context is active: whether a queue is published.
    pub closed spec fn is_active(self) -> bool {
        self.scheduler is Some
    }

    /// The tasks ready to be polled, in arrival order.
    pub closed spec fn ready_q(self) -> Seq<SpawnedTask<T>> {
        match self.scheduler {
            Some(s) => s.ready@,
            None => Seq::empty(),
        }
    }

    /// The tasks waiting for an external wake, in the order they suspended.
    pub closed spec fn pending_q(self) -> Seq<SpawnedTask<T>> {
        match self.scheduler {
            Some(s) => s.pending@,
            None => Seq::empty(),
        }
    }

    /// The value of the live non-daemon counter.
    pub closed spec fn non_daemon_counter(self) -> int {
        self.non_daemons as int
    }

    /// Whether a cancellation request is pending.
    pub closed spec fn cancel_requested(self) -> bool {
        self.cancel
    }

    /// How many non-daemon tasks actually sit in the two queues.
    pub open spec fn live_non_daemons(self) -> int {
        non_daemon_count(self.ready_q()) + non_daemon_count(self.pending_q())
    }

    /// The accounting invariant: the counter equals the number of live
    /// non-daemon tasks. It holds whenever no task is mid-poll; while one
    /// non-daemon task is out of the queues being polled, the counter runs
    /// one ahead.
    pub open spec fn accounted(self) -> bool {
        self.non_daemon_counter() == self.live_non_daemons()
    }
}

/// Observational equality of two context states.
pub open spec fn same_state<T>(a: CurrentRunner<T>, b: CurrentRunner<T>) -> bool {
    &&& b.is_active() == a.is_active()
    &&& b.ready_q() == a.ready_q()
    &&& b.pending_q() == a.pending_q()
    &&& b.non_daemon_counter() == a.non_daemon_counter()
    &&& b.cancel_requested() == a.cancel_requested()
}

/// Everything a poll may do to the context it is handed: it may append
/// spawns to the ready queue (the counter moving with them) and it may
/// request cancellation. It can neither unpublish the queue, nor reorder or
/// remove queued work, nor withdraw a cancellation request.
pub open spec fn poll_evolution<T>(pre: CurrentRunner<T>, post: CurrentRunner<T>) -> bool {
    &&& post.is_active()
    &&& pre.ready_q().len() <= post.ready_q().len()
    &&& post.ready_q().subrange(0, pre.ready_q().len() as int) == pre.ready_q()
    &&& post.pending_q() == pre.pending_q()
    &&& post.non_daemon_counter() == pre.non_daemon_counter() + non_daemon_count(
        post.ready_q().skip(pre.ready_q().len() as int),
    )
    &&& (pre.cancel_requested() ==> post.cancel_requested())
}

/// Whether position `i` of the wake mask marks a task woken. Positions the
/// mask does not cover are not woken.
pub open spec fn wake_bit(mask: Seq<bool>, i: int) -> bool {
    0 <= i < mask.len() && mask[i]
}

/// The tasks among the first `k` of `q` that the mask marks woken, in order.
pub open spec fn woken_prefix<T>(q: Seq<SpawnedTask<T>>, mask: Seq<bool>, k: int) -> Seq<
    SpawnedTask<T>,
>
    decreases k,
{
    if k <= 0 {
        Seq::empty()
    } else if wake_bit(mask, k - 1) {
        woken_prefix(q, mask, k - 1).push(q[k - 1])
    } else {
        woken_prefix(q, mask, k - 1)
    }
}

/// The tasks among the first `k` of `q` that stay wake-pending, in order.
pub open spec fn unwoken_prefix<T>(q: Seq<SpawnedTask<T>>, mask: Seq<bool>, k: int) -> Seq<
    SpawnedTask<T>,
>
    decreases k,
{
    if k <= 0 {
        Seq::empty()
    } else if wake_bit(mask, k - 1) {
        unwoken_prefix(q, mask, k - 1)
    } else {
        unwoken_prefix(q, mask, k - 1).push(q[k - 1])
    }
}

/// The tasks of `q` that the mask marks woken, in order.
pub open spec fn woken<T>(q: Seq<SpawnedTask<T>>, mask: Seq<bool>) -> Seq<SpawnedTask<T>> {
    woken_prefix(q, mask, q.len() as int)
}

/// The tasks of `q` that stay wake-pending, in order.
pub open spec fn unwoken<T>(q: Seq<SpawnedTask<T>>, mask: Seq<bool>) -> Seq<SpawnedTask<T>> {
    unwoken_prefix(q, mask, q.len() as int)
}

/// A one-task queue counts that task's weight.
pub proof fn lemma_count_singleton<T>(t: SpawnedTask<T>)
    ensures
        non_daemon_count(seq![t]) == task_weight(t),
{
    let s = seq![t];
    assert(s.len() == 1);
    assert(s.last() == t);
    assert(s.drop_last() =~= Seq::<SpawnedTask<T>>::empty());
    assert(non_daemon_count(s.drop_last()) == 0);
    assert(non_daemon_count(s) == non_daemon_count(s.drop_last()) + task_weight(s.last()));
}

/// Appending one task moves the count by that task's weight.
pub proof fn lemma_count_push<T>(q: Seq<SpawnedTask<T>>, t: SpawnedTask<T>)
    ensures
        non_daemon_count(q.push(t)) == non_daemon_count(q) + task_weight(t),
{
    assert(q.push(t).drop_last() =~= q);
    assert(q.push(t).last() == t);
}

/// The count distributes over concatenation.
pub proof fn lemma_count_concat<T>(a: Seq<SpawnedTask<T>>, b: Seq<SpawnedTask<T>>)
    ensures
        non_daemon_count(a + b) == non_daemon_count(a) + non_daemon_count(b),
    decreases b.len(),
{
    if b.len() == 0 {
        assert(a + b =~= a);
    } else {
        lemma_count_concat(a, b.drop_last());
        assert((a + b).drop_last() =~= a + b.drop_last());
        assert((a + b).last() == b.last());
    }
}

/// The count is never negative.
pub proof fn lemma_count_nonneg<T>(q: Seq<SpawnedTask<T>>)
    ensures
        non_daemon_count(q) >= 0,
    decreases q.len(),
{
    if q.len() != 0 {
        lemma_count_nonneg(q.drop_last());
    }
}

/// Taking the front task off a queue takes its weight off the count.
pub proof fn lemma_count_first<T>(q: Seq<SpawnedTask<T>>)
    requires
        q.len() > 0,
    ensures
        non_daemon_count(q) == task_weight(q[0]) + non_daemon_count(q.skip(1)),
{
    assert(q =~= seq![q[0]] + q.skip(1));
    lemma_count_concat(seq![q[0]], q.skip(1));
    lemma_count_singleton(q[0]);
}

/// A queue whose count is zero holds daemon tasks only.
pub proof fn lemma_count_zero_all_daemon<T>(q: Seq<SpawnedTask<T>>)
    requires
        non_daemon_count(q) == 0,
    ensures
        forall|i: int| 0 <= i < q.len() ==> q[i].daemon,
    decreases q.len(),
{
    if q.len() > 0 {
        lemma_count_nonneg(q.drop_last());
        lemma_count_zero_all_daemon(q.drop_last());
        assert forall|i: int| 0 <= i < q.len() implies q[i].daemon by {
            if i < q.len() - 1 {
                assert(q[i] == q.drop_last()[i]);
            } else {
                assert(q[i] == q.last());
            }
        }
    }
}

/// Law: at quiescence — the counter at zero under the accounting invariant —
/// nothing queued is owed to the run: every task still in either queue is a
/// daemon task, and the run may end without waiting for any of them.
pub proof fn lemma_quiescent_only_daemons<T>(s: CurrentRunner<T>)
    requires
        s.accounted(),
        s.non_daemon_counter() == 0,
    ensures
        forall|i: int| 0 <= i < s.ready_q().len() ==> s.ready_q()[i].daemon,
        forall|i: int| 0 <= i < s.pending_q().len() ==> s.pending_q()[i].daemon,
{
    lemma_count_nonneg(s.ready_q());
    lemma_count_nonneg(s.pending_q());
    lemma_count_zero_all_daemon(s.ready_q());
    lemma_count_zero_all_daemon(s.pending_q());
}

/// Law: a poll moves the counter exactly with the non-daemon tasks it
/// spawns, so any accounting slack — the tasks mid-poll, outside the queues
/// but still counted — is carried across it unchanged. With slack zero this
/// is the accounting invariant itself.
pub proof fn lemma_evolution_accounting<T>(
    pre: CurrentRunner<T>,
    post: CurrentRunner<T>,
    slack: int,
)
    requires
        poll_evolution(pre, post),
        pre.non_daemon_counter() == pre.live_non_daemons() + slack,
    ensures
        post.non_daemon_counter() == post.live_non_daemons() + slack,
{
    let n = pre.ready_q().len() as int;
    assert(post.ready_q() =~= pre.ready_q() + post.ready_q().skip(n));
    lemma_count_concat(pre.ready_q(), post.ready_q().skip(n));
}

/// Law: a poll that touches nothing is an evolution: the contract asked of
/// the pollable computations is satisfiable by doing no submission at all.
pub proof fn lemma_evolution_refl<T>(s: CurrentRunner<T>)
    requires
        s.is_active(),
    ensures
        poll_evolution(s, s),
{
    assert(s.ready_q().subrange(0, s.ready_q().len() as int) =~= s.ready_q());
    assert(s.ready_q().skip(s.ready_q().len() as int) =~= Seq::<SpawnedTask<T>>::empty());
}

/// Law: one submission is an evolution. Together with transitivity this is
/// the re-entrant spawn guarantee: whatever a poll spawns is appended to the
/// ready queue, visible to the drain passes that follow it.
pub proof fn lemma_spawn_is_evolution<T>(
    pre: CurrentRunner<T>,
    post: CurrentRunner<T>,
    t: SpawnedTask<T>,
)
    requires
        pre.is_active(),
        post.is_active(),
        post.ready_q() == pre.ready_q().push(t),
        post.pending_q() == pre.pending_q(),
        post.non_daemon_counter() == pre.non_daemon_counter() + task_weight(t),
        post.cancel_requested() == pre.cancel_requested(),
    ensures
        poll_evolution(pre, post),
{
    let n = pre.ready_q().len() as int;
    assert(post.ready_q().subrange(0, n) =~= pre.ready_q());
    assert(post.ready_q().skip(n) =~= seq![t]);
    lemma_count_singleton(t);
}

/// Law: evolutions compose. A poll that spawns several times, or hands the
/// context on to nested calls, is still one evolution from its entry state
/// to its exit state.
pub proof fn lemma_evolution_trans<T>(
    a: CurrentRunner<T>,
    b: CurrentRunner<T>,
    c: CurrentRunner<T>,
)
    requires
        poll_evolution(a, b),
        poll_evolution(b, c),
    ensures
        poll_evolution(a, c),
{
    let na = a.ready_q().len() as int;
    let nb = b.ready_q().len() as int;
    assert(c.ready_q().subrange(0, na) =~= a.ready_q()) by {
        assert forall|i: int| 0 <= i < na implies c.ready_q()[i] == a.ready_q()[i] by {
            assert(b.ready_q()[i] == b.ready_q().subrange(0, na)[i]);
            assert(c.ready_q()[i] == c.ready_q().subrange(0, nb)[i]);
        }
    }
    assert(c.ready_q().skip(na) =~= b.ready_q().skip(na) + c.ready_q().skip(nb)) by {
        assert forall|i: int| 0 <= i < c.ready_q().len() - na implies c.ready_q().skip(na)[i] == (
        b.ready_q().skip(na) + c.ready_q().skip(nb))[i] by {
            if i < nb - na {
                assert(c.ready_q()[na + i] == c.ready_q().subrange(0, nb)[na + i]);
            }
        }
    }
    lemma_count_concat(b.ready_q().skip(na), c.ready_q().skip(nb));
}

/// The wake mask splits the pending count: woken and unwoken weights add up
/// to the whole, so applying wakes preserves the accounting.
pub proof fn lemma_wake_prefix_split<T>(q: Seq<SpawnedTask<T>>, mask: Seq<bool>, k: int)
    requires
        0 <= k <= q.len(),
    ensures
        non_daemon_count(woken_prefix(q, mask, k)) + non_daemon_count(unwoken_prefix(q, mask, k))
            == non_daemon_count(q.subrange(0, k)),
    decreases k,
{
    if k == 0 {
        assert(q.subrange(0, 0) =~= Seq::<SpawnedTask<T>>::empty());
    } else {
        lemma_wake_prefix_split(q, mask, k - 1);
        assert(q.subrange(0, k) =~= q.subrange(0, k - 1).push(q[k - 1]));
        lemma_count_push(q.subrange(0, k - 1), q[k - 1]);
        if wake_bit(mask, k - 1) {
            lemma_count_push(woken_prefix(q, mask, k - 1), q[k - 1]);
        } else {
            lemma_count_push(unwoken_prefix(q, mask, k - 1), q[k - 1]);
        }
    }
}

/// The whole-queue form of the wake split.
pub proof fn lemma_wake_split<T>(q: Seq<SpawnedTask<T>>, mask: Seq<bool>)
    ensures
        non_daemon_count(woken(q, mask)) + non_daemon_count(unwoken(q, mask)) == non_daemon_count(
            q,
        ),
{
    lemma_wake_prefix_split(q, mask, q.len() as int);
    assert(q.subrange(0, q.len() as int) =~= q);
}

impl<T> CurrentRunner<T> {
    /// A fresh, inactive run-context state: no queue published, no live
    /// non-daemon, no cancellation pending.
    pub fn new() -> (r: Self)
        ensures
            !r.is_active(),
            r.non_daemon_counter() == 0,
            !r.cancel_requested(),
    {
        CurrentRunner { scheduler: None, non_daemons: 0, cancel: false }
    }

    /// Submits one computation into the active run context.
    ///
    /// A refused submission always hands the computation back intact: under
    /// a `Shutdown` error when no context is active, and under a
    /// `NoCapacity` error when one more non-daemon task could not be
    /// accounted because the counter is saturated; the state is untouched
    /// either way. Otherwise the task is appended to the ready queue, the
    /// counter moving up with it exactly when the task is non-daemon. Safe
    /// to call re-entrantly from inside a task's own poll: the queue is
    /// published for the whole run.
    pub fn spawn(&mut self, task: T, daemon: bool) -> (r: Result<(), ExecuteError<T>>)
        ensures
            !old(self).is_active() ==> {
                &&& r matches Err(e) && e.kind == ExecuteErrorKind::Shutdown && e.task == task
                &&& same_state(*old(self), *final(self))
            },
            old(self).is_active() && !daemon && old(self).non_daemon_counter() == usize::MAX
                ==> {
                &&& r matches Err(e) && e.kind == ExecuteErrorKind::NoCapacity && e.task == task
                &&& same_state(*old(self), *final(self))
            },
            old(self).is_active() && (daemon || old(self).non_daemon_counter() < usize::MAX)
                ==> {
                &&& r is Ok
                &&& final(self).is_active()
                &&& final(self).ready_q() == old(self).ready_q().push(
                    SpawnedTask { daemon, inner: task },
                )
                &&& final(self).pending_q() == old(self).pending_q()
                &&& final(self).non_daemon_counter() == old(self).non_daemon_counter()
                    + task_weight(SpawnedTask { daemon, inner: task })
                &&& final(self).cancel_requested() == old(self).cancel_requested()
            },
    {
        let sched = self.scheduler.take();
        match sched {
            None => Err(ExecuteError { kind: ExecuteErrorKind::Shutdown, task }),
            Some(mut s) => {
                if !daemon && self.non_daemons == usize::MAX {
                    self.scheduler = Some(s);
                    return Err(ExecuteError { kind: ExecuteErrorKind::NoCapacity, task });
                }
                if !daemon {
                    self.non_daemons = self.non_daemons + 1;
                }
                s.ready.push(SpawnedTask { daemon, inner: task });
                self.scheduler = Some(s);
                Ok(())
            },
        }
    }

    /// Requests that all spawned work be discarded.
    ///
    /// With no context active this reports failure and changes nothing.
    /// Otherwise it sets the cancellation flag; the effect is deferred to
    /// the top of the runner's next loop iteration, never synchronous.
    pub fn cancel_all_spawned(&mut self) -> (r: Result<(), ()>)
        ensures
            !old(self).is_active() ==> r is Err && same_state(*old(self), *final(self)),
            old(self).is_active() ==> {
                &&& r is Ok
                &&& final(self).is_active()
                &&& final(self).ready_q() == old(self).ready_q()
                &&& final(self).pending_q() == old(self).pending_q()
                &&& final(self).non_daemon_counter() == old(self).non_daemon_counter()
                &&& final(self).cancel_requested()
            },
    {
        if self.scheduler.is_some() {
            self.cancel = true;
            Ok(())
        } else {
            Err(())
        }
    }

    /// Whether a run context is active.
    pub fn active(&self) -> (r: bool)
        ensures
            r == self.is_active(),
    {
        self.scheduler.is_some()
    }

    /// Whether a cancellation request is pending.
    pub fn cancel_pending(&self) -> (r: bool)
        ensures
            r == self.cancel_requested(),
    {
        self.cancel
    }

    /// The current value of the live non-daemon counter.
    pub fn non_daemons(&self) -> (n: usize)
        ensures
            n as int == self.non_daemon_counter(),
    {
        self.non_daemons
    }

    /// How many tasks wait for an external wake.
    pub fn pending_len(&self) -> (n: usize)
        ensures
            n as int == self.pending_q().len(),
    {
        match &self.scheduler {
            Some(s) => s.pending.len(),
            None => 0,
        }
    }

    /// Publishes a fresh, empty queue: the run context becomes active.
    pub(crate) fn publish(&mut self)
        requires
            !old(self).is_active(),
        ensures
            final(self).is_active(),
            final(self).ready_q().len() == 0,
            final(self).pending_q().len() == 0,
            final(self).non_daemon_counter() == old(self).non_daemon_counter(),
            final(self).cancel_requested() == old(self).cancel_requested(),
    {
        self.scheduler = Some(Scheduler { ready: Vec::new(), pending: Vec::new() });
    }

    /// Unpublishes the queue on run exit, dropping whatever tasks are still
    /// queued, and leaves the state at rest for a later run: inactive, the
    /// counter reconciled to zero — nothing live survives the drop — and no
    /// stale cancellation request.
    pub(crate) fn unpublish(&mut self)
        ensures
            !final(self).is_active(),
            final(self).non_daemon_counter() == 0,
            !final(self).cancel_requested(),
    {
        self.scheduler = None;
        self.non_daemons = 0;
        self.cancel = false;
    }

    /// Honours a cancellation request: clears the flag, discards the whole
    /// queue structure with every task in it, daemon and non-daemon alike,
    /// and publishes a brand-new empty one. The counter is reconciled to
    /// zero, since no live task survives the discard.
    pub(crate) fn reset_after_cancel(&mut self)
        requires
            old(self).is_active(),
        ensures
            final(self).is_active(),
            final(self).ready_q().len() == 0,
            final(self).pending_q().len() == 0,
            final(self).non_daemon_counter() == 0,
            !final(self).cancel_requested(),
    {
        self.scheduler = Some(Scheduler { ready: Vec::new(), pending: Vec::new() });
        self.non_daemons = 0;
        self.cancel = false;
    }

    /// Takes the front task off the ready queue, if any. The counter does
    /// not move: a popped task is in flight, still owed to the accounting
    /// until its poll decides its fate.
    pub(crate) fn pop_ready(&mut self) -> (r: Option<SpawnedTask<T>>)
        requires
            old(self).is_active(),
        ensures
            final(self).is_active(),
            final(self).pending_q() == old(self).pending_q(),
            final(self).non_daemon_counter() == old(self).non_daemon_counter(),
            final(self).cancel_requested() == old(self).cancel_requested(),
            old(self).ready_q().len() == 0 ==> r is None && final(self).ready_q() == old(
                self,
            ).ready_q(),
            old(self).ready_q().len() > 0 ==> {
                &&& r matches Some(t) && t == old(self).ready_q()[0]
                &&& final(self).ready_q() == old(self).ready_q().skip(1)
            },
    {
        let mut s = self.scheduler.take().unwrap();
        if s.ready.len() == 0 {
            self.scheduler = Some(s);
            None
        } else {
            let t = s.ready.remove(0);
            self.scheduler = Some(s);
            proof {
                assert(self.ready_q() =~= old(self).ready_q().skip(1));
            }
            Some(t)
        }
    }

    /// Parks a not-ready task in the wake-pending set, to be re-queued by a
    /// later external wake.
    pub(crate) fn push_pending(&mut self, t: SpawnedTask<T>)
        requires
            old(self).is_active(),
        ensures
            final(self).is_active(),
            final(self).ready_q() == old(self).ready_q(),
            final(self).pending_q() == old(self).pending_q().push(t),
            final(self).non_daemon_counter() == old(self).non_daemon_counter(),
            final(self).cancel_requested() == old(self).cancel_requested(),
    {
        let mut s = self.scheduler.take().unwrap();
        s.pending.push(t);
        self.scheduler = Some(s);
    }

    /// Moves those wake-pending tasks that the mask marks woken, in order,
    /// to the back of the ready queue; the rest keep their order in the
    /// wake-pending set. Positions past the end of the mask are not woken.
    pub(crate) fn apply_wakes(&mut self, mask: &Vec<bool>)
        requires
            old(self).is_active(),
        ensures
            final(self).is_active(),
            final(self).ready_q() == old(self).ready_q() + woken(old(self).pending_q(), mask@),
            final(self).pending_q() == unwoken(old(self).pending_q(), mask@),
            final(self).non_daemon_counter() == old(self).non_daemon_counter(),
            final(self).cancel_requested() == old(self).cancel_requested(),
    {
        let mut s = self.scheduler.take().unwrap();
        let ghost orig_ready = s.ready@;
        let ghost orig_pending = s.pending@;
        let n = s.pending.len();
        let mut k: usize = 0;
        while k < n
            invariant
                k <= n,
                n == orig_pending.len(),
                s.pending@ == orig_pending.skip(k as int) + unwoken_prefix(
                    orig_pending,
                    mask@,
                    k as int,
                ),
                s.ready@ == orig_ready + woken_prefix(orig_pending, mask@, k as int),
            decreases n - k,
        {
            let ghost pend_pre = s.pending@;
            let t = s.pending.remove(0);
            proof {
                assert(pend_pre[0] == orig_pending.skip(k as int)[0]);
                assert(orig_pending.skip(k as int)[0] == orig_pending[k as int]);
                assert(s.pending@ =~= orig_pending.skip(k as int + 1) + unwoken_prefix(
                    orig_pending,
                    mask@,
                    k as int,
                ));
            }
            let wake = k < mask.len() && mask[k];
            if wake {
                s.ready.push(t);
                proof {
                    assert(woken_prefix(orig_pending, mask@, k as int + 1) =~= woken_prefix(
                        orig_pending,
                        mask@,
                        k as int,
                    ).push(orig_pending[k as int]));
                    assert(s.ready@ =~= orig_ready + woken_prefix(
                        orig_pending,
                        mask@,
                        k as int + 1,
                    ));
                    assert(unwoken_prefix(orig_pending, mask@, k as int + 1) =~= unwoken_prefix(
                        orig_pending,
                        mask@,
                        k as int,
                    ));
                }
            } else {
                s.pending.push(t);
                proof {
                    assert(unwoken_prefix(orig_pending, mask@, k as int + 1) =~= unwoken_prefix(
                        orig_pending,
                        mask@,
                        k as int,
                    ).push(orig_pending[k as int]));
                    assert(s.pending@ =~= orig_pending.skip(k as int + 1) + unwoken_prefix(
                        orig_pending,
                        mask@,
                        k as int + 1,
                    ));
                    assert(woken_prefix(orig_pending, mask@, k as int + 1) =~= woken_prefix(
                        orig_pending,
                        mask@,
                        k as int,
                    ));
                }
            }
            k = k + 1;
        }
        self.scheduler = Some(s);
        proof {
            assert(self.pending_q() =~= unwoken(orig_pending, mask@));
            assert(self.ready_q() =~= orig_ready + woken(orig_pending, mask@));
        }
    }

    /// Retires one completed non-daemon task from the counter. The counter
    /// must be positive here: its underflow would mean a task retired that
    /// was never accounted.
    pub(crate) fn retire_non_daemon(&mut self)
        requires
            old(self).is_active(),
            old(self).non_daemon_counter() > 0,
        ensures
            final(self).is_active(),
            final(self).ready_q() == old(self).ready_q(),
            final(self).pending_q() == old(self).pending_q(),
            final(self).non_daemon_counter() == old(self).non_daemon_counter() - 1,
            final(self).cancel_requested() == old(self).cancel_requested(),
    {
        self.non_daemons = self.non_daemons - 1;
    }
}

} // verus!
