//! The public entry points: the two submission handles and the `block_*`
//! functions that enter a run context.
//!
//! The handles are stateless tags. They carry no queue reference of their
//! own: every call resolves the active queue through the run-context state
//! it is handed, so a handle made before a run submits into whatever run is
//! active at call time.

use vstd::prelude::*;

use crate::context::CurrentRunner;
use crate::context::same_state;
use crate::context::task_weight;
use crate::runner::InitRoot;
use crate::runner::run;
use crate::task::ExecuteError;
use crate::task::ExecuteErrorKind;
use crate::task::Park;
use crate::task::RootFuture;
use crate::task::RunInit;
use crate::task::SpawnedTask;
use crate::task::TaskFuture;

verus! {

/// The non-daemon submission handle: work spawned through it must complete
/// (or be cancelled) before a run returns.
///
/// The handle itself may move freely across threads: a run is pinned to its
/// thread not by the handle but by the context value, which every
/// submission resolves at call time and which the run loop borrows
/// exclusively for its whole extent.
#[derive(Clone, Copy, Debug)]
pub struct CurrentThread {
}

/// The daemon submission handle: work spawned through it never keeps a run
/// alive, and is dropped unfinished when the run ends.
///
/// As with [`CurrentThread`], thread affinity lives in the context value,
/// not in the handle.
#[derive(Clone, Copy, Debug)]
pub struct DaemonExecutor {
}

/// The generic submission contract: submit one computation into the active
/// run context of `ctx`, reporting refusal — with the computation handed
/// back intact — as a recoverable error: `Shutdown` when no context is
/// active, `NoCapacity` when one more non-daemon task could not be
/// accounted. Each handle fixes, through `spawns_daemons`, how the work it
/// submits is classified.
pub trait Executor<T: TaskFuture>: Sized {
    /// Whether work submitted through this handle is classified daemon.
    spec fn spawns_daemons(&self) -> bool;

    fn execute(&self, ctx: &mut CurrentRunner<T>, task: T) -> (r: Result<(), ExecuteError<T>>)
        ensures
            !old(ctx).is_active() ==> {
                &&& r matches Err(e) && e.kind == ExecuteErrorKind::Shutdown && e.task == task
                &&& same_state(*old(ctx), *final(ctx))
            },
            old(ctx).is_active() && !self.spawns_daemons() && old(ctx).non_daemon_counter()
                == usize::MAX ==> {
                &&& r matches Err(e) && e.kind == ExecuteErrorKind::NoCapacity && e.task == task
                &&& same_state(*old(ctx), *final(ctx))
            },
            old(ctx).is_active() && (self.spawns_daemons() || old(ctx).non_daemon_counter()
                < usize::MAX) ==> {
                &&& r is Ok
                &&& final(ctx).is_active()
                &&& final(ctx).ready_q() == old(ctx).ready_q().push(
                    SpawnedTask { daemon: self.spawns_daemons(), inner: task },
                )
                &&& final(ctx).pending_q() == old(ctx).pending_q()
                &&& final(ctx).non_daemon_counter() == old(ctx).non_daemon_counter()
                    + task_weight(SpawnedTask { daemon: self.spawns_daemons(), inner: task })
                &&& final(ctx).cancel_requested() == old(ctx).cancel_requested()
            },
    ;
}

impl<T: TaskFuture> Executor<T> for CurrentThread {
    open spec fn spawns_daemons(&self) -> bool {
        false
    }

    fn execute(&self, ctx: &mut CurrentRunner<T>, task: T) -> (r: Result<(), ExecuteError<T>>) {
        ctx.spawn(task, false)
    }
}

impl<T: TaskFuture> Executor<T> for DaemonExecutor {
    open spec fn spawns_daemons(&self) -> bool {
        true
    }

    fn execute(&self, ctx: &mut CurrentRunner<T>, task: T) -> (r: Result<(), ExecuteError<T>>) {
        ctx.spawn(task, true)
    }
}

impl CurrentThread {
    /// A handle that submits non-daemon work.
    pub fn current() -> (r: CurrentThread) {
        CurrentThread {  }
    }

    /// A handle that submits daemon work.
    pub fn daemon_executor(&self) -> (r: DaemonExecutor) {
        DaemonExecutor {  }
    }

    /// Executes the given root computation synchronously on `state`,
    /// blocking until it and every non-daemon spawned task complete — or
    /// cancellation discards the spawned work — and returns the root's own
    /// result, or `None` when the step budget ran out before quiescence.
    ///
    /// Beside the result comes a ghost snapshot of the context state at the
    /// moment of exit, before the queue was unpublished: on a `Some` return
    /// it is accounted with the counter at zero — every non-daemon task
    /// spawned into the run has completed or been discarded by cancellation
    /// — and everything still queued in it is daemon work, dropped
    /// unresolved without ever delaying the return.
    ///
    /// A run context must not already be active on this state: nested runs
    /// are rejected.
    pub fn block_on_all<T: TaskFuture, F: RootFuture<T>, P: Park>(
        state: &mut CurrentRunner<T>,
        root: F,
        park: &mut P,
        steps: usize,
    ) -> (res: (Option<Result<F::Item, F::Error>>, Ghost<CurrentRunner<T>>))
        requires
            !old(state).is_active(),
            old(state).non_daemon_counter() == 0,
        ensures
            !final(state).is_active(),
            final(state).non_daemon_counter() == 0,
            !final(state).cancel_requested(),
            res.1@.is_active(),
            res.1@.accounted(),
            res.0 is Some ==> res.1@.non_daemon_counter() == 0,
            res.0 is Some ==> forall|i: int|
                0 <= i < res.1@.ready_q().len() ==> res.1@.ready_q()[i].daemon,
            res.0 is Some ==> forall|i: int|
                0 <= i < res.1@.pending_q().len() ==> res.1@.pending_q()[i].daemon,
            steps == 0 ==> res.0 is None,
    {
        run(state, root, park, steps)
    }

    /// Runs the one-shot initialization inside a fresh run context on
    /// `state` — typically to spawn the initial tasks — then blocks until
    /// every non-daemon spawned task completes, cancellation discards the
    /// spawned work, or the step budget runs out; `finished` means the run
    /// quiesced.
    ///
    /// Beside the flag comes a ghost snapshot of the context state at the
    /// moment of exit, as for [`CurrentThread::block_on_all`]: under
    /// `finished` it is accounted with the counter at zero, and only daemon
    /// work — dropped unresolved — is still queued in it.
    ///
    /// A run context must not already be active on this state: nested runs
    /// are rejected.
    pub fn block_with_init<T: TaskFuture, I: RunInit<T>, P: Park>(
        state: &mut CurrentRunner<T>,
        init: I,
        park: &mut P,
        steps: usize,
    ) -> (res: (bool, Ghost<CurrentRunner<T>>))
        requires
            !old(state).is_active(),
            old(state).non_daemon_counter() == 0,
        ensures
            !final(state).is_active(),
            final(state).non_daemon_counter() == 0,
            !final(state).cancel_requested(),
            res.1@.is_active(),
            res.1@.accounted(),
            res.0 ==> res.1@.non_daemon_counter() == 0,
            res.0 ==> forall|i: int|
                0 <= i < res.1@.ready_q().len() ==> res.1@.ready_q()[i].daemon,
            res.0 ==> forall|i: int|
                0 <= i < res.1@.pending_q().len() ==> res.1@.pending_q()[i].daemon,
            steps == 0 ==> !res.0,
    {
        let (r, exit) = run(state, InitRoot { init: Some(init) }, park, steps);
        match r {
            Some(_) => (true, exit),
            None => (false, exit),
        }
    }

    /// Spawns a non-daemon task: one the run must either complete or discard
    /// through cancellation before it returns. May be called re-entrantly
    /// from a task's own poll. Calling it with no active run context is a
    /// programmer error, excluded here; the recoverable path is
    /// `Executor::execute`.
    pub fn spawn<T: TaskFuture>(ctx: &mut CurrentRunner<T>, task: T)
        requires
            old(ctx).is_active(),
            old(ctx).non_daemon_counter() < usize::MAX,
        ensures
            final(ctx).is_active(),
            final(ctx).ready_q() == old(ctx).ready_q().push(
                SpawnedTask { daemon: false, inner: task },
            ),
            final(ctx).pending_q() == old(ctx).pending_q(),
            final(ctx).non_daemon_counter() == old(ctx).non_daemon_counter() + 1,
            final(ctx).cancel_requested() == old(ctx).cancel_requested(),
    {
        let r = ctx.spawn(task, false);
        match r {
            Ok(()) => {},
            Err(_) => {
                proof {
                    assert(false);
                }
            },
        }
    }

    /// Spawns a daemon task: one the run never waits for, dropped unfinished
    /// when the run ends. May be called re-entrantly from a task's own poll.
    /// Calling it with no active run context is a programmer error, excluded
    /// here; the recoverable path is `Executor::execute`.
    pub fn spawn_daemon<T: TaskFuture>(ctx: &mut CurrentRunner<T>, task: T)
        requires
            old(ctx).is_active(),
        ensures
            final(ctx).is_active(),
            final(ctx).ready_q() == old(ctx).ready_q().push(
                SpawnedTask { daemon: true, inner: task },
            ),
            final(ctx).pending_q() == old(ctx).pending_q(),
            final(ctx).non_daemon_counter() == old(ctx).non_daemon_counter(),
            final(ctx).cancel_requested() == old(ctx).cancel_requested(),
    {
        let r = ctx.spawn(task, true);
        match r {
            Ok(()) => {},
            Err(_) => {
                proof {
                    assert(false);
                }
            },
        }
    }

    /// Requests that all spawned tasks and daemons be discarded. The effect
    /// is deferred to the runner's next loop iteration; the root computation
    /// is not discarded. Calling it with no active run context is a
    /// programmer error, excluded here; the recoverable path is
    /// `CurrentRunner::cancel_all_spawned`.
    pub fn cancel_all_spawned<T: TaskFuture>(ctx: &mut CurrentRunner<T>)
        requires
            old(ctx).is_active(),
        ensures
            final(ctx).is_active(),
            final(ctx).ready_q() == old(ctx).ready_q(),
            final(ctx).pending_q() == old(ctx).pending_q(),
            final(ctx).non_daemon_counter() == old(ctx).non_daemon_counter(),
            final(ctx).cancel_requested(),
    {
        let r = ctx.cancel_all_spawned();
        match r {
            Ok(()) => {},
            Err(()) => {
                proof {
                    assert(false);
                }
            },
        }
    }
}

} // verus!
