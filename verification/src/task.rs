//! The pollable-computation interfaces and the task record.
//!
//! A task is one pollable computation together with its daemon flag. The
//! executor never runs a computation to completion in one call: it polls it,
//! and the computation answers that it is done or that it must be polled
//! again after a wake.

use vstd::prelude::*;

use crate::context::CurrentRunner;
use crate::context::poll_evolution;

verus! {

/// One step of a pollable computation: a finished value, or a request to be
/// polled again later.
pub enum Async<T> {
    Ready(T),
    NotReady,
}

/// A schedulable unit: one pollable computation and the classification,
/// fixed at spawn time, that decides whether the run waits for it.
pub struct SpawnedTask<T> {
    /// A daemon task does not keep the run context alive: it is dropped,
    /// unfinished, when the run ends.
    pub daemon: bool,
    /// The computation to poll.
    pub inner: T,
}

/// Why a submission was refused.
#[derive(Clone, Copy, Debug, PartialEq, Eq, Structural)]
pub enum ExecuteErrorKind {
    /// No run context is active: there is no queue to push onto.
    Shutdown,
    /// The live non-daemon counter is saturated: one more non-daemon task
    /// could not be accounted.
    NoCapacity,
}

/// A refused submission. The rejected computation is handed back intact, so
/// that refused work is reported, never silently dropped.
pub struct ExecuteError<T> {
    /// Why the submission was refused.
    pub kind: ExecuteErrorKind,
    /// The computation that was not accepted.
    pub task: T,
}

/// A spawned computation with unit result and unit error: side effects only.
///
/// `poll` receives the active run context, so that a computation may itself
/// spawn further work or request cancellation while it runs. An
/// implementation must interact with the context only through its public
/// submission methods; the `ensures` clause states exactly the reach of
/// those methods.
pub trait TaskFuture: Sized {
    fn poll(&mut self, ctx: &mut CurrentRunner<Self>) -> (r: Result<Async<()>, ()>)
        requires
            old(ctx).is_active(),
        ensures
            poll_evolution(*old(ctx), *final(ctx)),
    ;
}

/// The root computation of a run context: the value it resolves to, or the
/// error it fails with, is what the run returns.
///
/// As with [`TaskFuture`], the poll receives the active run context and may
/// spawn into it, under the same contract.
pub trait RootFuture<T: TaskFuture>: Sized {
    type Item;

    type Error;

    fn poll(&mut self, ctx: &mut CurrentRunner<T>) -> (r: Result<
        Async<Self::Item>,
        Self::Error,
    >)
        requires
            old(ctx).is_active(),
        ensures
            poll_evolution(*old(ctx), *final(ctx)),
    ;
}

/// A one-shot initialization step, run once inside a fresh run context,
/// typically to perform the initial spawning.
pub trait RunInit<T: TaskFuture>: Sized {
    fn init(self, ctx: &mut CurrentRunner<T>)
        requires
            old(ctx).is_active(),
        ensures
            poll_evolution(*old(ctx), *final(ctx)),
    ;
}

/// The wake primitive: parks the running thread when there is no runnable
/// work, and reports which of the wake-pending tasks were woken while it
/// blocked.
///
/// `park` is given the number of wake-pending tasks and returns a mask over
/// them, `true` at the positions to move back to the ready queue. The
/// executor tolerates a mask of any length: positions past its end are not
/// woken. An empty mask is a spurious wakeup, and the executor parks again.
pub trait Park {
    fn park(&mut self, pending: usize) -> (wakes: Vec<bool>);
}

} // verus!
