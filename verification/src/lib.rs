//! A cooperative, single-thread task executor.
//!
//! A run context is entered with [`CurrentThread::block_on_all`] or
//! [`CurrentThread::block_with_init`]; while it is active, work can be
//! submitted into it with [`CurrentThread::spawn`] and
//! [`CurrentThread::spawn_daemon`], including re-entrantly from inside a
//! task's own poll. The run blocks until the root computation has resolved
//! and every non-daemon task has completed or been discarded by
//! [`CurrentThread::cancel_all_spawned`].
//!
//! The run-context state is an explicit value, [`context::CurrentRunner`],
//! handed to every poll: an embedder that wants an ambient, thread-local
//! entry point keeps one `CurrentRunner` per thread and resolves it at the
//! call site.

use vstd::prelude::*;

pub mod context;
pub mod executor;
pub mod runner;
pub mod task;

verus! {

pub use crate::context::CurrentRunner;
pub use crate::executor::CurrentThread;
pub use crate::executor::DaemonExecutor;
pub use crate::executor::Executor;
pub use crate::task::Async;
pub use crate::task::ExecuteError;
pub use crate::task::ExecuteErrorKind;
pub use crate::task::Park;
pub use crate::task::RootFuture;
pub use crate::task::RunInit;
pub use crate::task::SpawnedTask;
pub use crate::task::TaskFuture;

} // verus!
