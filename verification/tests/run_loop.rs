use std::cell::Cell;
use std::cell::RefCell;
use std::rc::Rc;

use current_thread::Async;
use current_thread::CurrentRunner;
use current_thread::CurrentThread;
use current_thread::ExecuteErrorKind;
use current_thread::Executor;
use current_thread::Park;
use current_thread::RootFuture;
use current_thread::RunInit;
use current_thread::TaskFuture;

const STEPS: usize = 10_000;

/// Shared tallies a scenario inspects after the run.
#[derive(Clone, Default)]
struct Tally {
    completed: Rc<Cell<u32>>,
    failed: Rc<Cell<u32>>,
    polls: Rc<Cell<u32>>,
    /// The live non-daemon counter as each poll saw it.
    seen_counter: Rc<RefCell<Vec<usize>>>,
}

struct TestTask {
    /// How many polls answer not-ready before the task resolves;
    /// `u32::MAX` means it never resolves.
    not_ready_polls: u32,
    /// Resolve by failing instead of succeeding.
    fail: bool,
    /// Spawn this non-daemon child during the first poll.
    child: Option<Box<TestTask>>,
    /// Request cancellation during the first poll.
    cancel: bool,
    tally: Tally,
}

impl TestTask {
    fn leaf(not_ready_polls: u32, tally: &Tally) -> TestTask {
        TestTask {
            not_ready_polls,
            fail: false,
            child: None,
            cancel: false,
            tally: tally.clone(),
        }
    }
}

impl TaskFuture for TestTask {
    fn poll(&mut self, ctx: &mut CurrentRunner<TestTask>) -> Result<Async<()>, ()> {
        self.tally.polls.set(self.tally.polls.get() + 1);
        self.tally.seen_counter.borrow_mut().push(ctx.non_daemons());
        if let Some(child) = self.child.take() {
            CurrentThread::spawn(ctx, *child);
        }
        if self.cancel {
            self.cancel = false;
            CurrentThread::cancel_all_spawned(ctx);
        }
        if self.not_ready_polls == u32::MAX {
            return Ok(Async::NotReady);
        }
        if self.not_ready_polls > 0 {
            self.not_ready_polls -= 1;
            return Ok(Async::NotReady);
        }
        if self.fail {
            self.tally.failed.set(self.tally.failed.get() + 1);
            Err(())
        } else {
            self.tally.completed.set(self.tally.completed.get() + 1);
            Ok(Async::Ready(()))
        }
    }
}

struct TestRoot {
    not_ready_polls: u32,
    value: u32,
    fail: bool,
    /// Spawned during the first poll: (task, daemon).
    spawns: Vec<(TestTask, bool)>,
    /// Request cancellation during the first poll, after spawning.
    cancel: bool,
    polls: Rc<Cell<u32>>,
}

impl TestRoot {
    fn ready(value: u32) -> TestRoot {
        TestRoot {
            not_ready_polls: 0,
            value,
            fail: false,
            spawns: Vec::new(),
            cancel: false,
            polls: Rc::new(Cell::new(0)),
        }
    }
}

impl RootFuture<TestTask> for TestRoot {
    type Item = u32;
    type Error = u32;

    fn poll(&mut self, ctx: &mut CurrentRunner<TestTask>) -> Result<Async<u32>, u32> {
        self.polls.set(self.polls.get() + 1);
        for (task, daemon) in self.spawns.drain(..) {
            if daemon {
                CurrentThread::spawn_daemon(ctx, task);
            } else {
                CurrentThread::spawn(ctx, task);
            }
        }
        if self.cancel {
            self.cancel = false;
            CurrentThread::cancel_all_spawned(ctx);
        }
        if self.not_ready_polls == u32::MAX {
            return Ok(Async::NotReady);
        }
        if self.not_ready_polls > 0 {
            self.not_ready_polls -= 1;
            return Ok(Async::NotReady);
        }
        if self.fail {
            Err(self.value)
        } else {
            Ok(Async::Ready(self.value))
        }
    }
}

/// Initial spawning through the two handles, exercising the generic
/// submission contract inside an active run context.
struct TestInit {
    spawns: Vec<(TestTask, bool)>,
}

impl RunInit<TestTask> for TestInit {
    fn init(self, ctx: &mut CurrentRunner<TestTask>) {
        let handle = CurrentThread::current();
        let daemon_handle = handle.daemon_executor();
        for (task, daemon) in self.spawns {
            let r = if daemon {
                daemon_handle.execute(ctx, task)
            } else {
                handle.execute(ctx, task)
            };
            assert!(r.is_ok());
        }
    }
}

/// Every park wakes every pending task.
struct WakeAll;

impl Park for WakeAll {
    fn park(&mut self, pending: usize) -> Vec<bool> {
        vec![true; pending]
    }
}

/// Wakes everything, with a mask longer than the wake-pending set; the
/// positions past the set must be ignored.
struct WakeTooMany;

impl Park for WakeTooMany {
    fn park(&mut self, pending: usize) -> Vec<bool> {
        vec![true; pending + 5]
    }
}

/// Every park is a spurious wakeup: nothing is woken.
struct WakeNone;

impl Park for WakeNone {
    fn park(&mut self, _pending: usize) -> Vec<bool> {
        Vec::new()
    }
}

/// Wakes only the task at the given position, recording how often it parked.
struct WakeOne {
    index: usize,
    parks: Rc<Cell<u32>>,
}

impl Park for WakeOne {
    fn park(&mut self, pending: usize) -> Vec<bool> {
        self.parks.set(self.parks.get() + 1);
        let mut mask = vec![false; pending];
        if self.index < pending {
            mask[self.index] = true;
        }
        mask
    }
}

#[test]
fn root_alone_resolves() {
    let mut state = CurrentRunner::new();
    let (r, _) = CurrentThread::block_on_all(&mut state, TestRoot::ready(42), &mut WakeAll, STEPS);
    assert_eq!(r, Some(Ok(42)));
}

#[test]
fn root_error_is_surfaced() {
    let mut state = CurrentRunner::new();
    let mut root = TestRoot::ready(7);
    root.fail = true;
    let (r, _) = CurrentThread::block_on_all(&mut state, root, &mut WakeAll, STEPS);
    assert_eq!(r, Some(Err(7)));
}

#[test]
fn waits_for_spawned_non_daemons() {
    // Non-daemon tasks needing several polls: the run returns only once
    // every one of them has completed.
    let tally = Tally::default();
    let mut root = TestRoot::ready(1);
    root.spawns = vec![
        (TestTask::leaf(2, &tally), false),
        (TestTask::leaf(1, &tally), false),
        (TestTask::leaf(0, &tally), false),
    ];
    let mut state = CurrentRunner::new();
    let (r, _) = CurrentThread::block_on_all(&mut state, root, &mut WakeAll, STEPS);
    assert_eq!(r, Some(Ok(1)));
    assert_eq!(tally.completed.get(), 3);
    // 3 + 2 + 1 polls in all.
    assert_eq!(tally.polls.get(), 6);
}

#[test]
fn daemon_does_not_hold_the_run() {
    // An unresolvable daemon task is dropped unresolved once the root and
    // the non-daemon work are done.
    let tally = Tally::default();
    let daemon_tally = Tally::default();
    let init = TestInit {
        spawns: vec![
            (TestTask::leaf(0, &tally), false),
            (TestTask::leaf(0, &tally), false),
            (TestTask::leaf(0, &tally), false),
            (TestTask::leaf(u32::MAX, &daemon_tally), true),
        ],
    };
    let mut state = CurrentRunner::new();
    let (finished, _) = CurrentThread::block_with_init(&mut state, init, &mut WakeAll, STEPS);
    assert!(finished);
    assert_eq!(tally.completed.get(), 3);
    assert_eq!(daemon_tally.completed.get(), 0);
    assert_eq!(daemon_tally.polls.get(), 1);
}

#[test]
fn failed_task_counts_as_completed() {
    // A failing task is retired like a completed one and its error is
    // swallowed: the run still quiesces and returns the root's result.
    let tally = Tally::default();
    let mut root = TestRoot::ready(3);
    let mut failing = TestTask::leaf(0, &tally);
    failing.fail = true;
    root.spawns = vec![(failing, false), (TestTask::leaf(0, &tally), false)];
    let mut state = CurrentRunner::new();
    let (r, _) = CurrentThread::block_on_all(&mut state, root, &mut WakeAll, STEPS);
    assert_eq!(r, Some(Ok(3)));
    assert_eq!(tally.failed.get(), 1);
    assert_eq!(tally.completed.get(), 1);
}

#[test]
fn cancel_before_first_poll_discards_spawn() {
    // The root spawns a task and cancels in the same poll: the task is
    // discarded without ever being polled, and the root's own result is
    // still returned.
    let tally = Tally::default();
    let mut root = TestRoot::ready(9);
    root.not_ready_polls = 1;
    root.spawns = vec![(TestTask::leaf(0, &tally), false)];
    root.cancel = true;
    let mut state = CurrentRunner::new();
    let (r, _) = CurrentThread::block_on_all(&mut state, root, &mut WakeAll, STEPS);
    assert_eq!(r, Some(Ok(9)));
    assert_eq!(tally.polls.get(), 0);
    assert_eq!(tally.completed.get(), 0);
}

#[test]
fn cancel_mid_drain_discards_queued_tasks() {
    // A task that cancels mid-run: the tasks queued behind it, daemon and
    // non-daemon alike, are never run any further, while the root keeps
    // going to completion.
    let canceller_tally = Tally::default();
    let victim_tally = Tally::default();
    let mut canceller = TestTask::leaf(0, &canceller_tally);
    canceller.cancel = true;
    let mut root = TestRoot::ready(5);
    root.not_ready_polls = 1;
    root.spawns = vec![
        (canceller, false),
        (TestTask::leaf(0, &victim_tally), false),
        (TestTask::leaf(u32::MAX, &victim_tally), true),
    ];
    let mut state = CurrentRunner::new();
    let (r, _) = CurrentThread::block_on_all(&mut state, root, &mut WakeAll, STEPS);
    assert_eq!(r, Some(Ok(5)));
    assert_eq!(canceller_tally.completed.get(), 1);
    assert_eq!(victim_tally.polls.get(), 0);
    assert_eq!(victim_tally.completed.get(), 0);
}

#[test]
fn reentrant_spawn_runs_in_same_pass() {
    // A task whose poll spawns another task: the child is visible to the
    // drain passes that follow, both complete, and each is polled once.
    let tally = Tally::default();
    let mut parent = TestTask::leaf(0, &tally);
    parent.child = Some(Box::new(TestTask::leaf(0, &tally)));
    let mut root = TestRoot::ready(8);
    root.spawns = vec![(parent, false)];
    let mut state = CurrentRunner::new();
    let (r, _) = CurrentThread::block_on_all(&mut state, root, &mut WakeAll, STEPS);
    assert_eq!(r, Some(Ok(8)));
    assert_eq!(tally.completed.get(), 2);
    assert_eq!(tally.polls.get(), 2);
}

#[test]
fn selective_wake_leaves_the_rest_pending() {
    // Two tasks suspend; the park wakes only the second. The daemon first
    // task is polled exactly once and stays pending until the run drops it.
    let daemon_tally = Tally::default();
    let task_tally = Tally::default();
    let parks = Rc::new(Cell::new(0));
    let mut root = TestRoot::ready(2);
    root.spawns = vec![
        (TestTask::leaf(u32::MAX, &daemon_tally), true),
        (TestTask::leaf(1, &task_tally), false),
    ];
    let mut state = CurrentRunner::new();
    let mut park = WakeOne { index: 1, parks: parks.clone() };
    let (r, _) = CurrentThread::block_on_all(&mut state, root, &mut park, STEPS);
    assert_eq!(r, Some(Ok(2)));
    assert_eq!(task_tally.completed.get(), 1);
    assert_eq!(task_tally.polls.get(), 2);
    assert_eq!(daemon_tally.polls.get(), 1);
    assert_eq!(parks.get(), 1);
}

#[test]
fn overlong_wake_mask_is_tolerated() {
    let tally = Tally::default();
    let mut root = TestRoot::ready(4);
    root.spawns = vec![
        (TestTask::leaf(1, &tally), false),
        (TestTask::leaf(2, &tally), false),
    ];
    let mut state = CurrentRunner::new();
    let (r, _) = CurrentThread::block_on_all(&mut state, root, &mut WakeTooMany, STEPS);
    assert_eq!(r, Some(Ok(4)));
    assert_eq!(tally.completed.get(), 2);
}

#[test]
fn init_task_cancelling_discards_the_rest() {
    // The first task of the initial batch cancels: the run still quiesces,
    // and the tasks queued behind it are dropped unpolled.
    let canceller_tally = Tally::default();
    let victim_tally = Tally::default();
    let mut canceller = TestTask::leaf(0, &canceller_tally);
    canceller.cancel = true;
    let init = TestInit {
        spawns: vec![
            (canceller, false),
            (TestTask::leaf(0, &victim_tally), false),
        ],
    };
    let mut state = CurrentRunner::new();
    let (finished, _) = CurrentThread::block_with_init(&mut state, init, &mut WakeAll, STEPS);
    assert!(finished);
    assert_eq!(canceller_tally.completed.get(), 1);
    assert_eq!(victim_tally.polls.get(), 0);
}

#[test]
fn zero_budget_gives_up_at_once() {
    let tally = Tally::default();
    let mut state = CurrentRunner::new();
    let (r, _) = CurrentThread::block_on_all(&mut state, TestRoot::ready(1), &mut WakeAll, 0);
    assert_eq!(r, None);
    let init = TestInit { spawns: vec![(TestTask::leaf(0, &tally), false)] };
    let (finished, _) = CurrentThread::block_with_init(&mut state, init, &mut WakeAll, 0);
    assert!(!finished);
    assert_eq!(tally.polls.get(), 0);
}

#[test]
fn budget_exhaustion_reports_unfinished() {
    // A root that never resolves under purely spurious wakeups: the run
    // gives up once the step budget is spent and says it did not finish.
    let mut root = TestRoot::ready(0);
    root.not_ready_polls = u32::MAX;
    let mut state = CurrentRunner::new();
    let (r, _) = CurrentThread::block_on_all(&mut state, root, &mut WakeNone, 50);
    assert_eq!(r, None);
}

#[test]
fn state_is_reusable_after_a_run() {
    let mut state = CurrentRunner::new();
    let (r1, _) = CurrentThread::block_on_all(&mut state, TestRoot::ready(1), &mut WakeAll, STEPS);
    assert!(!state.active());
    assert!(!state.cancel_pending());
    assert_eq!(state.non_daemons(), 0);
    let (r2, _) = CurrentThread::block_on_all(&mut state, TestRoot::ready(2), &mut WakeAll, STEPS);
    assert_eq!(r1, Some(Ok(1)));
    assert_eq!(r2, Some(Ok(2)));
}

#[test]
fn counter_tracks_in_flight_tasks() {
    // While a non-daemon task is mid-poll it is out of the queues but still
    // counted: the first of two one-poll tasks sees the counter at 2, the
    // second — after the first was retired exactly once — at 1.
    let tally = Tally::default();
    let mut root = TestRoot::ready(0);
    root.spawns = vec![
        (TestTask::leaf(0, &tally), false),
        (TestTask::leaf(0, &tally), false),
    ];
    let mut state = CurrentRunner::new();
    let (r, _) = CurrentThread::block_on_all(&mut state, root, &mut WakeAll, STEPS);
    assert_eq!(r, Some(Ok(0)));
    assert_eq!(*tally.seen_counter.borrow(), vec![2, 1]);
    assert_eq!(state.non_daemons(), 0);
}

#[test]
fn run_reports_quiescence_directly() {
    let tally = Tally::default();
    let mut root = TestRoot::ready(6);
    root.spawns = vec![(TestTask::leaf(0, &tally), false)];
    let mut state = CurrentRunner::new();
    let (r, _exit) = current_thread::runner::run(&mut state, root, &mut WakeAll, STEPS);
    assert_eq!(r, Some(Ok(6)));
    assert_eq!(tally.completed.get(), 1);
}

#[test]
fn execute_without_context_reports_shutdown() {
    // The handle-based path with no active run context: a Shutdown error
    // carrying the rejected computation back intact.
    let tally = Tally::default();
    let mut state: CurrentRunner<TestTask> = CurrentRunner::new();
    let handle = CurrentThread::current();
    let r = handle.execute(&mut state, TestTask::leaf(17, &tally));
    match r {
        Err(e) => {
            assert_eq!(e.kind, ExecuteErrorKind::Shutdown);
            assert_eq!(e.task.not_ready_polls, 17);
        }
        Ok(()) => panic!("submission accepted without a run context"),
    }
}

#[test]
fn daemon_execute_without_context_reports_shutdown() {
    let tally = Tally::default();
    let mut state: CurrentRunner<TestTask> = CurrentRunner::new();
    let handle = CurrentThread::current().daemon_executor();
    let r = handle.execute(&mut state, TestTask::leaf(3, &tally));
    match r {
        Err(e) => {
            assert_eq!(e.kind, ExecuteErrorKind::Shutdown);
            assert_eq!(e.task.not_ready_polls, 3);
        }
        Ok(()) => panic!("submission accepted without a run context"),
    }
}

#[test]
fn spawn_without_context_reports_shutdown() {
    let mut state: CurrentRunner<u32> = CurrentRunner::new();
    let r = state.spawn(11, false);
    match r {
        Err(e) => {
            assert_eq!(e.kind, ExecuteErrorKind::Shutdown);
            assert_eq!(e.task, 11);
        }
        Ok(()) => panic!("submission accepted without a run context"),
    }
}

#[test]
fn cancel_without_context_reports_failure() {
    let mut state: CurrentRunner<u32> = CurrentRunner::new();
    assert_eq!(state.cancel_all_spawned(), Err(()));
}
