use current_thread::poll::{PollFuture, Progress, Task, TaskPoll};
use current_thread::runner::{block_until, BlockOutcome, RunStatus, TaskRunner};
use current_thread::spawn::TaskContext;
use current_thread::wake::WakeSignal;
use std::cell::RefCell;
use std::rc::Rc;

type Log = Rc<RefCell<Vec<&'static str>>>;

struct TestTask {
    name: &'static str,
    pending_rounds: u32,
    wake_on_pending: bool,
    fail_at_end: bool,
    spawn_child: Option<Box<TestTask>>,
    log: Log,
}

impl TestTask {
    fn done(name: &'static str, log: &Log) -> TestTask {
        TestTask {
            name,
            pending_rounds: 0,
            wake_on_pending: false,
            fail_at_end: false,
            spawn_child: None,
            log: log.clone(),
        }
    }

    fn slow(name: &'static str, rounds: u32, wakes: bool, log: &Log) -> TestTask {
        TestTask {
            name,
            pending_rounds: rounds,
            wake_on_pending: wakes,
            fail_at_end: false,
            spawn_child: None,
            log: log.clone(),
        }
    }
}

impl Task for TestTask {
    fn poll_task(&mut self, cx: &mut TaskContext<Self>, wake: &mut WakeSignal) -> TaskPoll {
        self.log.borrow_mut().push(self.name);
        if let Some(child) = self.spawn_child.take() {
            cx.spawn(*child);
        }
        if self.pending_rounds > 0 {
            self.pending_rounds -= 1;
            if self.wake_on_pending {
                wake.wake();
            }
            return TaskPoll::Pending;
        }
        if self.fail_at_end {
            TaskPoll::Failed
        } else {
            TaskPoll::Done
        }
    }
}

struct CountdownFuture {
    pending_rounds: u32,
    value: i32,
}

impl PollFuture for CountdownFuture {
    type Output = i32;
    type Error = &'static str;

    fn poll_once(&mut self, wake: &mut WakeSignal) -> Progress<i32, &'static str> {
        if self.pending_rounds > 0 {
            self.pending_rounds -= 1;
            wake.wake();
            Progress::Pending
        } else {
            Progress::Ready(self.value)
        }
    }
}

struct FailingFuture;

impl PollFuture for FailingFuture {
    type Output = i32;
    type Error = &'static str;

    fn poll_once(&mut self, _wake: &mut WakeSignal) -> Progress<i32, &'static str> {
        Progress::Failed("boom")
    }
}

struct SilentFuture;

impl PollFuture for SilentFuture {
    type Output = i32;
    type Error = &'static str;

    fn poll_once(&mut self, _wake: &mut WakeSignal) -> Progress<i32, &'static str> {
        Progress::Pending
    }
}

#[test]
fn empty_runner_finishes_at_once() {
    let mut rt: TaskRunner<TestTask> = TaskRunner::new();
    assert_eq!(rt.block_on_all(10), RunStatus::Finished);
}

#[test]
fn daemon_tasks_do_not_gate_termination() {
    let log: Log = Rc::new(RefCell::new(Vec::new()));
    let mut rt: TaskRunner<TestTask> = TaskRunner::new();
    rt.spawn_daemon(TestTask::slow("daemon", 5, true, &log));
    assert_eq!(rt.block_on_all(10), RunStatus::Finished);
    // a run with no non-daemon task finishes without polling the daemon at
    // all: it stays where it was registered, abandoned
    assert!(log.borrow().is_empty());
    assert_eq!(rt.pending_registrations(), 1);
}

#[test]
fn a_wake_recorded_between_runs_is_kept() {
    let log: Log = Rc::new(RefCell::new(Vec::new()));
    let mut rt: TaskRunner<TestTask> = TaskRunner::new();
    rt.spawn(TestTask::slow("quiet", 2, false, &log));
    assert_eq!(rt.block_on_all(10), RunStatus::Stalled);
    assert_eq!(log.borrow().len(), 1);
    // the wake arrives while nothing runs; the next run consumes it and so
    // gets a second pass, enough to drive the task to its end
    rt.wake();
    assert_eq!(rt.block_on_all(10), RunStatus::Finished);
    assert_eq!(log.borrow().len(), 3);
}

#[test]
fn non_daemon_task_is_run_to_completion() {
    let log: Log = Rc::new(RefCell::new(Vec::new()));
    let mut rt: TaskRunner<TestTask> = TaskRunner::new();
    rt.spawn(TestTask::slow("worker", 3, true, &log));
    assert_eq!(rt.block_on_all(10), RunStatus::Finished);
    assert_eq!(log.borrow().len(), 4);
    assert_eq!(rt.non_daemon_count(), 0);
}

#[test]
fn run_finishes_regardless_of_pending_daemons() {
    let log: Log = Rc::new(RefCell::new(Vec::new()));
    let mut rt: TaskRunner<TestTask> = TaskRunner::new();
    rt.spawn(TestTask::done("worker", &log));
    rt.spawn_daemon(TestTask::slow("daemon", 1000, true, &log));
    assert_eq!(rt.block_on_all(10), RunStatus::Finished);
    assert!(log.borrow().contains(&"worker"));
}

#[test]
fn stalls_when_no_wake_is_pending() {
    let log: Log = Rc::new(RefCell::new(Vec::new()));
    let mut rt: TaskRunner<TestTask> = TaskRunner::new();
    rt.spawn(TestTask::slow("quiet", 2, false, &log));
    // each run polls once, finds no wake pending, and asks the caller to park
    assert_eq!(rt.block_on_all(10), RunStatus::Stalled);
    assert_eq!(rt.block_on_all(10), RunStatus::Stalled);
    assert_eq!(rt.block_on_all(10), RunStatus::Finished);
    assert_eq!(log.borrow().len(), 3);
}

#[test]
fn reentrant_spawn_is_deferred_to_next_pass() {
    let log: Log = Rc::new(RefCell::new(Vec::new()));
    let mut rt: TaskRunner<TestTask> = TaskRunner::new();
    let mut parent = TestTask::done("parent", &log);
    parent.spawn_child = Some(Box::new(TestTask::done("child", &log)));
    rt.spawn(parent);
    rt.spawn(TestTask::done("sibling", &log));
    assert_eq!(rt.block_on_all(10), RunStatus::Finished);
    // the sibling is not skipped in the drain the spawn happened in, and the
    // child runs only in the following pass
    assert_eq!(log.borrow().as_slice(), &["parent", "sibling", "child"]);
}

#[test]
fn spawning_on_a_dead_runner_is_a_silent_noop() {
    let log: Log = Rc::new(RefCell::new(Vec::new()));
    let rt: TaskRunner<TestTask> = TaskRunner::new();
    let spawner = rt.spawner();
    let mut cx = rt.retire();
    spawner.spawn(&mut cx, TestTask::done("late", &log));
    spawner.spawn_daemon(&mut cx, TestTask::done("late_daemon", &log));
    cx.spawn(TestTask::done("later_still", &log));
    assert_eq!(cx.pending_len(), 0);
    assert!(!cx.is_live());
    assert!(log.borrow().is_empty());
}

#[test]
fn task_failure_is_contained() {
    let log: Log = Rc::new(RefCell::new(Vec::new()));
    let mut rt: TaskRunner<TestTask> = TaskRunner::new();
    let mut failing = TestTask::done("failing", &log);
    failing.fail_at_end = true;
    rt.spawn(failing);
    rt.spawn(TestTask::slow("steady", 1, true, &log));
    assert_eq!(rt.block_on_all(10), RunStatus::Finished);
    assert!(log.borrow().contains(&"failing"));
    assert!(log.borrow().contains(&"steady"));
}

#[test]
fn budget_runs_out_on_a_busy_task() {
    let log: Log = Rc::new(RefCell::new(Vec::new()));
    let mut rt: TaskRunner<TestTask> = TaskRunner::new();
    rt.spawn(TestTask::slow("busy", 1000, true, &log));
    assert_eq!(rt.block_on_all(3), RunStatus::Spent);
}

#[test]
fn pending_registrations_are_counted() {
    let log: Log = Rc::new(RefCell::new(Vec::new()));
    let mut rt: TaskRunner<TestTask> = TaskRunner::new();
    assert_eq!(rt.pending_registrations(), 0);
    rt.spawn(TestTask::done("a", &log));
    rt.spawn_daemon(TestTask::done("b", &log));
    assert_eq!(rt.pending_registrations(), 2);
}

#[test]
fn block_until_runs_background_tasks_meanwhile() {
    let log: Log = Rc::new(RefCell::new(Vec::new()));
    let mut rt: TaskRunner<TestTask> = TaskRunner::new();
    rt.spawn(TestTask::slow("background", 1, true, &log));
    let mut fut = CountdownFuture { pending_rounds: 2, value: 7 };
    assert_eq!(rt.block_until(&mut fut, 10), BlockOutcome::Ready(7));
    assert!(log.borrow().contains(&"background"));
    assert_eq!(rt.block_on_all(10), RunStatus::Finished);
}

#[test]
fn block_until_passes_a_failure_through() {
    let mut rt: TaskRunner<TestTask> = TaskRunner::new();
    let mut fut = FailingFuture;
    assert_eq!(rt.block_until(&mut fut, 10), BlockOutcome::Failed("boom"));
}

#[test]
fn free_block_until_resolves_a_value() {
    let mut wake = WakeSignal::new();
    let mut fut = CountdownFuture { pending_rounds: 2, value: 41 };
    assert_eq!(block_until(&mut fut, &mut wake, 10), BlockOutcome::Ready(41));
}

#[test]
fn free_block_until_passes_a_failure_through() {
    let mut wake = WakeSignal::new();
    let mut fut = FailingFuture;
    assert_eq!(block_until(&mut fut, &mut wake, 10), BlockOutcome::Failed("boom"));
}

#[test]
fn free_block_until_stalls_without_a_wake() {
    let mut wake = WakeSignal::new();
    let mut fut = SilentFuture;
    assert_eq!(block_until(&mut fut, &mut wake, 10), BlockOutcome::Stalled);
}
