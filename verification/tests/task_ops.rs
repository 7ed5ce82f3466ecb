use std::cell::Cell;
use std::sync::atomic::AtomicU32;
use std::time::Duration;

use tgoskits::task_ops::{
    BlockTaskOps, TaskOpsSlot, current_task_id, has_task_ops, notify_drain, notify_drain_from_irq, set_task_ops,
    spawn_task, task_can_block, task_wait_until_step, WaitUntilStep, task_wait_timeout, wait_for_drain_notification_timeout, wake_task,
};

#[derive(Default)]
struct Recorder {
    id: Option<u64>,
    yields: Cell<u32>,
    waits: Cell<u32>,
    woken: Cell<Option<u64>>,
}

impl BlockTaskOps for Recorder {
    fn current_task_id(&self) -> Option<u64> {
        self.id
    }

    fn task_yield(&self) {
        self.yields.set(self.yields.get() + 1);
    }

    fn task_wait(&self) {
        self.waits.set(self.waits.get() + 1);
    }

    fn wake_task(&self, task_id: u64) {
        self.woken.set(Some(task_id));
    }
}

#[test]
fn without_services_everything_answers_no() {
    let slot: TaskOpsSlot<Recorder> = TaskOpsSlot::new();
    assert!(!has_task_ops(&slot));
    assert_eq!(current_task_id(&slot), None);
    assert!(!task_can_block(&slot));
    assert!(!task_wait_timeout(&slot, Duration::from_millis(1)));
    assert!(!wait_for_drain_notification_timeout(&slot, Duration::from_millis(1)));
}

#[test]
fn installed_services_are_used_with_their_defaults() {
    let mut slot = TaskOpsSlot::new();
    set_task_ops(&mut slot, Recorder { id: Some(7), ..Recorder::default() });
    assert!(has_task_ops(&slot));
    assert_eq!(current_task_id(&slot), Some(7));
    // Default: a task may block.
    assert!(task_can_block(&slot));
    // Default timed wait yields once and reports a wake-up.
    assert!(task_wait_timeout(&slot, Duration::from_millis(1)));
    // Default timed drain wait waits as a task once.
    assert!(wait_for_drain_notification_timeout(&slot, Duration::from_millis(1)));
    wake_task(&slot, 11);
    notify_drain(&slot);
    notify_drain_from_irq(&slot);
}

#[test]
fn interrupt_context_cannot_block() {
    let mut slot = TaskOpsSlot::new();
    set_task_ops(&mut slot, Recorder::default());
    assert_eq!(current_task_id(&slot), None);
    assert!(!task_can_block(&slot));
}

static SPAWNED: AtomicU32 = AtomicU32::new(0);

struct Spawner;

impl BlockTaskOps for Spawner {
    fn current_task_id(&self) -> Option<u64> {
        Some(1)
    }

    fn task_yield(&self) {}

    fn task_wait(&self) {}

    fn wake_task(&self, _task_id: u64) {}

    fn spawn<F: FnOnce() + Send + 'static>(&self, name: String, f: F) {
        assert_eq!(name, "flush");
        SPAWNED.fetch_add(1, std::sync::atomic::Ordering::SeqCst);
        f();
    }
}

#[test]
fn spawn_goes_to_the_installed_spawner() {
    let empty: TaskOpsSlot<Spawner> = TaskOpsSlot::new();
    // Without services the work is dropped unstarted.
    spawn_task(&empty, String::from("flush"), || panic!("must not run"));

    let mut slot = TaskOpsSlot::new();
    set_task_ops(&mut slot, Spawner);
    spawn_task(&slot, String::from("flush"), || {});
    spawn_task(&slot, String::from("flush"), || {});
    assert_eq!(SPAWNED.load(std::sync::atomic::Ordering::SeqCst), 2);
}

#[test]
fn default_spawn_drops_the_work() {
    let mut slot = TaskOpsSlot::new();
    set_task_ops(&mut slot, Recorder::default());
    spawn_task(&slot, String::from("idle"), || panic!("must not run"));
}

#[test]
fn waiting_until_a_condition_holds() {
    let empty: TaskOpsSlot<Recorder> = TaskOpsSlot::new();
    assert_eq!(task_wait_until_step(&empty, true), WaitUntilStep::Done);
    assert_eq!(task_wait_until_step(&empty, false), WaitUntilStep::Spin);
    let mut slot = TaskOpsSlot::new();
    set_task_ops(&mut slot, Recorder::default());
    assert_eq!(task_wait_until_step(&slot, false), WaitUntilStep::WaitAsTask);
    assert_eq!(task_wait_until_step(&slot, true), WaitUntilStep::Done);
}
