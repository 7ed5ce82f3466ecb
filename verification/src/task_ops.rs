//! Task services that the block layer borrows from its host kernel, and the
//! slot in which the host installs them. Every operation does nothing (or
//! answers "no") until services are installed.
use vstd::prelude::*;

use core::time::Duration;

verus! {

/// Task services provided by the host kernel.
pub trait BlockTaskOps {
    /// ID of the running task, if any.
    fn current_task_id(&self) -> Option<u64>;

    /// Whether the running context may block: by default, whether it is a
    /// task.
    fn can_block(&self) -> (r: bool)
        default_ensures
            exists|id: Option<u64>| #[trigger] call_ensures(Self::current_task_id, (self,), id) && r == id is Some,
    {
        self.current_task_id().is_some()
    }

    fn task_yield(&self);

    fn task_wait(&self);

    /// Waits for at most `dur`; by default yields once. Returns whether the
    /// wait ended by a wake-up.
    fn task_wait_timeout(&self, dur: Duration) -> (r: bool)
        default_ensures
            r,
    {
        self.task_yield();
        true
    }

    fn wake_task(&self, task_id: u64);

    /// Wakes every waiter; by default there is none to wake.
    fn notify_waiters(&self) {
    }

    /// Signals that drain work is pending; by default wakes the waiters.
    fn notify_drain(&self) {
        self.notify_waiters();
    }

    /// `notify_drain` from interrupt context.
    fn notify_drain_from_irq(&self) {
        self.notify_drain();
    }

    /// Waits for a drain notification; by default waits as a task.
    fn wait_for_drain_notification(&self) {
        self.task_wait();
    }

    /// Waits for a drain notification for at most `dur`.
    fn wait_for_drain_notification_timeout(&self, dur: Duration) -> (r: bool)
        default_ensures
            r,
    {
        self.wait_for_drain_notification();
        true
    }

    /// Starts `f` as a new task named `name`; by default the work is
    /// dropped unstarted.
    fn spawn<F: FnOnce() + Send + 'static>(&self, name: String, f: F) {
    }
}

/// The installed task services, and whether installation has completed.
pub struct TaskOpsSlot<O> {
    ops: Option<O>,
    ready: bool,
}

impl<O> TaskOpsSlot<O> {
    pub closed spec fn installed(&self) -> bool {
        self.ops is Some
    }

    /// The installed services.
    pub closed spec fn spec_ops(&self) -> Option<O> {
        self.ops
    }

    pub closed spec fn is_ready(&self) -> bool {
        self.ready
    }

    /// A slot with no services installed.
    pub fn new() -> (r: Self)
        ensures
            !r.installed(),
            !r.is_ready(),
    {
        TaskOpsSlot { ops: None, ready: false }
    }
}

/// Installs `ops`, replacing any earlier services, and marks the slot
/// ready.
pub fn set_task_ops<O>(slot: &mut TaskOpsSlot<O>, ops: O)
    ensures
        final(slot).spec_ops() == Some(ops),
        final(slot).installed(),
        final(slot).is_ready(),
{
    slot.ops = Some(ops);
    slot.ready = true;
}

/// Whether task services have been installed.
pub fn has_task_ops<O>(slot: &TaskOpsSlot<O>) -> (r: bool)
    ensures
        r == slot.is_ready(),
{
    slot.ready
}

/// ID of the running task; none without services.
pub fn current_task_id<O: BlockTaskOps>(slot: &TaskOpsSlot<O>) -> (r: Option<u64>)
    ensures
        !slot.installed() ==> r is None,
        slot.installed() ==> call_ensures(O::current_task_id, (&slot.spec_ops()->0,), r),
{
    match &slot.ops {
        Some(ops) => ops.current_task_id(),
        None => None,
    }
}

/// Whether the running context may block; never without services.
pub fn task_can_block<O: BlockTaskOps>(slot: &TaskOpsSlot<O>) -> (r: bool)
    ensures
        !slot.installed() ==> !r,
        slot.installed() ==> call_ensures(O::can_block, (&slot.spec_ops()->0,), r),
{
    match &slot.ops {
        Some(ops) => ops.can_block(),
        None => false,
    }
}

/// Yields the processor; a no-op without services.
pub fn task_yield<O: BlockTaskOps>(slot: &TaskOpsSlot<O>) {
    if let Some(ops) = &slot.ops {
        ops.task_yield();
    }
}

/// What a task waiting until a condition holds does after checking it.
#[derive(Clone, Copy, Debug, PartialEq, Eq, Structural)]
pub enum WaitUntilStep {
    /// The condition holds: stop waiting.
    Done,
    /// Wait as a task (`task_wait`), then check again.
    WaitAsTask,
    /// No task services: spin, then check again.
    Spin,
}

/// One step of waiting until a condition holds, given whether it held when
/// checked: done if it did; otherwise wait as a task when services are
/// installed, and spin without them.
pub fn task_wait_until_step<O>(slot: &TaskOpsSlot<O>, satisfied: bool) -> (s: WaitUntilStep)
    ensures
        satisfied ==> s == WaitUntilStep::Done,
        !satisfied && slot.installed() ==> s == WaitUntilStep::WaitAsTask,
        !satisfied && !slot.installed() ==> s == WaitUntilStep::Spin,
{
    if satisfied {
        WaitUntilStep::Done
    } else if slot.ops.is_some() {
        WaitUntilStep::WaitAsTask
    } else {
        WaitUntilStep::Spin
    }
}

/// Waits as a task; a no-op without services.
pub fn task_wait<O: BlockTaskOps>(slot: &TaskOpsSlot<O>) {
    if let Some(ops) = &slot.ops {
        ops.task_wait();
    }
}

/// Waits for at most `dur`; without services returns `false` at once.
pub fn task_wait_timeout<O: BlockTaskOps>(slot: &TaskOpsSlot<O>, dur: Duration) -> (r: bool)
    ensures
        !slot.installed() ==> !r,
        slot.installed() ==> call_ensures(O::task_wait_timeout, (&slot.spec_ops()->0, dur), r),
{
    match &slot.ops {
        Some(ops) => ops.task_wait_timeout(dur),
        None => false,
    }
}

/// Wakes task `task_id`; a no-op without services.
pub fn wake_task<O: BlockTaskOps>(slot: &TaskOpsSlot<O>, task_id: u64) {
    if let Some(ops) = &slot.ops {
        ops.wake_task(task_id);
    }
}

/// Wakes every waiter; a no-op without services.
pub fn notify_waiters<O: BlockTaskOps>(slot: &TaskOpsSlot<O>) {
    if let Some(ops) = &slot.ops {
        ops.notify_waiters();
    }
}

/// Signals pending drain work; a no-op without services.
pub fn notify_drain<O: BlockTaskOps>(slot: &TaskOpsSlot<O>) {
    if let Some(ops) = &slot.ops {
        ops.notify_drain();
    }
}

/// Signals pending drain work from interrupt context; a no-op without
/// services.
pub fn notify_drain_from_irq<O: BlockTaskOps>(slot: &TaskOpsSlot<O>) {
    if let Some(ops) = &slot.ops {
        ops.notify_drain_from_irq();
    }
}

/// Waits for a drain notification. Without services it returns at once,
/// leaving the caller to spin.
pub fn wait_for_drain_notification<O: BlockTaskOps>(slot: &TaskOpsSlot<O>) {
    if let Some(ops) = &slot.ops {
        ops.wait_for_drain_notification();
    }
}

/// Starts `f` as a task named `name`; without services the work is dropped
/// unstarted.
pub fn spawn_task<O: BlockTaskOps, F: FnOnce() + Send + 'static>(
    slot: &TaskOpsSlot<O>,
    name: String,
    f: F,
) {
    if let Some(ops) = &slot.ops {
        ops.spawn(name, f);
    }
}

/// Waits for a drain notification for at most `dur`; without services
/// returns `false` at once.
pub fn wait_for_drain_notification_timeout<O: BlockTaskOps>(slot: &TaskOpsSlot<O>, dur: Duration) -> (r: bool)
    ensures
        !slot.installed() ==> !r,
        slot.installed() ==> call_ensures(O::wait_for_drain_notification_timeout, (&slot.spec_ops()->0, dur), r),
{
    match &slot.ops {
        Some(ops) => ops.wait_for_drain_notification_timeout(dur),
        None => false,
    }
}

} // verus!
