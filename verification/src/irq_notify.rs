//! IRQ-safe deferred notification.
//!
//! An IRQ handler publishes a pending bit and wakes a deferred worker; the
//! worker drains the bit and performs the slow work (polling a device,
//! waking poll waiters). Repeated notifications coalesce into one pending
//! bit until a worker drains it.
use vstd::prelude::*;

verus! {

/// The wake-up a notification asks of the wait queue.
#[derive(Clone, Copy, Debug, PartialEq, Eq, Structural)]
pub enum WakeRequest {
    /// Wake one waiter from hard-IRQ context: no allocation, no arbitrary wakers.
    OneFromIrq,
    /// Wake one waiter from task context, letting the scheduler see it.
    OneFromTask,
}

/// What a waiter does after checking the notification.
#[derive(Clone, Copy, Debug, PartialEq, Eq, Structural)]
pub enum WaitOutcome {
    /// A notification was pending and has been drained.
    Notified,
    /// The deadline passed with nothing pending.
    TimedOut,
    /// Nothing pending yet: sleep on the wait queue and check again.
    Sleep,
}

/// Deferred notification: one coalescing pending bit.
pub struct IrqNotify {
    pending: bool,
}

impl IrqNotify {
    pub closed spec fn spec_pending(&self) -> bool {
        self.pending
    }

    /// The object after a notification was published.
    pub closed spec fn spec_notified(self) -> IrqNotify {
        IrqNotify { pending: true }
    }

    /// The object after a drain, and what the drain returned.
    pub closed spec fn spec_drained(self) -> (IrqNotify, bool) {
        (IrqNotify { pending: false }, self.pending)
    }

    /// An empty notification object.
    pub fn new() -> (n: IrqNotify)
        ensures
            !n.spec_pending(),
    {
        IrqNotify { pending: false }
    }

    /// Publishes a notification from IRQ context.
    pub fn notify_irq(&mut self) -> (w: WakeRequest)
        ensures
            *final(self) == old(self).spec_notified(),
            final(self).spec_pending(),
            w == WakeRequest::OneFromIrq,
    {
        self.pending = true;
        WakeRequest::OneFromIrq
    }

    /// Publishes a notification from task context.
    pub fn notify(&mut self) -> (w: WakeRequest)
        ensures
            *final(self) == old(self).spec_notified(),
            final(self).spec_pending(),
            w == WakeRequest::OneFromTask,
    {
        self.pending = true;
        WakeRequest::OneFromTask
    }

    /// Whether a notification is pending.
    pub fn is_pending(&self) -> (r: bool)
        ensures
            r == self.spec_pending(),
    {
        self.pending
    }

    /// Drains the pending bit; `true` if at least one notification was pending.
    pub fn drain(&mut self) -> (r: bool)
        ensures
            (*final(self), r) == old(self).spec_drained(),
            r == old(self).spec_pending(),
            !final(self).spec_pending(),
    {
        let r = self.pending;
        self.pending = false;
        r
    }

    /// One check of a waiter blocked until a notification arrives: drains
    /// it if one is pending, otherwise the waiter sleeps and checks again.
    pub fn wait(&mut self) -> (o: WaitOutcome)
        ensures
            !final(self).spec_pending(),
            o == (if old(self).spec_pending() { WaitOutcome::Notified } else { WaitOutcome::Sleep }),
    {
        if self.drain() {
            WaitOutcome::Notified
        } else {
            WaitOutcome::Sleep
        }
    }

    /// One check of a waiter with a deadline; `expired` tells whether the
    /// deadline has passed. A pending notification wins over the deadline.
    pub fn wait_timeout(&mut self, expired: bool) -> (o: WaitOutcome)
        ensures
            !final(self).spec_pending(),
            o == (if old(self).spec_pending() {
                WaitOutcome::Notified
            } else if expired {
                WaitOutcome::TimedOut
            } else {
                WaitOutcome::Sleep
            }),
    {
        if self.drain() {
            WaitOutcome::Notified
        } else if expired {
            WaitOutcome::TimedOut
        } else {
            WaitOutcome::Sleep
        }
    }
}

/// Notifications coalesce: however many were published since the last
/// drain, the next drain reports one and the drain after it reports none.
pub proof fn lemma_notifications_coalesce(n: IrqNotify)
    ensures
        ({
            let notified = n.spec_notified();
            let d1 = notified.spec_drained();
            let d2 = d1.0.spec_drained();
            d1.1 && !d2.1
        }),
        n.spec_notified().spec_notified() == n.spec_notified(),
{
}

/// Without a new notification a drain reports nothing.
pub proof fn lemma_drain_is_idempotent(n: IrqNotify)
    ensures
        !n.spec_drained().0.spec_drained().1,
        n.spec_drained().0.spec_drained().0 == n.spec_drained().0,
{
}

/// How many of `k` successive checks by waiters (each a `wait` or
/// `wait_timeout` check, or a drain), starting from `n` with no new
/// notification in between, report a notification.
pub open spec fn spec_notified_checks(n: IrqNotify, k: nat) -> nat
    decreases k,
{
    if k == 0 {
        0
    } else {
        (if n.spec_drained().1 { 1nat } else { 0nat }) + spec_notified_checks(n.spec_drained().0, (k - 1) as nat)
    }
}

/// A notification is consumed exactly once: once it is published, of any
/// run of checks by the woken waiter and any concurrent drainers (with no
/// new notification in between) exactly one reports it, the first, and
/// every later check finds nothing, however many notifications were
/// coalesced into it.
pub proof fn lemma_notification_consumed_once(n: IrqNotify, k: nat)
    requires
        k >= 1,
    ensures
        spec_notified_checks(n.spec_notified(), k) == 1,
        n.spec_notified().spec_drained().1,
        spec_notified_checks(n.spec_notified().spec_drained().0, (k - 1) as nat) == 0,
{
    lemma_drained_checks_find_nothing(n.spec_notified().spec_drained().0, (k - 1) as nat);
}

/// Checks after a drain, with no new notification, find nothing.
proof fn lemma_drained_checks_find_nothing(n: IrqNotify, k: nat)
    requires
        !n.spec_pending(),
    ensures
        spec_notified_checks(n, k) == 0,
    decreases k,
{
    if k > 0 {
        lemma_drained_checks_find_nothing(n.spec_drained().0, (k - 1) as nat);
    }
}

} // verus!
