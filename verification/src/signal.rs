//! Process-level signal handling: signal actions, default actions, the
//! decision of whether a signal is delivered and to which thread, and the
//! record a signalfd read returns.
use vstd::prelude::*;

use crate::errno::AxError;

verus! {

pub const SIGHUP: u8 = 1;
pub const SIGINT: u8 = 2;
pub const SIGQUIT: u8 = 3;
pub const SIGKILL: u8 = 9;
pub const SIGTERM: u8 = 15;
pub const SIGCHLD: u8 = 17;
pub const SIGCONT: u8 = 18;
pub const SIGSTOP: u8 = 19;
pub const SIGRTMIN: u8 = 32;
pub const NSIG: u8 = 64;

/// `SA_RESTART`: restart system calls interrupted by the signal.
pub const SA_RESTART: u64 = 0x1000_0000;

/// What delivering a signal does.
#[derive(Clone, Copy, Debug, PartialEq, Eq, Structural)]
pub enum SignalDisposition {
    Default,
    Ignore,
    Handler(usize),
}

/// Action taken for a signal whose disposition is the default one.
#[derive(Clone, Copy, Debug, PartialEq, Eq, Structural)]
pub enum DefaultSignalAction {
    Terminate,
    Ignore,
    CoreDump,
    Stop,
    Continue,
}

pub open spec fn spec_default_action(signo: u8) -> DefaultSignalAction {
    if signo == 17 || signo == 23 || signo == 28 {
        DefaultSignalAction::Ignore
    } else if signo == 18 {
        DefaultSignalAction::Continue
    } else if signo == 19 || signo == 20 || signo == 21 || signo == 22 {
        DefaultSignalAction::Stop
    } else if signo == 3 || signo == 4 || signo == 5 || signo == 6 || signo == 7 || signo == 8
        || signo == 11 || signo == 24 || signo == 25 || signo == 31 {
        DefaultSignalAction::CoreDump
    } else {
        DefaultSignalAction::Terminate
    }
}

/// Default action of signal `signo` (POSIX): child, urgent-data and
/// window-change signals are ignored, SIGCONT continues, the job-control
/// signals stop, the fault signals dump core and every other signal
/// terminates.
pub fn default_action(signo: u8) -> (a: DefaultSignalAction)
    ensures
        a == spec_default_action(signo),
{
    if signo == 17 || signo == 23 || signo == 28 {
        DefaultSignalAction::Ignore
    } else if signo == 18 {
        DefaultSignalAction::Continue
    } else if signo == 19 || signo == 20 || signo == 21 || signo == 22 {
        DefaultSignalAction::Stop
    } else if signo == 3 || signo == 4 || signo == 5 || signo == 6 || signo == 7 || signo == 8
        || signo == 11 || signo == 24 || signo == 25 || signo == 31 {
        DefaultSignalAction::CoreDump
    } else {
        DefaultSignalAction::Terminate
    }
}

/// Default actions as POSIX (signal(7)) lists them, by signal number:
/// SIGCHLD (17), SIGURG (23) and SIGWINCH (28) are ignored; SIGCONT (18)
/// continues; SIGSTOP, SIGTSTP, SIGTTIN and SIGTTOU (19 to 22) stop;
/// SIGQUIT, SIGILL, SIGTRAP, SIGABRT, SIGBUS, SIGFPE, SIGSEGV, SIGXCPU,
/// SIGXFSZ and SIGSYS (3 to 8, 11, 24, 25, 31) dump core; every other
/// signal, real-time signals included, terminates the process.
pub proof fn lemma_posix_default_actions(signo: u8)
    ensures
        (spec_default_action(signo) == DefaultSignalAction::Ignore) == (signo == 17 || signo == 23 || signo == 28),
        (spec_default_action(signo) == DefaultSignalAction::Continue) == (signo == 18),
        (spec_default_action(signo) == DefaultSignalAction::Stop) == (19 <= signo <= 22),
        (spec_default_action(signo) == DefaultSignalAction::CoreDump) == ((3 <= signo <= 8) || signo == 11 || signo == 24
            || signo == 25 || signo == 31),
        (spec_default_action(signo) == DefaultSignalAction::Terminate) == (signo == 1 || signo == 2 || signo == 9
            || signo == 10 || (12 <= signo <= 16) || (26 <= signo <= 27) || (29 <= signo <= 30) || signo == 0 || signo >= 32),
{
}

/// A process that leaves a signal at its default disposition ignores it
/// exactly when it is SIGCHLD, SIGURG or SIGWINCH; an explicit ignore
/// ignores every signal and a handler none.
pub proof fn lemma_default_disposition_ignores(action: SignalAction, signo: u8)
    ensures
        action.disposition == SignalDisposition::Default ==> (spec_ignored(action, signo) == (signo == 17 || signo == 23
            || signo == 28)),
        action.disposition == SignalDisposition::Ignore ==> spec_ignored(action, signo),
        action.disposition is Handler ==> !spec_ignored(action, signo),
{
}

/// Action installed for one signal.
#[derive(Clone, Copy, Debug, PartialEq, Eq, Structural)]
pub struct SignalAction {
    pub disposition: SignalDisposition,
    pub flags: u64,
    pub mask: u64,
    pub restorer: usize,
}

impl SignalAction {
    pub fn default_action() -> (a: SignalAction)
        ensures
            a == (SignalAction { disposition: SignalDisposition::Default, flags: 0, mask: 0, restorer: 0 }),
    {
        SignalAction { disposition: SignalDisposition::Default, flags: 0, mask: 0, restorer: 0 }
    }
}

/// Signal actions of a process, one per signal 1..=64.
pub struct SignalActions {
    actions: Vec<SignalAction>,
}

impl SignalActions {
    pub closed spec fn spec_actions(&self) -> Seq<SignalAction> {
        self.actions@
    }

    pub open spec fn wf(&self) -> bool {
        self.spec_actions().len() == NSIG
    }

    /// Action of signal `signo`.
    pub open spec fn spec_get(&self, signo: u8) -> SignalAction {
        self.spec_actions()[signo - 1]
    }

    /// Every signal with the default disposition.
    pub fn new() -> (a: SignalActions)
        ensures
            a.wf(),
            forall|s: u8| 1 <= s <= NSIG ==> #[trigger] a.spec_get(s) == SignalAction::default_spec(),
    {
        let mut actions: Vec<SignalAction> = Vec::new();
        let mut i: u8 = 0;
        while i < NSIG
            invariant
                i <= NSIG,
                actions@.len() == i,
                forall|j: int| 0 <= j < i ==> #[trigger] actions@[j] == SignalAction::default_spec(),
            decreases NSIG - i,
        {
            actions.push(SignalAction::default_action());
            i = i + 1;
        }
        SignalActions { actions }
    }

    pub fn get(&self, signo: u8) -> (a: SignalAction)
        requires
            self.wf(),
            1 <= signo <= NSIG,
        ensures
            a == self.spec_get(signo),
    {
        self.actions[(signo - 1) as usize]
    }

    pub fn set(&mut self, signo: u8, action: SignalAction)
        requires
            old(self).wf(),
            1 <= signo <= NSIG,
        ensures
            final(self).wf(),
            final(self).spec_actions() == old(self).spec_actions().update(signo - 1, action),
    {
        self.actions.set((signo - 1) as usize, action);
    }
}

impl SignalAction {
    pub open spec fn default_spec() -> SignalAction {
        SignalAction { disposition: SignalDisposition::Default, flags: 0, mask: 0, restorer: 0 }
    }
}

pub open spec fn spec_ignored(action: SignalAction, signo: u8) -> bool {
    match action.disposition {
        SignalDisposition::Ignore => true,
        SignalDisposition::Default => spec_default_action(signo) == DefaultSignalAction::Ignore,
        SignalDisposition::Handler(_) => false,
    }
}

pub open spec fn spec_sig_bit(signo: u8) -> u64 {
    (1u64 << ((signo - 1) as u64)) as u64
}

/// A thread of the process as the signal manager sees it.
#[derive(Clone, Copy, Debug, PartialEq, Eq, Structural)]
pub struct ThreadSlot {
    pub tid: u32,
    pub blocked: u64,
    pub alive: bool,
}

/// First live thread of `threads` that does not block `bit`.
pub open spec fn spec_first_receiver(threads: Seq<ThreadSlot>, bit: u64) -> Option<u32>
    decreases threads.len(),
{
    if threads.len() == 0 {
        None
    } else if threads[0].alive && threads[0].blocked & bit == 0 {
        Some(threads[0].tid)
    } else {
        spec_first_receiver(threads.subrange(1, threads.len() as int), bit)
    }
}

/// Process-level signal manager.
pub struct ProcessSignalManager {
    pending: u64,
    actions: SignalActions,
    default_restorer: usize,
    children: Vec<ThreadSlot>,
    possibly_has_signal: bool,
}

impl ProcessSignalManager {
    pub closed spec fn spec_pending(&self) -> u64 {
        self.pending
    }

    pub closed spec fn spec_children(&self) -> Seq<ThreadSlot> {
        self.children@
    }

    pub closed spec fn spec_possibly_has_signal(&self) -> bool {
        self.possibly_has_signal
    }

    pub closed spec fn spec_signal_actions(&self) -> SignalActions {
        self.actions
    }

    pub closed spec fn spec_default_restorer(&self) -> usize {
        self.default_restorer
    }

    /// The signal actions of the process.
    pub fn actions(&self) -> (a: &SignalActions)
        ensures
            *a == self.spec_signal_actions(),
    {
        &self.actions
    }

    /// Installs `action` for signal `signo`.
    pub fn set_action(&mut self, signo: u8, action: SignalAction)
        requires
            old(self).spec_signal_actions().wf(),
            1 <= signo <= NSIG,
        ensures
            final(self).spec_signal_actions().wf(),
            final(self).spec_signal_actions().spec_actions() == old(self).spec_signal_actions().spec_actions().update(signo - 1, action),
            final(self).spec_pending() == old(self).spec_pending(),
            final(self).spec_children() == old(self).spec_children(),
    {
        self.actions.set(signo, action);
    }

    /// Restorer used for handlers installed without one.
    pub fn default_restorer(&self) -> (r: usize)
        ensures
            r == self.spec_default_restorer(),
    {
        self.default_restorer
    }

    /// A manager with nothing pending and no threads.
    pub fn new(actions: SignalActions, default_restorer: usize) -> (m: ProcessSignalManager)
        ensures
            m.spec_pending() == 0,
            m.spec_children().len() == 0,
            !m.spec_possibly_has_signal(),
            m.spec_signal_actions() == actions,
            m.spec_default_restorer() == default_restorer,
    {
        ProcessSignalManager { pending: 0, actions, default_restorer, children: Vec::new(), possibly_has_signal: false }
    }

    /// Registers thread `tid` with signal mask `blocked`.
    pub fn add_thread(&mut self, tid: u32, blocked: u64)
        ensures
            final(self).spec_children() == old(self).spec_children().push(ThreadSlot { tid, blocked, alive: true }),
            final(self).spec_pending() == old(self).spec_pending(),
            final(self).spec_signal_actions() == old(self).spec_signal_actions(),
    {
        self.children.push(ThreadSlot { tid, blocked, alive: true });
    }

    /// Marks thread `tid` as exited.
    pub fn thread_exited(&mut self, tid: u32)
        ensures
            final(self).spec_children().len() == old(self).spec_children().len(),
            forall|i: int| 0 <= i < old(self).spec_children().len() ==> #[trigger] final(self).spec_children()[i] == (if old(self).spec_children()[i].tid == tid {
                ThreadSlot { alive: false, ..old(self).spec_children()[i] }
            } else {
                old(self).spec_children()[i]
            }),
            final(self).spec_pending() == old(self).spec_pending(),
            final(self).spec_signal_actions() == old(self).spec_signal_actions(),
    {
        let mut i: usize = 0;
        while i < self.children.len()
            invariant
                i <= self.children@.len(),
                self.children@.len() == old(self).children@.len(),
                self.pending == old(self).pending,
                self.actions == old(self).actions,
                forall|j: int| 0 <= j < i ==> #[trigger] self.children@[j] == (if old(self).children@[j].tid == tid {
                    ThreadSlot { alive: false, ..old(self).children@[j] }
                } else {
                    old(self).children@[j]
                }),
                forall|j: int| i <= j < self.children@.len() ==> #[trigger] self.children@[j] == old(self).children@[j],
            decreases self.children@.len() - i,
        {
            let slot = self.children[i];
            if slot.tid == tid {
                self.children.set(i, ThreadSlot { alive: false, ..slot });
            }
            i = i + 1;
        }
    }

    /// Whether signal `signo` is ignored by the process.
    pub fn signal_ignored(&self, signo: u8) -> (r: bool)
        requires
            self.spec_signal_actions().wf(),
            1 <= signo <= NSIG,
        ensures
            r == spec_ignored(self.spec_signal_actions().spec_get(signo), signo),
    {
        match self.actions.get(signo).disposition {
            SignalDisposition::Ignore => true,
            SignalDisposition::Default => default_action(signo) == DefaultSignalAction::Ignore,
            _ => false,
        }
    }

    /// Whether system calls interrupted by `signo` may be restarted.
    pub fn can_restart(&self, signo: u8) -> (r: bool)
        requires
            self.spec_signal_actions().wf(),
            1 <= signo <= NSIG,
        ensures
            r == (self.spec_signal_actions().spec_get(signo).flags & SA_RESTART != 0),
    {
        self.actions.get(signo).flags & SA_RESTART != 0
    }

    /// Sends signal `signo` to the process. An ignored signal is dropped;
    /// otherwise it becomes pending, exited threads are forgotten and the
    /// first remaining thread that does not block it is returned to be woken.
    pub fn send_signal(&mut self, signo: u8) -> (woken: Option<u32>)
        requires
            old(self).spec_signal_actions().wf(),
            1 <= signo <= NSIG,
        ensures
            final(self).spec_signal_actions() == old(self).spec_signal_actions(),
            spec_ignored(old(self).spec_signal_actions().spec_get(signo), signo) ==> woken is None
                && final(self).spec_pending() == old(self).spec_pending()
                && final(self).spec_children() == old(self).spec_children(),
            !spec_ignored(old(self).spec_signal_actions().spec_get(signo), signo) ==> {
                &&& final(self).spec_pending() == old(self).spec_pending() | spec_sig_bit(signo)
                &&& final(self).spec_children() == old(self).spec_children().filter(|t: ThreadSlot| t.alive)
                &&& woken == spec_first_receiver(old(self).spec_children(), spec_sig_bit(signo))
                &&& final(self).spec_possibly_has_signal()
            },
    {
        if self.signal_ignored(signo) {
            return None;
        }
        let bit: u64 = 1u64 << ((signo - 1) as u64);
        self.pending = self.pending | bit;
        self.possibly_has_signal = true;
        let ghost src = self.children@;
        let mut kept: Vec<ThreadSlot> = Vec::new();
        let mut result: Option<u32> = None;
        let mut i: usize = 0;
        assert(src.subrange(0, src.len() as int) =~= src);
        while i < self.children.len()
            invariant
                i <= self.children@.len(),
                self.children@ == src,
                kept@ == src.subrange(0, i as int).filter(|t: ThreadSlot| t.alive),
                spec_first_receiver(src, bit) == (match result {
                    Some(tid) => Some(tid),
                    None => spec_first_receiver(src.subrange(i as int, src.len() as int), bit),
                }),
            decreases self.children@.len() - i,
        {
            let slot = self.children[i];
            proof {
                assert(src.subrange(0, i + 1) =~= src.subrange(0, i as int).push(src[i as int]));
                src.subrange(0, i as int).lemma_filter_push(src[i as int], |t: ThreadSlot| t.alive);
                let rest = src.subrange(i as int, src.len() as int);
                assert(rest[0] == slot);
                assert(rest.subrange(1, rest.len() as int) =~= src.subrange(i + 1, src.len() as int));
            }
            if slot.alive {
                if result.is_none() && slot.blocked & bit == 0 {
                    result = Some(slot.tid);
                }
                kept.push(slot);
            }
            i = i + 1;
        }
        proof {
            assert(src.subrange(0, src.len() as int) =~= src);
        }
        self.children = kept;
        result
    }

    /// Signals pending at the process level.
    pub fn pending(&self) -> (p: u64)
        ensures
            p == self.spec_pending(),
    {
        self.pending
    }
}

/// A signal that is not ignored is pending after it was sent, whichever
/// thread (if any) it woke.
pub proof fn lemma_sent_signal_is_pending(pending: u64, signo: u8)
    requires
        1 <= signo <= NSIG,
    ensures
        (pending | spec_sig_bit(signo)) & spec_sig_bit(signo) != 0,
{
    let s = (signo - 1) as u64;
    assert(s < 64);
    assert((pending | (1u64 << s)) & (1u64 << s) != 0) by (bit_vector)
        requires
            s < 64,
    ;
}

/// The thread chosen to be woken is a live thread that does not block the
/// signal.
pub proof fn lemma_receiver_accepts_signal(threads: Seq<ThreadSlot>, bit: u64)
    ensures
        spec_first_receiver(threads, bit) matches Some(tid) ==> exists|i: int| 0 <= i < threads.len()
            && threads[i].tid == tid && threads[i].alive && threads[i].blocked & bit == 0,
    decreases threads.len(),
{
    if threads.len() > 0 && !(threads[0].alive && threads[0].blocked & bit == 0) {
        let rest = threads.subrange(1, threads.len() as int);
        lemma_receiver_accepts_signal(rest, bit);
        if let Some(tid) = spec_first_receiver(rest, bit) {
            let i = choose|i: int| 0 <= i < rest.len() && rest[i].tid == tid && rest[i].alive && rest[i].blocked & bit == 0;
            assert(threads[i + 1] == rest[i]);
        }
    }
}

/// The record a signalfd read returns (`struct signalfd_siginfo`, 128 bytes).
#[derive(Clone, Copy, Debug, PartialEq, Eq)]
pub struct SignalfdSiginfo {
    pub ssi_signo: u32,
    pub ssi_errno: i32,
    pub ssi_code: i32,
    pub ssi_pid: u32,
    pub ssi_uid: u32,
    pub ssi_fd: i32,
    pub ssi_tid: u32,
    pub ssi_band: u32,
    pub ssi_overrun: u32,
    pub ssi_trapno: u32,
    pub ssi_status: i32,
    pub ssi_int: i32,
    pub ssi_ptr: u64,
    pub ssi_utime: u64,
    pub ssi_stime: u64,
    pub ssi_addr: u64,
    pub ssi_addr_lsb: u16,
    pub pad: [u8; 46],
}

impl SignalfdSiginfo {
    /// Record of a signal with number `signo`, error number `errno` and code
    /// `code`: sender, timer and address fields are zero and `ssi_fd` is -1.
    pub fn from_signal_info(signo: u32, errno: i32, code: i32) -> (s: SignalfdSiginfo)
        ensures
            s.ssi_signo == signo,
            s.ssi_errno == errno,
            s.ssi_code == code,
            s.ssi_pid == 0,
            s.ssi_uid == 0,
            s.ssi_fd == -1,
            s.ssi_tid == 0,
            s.ssi_band == 0,
            s.ssi_overrun == 0,
            s.ssi_trapno == 0,
            s.ssi_status == 0,
            s.ssi_int == 0,
            s.ssi_ptr == 0,
            s.ssi_utime == 0,
            s.ssi_stime == 0,
            s.ssi_addr == 0,
            s.ssi_addr_lsb == 0,
            s.pad@ == Seq::new(46, |i: int| 0u8),
    {
        let s = SignalfdSiginfo {
            ssi_signo: signo,
            ssi_errno: errno,
            ssi_code: code,
            ssi_pid: 0,
            ssi_uid: 0,
            ssi_fd: -1,
            ssi_tid: 0,
            ssi_band: 0,
            ssi_overrun: 0,
            ssi_trapno: 0,
            ssi_status: 0,
            ssi_int: 0,
            ssi_ptr: 0,
            ssi_utime: 0,
            ssi_stime: 0,
            ssi_addr: 0,
            ssi_addr_lsb: 0,
            pad: [0u8; 46],
        };
        assert(s.pad@ =~= Seq::new(46, |i: int| 0u8));
        s
    }
}


/// Size of one signalfd record.
pub const SIGNALFD_SIGINFO_SIZE: usize = 128;

pub open spec fn sfd_le16(x: u16) -> Seq<u8> {
    seq![(x & 0xff) as u8, ((x >> 8u16) & 0xff) as u8]
}

pub open spec fn sfd_le32(x: u32) -> Seq<u8> {
    seq![(x & 0xff) as u8, ((x >> 8u32) & 0xff) as u8, ((x >> 16u32) & 0xff) as u8, ((x >> 24u32) & 0xff) as u8]
}

pub open spec fn sfd_le64(x: u64) -> Seq<u8> {
    sfd_le32((x & 0xffff_ffff) as u32) + sfd_le32((x >> 32u64) as u32)
}

impl SignalfdSiginfo {
    /// Little-endian bytes of the record, in field order.
    pub open spec fn spec_bytes(self) -> Seq<u8> {
        sfd_le32(self.ssi_signo) + sfd_le32(self.ssi_errno as u32) + sfd_le32(self.ssi_code as u32) + sfd_le32(self.ssi_pid)
            + sfd_le32(self.ssi_uid) + sfd_le32(self.ssi_fd as u32) + sfd_le32(self.ssi_tid) + sfd_le32(self.ssi_band)
            + sfd_le32(self.ssi_overrun) + sfd_le32(self.ssi_trapno) + sfd_le32(self.ssi_status as u32) + sfd_le32(
            self.ssi_int as u32,
        ) + sfd_le64(self.ssi_ptr) + sfd_le64(self.ssi_utime) + sfd_le64(self.ssi_stime) + sfd_le64(self.ssi_addr)
            + sfd_le16(self.ssi_addr_lsb) + self.pad@
    }

    /// The 128 bytes a signalfd read returns for this record.
    pub fn to_bytes(&self) -> (b: Vec<u8>)
        ensures
            b@ == self.spec_bytes(),
            b@.len() == SIGNALFD_SIGINFO_SIZE,
    {
        let mut out: Vec<u8> = Vec::new();
        sfd_push32(&mut out, self.ssi_signo);
        sfd_push32(&mut out, self.ssi_errno as u32);
        sfd_push32(&mut out, self.ssi_code as u32);
        sfd_push32(&mut out, self.ssi_pid);
        sfd_push32(&mut out, self.ssi_uid);
        sfd_push32(&mut out, self.ssi_fd as u32);
        sfd_push32(&mut out, self.ssi_tid);
        sfd_push32(&mut out, self.ssi_band);
        sfd_push32(&mut out, self.ssi_overrun);
        sfd_push32(&mut out, self.ssi_trapno);
        sfd_push32(&mut out, self.ssi_status as u32);
        sfd_push32(&mut out, self.ssi_int as u32);
        sfd_push64(&mut out, self.ssi_ptr);
        sfd_push64(&mut out, self.ssi_utime);
        sfd_push64(&mut out, self.ssi_stime);
        sfd_push64(&mut out, self.ssi_addr);
        out.push((self.ssi_addr_lsb & 0xff) as u8);
        out.push(((self.ssi_addr_lsb >> 8) & 0xff) as u8);
        let ghost before_pad = out@;
        let mut i: usize = 0;
        while i < 46
            invariant
                i <= 46,
                out@ == before_pad + self.pad@.subrange(0, i as int),
            decreases 46 - i,
        {
            out.push(self.pad[i]);
            proof {
                assert(out@ =~= before_pad + self.pad@.subrange(0, i + 1));
            }
            i = i + 1;
        }
        assert(self.pad@.subrange(0, 46) =~= self.pad@);
        assert(out@ =~= self.spec_bytes());
        out
    }
}

fn sfd_push32(out: &mut Vec<u8>, x: u32)
    ensures
        final(out)@ == old(out)@ + sfd_le32(x),
{
    out.push((x & 0xff) as u8);
    out.push(((x >> 8) & 0xff) as u8);
    out.push(((x >> 16) & 0xff) as u8);
    out.push(((x >> 24) & 0xff) as u8);
    assert(out@ =~= old(out)@ + sfd_le32(x));
}

fn sfd_push64(out: &mut Vec<u8>, x: u64)
    ensures
        final(out)@ == old(out)@ + sfd_le64(x),
{
    sfd_push32(out, (x & 0xffff_ffff) as u32);
    sfd_push32(out, (x >> 32) as u32);
    assert(out@ =~= old(out)@ + sfd_le64(x));
}

/// Whether a signalfd read can take a record: the destination must hold a
/// whole one.
pub fn signalfd_read_check(remaining: usize) -> (r: Result<(), AxError>)
    ensures
        remaining < SIGNALFD_SIGINFO_SIZE ==> r == Err::<(), AxError>(AxError::InvalidInput),
        remaining >= SIGNALFD_SIGINFO_SIZE ==> r == Ok::<(), AxError>(()),
{
    if remaining < SIGNALFD_SIGINFO_SIZE {
        Err(AxError::InvalidInput)
    } else {
        Ok(())
    }
}

/// Whether a signal watched by a signalfd with `mask` is pending (which
/// makes the descriptor readable).
pub fn signalfd_has_pending(pending: u64, mask: u64) -> (r: bool)
    ensures
        r == (pending & mask != 0),
{
    pending & mask != 0
}

} // verus!
