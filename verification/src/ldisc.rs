//! Terminal line discipline: terminal settings, the receive ring buffer
//! (a `ringbuf::StaticRb`), input processing in canonical and raw mode
//! (erase, kill, end of line, echo and signal characters) and the read
//! rules of the terminal device.
use vstd::prelude::*;

use ringbuf::traits::{Consumer, Observer, Producer};

use crate::errno::AxError;
use crate::tty::{BUF_SIZE, TtyRead, spec_expand_newlines};

verus! {

/// Input flag: ignore carriage return.
pub const IGNCR: u32 = 0o200;
/// Input flag: translate carriage return to newline.
pub const ICRNL: u32 = 0o400;
/// Local flag: generate signals for INTR, QUIT and SUSP.
pub const ISIG: u32 = 0o1;
/// Local flag: canonical (line-by-line) input.
pub const ICANON: u32 = 0o2;
/// Local flag: echo input.
pub const ECHO: u32 = 0o10;
/// Local flag: the KILL character erases the line.
pub const ECHOK: u32 = 0o40;
/// Local flag: echo control characters as `^X`.
pub const ECHOCTL: u32 = 0o1000;

/// Indices of the special characters.
pub const VINTR: usize = 0;
pub const VQUIT: usize = 1;
pub const VERASE: usize = 2;
pub const VKILL: usize = 3;
pub const VEOF: usize = 4;
pub const VTIME: usize = 5;
pub const VMIN: usize = 6;
pub const VSUSP: usize = 10;
pub const VEOL: usize = 11;
/// Number of special characters.
pub const NCCS: usize = 19;

pub const SIGINT: u8 = 2;
pub const SIGQUIT: u8 = 3;
pub const SIGTSTP: u8 = 20;

/// Terminal settings (`struct termios2`) as far as input processing reads
/// them.
#[derive(Clone, Copy)]
pub struct Termios {
    pub iflag: u32,
    pub lflag: u32,
    pub cc: [u8; 19],
}

impl Termios {
    pub open spec fn spec_cc(self, i: usize) -> u8 {
        self.cc@[i as int]
    }

    pub open spec fn spec_canonical(self) -> bool {
        self.lflag & ICANON != 0
    }

    pub open spec fn spec_echo(self) -> bool {
        self.lflag & ECHO != 0
    }

    pub open spec fn spec_is_eol(self, ch: u8) -> bool {
        ch == 0x0au8 || ch == self.spec_cc(VEOL)
    }

    pub open spec fn spec_signo_for(self, ch: u8) -> Option<u8> {
        if ch == self.spec_cc(VINTR) {
            Some(SIGINT)
        } else if ch == self.spec_cc(VQUIT) {
            Some(SIGQUIT)
        } else if ch == self.spec_cc(VSUSP) {
            Some(SIGTSTP)
        } else {
            None
        }
    }

    pub fn has_iflag(&self, flag: u32) -> (r: bool)
        ensures
            r == (self.iflag & flag != 0),
    {
        self.iflag & flag != 0
    }

    pub fn has_lflag(&self, flag: u32) -> (r: bool)
        ensures
            r == (self.lflag & flag != 0),
    {
        self.lflag & flag != 0
    }

    /// Whether input is echoed.
    pub fn echo(&self) -> (r: bool)
        ensures
            r == self.spec_echo(),
    {
        self.lflag & ECHO != 0
    }

    /// Whether input is processed line by line.
    pub fn canonical(&self) -> (r: bool)
        ensures
            r == self.spec_canonical(),
    {
        self.lflag & ICANON != 0
    }

    /// Special character `i`.
    pub fn special_char(&self, i: usize) -> (c: u8)
        requires
            i < NCCS,
        ensures
            c == self.spec_cc(i),
    {
        self.cc[i]
    }

    /// Whether `ch` ends a line: a newline or the EOL character.
    pub fn is_eol(&self, ch: u8) -> (r: bool)
        ensures
            r == self.spec_is_eol(ch),
    {
        ch == 0x0a || ch == self.cc[VEOL]
    }

    /// Signal raised by `ch`: INTR, QUIT and SUSP raise SIGINT, SIGQUIT and
    /// SIGTSTP.
    pub fn signo_for(&self, ch: u8) -> (r: Option<u8>)
        ensures
            r == self.spec_signo_for(ch),
    {
        if ch == self.cc[VINTR] {
            Some(SIGINT)
        } else if ch == self.cc[VQUIT] {
            Some(SIGQUIT)
        } else if ch == self.cc[VSUSP] {
            Some(SIGTSTP)
        } else {
            None
        }
    }
}

/// Receive buffer between input processing and readers: a
/// `ringbuf::StaticRb<u8, 80>`.
#[verifier::external_body]
pub struct ReadBuffer {
    rb: ringbuf::StaticRb<u8, 80>,
}

/// Bytes queued in a receive buffer, oldest first.
pub uninterp spec fn queued_bytes(b: ReadBuffer) -> Seq<u8>;

/// `StaticRb::<u8, 80>::default`: an empty ring buffer of capacity 80.
#[verifier::external_body]
fn rb_new() -> (b: ReadBuffer)
    ensures
        queued_bytes(b) == Seq::<u8>::empty(),
{
    ReadBuffer { rb: ringbuf::StaticRb::default() }
}

/// `Producer::try_push`: appends `x` unless the buffer holds its capacity
/// of 80 bytes; reports whether it did.
#[verifier::external_body]
fn rb_try_push(b: &mut ReadBuffer, x: u8) -> (pushed: bool)
    ensures
        queued_bytes(*old(b)).len() < BUF_SIZE ==> pushed && queued_bytes(*final(b)) == queued_bytes(*old(b)).push(x),
        queued_bytes(*old(b)).len() >= BUF_SIZE ==> !pushed && queued_bytes(*final(b)) == queued_bytes(*old(b)),
        queued_bytes(*final(b)).len() <= BUF_SIZE,
{
    b.rb.try_push(x).is_ok()
}

/// `Producer::push_slice`: appends the longest prefix of `elems` that fits
/// and returns its length.
#[verifier::external_body]
fn rb_push_slice(b: &mut ReadBuffer, elems: &[u8]) -> (n: usize)
    ensures
        n == (if elems@.len() <= BUF_SIZE - queued_bytes(*old(b)).len() {
            elems@.len() as int
        } else {
            BUF_SIZE - queued_bytes(*old(b)).len()
        }),
        queued_bytes(*final(b)) == queued_bytes(*old(b)) + elems@.subrange(0, n as int),
        queued_bytes(*final(b)).len() <= BUF_SIZE,
{
    b.rb.push_slice(elems)
}

/// `Observer::is_full`: whether the buffer holds 80 bytes.
#[verifier::external_body]
fn rb_is_full(b: &ReadBuffer) -> (r: bool)
    ensures
        r == (queued_bytes(*b).len() >= BUF_SIZE),
{
    b.rb.is_full()
}

/// `Observer::is_empty`: whether the buffer holds no byte.
#[verifier::external_body]
fn rb_is_empty(b: &ReadBuffer) -> (r: bool)
    ensures
        r == (queued_bytes(*b).len() == 0),
{
    b.rb.is_empty()
}

/// `Consumer::pop_slice`: moves the oldest bytes into the front of `dst`,
/// as many as fit, and returns how many.
#[verifier::external_body]
fn rb_pop_slice(b: &mut ReadBuffer, dst: &mut [u8]) -> (n: usize)
    ensures
        n == (if old(dst)@.len() <= queued_bytes(*old(b)).len() {
            old(dst)@.len() as int
        } else {
            queued_bytes(*old(b)).len() as int
        }),
        final(dst)@.len() == old(dst)@.len(),
        final(dst)@.subrange(0, n as int) == queued_bytes(*old(b)).subrange(0, n as int),
        final(dst)@.subrange(n as int, old(dst)@.len() as int) == old(dst)@.subrange(n as int, old(dst)@.len() as int),
        queued_bytes(*final(b)) == queued_bytes(*old(b)).subrange(n as int, queued_bytes(*old(b)).len() as int),
{
    b.rb.pop_slice(dst)
}

/// `Consumer::clear`: drops every queued byte.
#[verifier::external_body]
fn rb_clear(b: &mut ReadBuffer)
    ensures
        queued_bytes(*final(b)) == Seq::<u8>::empty(),
{
    b.rb.clear();
}

impl ReadBuffer {
    /// An empty receive buffer.
    pub fn new() -> (b: ReadBuffer)
        ensures
            queued_bytes(b) == Seq::<u8>::empty(),
    {
        rb_new()
    }

    /// Whether no byte is queued.
    pub fn is_empty(&self) -> (r: bool)
        ensures
            r == (queued_bytes(*self).len() == 0),
    {
        rb_is_empty(self)
    }

    /// Queues `x` if there is room.
    pub fn push(&mut self, x: u8) -> (pushed: bool)
        ensures
            queued_bytes(*old(self)).len() < BUF_SIZE ==> pushed && queued_bytes(*final(self)) == queued_bytes(*old(self)).push(x),
            queued_bytes(*old(self)).len() >= BUF_SIZE ==> !pushed && queued_bytes(*final(self)) == queued_bytes(*old(self)),
    {
        rb_try_push(self, x)
    }
}

pub open spec fn is_ascii_graphic(ch: u8) -> bool {
    0x21 <= ch <= 0x7e
}

pub open spec fn is_ascii_control(ch: u8) -> bool {
    ch <= 0x1f || ch == 0x7f
}

/// Echo of an input character: newline as is, carriage return as CR LF,
/// the erase character as backspace-space-backspace, printable characters
/// as themselves, control characters as `^X` when ECHOCTL is set, anything
/// else not at all.
pub open spec fn spec_echo_bytes(t: Termios, ch: u8) -> Seq<u8> {
    if ch == 0x0a {
        seq![0x0au8]
    } else if ch == 0x0d {
        seq![0x0du8, 0x0au8]
    } else if ch == t.spec_cc(VERASE) {
        seq![0x08u8, 0x20u8, 0x08u8]
    } else if ch == 0x20 || is_ascii_graphic(ch) {
        seq![ch]
    } else if is_ascii_control(ch) && t.lflag & ECHOCTL != 0 {
        seq![0x5eu8, (ch + 0x40) as u8]
    } else {
        Seq::empty()
    }
}

/// Appends the echo of `ch` to `out`.
fn push_echo(t: &Termios, ch: u8, out: &mut Vec<u8>)
    ensures
        final(out)@ == old(out)@ + spec_echo_bytes(*t, ch),
{
    if ch == 0x0a {
        out.push(0x0a);
    } else if ch == 0x0d {
        out.push(0x0d);
        out.push(0x0a);
    } else if ch == t.cc[VERASE] {
        out.push(0x08);
        out.push(0x20);
        out.push(0x08);
    } else if ch == 0x20 || (0x21 <= ch && ch <= 0x7e) {
        out.push(ch);
    } else if (ch <= 0x1f || ch == 0x7f) && t.lflag & ECHOCTL != 0 {
        out.push(0x5e);
        out.push(ch + 0x40);
    }
    proof {
        assert(out@ =~= old(out)@ + spec_echo_bytes(*t, ch));
    }
}


/// Abstract state of input processing: the input not yet processed, the
/// line being edited, how much of a finished line has been handed to the
/// receive buffer, the receive buffer, and what the processing produced
/// so far (bytes queued, echo, signals to raise).
pub struct LdiscState {
    pub input: Seq<u8>,
    pub line: Seq<u8>,
    pub line_read: Option<nat>,
    pub rx: Seq<u8>,
    pub sent: nat,
    pub echo: Seq<u8>,
    pub signals: Seq<u8>,
}

/// Bytes of a finished line still to be handed over.
pub open spec fn line_remaining(s: LdiscState) -> nat {
    match s.line_read {
        Some(off) => if off < s.line.len() { (s.line.len() - off) as nat } else { 0 },
        None => 0,
    }
}

/// Effect of one input character (already taken from the input).
pub open spec fn spec_process_char(t: Termios, ch0: u8, s: LdiscState) -> LdiscState {
    if ch0 == 0x0d && t.iflag & IGNCR != 0 {
        s
    } else {
        let ch = if ch0 == 0x0d && t.iflag & ICRNL != 0 { 0x0au8 } else { ch0 };
        let signals = if t.spec_canonical() && t.lflag & ISIG != 0 && t.spec_signo_for(ch) is Some {
            s.signals.push(t.spec_signo_for(ch)->0)
        } else {
            s.signals
        };
        let echo = if t.spec_echo() { s.echo + spec_echo_bytes(t, ch) } else { s.echo };
        let s1 = LdiscState { signals, echo, ..s };
        if !t.spec_canonical() {
            LdiscState { rx: s1.rx.push(ch), sent: s1.sent + 1, ..s1 }
        } else if t.lflag & ECHOK != 0 && ch == t.spec_cc(VKILL) {
            LdiscState { line: Seq::empty(), ..s1 }
        } else if ch == t.spec_cc(VERASE) {
            LdiscState { line: if s1.line.len() > 0 { s1.line.drop_last() } else { s1.line }, ..s1 }
        } else if t.spec_is_eol(ch) || ch == t.spec_cc(VEOF) {
            let line = if ch != t.spec_cc(VEOF) { s1.line.push(ch) } else { s1.line };
            LdiscState { line, line_read: if line.len() > 0 { Some(0nat) } else { s1.line_read }, ..s1 }
        } else if is_ascii_graphic(ch) {
            LdiscState { line: s1.line.push(ch), ..s1 }
        } else {
            s1
        }
    }
}

/// One step of input processing, `None` when processing stops: a finished
/// line is handed to the receive buffer as far as it has room (stopping
/// when it has none); otherwise the next input character is processed,
/// unless the receive buffer is full or the input is used up.
pub open spec fn spec_step(t: Termios, s: LdiscState) -> Option<LdiscState> {
    match s.line_read {
        Some(off) => {
            let avail = s.line.len() - off;
            let room = BUF_SIZE - s.rx.len();
            let n = if avail <= room { avail } else { room };
            if n <= 0 {
                None
            } else {
                let off2 = (off + n) as nat;
                let rx = s.rx + s.line.subrange(off as int, off2 as int);
                if off2 == s.line.len() {
                    Some(LdiscState { line: Seq::empty(), line_read: None, rx, sent: s.sent + n as nat, ..s })
                } else {
                    Some(LdiscState { line_read: Some(off2), rx, sent: s.sent + n as nat, ..s })
                }
            }
        },
        None => {
            if s.rx.len() >= BUF_SIZE || s.input.len() == 0 {
                None
            } else {
                Some(spec_process_char(t, s.input[0], LdiscState { input: s.input.drop_first(), ..s }))
            }
        },
    }
}

/// Input processing run until it stops.
pub open spec fn spec_run(t: Termios, s: LdiscState) -> LdiscState
    decreases s.input.len(), line_remaining(s),
{
    match spec_step(t, s) {
        None => s,
        Some(s2) => {
            proof {
                lemma_step_decreases(t, s);
            }
            spec_run(t, s2)
        },
    }
}

/// Every step consumes an input character or hands over part of a line.
pub proof fn lemma_step_decreases(t: Termios, s: LdiscState)
    requires
        spec_step(t, s) is Some,
    ensures
        ({
            let s2 = spec_step(t, s)->0;
            s2.input.len() < s.input.len() || (s2.input.len() == s.input.len() && line_remaining(s2) < line_remaining(s))
        }),
{
}

/// What one round of input processing produced.
pub struct PollOutcome {
    /// Whether any byte was queued for readers.
    pub sent: bool,
    /// Bytes to echo to the terminal, in order.
    pub echo: Vec<u8>,
    /// Signals to raise in the foreground process group, in order.
    pub signals: Vec<u8>,
}

/// Input processing of a terminal in canonical or raw mode.
pub struct InputReader {
    read_buf: Vec<u8>,
    read_start: usize,
    read_end: usize,
    line_buf: Vec<u8>,
    line_read: Option<usize>,
}

pub open spec fn opt_nat(o: Option<usize>) -> Option<nat> {
    match o {
        Some(x) => Some(x as nat),
        None => None,
    }
}

/// The bytes of `v` from `start` on.
fn suffix(v: &Vec<u8>, start: usize) -> (r: Vec<u8>)
    requires
        start <= v@.len(),
    ensures
        r@ == v@.subrange(start as int, v@.len() as int),
{
    let mut r: Vec<u8> = Vec::new();
    let mut i: usize = start;
    while i < v.len()
        invariant
            start <= i <= v@.len(),
            r@ == v@.subrange(start as int, i as int),
        decreases v.len() - i,
    {
        r.push(v[i]);
        proof {
            assert(r@ =~= v@.subrange(start as int, i + 1));
        }
        i = i + 1;
    }
    r
}

/// Hands all of `buf` to the device.
fn read_device<R: TtyRead>(reader: &mut R, buf: &mut [u8]) -> (n: usize)
    ensures
        n <= old(buf)@.len(),
        final(buf)@.len() == old(buf)@.len(),
        exists|r: &mut R, b: &mut [u8]|
            #[trigger] call_ensures(R::read, (r, b), n) && *r == *old(reader) && *final(r) == *final(reader) && b@
                == old(buf)@ && final(b)@ == final(buf)@,
{
    reader.read(buf)
}

impl InputReader {
    pub closed spec fn wf(&self) -> bool {
        &&& self.read_buf@.len() == BUF_SIZE
        &&& self.read_start <= self.read_end <= BUF_SIZE
        &&& match self.line_read {
            Some(off) => off <= self.line_buf@.len(),
            None => true,
        }
    }

    /// The read buffer, which keeps the bytes of the last device read.
    pub closed spec fn spec_read_buf(&self) -> Seq<u8> {
        self.read_buf@
    }

    /// End of the last device read in the read buffer.
    pub closed spec fn spec_read_end(&self) -> usize {
        self.read_end
    }

    /// Input read from the device and not processed yet.
    pub closed spec fn spec_input(&self) -> Seq<u8> {
        self.read_buf@.subrange(self.read_start as int, self.read_end as int)
    }

    /// The line being edited.
    pub closed spec fn spec_line(&self) -> Seq<u8> {
        self.line_buf@
    }

    /// How much of a finished line has been handed over, if one is.
    pub closed spec fn spec_line_read(&self) -> Option<nat> {
        opt_nat(self.line_read)
    }

    /// The processing state with receive buffer `rx` and nothing produced.
    pub open spec fn start_state(&self, rx: Seq<u8>) -> LdiscState {
        LdiscState {
            input: self.spec_input(),
            line: self.spec_line(),
            line_read: self.spec_line_read(),
            rx,
            sent: 0,
            echo: Seq::empty(),
            signals: Seq::empty(),
        }
    }

    /// Nothing read, no line.
    pub fn new() -> (r: InputReader)
        ensures
            r.wf(),
            r.spec_input() == Seq::<u8>::empty(),
            r.spec_line() == Seq::<u8>::empty(),
            r.spec_line_read() is None,
    {
        let mut read_buf: Vec<u8> = Vec::new();
        let mut i: usize = 0;
        while i < BUF_SIZE
            invariant
                i <= BUF_SIZE,
                read_buf@.len() == i,
            decreases BUF_SIZE - i,
        {
            read_buf.push(0);
            i = i + 1;
        }
        let r = InputReader { read_buf, read_start: 0, read_end: 0, line_buf: Vec::new(), line_read: None };
        assert(r.spec_input() =~= Seq::<u8>::empty());
        r
    }

    /// Processes one character taken from the input.
    fn take_char(&mut self, t: &Termios, ch0: u8, rb: &mut ReadBuffer, echo: &mut Vec<u8>, signals: &mut Vec<u8>) -> (pushed: bool)
        requires
            old(self).wf(),
            old(self).line_read is None,
            queued_bytes(*old(rb)).len() < BUF_SIZE,
        ensures
            final(self).wf(),
            final(self).read_buf == old(self).read_buf,
            final(self).read_start == old(self).read_start,
            final(self).read_end == old(self).read_end,
            ({
                let before = LdiscState {
                    input: Seq::empty(),
                    line: old(self).line_buf@,
                    line_read: None,
                    rx: queued_bytes(*old(rb)),
                    sent: 0,
                    echo: old(echo)@,
                    signals: old(signals)@,
                };
                let after = spec_process_char(*t, ch0, before);
                &&& final(self).line_buf@ == after.line
                &&& opt_nat(final(self).line_read) == after.line_read
                &&& queued_bytes(*final(rb)) == after.rx
                &&& final(echo)@ == after.echo
                &&& final(signals)@ == after.signals
                &&& pushed == (after.sent == 1)
            }),
            queued_bytes(*final(rb)).len() <= BUF_SIZE,
    {
        let mut ch = ch0;
        if ch == 0x0d {
            if t.has_iflag(IGNCR) {
                return false;
            }
            if t.has_iflag(ICRNL) {
                ch = 0x0a;
            }
        }
        if t.canonical() && t.has_lflag(ISIG) {
            if let Some(signo) = t.signo_for(ch) {
                signals.push(signo);
            }
        }
        if t.echo() {
            push_echo(t, ch, echo);
        }
        if !t.canonical() {
            let ok = rb_try_push(rb, ch);
            return true;
        }
        if t.has_lflag(ECHOK) && ch == t.special_char(VKILL) {
            self.line_buf.clear();
            return false;
        }
        if ch == t.special_char(VERASE) {
            self.line_buf.pop();
            return false;
        }
        if t.is_eol(ch) || ch == t.special_char(VEOF) {
            if ch != t.special_char(VEOF) {
                self.line_buf.push(ch);
            }
            if self.line_buf.len() > 0 {
                self.line_read = Some(0);
            }
            return false;
        }
        if 0x21 <= ch && ch <= 0x7e {
            self.line_buf.push(ch);
        }
        false
    }

    /// Processes pending input into the receive buffer until the input is
    /// used up or the buffer is full; a finished line is handed over before
    /// further input is looked at.
    pub fn process_input(&mut self, t: &Termios, rb: &mut ReadBuffer) -> (o: PollOutcome)
        requires
            old(self).wf(),
            queued_bytes(*old(rb)).len() <= BUF_SIZE,
        ensures
            final(self).wf(),
            final(self).spec_read_buf() == old(self).spec_read_buf(),
            final(self).spec_read_end() == old(self).spec_read_end(),
            ({
                let r = spec_run(*t, old(self).start_state(queued_bytes(*old(rb))));
                &&& final(self).spec_input() == r.input
                &&& final(self).spec_line() == r.line
                &&& final(self).spec_line_read() == r.line_read
                &&& queued_bytes(*final(rb)) == r.rx
                &&& o.sent == (r.sent > 0)
                &&& o.echo@ == r.echo
                &&& o.signals@ == r.signals
            }),
            queued_bytes(*final(rb)).len() <= BUF_SIZE,
    {
        let ghost target = spec_run(*t, self.start_state(queued_bytes(*rb)));
        let ghost mut sent_nat: nat = 0;
        let mut sent = false;
        let mut echo: Vec<u8> = Vec::new();
        let mut signals: Vec<u8> = Vec::new();
        loop
            invariant
                self.wf(),
                self.read_buf == old(self).read_buf,
                self.read_end == old(self).read_end,
                queued_bytes(*rb).len() <= BUF_SIZE,
                sent == (sent_nat > 0),
                spec_run(*t, LdiscState {
                    input: self.spec_input(),
                    line: self.spec_line(),
                    line_read: self.spec_line_read(),
                    rx: queued_bytes(*rb),
                    sent: sent_nat,
                    echo: echo@,
                    signals: signals@,
                }) == target,
            ensures
                self.wf(),
                self.read_buf == old(self).read_buf,
                self.read_end == old(self).read_end,
                queued_bytes(*rb).len() <= BUF_SIZE,
                sent == (sent_nat > 0),
                (LdiscState {
                    input: self.spec_input(),
                    line: self.spec_line(),
                    line_read: self.spec_line_read(),
                    rx: queued_bytes(*rb),
                    sent: sent_nat,
                    echo: echo@,
                    signals: signals@,
                }) == target,
            decreases self.read_end - self.read_start, line_remaining(LdiscState {
                input: self.spec_input(),
                line: self.spec_line(),
                line_read: self.spec_line_read(),
                rx: queued_bytes(*rb),
                sent: sent_nat,
                echo: echo@,
                signals: signals@,
            }),
        {
            let ghost cur = LdiscState {
                input: self.spec_input(),
                line: self.spec_line(),
                line_read: self.spec_line_read(),
                rx: queued_bytes(*rb),
                sent: sent_nat,
                echo: echo@,
                signals: signals@,
            };
            match self.line_read {
                Some(offset) => {
                    let tail = suffix(&self.line_buf, offset);
                    let read = rb_push_slice(rb, tail.as_slice());
                    if read == 0 {
                        assert(spec_step(*t, cur) is None);
                        break;
                    }
                    sent = true;
                    proof {
                        sent_nat = sent_nat + read as nat;
                    }
                    let line_len = self.line_buf.len();
                    assert(read <= tail@.len() && tail@.len() == line_len - offset);
                    let next = offset + read;
                    if next == self.line_buf.len() {
                        self.line_read = None;
                        self.line_buf.clear();
                    } else {
                        self.line_read = Some(next);
                    }
                    proof {
                        let s2 = spec_step(*t, cur)->0;
                        assert(self.spec_line() =~= s2.line);
                        assert(self.spec_input() =~= s2.input);
                        assert(queued_bytes(*rb) =~= s2.rx);
                    }
                },
                None => {
                    if rb_is_full(rb) || self.read_start == self.read_end {
                        assert(spec_step(*t, cur) is None);
                        break;
                    }
                    let ch = self.read_buf[self.read_start];
                    self.read_start = self.read_start + 1;
                    proof {
                        assert(cur.input[0] == ch);
                        assert(self.spec_input() =~= cur.input.drop_first());
                    }
                    let pushed = self.take_char(t, ch, rb, &mut echo, &mut signals);
                    if pushed {
                        sent = true;
                        proof {
                            sent_nat = sent_nat + 1;
                        }
                    }
                    proof {
                        let s2 = spec_step(*t, cur)->0;
                        assert(self.spec_input() == s2.input);
                    }
                },
            }
        }
        PollOutcome { sent, echo, signals }
    }
}


impl InputReader {
    /// Whether a poll may clear the line buffer: not while a finished line
    /// is partly handed over (its offset would point past the cleared
    /// line).
    pub open spec fn clear_allowed(&self) -> bool {
        self.spec_line_read() is None || self.spec_line_read() == Some(0nat)
    }

    /// What one round of input processing does, taking this reader to
    /// `after` and the receive buffer from `rx` to `rx_after`: the line is
    /// dropped when `clear_line` is set, the pending input (or, when none
    /// is pending, what the device read into the read buffer) is processed,
    /// and `o` reports what the processing produced.
    pub open spec fn polled(
        self,
        after: InputReader,
        t: Termios,
        rx: Seq<u8>,
        rx_after: Seq<u8>,
        clear_line: bool,
        o: PollOutcome,
    ) -> bool {
        let input = if self.spec_input().len() > 0 {
            self.spec_input()
        } else {
            after.spec_read_buf().subrange(0, after.spec_read_end() as int)
        };
        let start = LdiscState {
            input,
            line: if clear_line { Seq::empty() } else { self.spec_line() },
            line_read: self.spec_line_read(),
            rx,
            sent: 0,
            echo: Seq::empty(),
            signals: Seq::empty(),
        };
        let r = spec_run(t, start);
        &&& after.spec_input() == r.input
        &&& after.spec_line() == r.line
        &&& after.spec_line_read() == r.line_read
        &&& rx_after == r.rx
        &&& o.sent == (r.sent > 0)
        &&& o.echo@ == r.echo
        &&& o.signals@ == r.signals
    }

    /// One round of input processing: the line is dropped if a drain was
    /// requested, the device is read when no input is pending, and the
    /// input is processed.
    pub fn poll<R: TtyRead>(&mut self, reader: &mut R, t: &Termios, rb: &mut ReadBuffer, clear_line: bool) -> (o: PollOutcome)
        requires
            old(self).wf(),
            queued_bytes(*old(rb)).len() <= BUF_SIZE,
            clear_line ==> old(self).clear_allowed(),
        ensures
            final(self).wf(),
            queued_bytes(*final(rb)).len() <= BUF_SIZE,
            old(self).polled(*final(self), *t, queued_bytes(*old(rb)), queued_bytes(*final(rb)), clear_line, o),
            old(self).spec_input().len() == 0 ==> exists|r: &mut R, b: &mut [u8]|
                #[trigger] call_ensures(R::read, (r, b), final(self).spec_read_end()) && *r == *old(reader) && *final(r)
                    == *final(reader) && b@ == old(self).spec_read_buf() && final(b)@ == final(self).spec_read_buf(),
            old(self).spec_input().len() > 0 ==> *final(reader) == *old(reader) && final(self).spec_read_buf()
                == old(self).spec_read_buf() && final(self).spec_read_end() == old(self).spec_read_end(),
    {
        if clear_line {
            self.line_buf.clear();
        }
        if self.read_start == self.read_end {
            let n = read_device(reader, self.read_buf.as_mut_slice());
            self.read_start = 0;
            self.read_end = n;
        }
        self.process_input(t, rb)
    }
}

/// `s` cut to its first `free` bytes.
pub open spec fn cut(s: Seq<u8>, free: int) -> Seq<u8> {
    if s.len() <= free { s } else { s.subrange(0, free) }
}

/// Queues raw input with each newline preceded by a carriage return,
/// dropping what does not fit.
fn queue_raw(rb: &mut ReadBuffer, input: &[u8])
    requires
        queued_bytes(*old(rb)).len() <= BUF_SIZE,
    ensures
        queued_bytes(*final(rb)) == queued_bytes(*old(rb)) + cut(
            spec_expand_newlines(input@),
            BUF_SIZE - queued_bytes(*old(rb)).len(),
        ),
        queued_bytes(*final(rb)).len() <= BUF_SIZE,
{
    let ghost q0 = queued_bytes(*rb);
    let ghost free = BUF_SIZE - q0.len();
    let mut i: usize = 0;
    while i < input.len()
        invariant
            i <= input.len(),
            q0.len() <= BUF_SIZE,
            free == BUF_SIZE - q0.len(),
            queued_bytes(*rb) == q0 + cut(spec_expand_newlines(input@.subrange(0, i as int)), free),
            queued_bytes(*rb).len() <= BUF_SIZE,
        decreases input.len() - i,
    {
        let ch = input[i];
        proof {
            let s = input@.subrange(0, i + 1);
            assert(s.drop_last() =~= input@.subrange(0, i as int));
            assert(s.last() == ch);
        }
        let ghost e0 = spec_expand_newlines(input@.subrange(0, i as int));
        if ch == 0x0a {
            rb_try_push(rb, 0x0d);
        }
        rb_try_push(rb, ch);
        proof {
            let e1 = spec_expand_newlines(input@.subrange(0, i + 1));
            assert(queued_bytes(*rb) =~= q0 + cut(e1, free));
        }
        i = i + 1;
    }
    assert(input@.subrange(0, input.len() as int) =~= input@);
}

/// How a terminal processes its input.
pub enum ProcessMode {
    /// Input is processed only when a reader polls.
    Manual,
    /// A dedicated task processes input when the device signals it.
    External,
    /// Input is not processed: bytes are queued raw, newlines as CR LF
    /// (master side of a pseudo terminal).
    Unprocessed,
}

/// Outcome of a read attempt.
#[derive(Clone, Copy, Debug, PartialEq, Eq, Structural)]
pub enum ReadOutcome {
    /// The read is complete with this many bytes.
    Done(usize),
    /// This many bytes so far; the reader waits for more input.
    Wait(usize),
}

/// Line discipline of a terminal: the receive buffer and the input
/// processing of its mode.
pub struct LineDiscipline<R> {
    rb: ReadBuffer,
    clear_line_buf: bool,
    mode: ProcessMode,
    reader: R,
    input: InputReader,
    raw_buf: Vec<u8>,
}

impl<R: TtyRead> LineDiscipline<R> {
    pub closed spec fn wf(&self) -> bool {
        &&& self.input.wf()
        &&& queued_bytes(self.rb).len() <= BUF_SIZE
        &&& self.raw_buf@.len() == BUF_SIZE
    }

    /// Bytes waiting for readers.
    pub closed spec fn spec_queued(&self) -> Seq<u8> {
        queued_bytes(self.rb)
    }

    /// Whether a drain asked the input processing to drop its line.
    pub closed spec fn spec_clear_requested(&self) -> bool {
        self.clear_line_buf
    }

    pub closed spec fn spec_is_unprocessed(&self) -> bool {
        self.mode is Unprocessed
    }

    pub closed spec fn spec_is_manual(&self) -> bool {
        self.mode is Manual
    }

    /// The input processing state.
    pub closed spec fn spec_reader(&self) -> InputReader {
        self.input
    }

    /// The device input is read from.
    pub closed spec fn spec_device(&self) -> R {
        self.reader
    }

    /// Whether the next poll can run: a requested line drop must not meet
    /// a partly handed-over line.
    pub closed spec fn spec_poll_allowed(&self) -> bool {
        self.clear_line_buf ==> self.input.clear_allowed()
    }

    /// A line discipline reading from `reader` in `mode`, with nothing
    /// queued.
    pub fn new(reader: R, mode: ProcessMode) -> (ld: Self)
        ensures
            ld.wf(),
            ld.spec_queued() == Seq::<u8>::empty(),
            !ld.spec_clear_requested(),
            ld.spec_poll_allowed(),
    {
        let mut raw_buf: Vec<u8> = Vec::new();
        let mut i: usize = 0;
        while i < BUF_SIZE
            invariant
                i <= BUF_SIZE,
                raw_buf@.len() == i,
            decreases BUF_SIZE - i,
        {
            raw_buf.push(0);
            i = i + 1;
        }
        LineDiscipline { rb: rb_new(), clear_line_buf: false, mode, reader, input: InputReader::new(), raw_buf }
    }

    /// Drops every queued byte and asks the input processing to drop its
    /// line.
    pub fn drain_input(&mut self)
        requires
            old(self).wf(),
        ensures
            final(self).wf(),
            final(self).spec_queued() == Seq::<u8>::empty(),
            final(self).spec_clear_requested(),
    {
        rb_clear(&mut self.rb);
        self.clear_line_buf = true;
    }

    /// Whether the next poll can run (see `spec_poll_allowed`).
    pub fn poll_allowed(&self) -> (r: bool)
        ensures
            r == self.spec_poll_allowed(),
    {
        !self.clear_line_buf || match self.input.line_read {
            None => true,
            Some(off) => off == 0,
        }
    }

    /// Runs the input processing of a `Manual` or `External` discipline
    /// once; returns what it produced.
    pub fn process(&mut self, t: &Termios) -> (o: PollOutcome)
        requires
            old(self).wf(),
            old(self).spec_poll_allowed(),
        ensures
            final(self).wf(),
            !final(self).spec_clear_requested(),
            final(self).spec_poll_allowed(),
            old(self).spec_reader().polled(
                final(self).spec_reader(),
                *t,
                old(self).spec_queued(),
                final(self).spec_queued(),
                old(self).spec_clear_requested(),
                o,
            ),
            old(self).spec_reader().spec_input().len() == 0 ==> exists|r: &mut R, b: &mut [u8]|
                #[trigger] call_ensures(R::read, (r, b), final(self).spec_reader().spec_read_end()) && *r
                    == old(self).spec_device() && *final(r) == final(self).spec_device() && b@ == old(
                    self,
                ).spec_reader().spec_read_buf() && final(b)@ == final(self).spec_reader().spec_read_buf(),
            old(self).spec_reader().spec_input().len() > 0 ==> final(self).spec_device() == old(self).spec_device(),
    {
        let clear = self.clear_line_buf;
        self.clear_line_buf = false;
        let o = self.input.poll(&mut self.reader, t, &mut self.rb, clear);
        o
    }

    /// A reader's poll: a `Manual` discipline processes input, an
    /// `Unprocessed` one queues raw device input; then reports whether
    /// bytes are waiting, with the echo and signals the processing
    /// produced.
    pub fn poll_read(&mut self, t: &Termios) -> (r: (bool, PollOutcome))
        requires
            old(self).wf(),
            old(self).spec_poll_allowed(),
        ensures
            final(self).wf(),
            final(self).spec_poll_allowed(),
            r.0 == (final(self).spec_queued().len() > 0),
            old(self).spec_is_manual() ==> !final(self).spec_clear_requested() && old(self).spec_reader().polled(
                final(self).spec_reader(),
                *t,
                old(self).spec_queued(),
                final(self).spec_queued(),
                old(self).spec_clear_requested(),
                r.1,
            ),
            !old(self).spec_is_manual() ==> {
                &&& !r.1.sent
                &&& r.1.echo@.len() == 0
                &&& r.1.signals@.len() == 0
                &&& final(self).spec_reader() == old(self).spec_reader()
                &&& final(self).spec_clear_requested() == old(self).spec_clear_requested()
            },
            old(self).spec_is_unprocessed() ==> exists|input: Seq<u8>|
                #![trigger spec_expand_newlines(input)]
                input.len() <= BUF_SIZE && final(self).spec_queued() == old(self).spec_queued() + cut(
                    spec_expand_newlines(input),
                    BUF_SIZE - old(self).spec_queued().len(),
                ),
            !old(self).spec_is_manual() && !old(self).spec_is_unprocessed() ==> final(self).spec_queued()
                == old(self).spec_queued(),
    {
        let outcome = match self.mode {
            ProcessMode::Manual => self.process(t),
            ProcessMode::Unprocessed => {
                let n = self.reader.read(self.raw_buf.as_mut_slice());
                let input = suffix_until(&self.raw_buf, n);
                queue_raw(&mut self.rb, input.as_slice());
                PollOutcome { sent: false, echo: Vec::new(), signals: Vec::new() }
            },
            ProcessMode::External => PollOutcome { sent: false, echo: Vec::new(), signals: Vec::new() },
        };
        (!rb_is_empty(&self.rb), outcome)
    }

    /// One attempt of a blocking read: moves queued bytes into
    /// `buf[total..]` and reports completion once `vmin` bytes are in.
    pub fn read_attempt(&mut self, buf: &mut [u8], total: usize, vmin: usize) -> (r: ReadOutcome)
        requires
            old(self).wf(),
            total <= old(buf)@.len(),
        ensures
            final(self).wf(),
            final(self).spec_clear_requested() == old(self).spec_clear_requested(),
            final(self).spec_poll_allowed() == old(self).spec_poll_allowed(),
            ({
                let q = old(self).spec_queued();
                let room = old(buf)@.len() - total;
                let n = if room <= q.len() { room } else { q.len() as int };
                &&& final(buf)@ == old(buf)@.subrange(0, total as int) + q.subrange(0, n) + old(buf)@.subrange(total + n, old(buf)@.len() as int)
                &&& final(self).spec_queued() == q.subrange(n, q.len() as int)
                &&& r == (if total + n >= vmin { ReadOutcome::Done((total + n) as usize) } else { ReadOutcome::Wait((total + n) as usize) })
            }),
    {
        let room = buf.len() - total;
        let mut tmp: Vec<u8> = Vec::new();
        let mut i: usize = 0;
        while i < room
            invariant
                i <= room,
                tmp@.len() == i,
            decreases room - i,
        {
            tmp.push(0);
            i = i + 1;
        }
        let n = rb_pop_slice(&mut self.rb, tmp.as_mut_slice());
        let blen = buf.len();
        let ghost b0 = buf@;
        let mut j: usize = 0;
        while j < n
            invariant
                j <= n,
                n <= room,
                room == b0.len() - total,
                total <= b0.len(),
                buf@.len() == b0.len(),
                b0.len() == blen,
                tmp@.len() == room,
                forall|k: int| 0 <= k < total ==> buf@[k] == b0[k],
                forall|k: int| 0 <= k < j ==> buf@[total + k] == tmp@[k],
                forall|k: int| total + j <= k < b0.len() ==> buf@[k] == b0[k],
            decreases n - j,
        {
            buf[total + j] = tmp[j];
            j = j + 1;
        }
        proof {
            let q = old(self).spec_queued();
            assert(tmp@.subrange(0, n as int) =~= q.subrange(0, n as int));
            assert(buf@ =~= b0.subrange(0, total as int) + q.subrange(0, n as int) + b0.subrange(total + n, b0.len() as int)) by {
                assert forall|k: int| total <= k < total + n implies buf@[k] == q[k - total] by {
                    assert(tmp@.subrange(0, n as int)[k - total] == tmp@[k - total]);
                }
            }
        }
        let got = total + n;
        if got >= vmin {
            ReadOutcome::Done(got)
        } else {
            ReadOutcome::Wait(got)
        }
    }

    /// Starts a read into `buf` under terminal settings `t`. An empty
    /// buffer reads nothing; an `Unprocessed` discipline hands over what is
    /// queued or would block; otherwise a read needs room for VMIN bytes
    /// (one in canonical mode) and makes a first attempt.
    pub fn read(&mut self, buf: &mut [u8], t: &Termios) -> (r: Result<ReadOutcome, AxError>)
        requires
            old(self).wf(),
            !t.spec_canonical() ==> t.spec_cc(VTIME) == 0,
        ensures
            final(self).wf(),
            final(self).spec_poll_allowed() == old(self).spec_poll_allowed(),
            final(self).spec_clear_requested() == old(self).spec_clear_requested(),
            old(buf)@.len() == 0 ==> r == Ok::<ReadOutcome, AxError>(ReadOutcome::Done(0)) && final(self).spec_queued() == old(self).spec_queued(),
            old(buf)@.len() > 0 && old(self).spec_is_unprocessed() ==> {
                let q = old(self).spec_queued();
                let n = if old(buf)@.len() <= q.len() { old(buf)@.len() as int } else { q.len() as int };
                &&& final(self).spec_queued() == q.subrange(n, q.len() as int)
                &&& final(buf)@.subrange(0, n) == q.subrange(0, n)
                &&& (n == 0 ==> r == Err::<ReadOutcome, AxError>(AxError::WouldBlock))
                &&& (n > 0 ==> r == Ok::<ReadOutcome, AxError>(ReadOutcome::Done(n as usize)))
            },
            old(buf)@.len() > 0 && !old(self).spec_is_unprocessed() ==> {
                let vmin = if t.spec_canonical() { 1 } else { t.spec_cc(VMIN) as int };
                &&& (old(buf)@.len() < vmin ==> r == Err::<ReadOutcome, AxError>(AxError::WouldBlock)
                    && final(self).spec_queued() == old(self).spec_queued())
                &&& (old(buf)@.len() >= vmin ==> {
                    let q = old(self).spec_queued();
                    let n = if old(buf)@.len() <= q.len() { old(buf)@.len() as int } else { q.len() as int };
                    &&& final(self).spec_queued() == q.subrange(n, q.len() as int)
                    &&& final(buf)@.subrange(0, n) == q.subrange(0, n)
                    &&& r == Ok::<ReadOutcome, AxError>(if n >= vmin { ReadOutcome::Done(n as usize) } else { ReadOutcome::Wait(n as usize) })
                })
            },
    {
        if buf.len() == 0 {
            return Ok(ReadOutcome::Done(0));
        }
        if let ProcessMode::Unprocessed = self.mode {
            let n = rb_pop_slice(&mut self.rb, buf);
            return if n == 0 {
                Err(AxError::WouldBlock)
            } else {
                Ok(ReadOutcome::Done(n))
            };
        }
        let vmin = read_vmin(t);
        if buf.len() < vmin {
            return Err(AxError::WouldBlock);
        }
        let r = self.read_attempt(buf, 0, vmin);
        proof {
            let q = old(self).spec_queued();
            let n = if old(buf)@.len() <= q.len() { old(buf)@.len() as int } else { q.len() as int };
            assert(buf@.subrange(0, n) =~= q.subrange(0, n));
        }
        Ok(r)
    }
}

/// The first `n` bytes of `v`.
fn suffix_until(v: &Vec<u8>, n: usize) -> (r: Vec<u8>)
    requires
        n <= v@.len(),
    ensures
        r@ == v@.subrange(0, n as int),
{
    let mut r: Vec<u8> = Vec::new();
    let mut i: usize = 0;
    while i < n
        invariant
            i <= n,
            n <= v@.len(),
            r@ == v@.subrange(0, i as int),
        decreases n - i,
    {
        r.push(v[i]);
        proof {
            assert(r@ =~= v@.subrange(0, i + 1));
        }
        i = i + 1;
    }
    r
}


/// In raw mode (and without carriage-return handling) input passes to the
/// receive buffer unchanged, as far as it has room; what does not fit stays
/// pending.
pub proof fn lemma_raw_input_passes_through(t: Termios, s: LdiscState)
    requires
        !t.spec_canonical(),
        t.iflag & IGNCR == 0,
        t.iflag & ICRNL == 0,
        s.line_read is None,
        s.rx.len() <= BUF_SIZE,
    ensures
        ({
            let n = if s.input.len() <= BUF_SIZE - s.rx.len() { s.input.len() as int } else { BUF_SIZE - s.rx.len() };
            &&& spec_run(t, s).rx == s.rx + s.input.subrange(0, n)
            &&& spec_run(t, s).input == s.input.subrange(n, s.input.len() as int)
            &&& (spec_run(t, s).sent == s.sent + n)
        }),
    decreases s.input.len(),
{
    let n = if s.input.len() <= BUF_SIZE - s.rx.len() { s.input.len() as int } else { BUF_SIZE - s.rx.len() };
    if s.rx.len() >= BUF_SIZE || s.input.len() == 0 {
        assert(spec_step(t, s) is None);
        assert(s.input.subrange(0, n) =~= Seq::<u8>::empty());
        assert(s.input.subrange(n, s.input.len() as int) =~= s.input);
    } else {
        let s2 = spec_step(t, s)->0;
        let ch = s.input[0];
        assert(s2.rx == s.rx.push(ch));
        assert(s2.input == s.input.drop_first());
        assert(s2.line_read is None);
        lemma_raw_input_passes_through(t, s2);
        let n2 = if s2.input.len() <= BUF_SIZE - s2.rx.len() { s2.input.len() as int } else { BUF_SIZE - s2.rx.len() };
        assert(n2 == n - 1);
        assert(s.rx + s.input.subrange(0, n) =~= s2.rx + s2.input.subrange(0, n2));
        assert(s.input.subrange(n, s.input.len() as int) =~= s2.input.subrange(n2, s2.input.len() as int));
    }
}

/// A character that canonical input processing appends to the line.
pub open spec fn plain_line_char(t: Termios, c: u8) -> bool {
    &&& is_ascii_graphic(c)
    &&& !(t.lflag & ISIG != 0 && t.spec_signo_for(c) is Some)
    &&& !(t.lflag & ECHOK != 0 && c == t.spec_cc(VKILL))
    &&& c != t.spec_cc(VERASE)
    &&& !t.spec_is_eol(c)
    &&& c != t.spec_cc(VEOF)
}

/// Plain characters accumulate in the line (and in the echo) without
/// reaching the receive buffer.
proof fn lemma_plain_chars_accumulate(t: Termios, s: LdiscState, w: Seq<u8>)
    requires
        t.spec_canonical(),
        s.line_read is None,
        s.rx.len() < BUF_SIZE,
        s.input.len() >= w.len(),
        s.input.subrange(0, w.len() as int) == w,
        forall|i: int| 0 <= i < w.len() ==> plain_line_char(t, #[trigger] w[i]),
    ensures
        spec_run(t, s) == spec_run(t, LdiscState {
            input: s.input.subrange(w.len() as int, s.input.len() as int),
            line: s.line + w,
            echo: if t.spec_echo() { s.echo + w } else { s.echo },
            ..s
        }),
    decreases w.len(),
{
    if w.len() == 0 {
        assert(s.input.subrange(0, s.input.len() as int) =~= s.input);
        assert(s.line + w =~= s.line);
        assert(s.echo + w =~= s.echo);
        assert((LdiscState {
            input: s.input.subrange(w.len() as int, s.input.len() as int),
            line: s.line + w,
            echo: if t.spec_echo() { s.echo + w } else { s.echo },
            ..s
        }) == s);
    } else {
        let c = w[0];
        assert(s.input[0] == w[0]);
        assert(plain_line_char(t, c));
        let s2 = spec_step(t, s)->0;
        assert(spec_echo_bytes(t, c) =~= seq![c]);
        assert(s2.line == s.line.push(c));
        assert(s2.echo == (if t.spec_echo() { s.echo.push(c) } else { s.echo }));
        let w2 = w.drop_first();
        assert(s2.input.subrange(0, w2.len() as int) =~= w2);
        assert forall|i: int| 0 <= i < w2.len() implies plain_line_char(t, #[trigger] w2[i]) by {
            assert(w2[i] == w[i + 1]);
        }
        lemma_plain_chars_accumulate(t, s2, w2);
        assert(s2.input.subrange(w2.len() as int, s2.input.len() as int) =~= s.input.subrange(w.len() as int, s.input.len() as int));
        assert(s2.line + w2 =~= s.line + w);
        assert(s.echo.push(c) + w2 =~= s.echo + w);
    }
}

/// In canonical mode a line of plain characters ended by a newline is
/// handed to the receive buffer whole, newline included, once there is
/// room for it; nothing else changes the receive buffer.
pub proof fn lemma_canonical_line_delivered(t: Termios, s: LdiscState, w: Seq<u8>)
    requires
        t.spec_canonical(),
        s.line_read is None,
        s.line.len() == 0,
        s.input == w.push(0x0au8),
        forall|i: int| 0 <= i < w.len() ==> plain_line_char(t, #[trigger] w[i]),
        !(t.lflag & ECHOK != 0 && 0x0au8 == t.spec_cc(VKILL)),
        0x0au8 != t.spec_cc(VERASE),
        0x0au8 != t.spec_cc(VEOF),
        s.rx.len() + w.len() + 1 <= BUF_SIZE,
    ensures
        spec_run(t, s).rx == s.rx + w.push(0x0au8),
        spec_run(t, s).line.len() == 0,
        spec_run(t, s).line_read is None,
        spec_run(t, s).input.len() == 0,
{
    assert(s.input.subrange(0, w.len() as int) =~= w);
    lemma_plain_chars_accumulate(t, s, w);
    let s1 = LdiscState {
        input: s.input.subrange(w.len() as int, s.input.len() as int),
        line: s.line + w,
        echo: if t.spec_echo() { s.echo + w } else { s.echo },
        ..s
    };
    assert(s1.input =~= seq![0x0au8]);
    assert(s1.line =~= w);
    let s2 = spec_step(t, s1)->0;
    assert(t.spec_is_eol(0x0au8));
    assert(s2.line =~= w.push(0x0au8));
    assert(s2.line_read == Some(0nat));
    assert(s2.input.len() == 0);
    let s3 = spec_step(t, s2)->0;
    assert(s2.line.subrange(0, s2.line.len() as int) =~= s2.line);
    assert(s3.rx =~= s.rx + w.push(0x0au8));
    assert(s3.line_read is None);
    assert(spec_step(t, s3) is None);
    assert(spec_run(t, s3) == s3);
    assert(spec_run(t, s2) == spec_run(t, s3));
    assert(spec_run(t, s1) == spec_run(t, s2));
}


/// Bytes a read waits for: one in canonical mode, VMIN otherwise (a read
/// timeout, VTIME, is not supported).
pub fn read_vmin(t: &Termios) -> (v: usize)
    requires
        !t.spec_canonical() ==> t.spec_cc(VTIME) == 0,
    ensures
        v == (if t.spec_canonical() { 1 } else { t.spec_cc(VMIN) as int }),
{
    if t.canonical() {
        1
    } else {
        t.special_char(VMIN) as usize
    }
}

} // verus!
