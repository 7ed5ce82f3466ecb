//! Inter-core mailbox device `/dev/cvi-mailbox`: the little core publishes
//! frame information in a DRAM mailbox and raises a hardware mailbox
//! interrupt; the big core acknowledges it and reports the frame state.
use vstd::prelude::*;

verus! {

/// DRAM mailbox (frame information and reply, 32 bytes).
#[derive(Clone, Copy, Debug, PartialEq, Eq, Structural)]
pub struct Mailbox {
    pub magic: u32,
    pub frame_count: u32,
    pub yuv_size: u32,
    /// bit0 SOI, bit1 EOI, bit15 YUV ready, bits 20-31 width, bits 8-19 height.
    pub flags: u32,
    pub reply_magic: u32,
    pub reply_data: u32,
    pub reply_seq: u32,
    pub pad: u32,
}

impl Mailbox {
    pub fn zeroed() -> (m: Mailbox)
        ensures
            m == (Mailbox { magic: 0, frame_count: 0, yuv_size: 0, flags: 0, reply_magic: 0, reply_data: 0, reply_seq: 0, pad: 0 }),
    {
        Mailbox { magic: 0, frame_count: 0, yuv_size: 0, flags: 0, reply_magic: 0, reply_data: 0, reply_seq: 0, pad: 0 }
    }
}

pub const MAILBOX_MAGIC: u32 = 0xC906_C906;
pub const REPLY_MAGIC: u32 = 0x5250_4C59;
pub const FLAG_YUV_READY: u32 = 0x8000;
pub const DRAM_MBOX_SIZE: usize = 32;

/// Frame `(width, height)` packed in the mailbox flags.
pub fn decode_dims(flags: u32) -> (d: (u32, u32))
    ensures
        d.0 == (flags / 0x10_0000) % 0x1000,
        d.1 == (flags / 0x100) % 0x1000,
{
    proof {
        assert((flags >> 20u32) & 0xFFFu32 == (flags / 0x10_0000) % 0x1000) by (bit_vector);
        assert((flags >> 8u32) & 0xFFFu32 == (flags / 0x100) % 0x1000) by (bit_vector);
    }
    ((flags >> 20) & 0xFFF, (flags >> 8) & 0xFFF)
}

/// The mailbox a read reports: the DRAM mailbox with its frame count
/// raised to the newest count seen by the mailbox interrupt or the timer
/// poll, whichever is larger.
pub fn merge_frame_count(mb: Mailbox, isr_frame: u32, timer_frame: u32) -> (r: Mailbox)
    ensures
        ({
            let best = if isr_frame >= timer_frame { isr_frame } else { timer_frame };
            r == (Mailbox { frame_count: if best > mb.frame_count { best } else { mb.frame_count }, ..mb })
        }),
{
    let best = if isr_frame >= timer_frame {
        isr_frame
    } else {
        timer_frame
    };
    let mut r = mb;
    if best > r.frame_count {
        r.frame_count = best;
    }
    r
}

/// Newest frame count after the interrupt handler read the DRAM mailbox:
/// updated only from a mailbox carrying the magic and a non-zero count.
pub fn isr_latest_frame(magic: u32, frame_count: u32, latest: u32) -> (r: u32)
    ensures
        r == (if magic == MAILBOX_MAGIC && frame_count > 0 { frame_count } else { latest }),
{
    if magic == MAILBOX_MAGIC && frame_count > 0 {
        frame_count
    } else {
        latest
    }
}

/// Register writes that deassert the mailbox interrupt with raised status
/// `int_status` and enable word `enable`: the status bits to clear and the
/// enable word without them; nothing when no status bit is raised.
pub fn isr_deassert(int_status: u32, enable: u32) -> (r: Option<(u32, u32)>)
    ensures
        int_status == 0 ==> r is None,
        int_status != 0 ==> r == Some((int_status, enable & !int_status)),
{
    if int_status != 0 {
        Some((int_status, enable & !int_status))
    } else {
        None
    }
}

/// A virtual mapping that is created on first use and then reused; zero
/// means "not mapped yet".
pub struct LazyMapping {
    pub va: usize,
}

impl LazyMapping {
    pub fn new() -> (m: LazyMapping)
        ensures
            m.va == 0,
    {
        LazyMapping { va: 0 }
    }

    /// The mapping if it exists; `None` asks the caller to map the region
    /// and record it.
    pub fn get(&self) -> (r: Option<usize>)
        ensures
            r == (if self.va != 0 { Some(self.va) } else { None::<usize> }),
    {
        if self.va != 0 {
            Some(self.va)
        } else {
            None
        }
    }

    /// Records a freshly created mapping.
    pub fn record(&mut self, va: usize)
        ensures
            final(self).va == va,
    {
        self.va = va;
    }
}

/// A fixed 256-byte line that formatted text is appended to; bytes past the
/// end are dropped.
pub struct ProbeStr {
    pub buf: [u8; 256],
    pub len: usize,
}

impl ProbeStr {
    pub fn new() -> (p: ProbeStr)
        ensures
            p.len == 0,
            p.buf@ == Seq::new(256, |i: int| 0u8),
    {
        let p = ProbeStr { buf: [0u8; 256], len: 0 };
        assert(p.buf@ =~= Seq::new(256, |i: int| 0u8));
        p
    }

    /// Appends as much of `s` as fits.
    pub fn write_str(&mut self, s: &[u8])
        requires
            old(self).len <= 256,
        ensures
            ({
                let n = if s@.len() <= 256 - old(self).len { s@.len() as int } else { 256 - old(self).len };
                &&& final(self).len == old(self).len + n
                &&& final(self).buf@.subrange(0, old(self).len as int) == old(self).buf@.subrange(0, old(self).len as int)
                &&& final(self).buf@.subrange(old(self).len as int, final(self).len as int) == s@.subrange(0, n)
                &&& final(self).buf@.subrange(final(self).len as int, 256) == old(self).buf@.subrange(final(self).len as int, 256)
            }),
    {
        let ghost start = self.len as int;
        let ghost old_buf = self.buf@;
        let mut i: usize = 0;
        while i < s.len() && self.len < 256
            invariant
                self.len <= 256,
                self.len == start + i,
                i <= s@.len(),
                self.buf@.len() == 256,
                old_buf.len() == 256,
                0 <= start <= 256,
                forall|j: int| 0 <= j < start ==> self.buf@[j] == old_buf[j],
                forall|j: int| start <= j < self.len ==> self.buf@[j] == s@[j - start],
                forall|j: int| self.len <= j < 256 ==> self.buf@[j] == old_buf[j],
            decreases s.len() - i,
        {
            let ghost prev = self.buf@;
            self.buf[self.len] = s[i];
            assert(self.buf@ =~= prev.update(self.len as int, s@[i as int]));
            self.len = self.len + 1;
            i = i + 1;
        }
        assert(self.buf@.subrange(0, start) =~= old_buf.subrange(0, start));
        assert(self.buf@.subrange(start, self.len as int) =~= s@.subrange(0, i as int));
        assert(self.buf@.subrange(self.len as int, 256) =~= old_buf.subrange(self.len as int, 256));
    }
}

/// Cached diagnostic line and how much of it has been read.
pub struct ProbeBuf {
    pub buf: [u8; 256],
    pub len: usize,
    pub cursor: usize,
}

impl ProbeBuf {
    /// An empty line over a zeroed buffer.
    pub fn new() -> (p: ProbeBuf)
        ensures
            p.buf@ == Seq::new(256, |i: int| 0u8),
            p.len == 0,
            p.cursor == 0,
    {
        ProbeBuf { buf: [0u8; 256], len: 0, cursor: 0 }
    }

    /// Whether a new diagnostic sample must be taken before streaming.
    pub fn needs_sample(&self) -> (r: bool)
        ensures
            r == (self.len == 0),
    {
        self.len == 0
    }

    /// Starts a new line from a fresh sample.
    pub fn load_sample(&mut self, sample: &ProbeStr)
        requires
            sample.len <= 256,
        ensures
            final(self).buf == sample.buf,
            final(self).len == sample.len,
            final(self).cursor == 0,
    {
        self.buf = sample.buf;
        self.len = sample.len;
        self.cursor = 0;
    }

    /// Streams the next part of the cached line into `out`. Once the line is
    /// exhausted one read returns 0 (end of line) and the cache is emptied so
    /// that the next read takes a new sample.
    pub fn probe_stream(&mut self, out: &mut [u8]) -> (n: usize)
        requires
            old(self).len <= 256,
            old(self).cursor <= old(self).len,
        ensures
            old(self).cursor >= old(self).len ==> n == 0 && final(self).len == 0 && final(self).cursor == 0
                && final(out)@ == old(out)@,
            old(self).cursor < old(self).len ==> {
                &&& n == (if old(out)@.len() <= old(self).len - old(self).cursor { old(out)@.len() as int } else { old(self).len - old(self).cursor })
                &&& final(self).cursor == old(self).cursor + n
                &&& final(self).len == old(self).len
                &&& final(out)@.len() == old(out)@.len()
                &&& final(out)@.subrange(0, n as int) == old(self).buf@.subrange(old(self).cursor as int, old(self).cursor + n)
                &&& final(out)@.subrange(n as int, old(out)@.len() as int) == old(out)@.subrange(n as int, old(out)@.len() as int)
            },
            final(self).buf == old(self).buf,
            final(self).cursor <= final(self).len,
            final(self).len <= 256,
    {
        if self.cursor >= self.len {
            self.cursor = 0;
            self.len = 0;
            return 0;
        }
        let remaining = self.len - self.cursor;
        let n = if out.len() <= remaining {
            out.len()
        } else {
            remaining
        };
        let ghost out0 = out@;
        let mut i: usize = 0;
        while i < n
            invariant
                i <= n,
                n <= out@.len(),
                out@.len() == out0.len(),
                self.cursor + n <= self.len,
                self.len <= 256,
                self.buf@.len() == 256,
                forall|j: int| 0 <= j < i ==> out@[j] == self.buf@[self.cursor + j],
                forall|j: int| i <= j < out@.len() ==> out@[j] == out0[j],
            decreases n - i,
        {
            out[i] = self.buf[self.cursor + i];
            i = i + 1;
        }
        assert(out@.subrange(0, n as int) =~= self.buf@.subrange(self.cursor as int, self.cursor + n));
        assert(out@.subrange(n as int, out@.len() as int) =~= out0.subrange(n as int, out0.len() as int));
        self.cursor = self.cursor + n;
        n
    }
}

} // verus!
