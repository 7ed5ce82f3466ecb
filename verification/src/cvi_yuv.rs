//! Shared YUV frame-buffer device `/dev/cvi-yuv`: the little core decodes
//! camera frames into shared DRAM and describes them in a DRAM mailbox.
use vstd::prelude::*;

verus! {

/// DRAM mailbox (32 bytes, same layout as the little core's).
#[derive(Clone, Copy, Debug, PartialEq, Eq, Structural)]
pub struct Mailbox {
    pub magic: u32,
    pub frame_count: u32,
    pub yuv_size: u32,
    /// bit0 SOI, bit1 EOI, bit2 slot, bit15 YUV ready, bits 8-19 height, bits 20-31 width.
    pub flags: u32,
    pub reply_magic: u32,
    pub reply_data: u32,
    pub reply_seq: u32,
    pub pad: u32,
}

pub const DRAM_MBOX_PA: usize = 0x9004_0000;
pub const DRAM_MBOX_SIZE: usize = 32;
pub const YUV_SLOT0_PA: usize = 0x8FE8_8000;
/// 640x480 YUV422.
pub const YUV_SLOT_SIZE: usize = 0x96000;
pub const RGB_BUF_PA: usize = 0x8FF5_E000;
/// Three 640x480 planes of RGB888.
pub const RGB_BUF_SIZE: usize = 921600;
pub const MMAP_OFF_YUV: u64 = 0;
pub const MMAP_OFF_RGB: u64 = 0x96000;
pub const YUV_BUF_PA: usize = YUV_SLOT0_PA;
pub const MAILBOX_MAGIC: u32 = 0xC906_C906;
pub const FLAG_YUV_READY: u32 = 0x8000;

/// Frame `(width, height)` packed in the mailbox flags.
pub fn decode_dims(flags: u32) -> (d: (u32, u32))
    ensures
        d.0 == (flags / 0x10_0000) % 0x1000,
        d.1 == (flags / 0x100) % 0x1000,
{
    proof {
        assert((flags >> 20u32) & 0xFFFu32 == (flags / 0x10_0000) % 0x1000) by (bit_vector);
        assert((flags >> 8u32) & 0xFFFu32 == (flags / 0x100) % 0x1000) by (bit_vector);
    }
    ((flags >> 20) & 0xFFF, (flags >> 8) & 0xFFF)
}

/// Buffer slot the frame was written to (bit 2 of the flags).
pub fn decode_slot(flags: u32) -> (s: u32)
    ensures
        s == (flags / 4) % 2,
{
    proof {
        assert((flags >> 2u32) & 1u32 == (flags / 4) % 2) by (bit_vector);
    }
    (flags >> 2) & 1
}

pub open spec fn spec_mailbox_valid(mb: Mailbox) -> bool {
    mb.magic == MAILBOX_MAGIC && mb.flags & FLAG_YUV_READY != 0 && mb.yuv_size != 0
}

/// What a user-space mapping of the device at `offset` shows.
#[derive(Clone, Copy, Debug, PartialEq, Eq, Structural)]
pub enum DeviceMmap {
    /// Uncached physical memory `[start, start + size)`.
    Physical { start: usize, size: usize },
    /// Nothing can be mapped there.
    NoMapping,
}

/// Lazily mapped views of the mailbox and of the YUV frame buffer.
pub struct CviYuv {
    mbox_va: usize,
    yuv_va: usize,
}

impl CviYuv {
    pub closed spec fn spec_mbox_va(&self) -> usize {
        self.mbox_va
    }

    pub closed spec fn spec_yuv_va(&self) -> usize {
        self.yuv_va
    }

    /// Nothing mapped yet.
    pub fn new() -> (d: CviYuv)
        ensures
            d.spec_mbox_va() == 0,
            d.spec_yuv_va() == 0,
    {
        CviYuv { mbox_va: 0, yuv_va: 0 }
    }

    /// The mailbox mapping; `None` asks the caller to map
    /// `DRAM_MBOX_PA..+DRAM_MBOX_SIZE` and record it.
    pub fn mbox_va(&self) -> (r: Option<usize>)
        ensures
            r == (if self.spec_mbox_va() != 0 { Some(self.spec_mbox_va()) } else { None::<usize> }),
    {
        if self.mbox_va != 0 {
            Some(self.mbox_va)
        } else {
            None
        }
    }

    /// The frame-buffer mapping; `None` asks the caller to map
    /// `YUV_BUF_PA..+YUV_SLOT_SIZE` and record it.
    pub fn yuv_va(&self) -> (r: Option<usize>)
        ensures
            r == (if self.spec_yuv_va() != 0 { Some(self.spec_yuv_va()) } else { None::<usize> }),
    {
        if self.yuv_va != 0 {
            Some(self.yuv_va)
        } else {
            None
        }
    }

    pub fn record_mbox_va(&mut self, va: usize)
        ensures
            final(self).spec_mbox_va() == va,
            final(self).spec_yuv_va() == old(self).spec_yuv_va(),
    {
        self.mbox_va = va;
    }

    pub fn record_yuv_va(&mut self, va: usize)
        ensures
            final(self).spec_yuv_va() == va,
            final(self).spec_mbox_va() == old(self).spec_mbox_va(),
    {
        self.yuv_va = va;
    }

    /// The mailbox if it describes a ready frame: right magic, YUV-ready
    /// flag set and a non-empty frame.
    pub fn read_valid_mbox(&self, mb: Mailbox) -> (r: Option<Mailbox>)
        ensures
            r == (if spec_mailbox_valid(mb) { Some(mb) } else { None::<Mailbox> }),
    {
        if mb.magic == MAILBOX_MAGIC && mb.flags & FLAG_YUV_READY != 0 && mb.yuv_size != 0 {
            Some(mb)
        } else {
            None
        }
    }

    /// Mapping offered at `offset`: the YUV422 frame at 0, the RGB888
    /// planes at `MMAP_OFF_RGB`, nothing elsewhere.
    pub fn mmap(&self, offset: u64) -> (m: DeviceMmap)
        ensures
            m == (if offset == MMAP_OFF_YUV {
                DeviceMmap::Physical { start: YUV_SLOT0_PA, size: YUV_SLOT_SIZE }
            } else if offset == MMAP_OFF_RGB {
                DeviceMmap::Physical { start: RGB_BUF_PA, size: RGB_BUF_SIZE }
            } else {
                DeviceMmap::NoMapping
            }),
    {
        if offset == MMAP_OFF_YUV {
            DeviceMmap::Physical { start: YUV_SLOT0_PA, size: YUV_SLOT_SIZE }
        } else if offset == MMAP_OFF_RGB {
            DeviceMmap::Physical { start: RGB_BUF_PA, size: RGB_BUF_SIZE }
        } else {
            DeviceMmap::NoMapping
        }
    }
}

/// Bytes a read copies of the frame described by `mb` into a buffer of
/// `buf_len` bytes: never more than the frame, the buffer or one slot.
pub fn yuv_copy_len(mb: Mailbox, buf_len: usize) -> (n: usize)
    ensures
        n <= mb.yuv_size,
        n <= buf_len,
        n <= YUV_SLOT_SIZE,
        n == mb.yuv_size || n == buf_len || n == YUV_SLOT_SIZE,
{
    let a = mb.yuv_size as usize;
    let b = if a <= buf_len {
        a
    } else {
        buf_len
    };
    if b <= YUV_SLOT_SIZE {
        b
    } else {
        YUV_SLOT_SIZE
    }
}

/// Whether a copy taken while the frame count moved from `before` to
/// `after` cannot be torn: the buffer is overwritten only once the count
/// has advanced by two.
pub fn copy_is_consistent(before: u32, after: u32) -> (r: bool)
    ensures
        r == (after.wrapping_sub(before) < 2),
{
    after.wrapping_sub(before) < 2
}

/// Number of copy attempts a read makes before returning what it has.
pub const READ_ATTEMPTS: usize = 3;

} // verus!
