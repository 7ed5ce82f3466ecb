//! Input event device: decoding of evdev ioctl requests, the copy rules of
//! variable-length replies, and the key and event-type bitmaps kept with
//! `bitmaps::Bitmap`.
use vstd::prelude::*;

use crate::errno::AxError;

verus! {

/// `_IOR('E', 0x01, int)`.
pub const EVIOCGVERSION: u32 = 0x8004_4501;
/// `_IOR('E', 0x02, struct input_id)`.
pub const EVIOCGID: u32 = 0x8008_4502;
/// `_IOW('E', 0x90, int)`.
pub const EVIOCGRAB: u32 = 0x4004_4590;
/// Version reported by `EVIOCGVERSION`.
pub const EV_VERSION: u32 = 0x10001;
/// Largest event type number and number of event types.
pub const EV_MAX: u8 = 0x1f;
pub const EV_CNT: u8 = 0x20;
pub const LED_CNT: usize = 0x10;
pub const SND_CNT: usize = 0x08;
pub const SW_CNT: usize = 0x11;
/// First `EVIOCGABS` request number.
pub const ABS_CNT: u8 = 0x40;

/// What an evdev ioctl asks for.
#[derive(Clone, Copy, Debug, PartialEq, Eq, Structural)]
pub enum EvdevIoctl {
    Version,
    Id,
    Grab,
    /// Device name, physical location or unique id, into `size` bytes.
    Name { size: usize },
    Phys { size: usize },
    Uniq { size: usize },
    /// Property bits (none are reported).
    Prop,
    /// Current key state, into `size` bytes.
    KeyState { size: usize },
    /// LED, sound or switch state: `bits` zero bits, into `size` bytes.
    ZeroBits { bits: usize, size: usize },
    /// Supported event codes of type `ty` (0: supported types), into `size` bytes.
    EventBits { ty: u8, size: usize },
    /// Absolute axis information (not reported).
    AbsInfo,
    Invalid,
}

pub open spec fn spec_decode_ioctl(cmd: u32) -> EvdevIoctl {
    if cmd == EVIOCGVERSION {
        EvdevIoctl::Version
    } else if cmd == EVIOCGID {
        EvdevIoctl::Id
    } else if cmd == EVIOCGRAB {
        EvdevIoctl::Grab
    } else {
        let nr = (cmd % 0x100) as u8;
        let ty = ((cmd / 0x100) % 0x100) as u8;
        let size = ((cmd / 0x1_0000) % 0x4000) as usize;
        let dir = (cmd / 0x4000_0000) % 4;
        if ty != 0x45u8 || dir != 2 {
            EvdevIoctl::Invalid
        } else if nr == 0x06 {
            EvdevIoctl::Name { size }
        } else if nr == 0x07 {
            EvdevIoctl::Phys { size }
        } else if nr == 0x08 {
            EvdevIoctl::Uniq { size }
        } else if nr == 0x09 {
            EvdevIoctl::Prop
        } else if nr == 0x18 {
            EvdevIoctl::KeyState { size }
        } else if nr == 0x19 {
            EvdevIoctl::ZeroBits { bits: LED_CNT, size }
        } else if nr == 0x1a {
            EvdevIoctl::ZeroBits { bits: SND_CNT, size }
        } else if nr == 0x1b {
            EvdevIoctl::ZeroBits { bits: SW_CNT, size }
        } else if nr / 0x20 == 1 {
            EvdevIoctl::EventBits { ty: nr % 0x20, size }
        } else if nr / 0x40 == 1 {
            EvdevIoctl::AbsInfo
        } else {
            EvdevIoctl::Invalid
        }
    }
}

/// Decodes an evdev ioctl command. Fixed commands are matched first; the
/// others carry `nr` in bits 7..0, the type in bits 15..8 (must be `'E'`),
/// the reply size in bits 29..16 and the direction in bits 31..30 (only
/// reads are served).
pub fn decode_evdev_ioctl(cmd: u32) -> (r: EvdevIoctl)
    ensures
        r == spec_decode_ioctl(cmd),
{
    if cmd == EVIOCGVERSION {
        return EvdevIoctl::Version;
    }
    if cmd == EVIOCGID {
        return EvdevIoctl::Id;
    }
    if cmd == EVIOCGRAB {
        return EvdevIoctl::Grab;
    }
    let mut tmp = cmd;
    let nr = (tmp & 0xff) as u8;
    tmp = tmp >> 8;
    let ty = (tmp & 0xff) as u8;
    tmp = tmp >> 8;
    let size = (tmp & 0x3fff) as usize;
    tmp = tmp >> 14;
    let dir = tmp & 0x3;
    proof {
        assert(cmd & 0xffu32 == cmd % 0x100) by (bit_vector);
        assert((cmd >> 8u32) & 0xffu32 == (cmd / 0x100) % 0x100) by (bit_vector);
        assert(((cmd >> 8u32) >> 8u32) & 0x3fffu32 == (cmd / 0x1_0000) % 0x4000) by (bit_vector);
        assert((((cmd >> 8u32) >> 8u32) >> 14u32) & 0x3u32 == (cmd / 0x4000_0000) % 4) by (bit_vector);
        assert(nr & !EV_MAX == EV_CNT <==> nr / 0x20 == 1) by (bit_vector);
        assert(nr & EV_MAX == nr % 0x20) by (bit_vector);
        assert(nr & !0x3fu8 == 0x40u8 <==> nr / 0x40 == 1) by (bit_vector);
    }
    if ty != 0x45 {
        return EvdevIoctl::Invalid;
    }
    if dir != 2 {
        return EvdevIoctl::Invalid;
    }
    if nr == 0x06 {
        EvdevIoctl::Name { size }
    } else if nr == 0x07 {
        EvdevIoctl::Phys { size }
    } else if nr == 0x08 {
        EvdevIoctl::Uniq { size }
    } else if nr == 0x09 {
        EvdevIoctl::Prop
    } else if nr == 0x18 {
        EvdevIoctl::KeyState { size }
    } else if nr == 0x19 {
        EvdevIoctl::ZeroBits { bits: LED_CNT, size }
    } else if nr == 0x1a {
        EvdevIoctl::ZeroBits { bits: SND_CNT, size }
    } else if nr == 0x1b {
        EvdevIoctl::ZeroBits { bits: SW_CNT, size }
    } else if nr & !EV_MAX == EV_CNT {
        EvdevIoctl::EventBits { ty: nr & EV_MAX, size }
    } else if nr & !0x3fu8 == ABS_CNT {
        EvdevIoctl::AbsInfo
    } else {
        EvdevIoctl::Invalid
    }
}

/// The read request `_IOR('E', nr, size)`: direction read in bits 31..30,
/// the reply size in bits 29..16, type `'E'` in bits 15..8 and `nr`.
pub open spec fn ioc_read_e(nr: u8, size: u32) -> u32 {
    (2u32 << 30u32) | (size << 16u32) | (0x45u32 << 8u32) | (nr as u32)
}

proof fn lemma_ioc_read_e_fields(nr: u8, size: u32)
    by (bit_vector)
    requires
        size < 0x4000,
    ensures
        ((2u32 << 30u32) | (size << 16u32) | (0x45u32 << 8u32) | (nr as u32)) % 0x100 == nr as u32,
        (((2u32 << 30u32) | (size << 16u32) | (0x45u32 << 8u32) | (nr as u32)) / 0x100) % 0x100 == 0x45,
        (((2u32 << 30u32) | (size << 16u32) | (0x45u32 << 8u32) | (nr as u32)) / 0x1_0000) % 0x4000 == size,
        (((2u32 << 30u32) | (size << 16u32) | (0x45u32 << 8u32) | (nr as u32)) / 0x4000_0000) % 4 == 2,
{
}

/// The variable-length read requests decode by their number: 0x06 the
/// device name, 0x07 its physical location, 0x08 its unique id, 0x09 its
/// property bits, 0x18 the key state, 0x19/0x1a/0x1b the LED, sound and
/// switch states, 0x20..=0x3f the codes of event type `nr - 0x20`, and
/// 0x40..=0x7f absolute axis information, each with the size the request
/// carries.
pub proof fn lemma_decode_read_requests(nr: u8, size: u32)
    requires
        size < 0x4000,
    ensures
        ({
            let r = spec_decode_ioctl(ioc_read_e(nr, size));
            let sz = size as usize;
            &&& nr == 0x06 ==> r == EvdevIoctl::Name { size: sz }
            &&& nr == 0x07 ==> r == EvdevIoctl::Phys { size: sz }
            &&& nr == 0x08 ==> r == EvdevIoctl::Uniq { size: sz }
            &&& nr == 0x09 ==> r == EvdevIoctl::Prop
            &&& nr == 0x18 ==> r == EvdevIoctl::KeyState { size: sz }
            &&& nr == 0x19 ==> r == EvdevIoctl::ZeroBits { bits: 0x10, size: sz }
            &&& nr == 0x1a ==> r == EvdevIoctl::ZeroBits { bits: 0x08, size: sz }
            &&& nr == 0x1b ==> r == EvdevIoctl::ZeroBits { bits: 0x11, size: sz }
            &&& 0x20 <= nr < 0x40 ==> r == EvdevIoctl::EventBits { ty: (nr - 0x20) as u8, size: sz }
            &&& 0x40 <= nr < 0x80 ==> r == EvdevIoctl::AbsInfo
        }),
{
    lemma_ioc_read_e_fields(nr, size);
    let cmd = ioc_read_e(nr, size);
    assert(nr != 0x01 && nr != 0x02 && nr != 0x90 ==> cmd != EVIOCGVERSION && cmd != EVIOCGID && cmd != EVIOCGRAB) by {
        assert(EVIOCGVERSION % 0x100 == 0x01 && EVIOCGID % 0x100 == 0x02 && EVIOCGRAB % 0x100 == 0x90);
    }
}

/// Copies the common prefix of `src` into `dst`, returning its length.
pub fn copy_bytes(src: &[u8], dst: &mut [u8]) -> (len: usize)
    ensures
        len == (if src@.len() <= old(dst)@.len() { src@.len() } else { old(dst)@.len() }),
        final(dst)@.len() == old(dst)@.len(),
        final(dst)@.subrange(0, len as int) == src@.subrange(0, len as int),
        final(dst)@.subrange(len as int, old(dst)@.len() as int) == old(dst)@.subrange(len as int, old(dst)@.len() as int),
{
    let len = if src.len() <= dst.len() {
        src.len()
    } else {
        dst.len()
    };
    let ghost d0 = dst@;
    let mut i: usize = 0;
    while i < len
        invariant
            i <= len,
            len <= src@.len(),
            len <= dst@.len(),
            dst@.len() == d0.len(),
            forall|j: int| 0 <= j < i ==> dst@[j] == src@[j],
            forall|j: int| i <= j < dst@.len() ==> dst@[j] == d0[j],
        decreases len - i,
    {
        dst[i] = src[i];
        i = i + 1;
    }
    assert(dst@.subrange(0, len as int) =~= src@.subrange(0, len as int));
    assert(dst@.subrange(len as int, d0.len() as int) =~= d0.subrange(len as int, d0.len() as int));
    len
}

/// Bytes of a state reply of `bits` bits that fit a `size`-byte buffer.
pub fn zero_bits_len(bits: usize, size: usize) -> (len: usize)
    ensures
        len == (if (bits + 7) / 8 <= size { (bits + 7) / 8 } else { size as int }),
{
    let bytes = bits / 8 + if bits % 8 != 0 {
        1
    } else {
        0
    };
    if bytes <= size {
        bytes
    } else {
        size
    }
}

/// Bytes of an event-bits reply for a type with `bits_count` codes that fit
/// a `size`-byte buffer.
pub fn event_bits_reply_len(bits_count: usize, size: usize) -> (len: usize)
    ensures
        len == (if (bits_count + 7) / 8 <= size { (bits_count + 7) / 8 } else { size as int }),
{
    zero_bits_len(bits_count, size)
}


/// Number of key codes.
pub const KEY_CNT: usize = 0x300;
/// Event type of key events.
pub const EV_KEY: u16 = 1;

/// Weight `w` when flag `i` is in `bits`, else 0.
pub open spec fn flag_weight(bits: Set<usize>, i: int, w: int) -> int {
    if bits.contains(i as usize) {
        w
    } else {
        0
    }
}

/// The byte whose bit `b` tells whether flag `base + b` is in `bits`.
pub open spec fn bitmap_byte(bits: Set<usize>, base: int) -> u8 {
    (flag_weight(bits, base, 1) + flag_weight(bits, base + 1, 2) + flag_weight(bits, base + 2, 4)
        + flag_weight(bits, base + 3, 8) + flag_weight(bits, base + 4, 16) + flag_weight(bits, base + 5, 32)
        + flag_weight(bits, base + 6, 64) + flag_weight(bits, base + 7, 128)) as u8
}

/// The `n` bytes of a bitmap whose words are stored least significant byte
/// first: byte `k` holds flags `8k` to `8k + 7`.
pub open spec fn le_bitmap_bytes(bits: Set<usize>, n: nat) -> Seq<u8> {
    Seq::new(n, |k: int| bitmap_byte(bits, 8 * k))
}

/// The `n` bytes of a bitmap made of `word`-byte words stored most
/// significant byte first: within each word the bytes come in reverse.
pub open spec fn be_bitmap_bytes(bits: Set<usize>, n: nat, word: int) -> Seq<u8> {
    Seq::new(n, |k: int| bitmap_byte(bits, 8 * ((k / word) * word + (word - 1 - k % word))))
}

/// Pressed state of every key code, kept in a `bitmaps::Bitmap<768>`.
#[verifier::external_body]
pub struct KeyState {
    bits: bitmaps::Bitmap<768>,
}

/// Key codes whose bit is set in a key state.
pub uninterp spec fn pressed_keys(s: KeyState) -> Set<usize>;

/// `bitmaps::Bitmap::<768>::new`: every bit false.
#[verifier::external_body]
fn key_state_new() -> (s: KeyState)
    ensures
        pressed_keys(s) == Set::<usize>::empty(),
{
    KeyState { bits: bitmaps::Bitmap::new() }
}

/// `bitmaps::Bitmap::<768>::set`: sets bit `index` to `value` and returns
/// its previous value. An index past the bitmap is left out (it indexes
/// past the backing words).
#[verifier::external_body]
fn key_state_set(s: &mut KeyState, index: usize, value: bool) -> (prev: bool)
    requires
        index < KEY_CNT,
    ensures
        prev == pressed_keys(*old(s)).contains(index),
        pressed_keys(*final(s)) == (if value {
            pressed_keys(*old(s)).insert(index)
        } else {
            pressed_keys(*old(s)).remove(index)
        }),
{
    s.bits.set(index, value)
}

/// `bitmaps::Bitmap::<768>::get`: the value of bit `index`.
#[verifier::external_body]
fn key_state_get(s: &KeyState, index: usize) -> (r: bool)
    requires
        index < KEY_CNT,
    ensures
        r == pressed_keys(*s).contains(index),
{
    s.bits.get(index)
}

/// `bitmaps::Bitmap::<768>::as_bytes`: the 96 bytes of the bitmap's six
/// `u128` words, key `i` being bit `i % 128` of word `i / 128`. The words
/// are laid out in the machine's byte order, so the bytes are the
/// little-endian or the big-endian layout of the pressed keys.
#[verifier::external_body]
fn key_state_bytes(s: &KeyState) -> (b: &[u8])
    ensures
        b@.len() == KEY_CNT / 8,
        b@ == le_bitmap_bytes(pressed_keys(*s), (KEY_CNT / 8) as nat) || b@ == be_bitmap_bytes(
            pressed_keys(*s),
            (KEY_CNT / 8) as nat,
            16,
        ),
{
    s.bits.as_bytes()
}

impl KeyState {
    /// Every key released.
    pub fn new() -> (s: KeyState)
        ensures
            pressed_keys(s) == Set::<usize>::empty(),
    {
        key_state_new()
    }

    /// Whether key `code` is held down.
    pub fn is_pressed(&self, code: usize) -> (r: bool)
        requires
            code < KEY_CNT,
        ensures
            r == pressed_keys(*self).contains(code),
    {
        key_state_get(self, code)
    }
}

/// Key state after an input event: a key event with value 0 releases the
/// key, one with value 1 presses it; auto-repeats and other events leave
/// the state alone.
pub open spec fn spec_after_event(keys: Set<usize>, event_type: u16, code: u16, value: i32) -> Set<usize> {
    if event_type == EV_KEY && value == 0 {
        keys.remove(code as usize)
    } else if event_type == EV_KEY && value == 1 {
        keys.insert(code as usize)
    } else {
        keys
    }
}

/// Records the effect of an input event on the key state. Key events carry
/// a key code below `KEY_CNT`.
pub fn record_key_event(state: &mut KeyState, event_type: u16, code: u16, value: i32)
    requires
        event_type == EV_KEY && (value == 0 || value == 1) ==> (code as usize) < KEY_CNT,
    ensures
        pressed_keys(*final(state)) == spec_after_event(pressed_keys(*old(state)), event_type, code, value),
{
    if event_type == EV_KEY {
        if value == 0 {
            key_state_set(state, code as usize, false);
        } else if value == 1 {
            key_state_set(state, code as usize, true);
        }
    }
}

/// Reply of `EVIOCGKEY`: the key bitmap's bytes, cut to the caller's
/// buffer. Returns the number of bytes copied.
pub fn key_state_reply(state: &KeyState, dst: &mut [u8]) -> (len: usize)
    ensures
        len == (if KEY_CNT / 8 <= old(dst)@.len() { (KEY_CNT / 8) as int } else { old(dst)@.len() as int }),
        final(dst)@.len() == old(dst)@.len(),
        final(dst)@.subrange(len as int, old(dst)@.len() as int) == old(dst)@.subrange(len as int, old(dst)@.len() as int),
        final(dst)@.subrange(0, len as int) == le_bitmap_bytes(pressed_keys(*state), (KEY_CNT / 8) as nat).subrange(0, len as int)
            || final(dst)@.subrange(0, len as int) == be_bitmap_bytes(pressed_keys(*state), (KEY_CNT / 8) as nat, 16).subrange(
            0,
            len as int,
        ),
{
    copy_bytes(key_state_bytes(state), dst)
}

/// A press followed by a release leaves a key up, and a release followed by
/// a press leaves it down, whatever its state before.
pub proof fn lemma_last_key_event_wins(keys: Set<usize>, code: u16)
    ensures
        !spec_after_event(spec_after_event(keys, EV_KEY, code, 1), EV_KEY, code, 0).contains(code as usize),
        spec_after_event(spec_after_event(keys, EV_KEY, code, 0), EV_KEY, code, 1).contains(code as usize),
{
}

/// Event types a device supports, kept in a `bitmaps::Bitmap<32>`.
#[verifier::external_body]
pub struct EventTypeBits {
    bits: bitmaps::Bitmap<32>,
}

/// Event types whose bit is set.
pub uninterp spec fn event_types(s: EventTypeBits) -> Set<usize>;

/// `bitmaps::Bitmap::<32>::new`: every bit false.
#[verifier::external_body]
fn event_type_bits_new() -> (s: EventTypeBits)
    ensures
        event_types(s) == Set::<usize>::empty(),
{
    EventTypeBits { bits: bitmaps::Bitmap::new() }
}

/// `bitmaps::Bitmap::<32>::set`: sets bit `index` to `value`, returning
/// its previous value.
#[verifier::external_body]
fn event_type_bits_set(s: &mut EventTypeBits, index: usize, value: bool) -> (prev: bool)
    requires
        index < EV_CNT,
    ensures
        prev == event_types(*old(s)).contains(index),
        event_types(*final(s)) == (if value {
            event_types(*old(s)).insert(index)
        } else {
            event_types(*old(s)).remove(index)
        }),
{
    s.bits.set(index, value)
}

/// `bitmaps::Bitmap::<32>::get`: the value of bit `index`.
#[verifier::external_body]
fn event_type_bits_get(s: &EventTypeBits, index: usize) -> (r: bool)
    requires
        index < EV_CNT,
    ensures
        r == event_types(*s).contains(index),
{
    s.bits.get(index)
}

/// `bitmaps::Bitmap::<32>::as_bytes`: the 4 bytes of the bitmap's `u32`
/// word, type `i` being bit `i`, in the machine's byte order: the
/// little-endian or the big-endian layout of the event types.
#[verifier::external_body]
fn event_type_bits_bytes(s: &EventTypeBits) -> (b: &[u8])
    ensures
        b@.len() == 4,
        b@ == le_bitmap_bytes(event_types(*s), 4) || b@ == be_bitmap_bytes(event_types(*s), 4, 4),
{
    s.bits.as_bytes()
}

impl EventTypeBits {
    /// The event types that a device reports support for: entry `i` of
    /// `supported` tells whether type `i` is; entries past the event type
    /// count are ignored.
    pub fn from_supported(supported: &[bool]) -> (s: EventTypeBits)
        ensures
            forall|i: usize| #[trigger] event_types(s).contains(i) <==> (i < EV_CNT && i < supported@.len() && supported@[i as int]),
    {
        let mut s = event_type_bits_new();
        let mut i: usize = 0;
        while i < EV_CNT as usize && i < supported.len()
            invariant
                i <= EV_CNT,
                forall|j: usize| #[trigger] event_types(s).contains(j) <==> (j < i && j < supported@.len() && supported@[j as int]),
            decreases EV_CNT - i,
        {
            if supported[i] {
                event_type_bits_set(&mut s, i, true);
            }
            i = i + 1;
        }
        s
    }

    /// Whether event type `ty` is supported.
    pub fn supports(&self, ty: u8) -> (r: bool)
        requires
            ty < EV_CNT,
        ensures
            r == event_types(*self).contains(ty as usize),
    {
        event_type_bits_get(self, ty as usize)
    }

    /// Reply of `EVIOCGBIT(0, size)`: the event-type bitmap's bytes, cut to
    /// the caller's buffer. Returns the number of bytes copied.
    pub fn reply(&self, dst: &mut [u8]) -> (len: usize)
        ensures
            len == (if 4 <= old(dst)@.len() { 4 } else { old(dst)@.len() as int }),
            final(dst)@.len() == old(dst)@.len(),
            final(dst)@.subrange(len as int, old(dst)@.len() as int) == old(dst)@.subrange(len as int, old(dst)@.len() as int),
            final(dst)@.subrange(0, len as int) == le_bitmap_bytes(event_types(*self), 4).subrange(0, len as int)
                || final(dst)@.subrange(0, len as int) == be_bitmap_bytes(event_types(*self), 4, 4).subrange(0, len as int),
    {
        copy_bytes(event_type_bits_bytes(self), dst)
    }
}


/// Zeroes the first `n` bytes of `dst`.
fn zero_prefix(dst: &mut [u8], n: usize)
    requires
        n <= old(dst)@.len(),
    ensures
        final(dst)@.len() == old(dst)@.len(),
        forall|i: int| 0 <= i < n ==> final(dst)@[i] == 0u8,
        final(dst)@.subrange(n as int, old(dst)@.len() as int) == old(dst)@.subrange(n as int, old(dst)@.len() as int),
{
    let ghost d0 = dst@;
    let mut i: usize = 0;
    while i < n
        invariant
            i <= n,
            n <= d0.len(),
            dst@.len() == d0.len(),
            forall|j: int| 0 <= j < i ==> dst@[j] == 0u8,
            forall|j: int| i <= j < d0.len() ==> dst@[j] == d0[j],
        decreases n - i,
    {
        dst[i] = 0;
        i = i + 1;
    }
    assert(dst@.subrange(n as int, d0.len() as int) =~= d0.subrange(n as int, d0.len() as int));
}

/// Event types of the input ABI: synchronisation, key, relative and
/// absolute axes, miscellaneous, switch, LED, sound, repeat, force
/// feedback, power and force-feedback status.
pub open spec fn spec_known_event_type(ty: u8) -> bool {
    ty <= 0x05 || ty == 0x11 || ty == 0x12 || (0x14 <= ty && ty <= 0x17)
}

/// Whether `ty` is an event type of the input ABI.
pub fn is_known_event_type(ty: u8) -> (r: bool)
    ensures
        r == spec_known_event_type(ty),
{
    ty <= 0x05 || ty == 0x11 || ty == 0x12 || (0x14 <= ty && ty <= 0x17)
}

/// What an evdev ioctl leaves for the caller to do.
#[derive(Clone, Copy, Debug, PartialEq, Eq, Structural)]
pub enum EvdevReply {
    /// Store this value at the argument; the ioctl returns 0.
    Store(u32),
    /// Store the device's id at the argument; the ioctl returns 0.
    StoreDeviceId,
    /// The reply buffer holds the answer; the ioctl returns this count.
    Return(usize),
    /// The device fills the reply buffer with its codes of event type
    /// `ty` (a known type other than 0); the ioctl returns what fits of
    /// that type's codes.
    DeviceBits(u8),
}

/// Whether the first `n` bytes of `d` are those of `b`.
pub open spec fn prefix_is(d: Seq<u8>, b: Seq<u8>, n: int) -> bool {
    d.subrange(0, n) == b.subrange(0, n)
}

/// Serves an evdev ioctl request `req` into the user buffer `dst` (the
/// `size` bytes the request names), given the device's name, physical
/// location and unique id, the key state and the supported event types.
/// The version is stored as 0x10001; grab, property and absolute-axis
/// requests succeed with nothing to report; strings and key or type
/// bitmaps are copied as far as they fit; LED, sound and switch states are
/// all zero bits; the codes of another known event type come from the
/// device; every other request, and an unknown event type, is invalid.
/// Bytes past the reply are left as they were.
pub fn evdev_ioctl_result(
    req: EvdevIoctl,
    name: &[u8],
    phys: &[u8],
    uniq: &[u8],
    keys: &KeyState,
    types: &EventTypeBits,
    dst: &mut [u8],
) -> (r: Result<EvdevReply, AxError>)
    ensures
        final(dst)@.len() == old(dst)@.len(),
        ({
            let d0 = old(dst)@;
            let d = final(dst)@;
            let n = d0.len() as int;
            let fit = |m: int| if m <= n { m } else { n };
            match req {
                EvdevIoctl::Version => r == Ok::<EvdevReply, AxError>(EvdevReply::Store(EV_VERSION)) && d == d0,
                EvdevIoctl::Id => r == Ok::<EvdevReply, AxError>(EvdevReply::StoreDeviceId) && d == d0,
                EvdevIoctl::Grab | EvdevIoctl::Prop | EvdevIoctl::AbsInfo => r == Ok::<EvdevReply, AxError>(EvdevReply::Return(0))
                    && d == d0,
                EvdevIoctl::Invalid => r == Err::<EvdevReply, AxError>(AxError::InvalidInput) && d == d0,
                EvdevIoctl::Name { .. } => r == Ok::<EvdevReply, AxError>(EvdevReply::Return(fit(name@.len() as int) as usize))
                    && prefix_is(d, name@, fit(name@.len() as int)) && d.subrange(fit(name@.len() as int), n) == d0.subrange(
                    fit(name@.len() as int),
                    n,
                ),
                EvdevIoctl::Phys { .. } => r == Ok::<EvdevReply, AxError>(EvdevReply::Return(fit(phys@.len() as int) as usize))
                    && prefix_is(d, phys@, fit(phys@.len() as int)) && d.subrange(fit(phys@.len() as int), n) == d0.subrange(
                    fit(phys@.len() as int),
                    n,
                ),
                EvdevIoctl::Uniq { .. } => r == Ok::<EvdevReply, AxError>(EvdevReply::Return(fit(uniq@.len() as int) as usize))
                    && prefix_is(d, uniq@, fit(uniq@.len() as int)) && d.subrange(fit(uniq@.len() as int), n) == d0.subrange(
                    fit(uniq@.len() as int),
                    n,
                ),
                EvdevIoctl::KeyState { .. } => {
                    let m = fit((KEY_CNT / 8) as int);
                    &&& r == Ok::<EvdevReply, AxError>(EvdevReply::Return(m as usize))
                    &&& (prefix_is(d, le_bitmap_bytes(pressed_keys(*keys), (KEY_CNT / 8) as nat), m) || prefix_is(
                        d,
                        be_bitmap_bytes(pressed_keys(*keys), (KEY_CNT / 8) as nat, 16),
                        m,
                    ))
                    &&& d.subrange(m, n) == d0.subrange(m, n)
                },
                EvdevIoctl::ZeroBits { bits, .. } => {
                    let m = fit((bits + 7) / 8);
                    &&& r == Ok::<EvdevReply, AxError>(EvdevReply::Return(m as usize))
                    &&& forall|i: int| 0 <= i < m ==> d[i] == 0u8
                    &&& d.subrange(m, n) == d0.subrange(m, n)
                },
                EvdevIoctl::EventBits { ty, .. } => if ty == 0 {
                    let m = fit(4);
                    &&& r == Ok::<EvdevReply, AxError>(EvdevReply::Return(m as usize))
                    &&& (prefix_is(d, le_bitmap_bytes(event_types(*types), 4), m) || prefix_is(
                        d,
                        be_bitmap_bytes(event_types(*types), 4, 4),
                        m,
                    ))
                    &&& d.subrange(m, n) == d0.subrange(m, n)
                } else if spec_known_event_type(ty) {
                    r == Ok::<EvdevReply, AxError>(EvdevReply::DeviceBits(ty)) && d == d0
                } else {
                    r == Err::<EvdevReply, AxError>(AxError::InvalidInput) && d == d0
                },
            }
        }),
{
    match req {
        EvdevIoctl::Version => Ok(EvdevReply::Store(EV_VERSION)),
        EvdevIoctl::Id => Ok(EvdevReply::StoreDeviceId),
        EvdevIoctl::Grab | EvdevIoctl::Prop | EvdevIoctl::AbsInfo => Ok(EvdevReply::Return(0)),
        EvdevIoctl::Invalid => Err(AxError::InvalidInput),
        EvdevIoctl::Name { .. } => Ok(EvdevReply::Return(copy_bytes(name, dst))),
        EvdevIoctl::Phys { .. } => Ok(EvdevReply::Return(copy_bytes(phys, dst))),
        EvdevIoctl::Uniq { .. } => Ok(EvdevReply::Return(copy_bytes(uniq, dst))),
        EvdevIoctl::KeyState { .. } => Ok(EvdevReply::Return(key_state_reply(keys, dst))),
        EvdevIoctl::ZeroBits { bits, .. } => {
            let m = zero_bits_len(bits, dst.len());
            zero_prefix(dst, m);
            Ok(EvdevReply::Return(m))
        },
        EvdevIoctl::EventBits { ty, .. } => {
            if ty == 0 {
                Ok(EvdevReply::Return(types.reply(dst)))
            } else if is_known_event_type(ty) {
                Ok(EvdevReply::DeviceBits(ty))
            } else {
                Err(AxError::InvalidInput)
            }
        },
    }
}

/// Size of `struct input_event` on a 64-bit kernel: a `timeval` of two
/// 64-bit words, then type, code and value.
pub const INPUT_EVENT_SIZE: usize = 24;

pub open spec fn le16(x: u16) -> Seq<u8> {
    seq![(x & 0xff) as u8, ((x >> 8u16) & 0xff) as u8]
}

pub open spec fn le32(x: u32) -> Seq<u8> {
    seq![(x & 0xff) as u8, ((x >> 8u32) & 0xff) as u8, ((x >> 16u32) & 0xff) as u8, ((x >> 24u32) & 0xff) as u8]
}

pub open spec fn le64(x: u64) -> Seq<u8> {
    le32((x & 0xffff_ffff) as u32) + le32((x >> 32u64) as u32)
}

/// Little-endian bytes of `struct input_event`.
pub open spec fn spec_input_event_bytes(sec: u64, usec: u64, event_type: u16, code: u16, value: u32) -> Seq<u8> {
    le64(sec) + le64(usec) + le16(event_type) + le16(code) + le32(value)
}

fn push_le16(out: &mut Vec<u8>, x: u16)
    ensures
        final(out)@ == old(out)@ + le16(x),
{
    out.push((x & 0xff) as u8);
    out.push(((x >> 8) & 0xff) as u8);
    assert(out@ =~= old(out)@ + le16(x));
}

fn push_le32(out: &mut Vec<u8>, x: u32)
    ensures
        final(out)@ == old(out)@ + le32(x),
{
    out.push((x & 0xff) as u8);
    out.push(((x >> 8) & 0xff) as u8);
    out.push(((x >> 16) & 0xff) as u8);
    out.push(((x >> 24) & 0xff) as u8);
    assert(out@ =~= old(out)@ + le32(x));
}

fn push_le64(out: &mut Vec<u8>, x: u64)
    ensures
        final(out)@ == old(out)@ + le64(x),
{
    push_le32(out, (x & 0xffff_ffff) as u32);
    push_le32(out, (x >> 32) as u32);
    assert(out@ =~= old(out)@ + le64(x));
}

/// The bytes a read of the event device returns for an event stamped
/// `sec` seconds and `usec` microseconds (both taken as the kernel's
/// signed words).
pub fn encode_input_event(sec: u64, usec: u64, event_type: u16, code: u16, value: i32) -> (b: Vec<u8>)
    ensures
        b@ == spec_input_event_bytes(sec, usec, event_type, code, value as u32),
        b@.len() == INPUT_EVENT_SIZE,
{
    let mut out: Vec<u8> = Vec::new();
    push_le64(&mut out, sec);
    push_le64(&mut out, usec);
    push_le16(&mut out, event_type);
    push_le16(&mut out, code);
    push_le32(&mut out, value as u32);
    assert(out@ =~= spec_input_event_bytes(sec, usec, event_type, code, value as u32));
    out
}

/// How a read of the event device may proceed for a buffer of `buf_len`
/// bytes.
#[derive(Clone, Copy, Debug, PartialEq, Eq, Structural)]
pub enum EventRead {
    /// An empty buffer reads nothing.
    Empty,
    /// Room for this many whole events.
    Slots(usize),
}

/// Plan of an event read: an empty buffer reads nothing, a buffer shorter
/// than one event is invalid, any other holds `buf_len / 24` events.
pub fn event_read_plan(buf_len: usize) -> (r: Result<EventRead, AxError>)
    ensures
        buf_len == 0 ==> r == Ok::<EventRead, AxError>(EventRead::Empty),
        0 < buf_len < INPUT_EVENT_SIZE ==> r == Err::<EventRead, AxError>(AxError::InvalidInput),
        buf_len >= INPUT_EVENT_SIZE ==> r == Ok::<EventRead, AxError>(EventRead::Slots(buf_len / INPUT_EVENT_SIZE)),
{
    if buf_len == 0 {
        Ok(EventRead::Empty)
    } else if buf_len < INPUT_EVENT_SIZE {
        Err(AxError::InvalidInput)
    } else {
        Ok(EventRead::Slots(buf_len / INPUT_EVENT_SIZE))
    }
}

/// Result of an event read that copied `read` bytes: nothing available
/// would block.
pub fn event_read_result(read: usize) -> (r: Result<usize, AxError>)
    ensures
        read == 0 ==> r == Err::<usize, AxError>(AxError::WouldBlock),
        read > 0 ==> r == Ok::<usize, AxError>(read),
{
    if read == 0 {
        Err(AxError::WouldBlock)
    } else {
        Ok(read)
    }
}

/// First mouse button code.
pub const BTN_MOUSE: usize = 0x110;

/// Whether a device whose supported keys are `keys` (one bit per key code)
/// is a mouse: it reports the left mouse button.
pub fn is_mouse(keys: &[u8]) -> (r: bool)
    requires
        keys@.len() > BTN_MOUSE / 8,
    ensures
        r == (keys@[(BTN_MOUSE / 8) as int] & 1 != 0),
{
    // BTN_MOUSE is a multiple of 8: its bit is bit 0 of its byte.
    keys[BTN_MOUSE / 8] & 1 != 0
}

} // verus!
