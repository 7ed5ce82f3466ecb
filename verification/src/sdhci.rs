//! SD host controller: register window and command pipeline.
//!
//! Drives the command pipeline: argument register, transfer-mode shape (if
//! data is present), command register, then the normal/error interrupt
//! status registers, and finally the response slot(s).
//!
//! The controller is modelled by its register window: a little-endian byte
//! image of `REG_WINDOW_SIZE` bytes that every access reads and writes.
use vstd::prelude::*;

use crate::sdhci_irq::{IrqState, SdhciIrq, spec_next_generation};
use crate::sdhci_regs::{
    REG_WINDOW_SIZE, REG_BLOCK_SIZE, REG_BLOCK_COUNT, REG_ARGUMENT, REG_TRANSFER_MODE, REG_COMMAND, REG_RESPONSE0, REG_PRESENT_STATE, REG_TIMEOUT_CONTROL, REG_SOFTWARE_RESET, REG_NORMAL_INT_STATUS, REG_ERROR_INT_STATUS, NORMAL_INT_CMD_COMPLETE, NORMAL_INT_XFER_COMPLETE, NORMAL_INT_BUFFER_WRITE_READY, NORMAL_INT_BUFFER_READ_READY, NORMAL_INT_ERROR, NORMAL_INT_CLEAR_ALL, ERROR_INT_CMD_TIMEOUT, ERROR_INT_CMD_CRC, ERROR_INT_DATA_TIMEOUT, ERROR_INT_DATA_CRC, ERROR_INT_CMD_LINE_MASK, ERROR_INT_DATA_LINE_MASK, ERROR_INT_CLEAR_ALL, XFER_MODE_DMA_ENABLE, XFER_MODE_BLOCK_COUNT_ENABLE, XFER_MODE_AUTO_CMD12, XFER_MODE_READ, XFER_MODE_MULTI_BLOCK, CMD_RESP_NONE, CMD_RESP_LEN136, CMD_RESP_LEN48, CMD_RESP_LEN48_BUSY, CMD_CRC_CHECK, CMD_INDEX_CHECK, CMD_DATA_PRESENT, PRESENT_CMD_INHIBIT, PRESENT_DAT_INHIBIT, PRESENT_DAT0_LINE_SIGNAL_LEVEL, SOFTWARE_RESET_CMD, SOFTWARE_RESET_DAT, DATA_TIMEOUT_COUNTER,
};
use crate::sdmmc::{
    CMD12_INDEX, Command, CommandPoll, CommandResponsePoll, DataDirection, Error, ErrorContext,
    Phase, Response, ResponseType,
};

verus! {

/// Number of polls a command may wait for the inhibit bits or its response.
pub const COMMAND_WAIT_POLLS: u32 = 1_000_000;
/// Number of polls an R1b command may wait for DAT0 to leave busy.
pub const COMMAND_BUSY_POLLS: u32 = 1_000_000;

// ---------------------------------------------------------------------
// Register window model
// ---------------------------------------------------------------------

pub open spec fn spec_read8(w: Seq<u8>, off: int) -> u8 {
    w[off]
}

pub open spec fn spec_read16(w: Seq<u8>, off: int) -> u16 {
    (w[off] + 256 * w[off + 1]) as u16
}

pub open spec fn spec_read32(w: Seq<u8>, off: int) -> u32 {
    (w[off] + 256 * w[off + 1] + 65536 * w[off + 2] + 16777216 * w[off + 3]) as u32
}

pub open spec fn spec_write8(w: Seq<u8>, off: int, v: u8) -> Seq<u8> {
    w.update(off, v)
}

pub open spec fn spec_write16(w: Seq<u8>, off: int, v: u16) -> Seq<u8> {
    w.update(off, (v % 256) as u8).update(off + 1, (v / 256) as u8)
}

pub open spec fn spec_write32(w: Seq<u8>, off: int, v: u32) -> Seq<u8> {
    w.update(off, (v % 256) as u8).update(off + 1, ((v / 256) % 256) as u8).update(
        off + 2,
        ((v / 65536) % 256) as u8,
    ).update(off + 3, (v / 16777216) as u8)
}

/// Reading back a 16-bit register gives what was last written to it.
pub proof fn lemma_write16_read16(w: Seq<u8>, off: int, v: u16)
    requires
        0 <= off,
        off + 2 <= w.len(),
    ensures
        spec_read16(spec_write16(w, off, v), off) == v,
        spec_write16(w, off, v).len() == w.len(),
{
}

/// Reading back a 32-bit register gives what was last written to it.
pub proof fn lemma_write32_read32(w: Seq<u8>, off: int, v: u32)
    requires
        0 <= off,
        off + 4 <= w.len(),
    ensures
        spec_read32(spec_write32(w, off, v), off) == v,
        spec_write32(w, off, v).len() == w.len(),
{
}

// ---------------------------------------------------------------------
// Command shapes
// ---------------------------------------------------------------------

/// Geometry and direction of the data phase queued for the next command.
#[derive(Clone, Copy, Debug, PartialEq, Eq, Structural)]
pub struct PendingData {
    pub direction: DataDirection,
    pub block_size: u32,
    pub block_count: u32,
}

/// Where the command pipeline stands.
#[derive(Clone, Copy, Debug)]
pub enum CommandState {
    Idle,
    WaitingInhibit { cmd: Command, data: Option<PendingData>, use_dma: bool, polls: u32 },
    Issued { cmd: Command, data_line: bool, polls: u32 },
    WaitingBusy { cmd: Command, response: Response, polls: u32 },
    Complete { response: Response },
    Failed { error: Error },
}

/// What the interrupt top half observed.
#[derive(Clone, Copy, Debug, PartialEq, Eq, Structural)]
pub enum Event {
    NoEvent,
    CommandComplete,
    TransferComplete,
    BufferReady,
    Error,
    Other,
}

pub open spec fn spec_transfer_mode(direction: DataDirection, block_count: u32, use_dma: bool) -> u16 {
    XFER_MODE_BLOCK_COUNT_ENABLE
        | (if block_count > 1 { XFER_MODE_MULTI_BLOCK } else { 0u16 })
        | (if direction == DataDirection::Read { XFER_MODE_READ } else { 0u16 })
        | (if use_dma { XFER_MODE_DMA_ENABLE } else { 0u16 })
}

/// Transfer-mode register value for a data command. Multi-block transfers
/// are not closed by the controller: the request state machine issues the
/// stop command itself, so auto-CMD12 stays off.
pub fn transfer_mode(direction: DataDirection, block_count: u32, use_dma: bool) -> (mode: u16)
    ensures
        mode == spec_transfer_mode(direction, block_count, use_dma),
{
    let multi: u16 = if block_count > 1 {
        XFER_MODE_MULTI_BLOCK
    } else {
        0
    };
    let read: u16 = if matches!(direction, DataDirection::Read) {
        XFER_MODE_READ
    } else {
        0
    };
    let dma: u16 = if use_dma {
        XFER_MODE_DMA_ENABLE
    } else {
        0
    };
    XFER_MODE_BLOCK_COUNT_ENABLE | multi | read | dma
}

/// A multi-block transfer sets the multi-block bit and never enables
/// auto-CMD12; a single-block transfer sets neither.
pub proof fn lemma_transfer_mode_leaves_stop_to_caller(direction: DataDirection, block_count: u32, use_dma: bool)
    ensures
        (spec_transfer_mode(direction, block_count, use_dma) & XFER_MODE_AUTO_CMD12) == 0,
        (spec_transfer_mode(direction, block_count, use_dma) & XFER_MODE_BLOCK_COUNT_ENABLE) != 0,
        block_count > 1 <==> (spec_transfer_mode(direction, block_count, use_dma) & XFER_MODE_MULTI_BLOCK) != 0,
        direction == DataDirection::Read <==> (spec_transfer_mode(direction, block_count, use_dma) & XFER_MODE_READ) != 0,
        use_dma <==> (spec_transfer_mode(direction, block_count, use_dma) & XFER_MODE_DMA_ENABLE) != 0,
{
    let a: u16 = if block_count > 1 { 0x20u16 } else { 0u16 };
    let b: u16 = if direction == DataDirection::Read { 0x10u16 } else { 0u16 };
    let c: u16 = if use_dma { 1u16 } else { 0u16 };
    assert(a == 0x20u16 || a == 0);
    assert(b == 0x10u16 || b == 0);
    assert(c == 1u16 || c == 0);
    assert(((2u16 | a | b | c) & 4u16) == 0 && ((2u16 | a | b | c) & 2u16) != 0 && (a != 0 <==> ((2u16 | a | b | c) & 0x20u16) != 0) && (b != 0 <==> ((2u16 | a | b | c) & 0x10u16) != 0) && (c != 0 <==> ((2u16 | a | b | c) & 1u16) != 0)) by (bit_vector)
        requires
            a == 0x20u16 || a == 0,
            b == 0x10u16 || b == 0,
            c == 1u16 || c == 0,
    ;
}

pub open spec fn spec_uses_data_line(cmd: Command, has_data: bool) -> bool {
    has_data || cmd.response == ResponseType::R1b
}

fn command_uses_data_line(cmd: &Command, has_data: bool) -> (r: bool)
    ensures
        r == spec_uses_data_line(*cmd, has_data),
{
    has_data || matches!(cmd.response, ResponseType::R1b)
}

pub open spec fn spec_inhibit_mask(cmd: Command, has_data: bool) -> u32 {
    if spec_uses_data_line(cmd, has_data) && cmd.index != CMD12_INDEX {
        PRESENT_CMD_INHIBIT | PRESENT_DAT_INHIBIT
    } else {
        PRESENT_CMD_INHIBIT
    }
}

/// Present-state bits that must be clear before `cmd` may be issued. The
/// stop command is allowed while the data line is still busy.
fn command_inhibit_mask(cmd: &Command, has_data: bool) -> (mask: u32)
    ensures
        mask == spec_inhibit_mask(*cmd, has_data),
{
    let mut mask = PRESENT_CMD_INHIBIT;
    if command_uses_data_line(cmd, has_data) {
        mask = mask | PRESENT_DAT_INHIBIT;
    }
    if cmd.index == CMD12_INDEX {
        mask = mask & !PRESENT_DAT_INHIBIT;
    }
    proof {
        assert((1u32 | 2u32) & !2u32 == 1u32) by (bit_vector);
        assert(1u32 & !2u32 == 1u32) by (bit_vector);
        assert(1u32 | 2u32 == 3u32) by (bit_vector);
    }
    mask
}

pub open spec fn spec_response_bits(rt: ResponseType) -> u16 {
    match rt {
        ResponseType::NoResponse => CMD_RESP_NONE,
        ResponseType::R1 | ResponseType::R5 | ResponseType::R6 | ResponseType::R7 => CMD_RESP_LEN48
            | CMD_CRC_CHECK | CMD_INDEX_CHECK,
        ResponseType::R1b => CMD_RESP_LEN48_BUSY | CMD_CRC_CHECK | CMD_INDEX_CHECK,
        ResponseType::R2 => CMD_RESP_LEN136 | CMD_CRC_CHECK,
        ResponseType::R3 | ResponseType::R4 => CMD_RESP_LEN48,
    }
}

pub open spec fn spec_encode_command(cmd: Command, has_data: bool) -> u16 {
    ((cmd.index as u16) * 256) as u16 | (if has_data { CMD_DATA_PRESENT } else { 0u16 })
        | spec_response_bits(cmd.response)
}

/// The bits 4..0 of the command register that a response type asks for:
/// response length (none, 136, 48, 48 with busy) and the CRC and index
/// checks, as the SD host controller specification lays them out.
pub open spec fn expected_response_field(rt: ResponseType) -> u16 {
    match rt {
        ResponseType::NoResponse => 0x00,
        ResponseType::R1 | ResponseType::R5 | ResponseType::R6 | ResponseType::R7 => 0x1a,
        ResponseType::R1b => 0x1b,
        ResponseType::R2 => 0x09,
        ResponseType::R3 | ResponseType::R4 => 0x02,
    }
}

proof fn lemma_command_register_bits(index: u8, data: u16, resp: u16)
    by (bit_vector)
    requires
        data == 0 || data == 0x20,
        resp & 0xffe0 == 0,
    ensures
        ((((index as u16) * 256) as u16 | data | resp) >> 8u16) == index as u16,
        ((((index as u16) * 256) as u16 | data | resp) & 0x20u16 != 0) == (data == 0x20),
        (((index as u16) * 256) as u16 | data | resp) & 0xc0u16 == 0,
        (((index as u16) * 256) as u16 | data | resp) & 0x1fu16 == resp,
{
}

/// The command register programmed for a command: the command index in
/// bits 15..8, the data-present bit (bit 5) set exactly when the command
/// moves data, bits 7..6 clear, and in bits 4..0 the response length and
/// checks its response type asks for.
pub proof fn lemma_command_register_fields(cmd: Command, has_data: bool)
    ensures
        spec_encode_command(cmd, has_data) >> 8u16 == cmd.index as u16,
        (spec_encode_command(cmd, has_data) & CMD_DATA_PRESENT != 0) == has_data,
        spec_encode_command(cmd, has_data) & 0xc0u16 == 0,
        spec_encode_command(cmd, has_data) & 0x1fu16 == expected_response_field(cmd.response),
{
    let data: u16 = if has_data { CMD_DATA_PRESENT } else { 0u16 };
    let resp = spec_response_bits(cmd.response);
    assert(resp & 0xffe0 == 0 && resp == expected_response_field(cmd.response)) by {
        assert(0x02u16 | 0x08u16 | 0x10u16 == 0x1au16 && 0x03u16 | 0x08u16 | 0x10u16 == 0x1bu16 && 0x01u16 | 0x08u16
            == 0x09u16 && 0x1au16 & 0xffe0u16 == 0 && 0x1bu16 & 0xffe0u16 == 0 && 0x09u16 & 0xffe0u16 == 0 && 0x02u16
            & 0xffe0u16 == 0 && 0u16 & 0xffe0u16 == 0) by (bit_vector);
    }
    lemma_command_register_bits(cmd.index, data, resp);
}

/// Command register value: index in bits 13..8, data-present flag and the
/// response-length/check bits of the expected response.
fn encode_command(cmd: &Command, has_data: bool) -> (r: Result<u16, Error>)
    ensures
        r == Ok::<u16, Error>(spec_encode_command(*cmd, has_data)),
{
    let resp_bits: u16 = match cmd.response {
        ResponseType::NoResponse => CMD_RESP_NONE,
        ResponseType::R1 | ResponseType::R5 | ResponseType::R6 | ResponseType::R7 => {
            CMD_RESP_LEN48 | CMD_CRC_CHECK | CMD_INDEX_CHECK
        },
        ResponseType::R1b => CMD_RESP_LEN48_BUSY | CMD_CRC_CHECK | CMD_INDEX_CHECK,
        ResponseType::R2 => CMD_RESP_LEN136 | CMD_CRC_CHECK,
        ResponseType::R3 | ResponseType::R4 => CMD_RESP_LEN48,
    };
    let data_bit: u16 = if has_data {
        CMD_DATA_PRESENT
    } else {
        0
    };
    let cmd_index: u16 = (cmd.index as u16) * 256;
    Ok(cmd_index | data_bit | resp_bits)
}

pub open spec fn spec_translate_error(err: u16, cmd_index: u8) -> Error {
    let ctx = ErrorContext { phase: Phase::ResponseWait, cmd: Some(cmd_index) };
    if err & (ERROR_INT_CMD_TIMEOUT | ERROR_INT_DATA_TIMEOUT) != 0 {
        Error::Timeout(ctx)
    } else if err & (ERROR_INT_CMD_CRC | ERROR_INT_DATA_CRC) != 0 {
        Error::Crc(ctx)
    } else if err & ERROR_INT_DATA_LINE_MASK != 0 {
        Error::ReadError(ctx)
    } else {
        Error::BadResponse(ctx)
    }
}

// ---------------------------------------------------------------------
// Abstract state of the host
// ---------------------------------------------------------------------

/// Everything the command pipeline reads and writes.
pub struct SdhciModel {
    pub window: Seq<u8>,
    pub irq: IrqState,
    pub pending_data: Option<PendingData>,
    pub use_dma: bool,
    pub active_data_cmd: u8,
    pub command_state: CommandState,
    pub completion_irq: bool,
}

/// An SD host controller.
pub struct Sdhci {
    regs: Vec<u8>,
    irq: SdhciIrq,
    pending_data: Option<PendingData>,
    use_dma: bool,
    active_data_cmd: u8,
    command_state: CommandState,
    completion_irq: bool,
}

impl View for Sdhci {
    type V = SdhciModel;

    closed spec fn view(&self) -> SdhciModel {
        SdhciModel {
            window: self.regs@,
            irq: self.irq.state,
            pending_data: self.pending_data,
            use_dma: self.use_dma,
            active_data_cmd: self.active_data_cmd,
            command_state: self.command_state,
            completion_irq: self.completion_irq,
        }
    }
}

pub open spec fn spec_response32(w: Seq<u8>, i: int) -> u32 {
    spec_read32(w, REG_RESPONSE0 + 4 * i)
}

/// Word `k` of the 128-bit R2 frame as it was on the bus: the controller
/// drops the leading header byte and the trailing CRC byte and stores the
/// rest shifted up by eight bits across the four response slots.
pub open spec fn spec_r2_word(w: Seq<u8>, k: int) -> u32 {
    let raw0 = spec_response32(w, 0);
    let raw1 = spec_response32(w, 1);
    let raw2 = spec_response32(w, 2);
    let raw3 = spec_response32(w, 3);
    if k == 0 {
        (raw3 << 8u32) | (raw2 >> 24u32)
    } else if k == 1 {
        (raw2 << 8u32) | (raw1 >> 24u32)
    } else if k == 2 {
        (raw1 << 8u32) | (raw0 >> 24u32)
    } else {
        raw0 << 8u32
    }
}

/// The R2 frame serialised most significant byte first.
pub open spec fn spec_r2_bytes(w: Seq<u8>) -> [u8; 16] {
    let w0 = spec_r2_word(w, 0);
    let w1 = spec_r2_word(w, 1);
    let w2 = spec_r2_word(w, 2);
    let w3 = spec_r2_word(w, 3);
    [
        (w0 >> 24u32) as u8, (w0 >> 16u32) as u8, (w0 >> 8u32) as u8, w0 as u8,
        (w1 >> 24u32) as u8, (w1 >> 16u32) as u8, (w1 >> 8u32) as u8, w1 as u8,
        (w2 >> 24u32) as u8, (w2 >> 16u32) as u8, (w2 >> 8u32) as u8, w2 as u8,
        (w3 >> 24u32) as u8, (w3 >> 16u32) as u8, (w3 >> 8u32) as u8, w3 as u8,
    ]
}

/// The four response slots as one 128-bit value, slot 0 lowest.
pub open spec fn spec_response128(w: Seq<u8>) -> u128 {
    ((spec_response32(w, 3) as u128) << 96u128) | ((spec_response32(w, 2) as u128) << 64u128) | ((spec_response32(w, 1) as u128)
        << 32u128) | (spec_response32(w, 0) as u128)
}

/// The R2 frame: the 128-bit response shifted left by eight bits,
/// serialised most significant byte first.
pub open spec fn spec_r2_frame(w: Seq<u8>) -> Seq<u8> {
    let f = spec_response128(w) << 8u128;
    Seq::new(16, |i: int| (f >> ((8 * (15 - i)) as u128)) as u8)
}

/// Byte `i` (most significant first) of the 128-bit value with words
/// `r3 r2 r1 r0`, shifted left by eight bits, is the byte the word-wise
/// construction of the R2 frame puts there.
proof fn lemma_r2_bytes_bv(r0: u32, r1: u32, r2: u32, r3: u32)
    by (bit_vector)
    ensures
        ({
            let f = (((r3 as u128) << 96u128) | ((r2 as u128) << 64u128) | ((r1 as u128) << 32u128) | (r0 as u128)) << 8u128;
            let w0 = (r3 << 8u32) | (r2 >> 24u32);
            let w1 = (r2 << 8u32) | (r1 >> 24u32);
            let w2 = (r1 << 8u32) | (r0 >> 24u32);
            let w3 = r0 << 8u32;
            &&& (f >> 120u128) as u8 == (w0 >> 24u32) as u8
            &&& (f >> 112u128) as u8 == (w0 >> 16u32) as u8
            &&& (f >> 104u128) as u8 == (w0 >> 8u32) as u8
            &&& (f >> 96u128) as u8 == w0 as u8
            &&& (f >> 88u128) as u8 == (w1 >> 24u32) as u8
            &&& (f >> 80u128) as u8 == (w1 >> 16u32) as u8
            &&& (f >> 72u128) as u8 == (w1 >> 8u32) as u8
            &&& (f >> 64u128) as u8 == w1 as u8
            &&& (f >> 56u128) as u8 == (w2 >> 24u32) as u8
            &&& (f >> 48u128) as u8 == (w2 >> 16u32) as u8
            &&& (f >> 40u128) as u8 == (w2 >> 8u32) as u8
            &&& (f >> 32u128) as u8 == w2 as u8
            &&& (f >> 24u128) as u8 == (w3 >> 24u32) as u8
            &&& (f >> 16u128) as u8 == (w3 >> 16u32) as u8
            &&& (f >> 8u128) as u8 == (w3 >> 8u32) as u8
            &&& (f >> 0u128) as u8 == w3 as u8
        }),
{
}

/// The bytes `read_r2` returns are the R2 frame: the 128-bit response
/// shifted left by eight bits, most significant byte first.
pub proof fn lemma_r2_bytes_are_shifted_response(w: Seq<u8>)
    ensures
        spec_r2_bytes(w)@ == spec_r2_frame(w),
{
    lemma_r2_bytes_bv(spec_response32(w, 0), spec_response32(w, 1), spec_response32(w, 2), spec_response32(w, 3));
    assert(spec_r2_bytes(w)@ =~= spec_r2_frame(w));
}

pub open spec fn spec_decode_response(w: Seq<u8>, rt: ResponseType) -> Response {
    match rt {
        ResponseType::NoResponse => Response::Empty,
        ResponseType::R1 => Response::R1(spec_response32(w, 0)),
        ResponseType::R1b => Response::R1b(spec_response32(w, 0)),
        ResponseType::R2 => Response::R2(spec_r2_bytes(w)),
        ResponseType::R3 => Response::R3(spec_response32(w, 0)),
        ResponseType::R4 => Response::R4(spec_response32(w, 0)),
        ResponseType::R5 => Response::R5(spec_response32(w, 0)),
        ResponseType::R6 => Response::R6(spec_response32(w, 0)),
        ResponseType::R7 => Response::R7(spec_response32(w, 0)),
    }
}

/// Both status registers written with their clear-all pattern.
pub open spec fn spec_clear_hw_status(w: Seq<u8>) -> Seq<u8> {
    spec_write16(
        spec_write16(w, REG_NORMAL_INT_STATUS as int, NORMAL_INT_CLEAR_ALL),
        REG_ERROR_INT_STATUS as int,
        ERROR_INT_CLEAR_ALL,
    )
}

/// Window after a software reset of the lines in `mask` was requested.
pub open spec fn spec_reset_window(w: Seq<u8>, mask: u8) -> Seq<u8> {
    spec_write8(w, REG_SOFTWARE_RESET as int, mask)
}

/// Outcome of a software reset of the lines in `mask`: the reset is done
/// once the controller reports the bits clear again.
pub open spec fn spec_reset_result(w: Seq<u8>, mask: u8) -> Result<(), Error> {
    if spec_read8(spec_reset_window(w, mask), REG_SOFTWARE_RESET as int) & mask == 0 {
        Ok(())
    } else {
        Err(Error::Timeout(ErrorContext { phase: Phase::Reset, cmd: None }))
    }
}

/// Interrupt status taken from the cache filled by the top half: the bits
/// selected by `mask` and every cached error bit. `fifo` selects the data
/// FIFO rule, under which the error summary bit is dropped only when the
/// caller asked for it and it came with error bits.
pub open spec fn spec_cached_take(irq: IrqState, mask: u16, fifo: bool) -> (u16, u16, IrqState) {
    let normal = irq.normal & mask;
    let error = irq.error;
    let after = IrqState { normal: irq.normal & !mask, error: 0, ..irq };
    let drop_summary = if fifo {
        mask & NORMAL_INT_ERROR != 0 && error != 0 && normal & NORMAL_INT_ERROR != 0
    } else {
        error != 0
    };
    let after2 = if drop_summary {
        IrqState { normal: after.normal & !NORMAL_INT_ERROR, ..after }
    } else {
        after
    };
    (normal, error, after2)
}

/// Interrupt status read straight from the hardware registers: the normal
/// status, the error status when it is asked for and flagged, and the
/// window after the consumed bits were acknowledged.
pub open spec fn spec_hw_take(w: Seq<u8>, mask: u16, read_error: bool) -> (u16, u16, Seq<u8>) {
    let normal = spec_read16(w, REG_NORMAL_INT_STATUS as int);
    let error = if read_error && normal & NORMAL_INT_ERROR != 0 {
        spec_read16(w, REG_ERROR_INT_STATUS as int)
    } else {
        0u16
    };
    let consume = normal & mask;
    let w1 = if consume != 0 {
        spec_write16(w, REG_NORMAL_INT_STATUS as int, consume)
    } else {
        w
    };
    let w2 = if error != 0 {
        spec_write16(w1, REG_ERROR_INT_STATUS as int, error)
    } else {
        w1
    };
    (normal, error, w2)
}

/// Interrupt status for a poll step: the cache when completion IRQs are on
/// and it holds something relevant, the hardware registers otherwise.
pub open spec fn spec_take_status(m: SdhciModel, mask: u16, fifo: bool) -> (u16, u16, SdhciModel) {
    let read_error = !fifo || mask & NORMAL_INT_ERROR != 0;
    if m.completion_irq {
        let c = spec_cached_take(m.irq, mask, fifo);
        if c.0 & mask != 0 || c.1 != 0 {
            (c.0, c.1, SdhciModel { irq: c.2, ..m })
        } else {
            let h = spec_hw_take(m.window, mask, read_error);
            (h.0, h.1, SdhciModel { irq: c.2, window: h.2, ..m })
        }
    } else {
        let h = spec_hw_take(m.window, mask, read_error);
        (h.0, h.1, SdhciModel { window: h.2, ..m })
    }
}

/// Window after the data-phase registers were programmed.
pub open spec fn spec_data_phase_window(w: Seq<u8>, d: PendingData, use_dma: bool) -> Seq<u8> {
    let w1 = spec_write16(w, REG_BLOCK_SIZE as int, (d.block_size as u16) & 0x0FFFu16);
    let w2 = spec_write16(w1, REG_BLOCK_COUNT as int, d.block_count as u16);
    let w3 = spec_write8(w2, REG_TIMEOUT_CONTROL as int, DATA_TIMEOUT_COUNTER);
    spec_write16(w3, REG_TRANSFER_MODE as int, spec_transfer_mode(d.direction, d.block_count, use_dma))
}

/// Window after `cmd` (with its optional data phase) was written to the
/// controller.
pub open spec fn spec_program_window(w: Seq<u8>, cmd: Command, data: Option<PendingData>, use_dma: bool) -> Seq<u8> {
    let w1 = spec_clear_hw_status(w);
    let w2 = match data {
        Some(d) => spec_data_phase_window(w1, d, use_dma),
        None => spec_write16(w1, REG_TRANSFER_MODE as int, 0),
    };
    let w3 = spec_write32(w2, REG_ARGUMENT as int, cmd.argument);
    spec_write16(w3, REG_COMMAND as int, spec_encode_command(cmd, data is Some))
}

/// State once `cmd` has been issued to the controller.
pub open spec fn spec_program(m: SdhciModel, cmd: Command, data: Option<PendingData>, use_dma: bool) -> SdhciModel {
    SdhciModel {
        window: spec_program_window(m.window, cmd, data, use_dma),
        irq: IrqState { normal: 0, error: 0, ..m.irq },
        active_data_cmd: if data is Some { cmd.index } else { m.active_data_cmd },
        command_state: CommandState::Issued {
            cmd,
            data_line: spec_uses_data_line(cmd, data is Some),
            polls: 0,
        },
        ..m
    }
}

/// One poll of an R1b command waiting for the card to release DAT0.
pub open spec fn spec_busy_step(m: SdhciModel, cmd: Command, response: Response, polls: u32) -> (SdhciModel, Result<CommandPoll, Error>) {
    let t = spec_take_status(m, NORMAL_INT_CMD_COMPLETE | NORMAL_INT_ERROR, false);
    let m1 = t.2;
    if t.0 & NORMAL_INT_ERROR != 0 {
        let w1 = spec_reset_window(spec_reset_window(spec_clear_hw_status(m1.window), SOFTWARE_RESET_CMD), SOFTWARE_RESET_DAT);
        let err = spec_translate_error(t.1 & ERROR_INT_DATA_LINE_MASK, cmd.index);
        (SdhciModel { window: w1, command_state: CommandState::Failed { error: err }, ..m1 }, Err(err))
    } else if spec_read32(m1.window, REG_PRESENT_STATE as int) & PRESENT_DAT0_LINE_SIGNAL_LEVEL != 0 {
        (SdhciModel { command_state: CommandState::Complete { response }, ..m1 }, Ok(CommandPoll::Complete))
    } else if polls >= COMMAND_BUSY_POLLS {
        let err = Error::Timeout(ErrorContext { phase: Phase::BusyWait, cmd: Some(cmd.index) });
        (SdhciModel {
            window: spec_reset_window(m1.window, SOFTWARE_RESET_DAT),
            command_state: CommandState::Failed { error: err },
            ..m1
        }, Err(err))
    } else {
        (SdhciModel { command_state: CommandState::WaitingBusy { cmd, response, polls: (polls + 1) as u32 }, ..m1 }, Ok(CommandPoll::Pending))
    }
}

/// Window after the command line (and, when it is in use, the data line)
/// was reset.
pub open spec fn spec_reset_lines(w: Seq<u8>, data_line: bool) -> Seq<u8> {
    let w1 = spec_reset_window(w, SOFTWARE_RESET_CMD);
    if data_line { spec_reset_window(w1, SOFTWARE_RESET_DAT) } else { w1 }
}

/// One poll of an issued command waiting for its response.
pub open spec fn spec_issued_step(m: SdhciModel, cmd: Command, data_line: bool, polls: u32) -> (SdhciModel, Result<CommandPoll, Error>) {
    let t = spec_take_status(m, NORMAL_INT_CMD_COMPLETE | NORMAL_INT_ERROR, false);
    let m1 = t.2;
    if t.0 & NORMAL_INT_CMD_COMPLETE != 0 {
        let response = spec_decode_response(m1.window, cmd.response);
        if cmd.response == ResponseType::R1b {
            (SdhciModel { command_state: CommandState::WaitingBusy { cmd, response, polls: 0 }, ..m1 }, Ok(CommandPoll::Pending))
        } else {
            (SdhciModel { command_state: CommandState::Complete { response }, ..m1 }, Ok(CommandPoll::Complete))
        }
    } else if t.0 & NORMAL_INT_ERROR != 0 {
        let err = spec_translate_error(t.1 & ERROR_INT_CMD_LINE_MASK, cmd.index);
        (SdhciModel {
            window: spec_reset_lines(spec_clear_hw_status(m1.window), data_line),
            command_state: CommandState::Failed { error: err },
            ..m1
        }, Err(err))
    } else if polls >= COMMAND_WAIT_POLLS {
        let err = Error::Timeout(ErrorContext { phase: Phase::ResponseWait, cmd: Some(cmd.index) });
        (SdhciModel {
            window: spec_reset_lines(m1.window, data_line),
            command_state: CommandState::Failed { error: err },
            ..m1
        }, Err(err))
    } else {
        (SdhciModel { command_state: CommandState::Issued { cmd, data_line, polls: (polls + 1) as u32 }, ..m1 }, Ok(CommandPoll::Pending))
    }
}

/// One non-blocking advance of the command pipeline.
pub open spec fn spec_poll_command(m: SdhciModel) -> (SdhciModel, Result<CommandPoll, Error>) {
    match m.command_state {
        CommandState::WaitingInhibit { cmd, data, use_dma, polls } => {
            if spec_read32(m.window, REG_PRESENT_STATE as int) & spec_inhibit_mask(cmd, data is Some) != 0 {
                if polls >= COMMAND_WAIT_POLLS {
                    let err = Error::Timeout(ErrorContext { phase: Phase::CommandSend, cmd: Some(cmd.index) });
                    (SdhciModel { command_state: CommandState::Failed { error: err }, ..m }, Err(err))
                } else {
                    (SdhciModel {
                        command_state: CommandState::WaitingInhibit { cmd, data, use_dma, polls: (polls + 1) as u32 },
                        ..m
                    }, Ok(CommandPoll::Pending))
                }
            } else {
                (spec_program(m, cmd, data, use_dma), Ok(CommandPoll::Pending))
            }
        },
        CommandState::Issued { cmd, data_line, polls } => spec_issued_step(m, cmd, data_line, polls),
        CommandState::WaitingBusy { cmd, response, polls } => spec_busy_step(m, cmd, response, polls),
        CommandState::Complete { .. } => (m, Ok(CommandPoll::Complete)),
        CommandState::Failed { error } => (m, Err(error)),
        CommandState::Idle => (m, Err(Error::InvalidArgument)),
    }
}

/// Handing the outcome of a finished command back to the caller.
pub open spec fn spec_take_command_response(m: SdhciModel) -> (SdhciModel, Result<Response, Error>) {
    match m.command_state {
        CommandState::Complete { response } => (SdhciModel {
            command_state: CommandState::Idle,
            irq: if m.active_data_cmd == 0 { IrqState { active: false, normal: 0, error: 0, ..m.irq } } else { m.irq },
            ..m
        }, Ok(response)),
        CommandState::Failed { error } => (SdhciModel {
            command_state: CommandState::Idle,
            irq: IrqState { active: false, normal: 0, error: 0, ..m.irq },
            ..m
        }, Err(error)),
        _ => (m, Err(Error::InvalidArgument)),
    }
}

/// State right after a command was accepted for submission, before its
/// first poll: the queued data phase is consumed, stale hardware status is
/// cleared and a new interrupt generation is opened.
pub open spec fn spec_submit_start(m: SdhciModel, cmd: Command) -> SdhciModel {
    SdhciModel {
        window: spec_clear_hw_status(m.window),
        irq: IrqState {
            generation: spec_next_generation(m.irq.generation),
            active: true,
            normal: 0,
            error: 0,
        },
        pending_data: None,
        command_state: CommandState::WaitingInhibit { cmd, data: m.pending_data, use_dma: m.use_dma, polls: 0 },
        ..m
    }
}

pub open spec fn spec_submit_command(m: SdhciModel, cmd: Command) -> (SdhciModel, Result<(), Error>) {
    if !(m.command_state is Idle) {
        (m, Err(Error::UnsupportedCommand))
    } else {
        let p = spec_poll_command(spec_submit_start(m, cmd));
        match p.1 {
            Err(e) => (SdhciModel { command_state: CommandState::Idle, ..p.0 }, Err(e)),
            Ok(_) => (p.0, Ok(())),
        }
    }
}

pub open spec fn spec_poll_command_response(m: SdhciModel) -> (SdhciModel, Result<CommandResponsePoll, Error>) {
    let p = spec_poll_command(m);
    match p.1 {
        Ok(CommandPoll::Pending) => (p.0, Ok(CommandResponsePoll::Pending)),
        _ => {
            let t = spec_take_command_response(p.0);
            (t.0, match t.1 {
                Ok(r) => Ok(CommandResponsePoll::Complete(r)),
                Err(e) => Err(e),
            })
        },
    }
}

/// What the interrupt top half reports for the given status registers.
pub open spec fn spec_irq_event(normal: u16, error: u16) -> Event {
    if normal == 0 && error == 0 {
        Event::NoEvent
    } else if normal & NORMAL_INT_ERROR != 0 || error != 0 {
        Event::Error
    } else if normal & NORMAL_INT_CMD_COMPLETE != 0 {
        Event::CommandComplete
    } else if normal & NORMAL_INT_XFER_COMPLETE != 0 {
        Event::TransferComplete
    } else if normal & (NORMAL_INT_BUFFER_READ_READY | NORMAL_INT_BUFFER_WRITE_READY) != 0 {
        Event::BufferReady
    } else {
        Event::Other
    }
}

pub open spec fn spec_handle_irq(m: SdhciModel) -> (SdhciModel, Event) {
    let normal = spec_read16(m.window, REG_NORMAL_INT_STATUS as int);
    let error = if normal & NORMAL_INT_ERROR != 0 {
        spec_read16(m.window, REG_ERROR_INT_STATUS as int)
    } else {
        0u16
    };
    if normal == 0 {
        (m, Event::NoEvent)
    } else {
        let w0 = spec_write16(m.window, REG_NORMAL_INT_STATUS as int, normal);
        let w1 = if error != 0 { spec_write16(w0, REG_ERROR_INT_STATUS as int, error) } else { w0 };
        (SdhciModel {
            window: w1,
            irq: m.irq.spec_cache_if_current(m.irq.generation, normal, error),
            ..m
        }, spec_irq_event(normal, error))
    }
}

impl Sdhci {
    /// The register window has the size the controller decodes.
    pub open spec fn wf(&self) -> bool {
        self@.window.len() == REG_WINDOW_SIZE
    }

    /// A controller whose register window reads as all zeroes, with no
    /// request open and completion interrupts off.
    pub fn new() -> (host: Sdhci)
        ensures
            host.wf(),
            host@.window == Seq::new(REG_WINDOW_SIZE as nat, |i: int| 0u8),
            host@.irq == IrqState::new_spec(),
            host@.pending_data is None,
            !host@.use_dma,
            host@.active_data_cmd == 0,
            host@.command_state is Idle,
            !host@.completion_irq,
    {
        let mut regs: Vec<u8> = Vec::new();
        let mut i: usize = 0;
        while i < REG_WINDOW_SIZE
            invariant
                i <= REG_WINDOW_SIZE,
                regs@.len() == i,
                forall|j: int| 0 <= j < i ==> regs@[j] == 0u8,
            decreases REG_WINDOW_SIZE - i,
        {
            regs.push(0u8);
            i = i + 1;
        }
        let host = Sdhci {
            regs,
            irq: SdhciIrq { state: IrqState::new() },
            pending_data: None,
            use_dma: false,
            active_data_cmd: 0,
            command_state: CommandState::Idle,
            completion_irq: false,
        };
        assert(host@.window =~= Seq::new(REG_WINDOW_SIZE as nat, |i: int| 0u8));
        host
    }

    pub fn read_u8(&self, offset: usize) -> (v: u8)
        requires
            self.wf(),
            offset < REG_WINDOW_SIZE,
        ensures
            v == spec_read8(self@.window, offset as int),
    {
        self.regs[offset]
    }

    pub fn read_u16(&self, offset: usize) -> (v: u16)
        requires
            self.wf(),
            offset + 2 <= REG_WINDOW_SIZE,
        ensures
            v == spec_read16(self@.window, offset as int),
    {
        let lo = self.regs[offset] as u16;
        let hi = self.regs[offset + 1] as u16;
        lo + hi * 256
    }

    pub fn read_u32(&self, offset: usize) -> (v: u32)
        requires
            self.wf(),
            offset + 4 <= REG_WINDOW_SIZE,
        ensures
            v == spec_read32(self@.window, offset as int),
    {
        let b0 = self.regs[offset] as u32;
        let b1 = self.regs[offset + 1] as u32;
        let b2 = self.regs[offset + 2] as u32;
        let b3 = self.regs[offset + 3] as u32;
        b0 + b1 * 256 + b2 * 65536 + b3 * 16777216
    }

    pub fn write_u8(&mut self, offset: usize, value: u8)
        requires
            old(self).wf(),
            offset < REG_WINDOW_SIZE,
        ensures
            final(self)@ == (SdhciModel { window: spec_write8(old(self)@.window, offset as int, value), ..old(self)@ }),
            final(self).wf(),
    {
        self.regs.set(offset, value);
    }

    pub fn write_u16(&mut self, offset: usize, value: u16)
        requires
            old(self).wf(),
            offset + 2 <= REG_WINDOW_SIZE,
        ensures
            final(self)@ == (SdhciModel { window: spec_write16(old(self)@.window, offset as int, value), ..old(self)@ }),
            final(self).wf(),
    {
        self.regs.set(offset, (value % 256) as u8);
        self.regs.set(offset + 1, (value / 256) as u8);
    }

    pub fn write_u32(&mut self, offset: usize, value: u32)
        requires
            old(self).wf(),
            offset + 4 <= REG_WINDOW_SIZE,
        ensures
            final(self)@ == (SdhciModel { window: spec_write32(old(self)@.window, offset as int, value), ..old(self)@ }),
            final(self).wf(),
    {
        self.regs.set(offset, (value % 256) as u8);
        self.regs.set(offset + 1, ((value / 256) % 256) as u8);
        self.regs.set(offset + 2, ((value / 65536) % 256) as u8);
        self.regs.set(offset + 3, (value / 16777216) as u8);
    }

    /// Response slot `index` (0..4).
    pub fn response32(&self, index: usize) -> (v: u32)
        requires
            self.wf(),
            index < 4,
        ensures
            v == spec_response32(self@.window, index as int),
    {
        self.read_u32(REG_RESPONSE0 + 4 * index)
    }

    /// Lets the poll steps consume status cached by the interrupt top half.
    pub fn enable_completion_irq(&mut self)
        ensures
            final(self)@ == (SdhciModel { completion_irq: true, ..old(self)@ }),
    {
        self.completion_irq = true;
    }

    /// Whether completion interrupts feed the poll steps.
    pub fn completion_irq_enabled(&self) -> (r: bool)
        ensures
            r == self@.completion_irq,
    {
        self.completion_irq
    }

    /// Current stage of the command pipeline.
    pub fn command_state(&self) -> (s: CommandState)
        ensures
            s == self@.command_state,
    {
        self.command_state
    }

    /// The interrupt status cache shared with the interrupt handler.
    pub fn irq_state(&self) -> (s: &IrqState)
        ensures
            *s == self@.irq,
    {
        &self.irq.state
    }

    /// The interrupt status cache, for the interrupt handler to update;
    /// nothing else of the controller changes.
    pub fn irq_state_mut(&mut self) -> (s: &mut IrqState)
        ensures
            *s == old(self)@.irq,
            final(self)@ == (SdhciModel { irq: *final(s), ..old(self)@ }),
    {
        &mut self.irq.state
    }
}

pub open spec fn spec_abort(m: SdhciModel) -> (SdhciModel, Result<(), Error>) {
    let w1 = spec_clear_hw_status(m.window);
    let irq1 = IrqState { active: false, normal: 0, error: 0, ..m.irq };
    let w2 = spec_reset_window(w1, SOFTWARE_RESET_CMD);
    let r1 = spec_reset_result(w1, SOFTWARE_RESET_CMD);
    if r1 is Err {
        (SdhciModel { window: w2, irq: irq1, ..m }, r1)
    } else {
        let w3 = spec_reset_window(w2, SOFTWARE_RESET_DAT);
        let r2 = spec_reset_result(w2, SOFTWARE_RESET_DAT);
        if r2 is Err {
            (SdhciModel { window: w3, irq: irq1, ..m }, r2)
        } else {
            (SdhciModel {
                window: w3,
                irq: irq1,
                pending_data: None,
                use_dma: false,
                active_data_cmd: 0,
                command_state: CommandState::Idle,
                ..m
            }, Ok(()))
        }
    }
}

impl Sdhci {
    /// Queues the data phase that the next submitted command carries.
    pub fn queue_data(&mut self, data: PendingData, use_dma: bool)
        ensures
            final(self)@ == (SdhciModel { pending_data: Some(data), use_dma, ..old(self)@ }),
    {
        self.pending_data = Some(data);
        self.use_dma = use_dma;
    }

    fn reset_line(&mut self, mask: u8) -> (r: Result<(), Error>)
        requires
            old(self).wf(),
        ensures
            final(self).wf(),
            final(self)@ == (SdhciModel { window: spec_reset_window(old(self)@.window, mask), ..old(self)@ }),
            r == spec_reset_result(old(self)@.window, mask),
    {
        self.write_u8(REG_SOFTWARE_RESET, mask);
        if self.read_u8(REG_SOFTWARE_RESET) & mask == 0 {
            Ok(())
        } else {
            Err(Error::Timeout(ErrorContext::for_phase(Phase::Reset)))
        }
    }

    /// Resets the command line.
    pub(crate) fn reset_cmd(&mut self) -> (r: Result<(), Error>)
        requires
            old(self).wf(),
        ensures
            final(self).wf(),
            final(self)@ == (SdhciModel { window: spec_reset_window(old(self)@.window, SOFTWARE_RESET_CMD), ..old(self)@ }),
            r == spec_reset_result(old(self)@.window, SOFTWARE_RESET_CMD),
    {
        self.reset_line(SOFTWARE_RESET_CMD)
    }

    /// Resets the data line.
    pub(crate) fn reset_dat(&mut self) -> (r: Result<(), Error>)
        requires
            old(self).wf(),
        ensures
            final(self).wf(),
            final(self)@ == (SdhciModel { window: spec_reset_window(old(self)@.window, SOFTWARE_RESET_DAT), ..old(self)@ }),
            r == spec_reset_result(old(self)@.window, SOFTWARE_RESET_DAT),
    {
        self.reset_line(SOFTWARE_RESET_DAT)
    }

    fn take_irq_status(&mut self, mask: u16, fifo: bool) -> (r: (u16, u16))
        requires
            old(self).wf(),
        ensures
            final(self).wf(),
            (r.0, r.1, final(self)@) == spec_take_status(old(self)@, mask, fifo),
    {
        if self.completion_irq {
            let normal = self.irq.state.take_normal(mask);
            let error = self.irq.state.take_error_all();
            let drop_summary = if fifo {
                mask & NORMAL_INT_ERROR != 0 && error != 0 && normal & NORMAL_INT_ERROR != 0
            } else {
                error != 0
            };
            if drop_summary {
                self.irq.state.clear_normal(NORMAL_INT_ERROR);
            }
            if normal & mask != 0 || error != 0 {
                return (normal, error);
            }
        }
        let read_error = !fifo || mask & NORMAL_INT_ERROR != 0;
        let normal_hw = self.read_u16(REG_NORMAL_INT_STATUS);
        let error_hw = if read_error && normal_hw & NORMAL_INT_ERROR != 0 {
            self.read_u16(REG_ERROR_INT_STATUS)
        } else {
            0
        };
        let consume_normal = normal_hw & mask;
        if consume_normal != 0 {
            self.write_u16(REG_NORMAL_INT_STATUS, consume_normal);
        }
        if error_hw != 0 {
            self.write_u16(REG_ERROR_INT_STATUS, error_hw);
        }
        (normal_hw, error_hw)
    }

    /// Command-complete / error status for the command poll step.
    fn take_command_irq_status(&mut self) -> (r: (u16, u16))
        requires
            old(self).wf(),
        ensures
            final(self).wf(),
            (r.0, r.1, final(self)@) == spec_take_status(old(self)@, NORMAL_INT_CMD_COMPLETE | NORMAL_INT_ERROR, false),
    {
        self.take_irq_status(NORMAL_INT_CMD_COMPLETE | NORMAL_INT_ERROR, false)
    }

    /// Transfer-complete / error status for the data-complete poll step.
    pub fn take_data_irq_status(&mut self) -> (r: (u16, u16))
        requires
            old(self).wf(),
        ensures
            final(self).wf(),
            (r.0, r.1, final(self)@) == spec_take_status(old(self)@, NORMAL_INT_XFER_COMPLETE | NORMAL_INT_ERROR, false),
    {
        self.take_irq_status(NORMAL_INT_XFER_COMPLETE | NORMAL_INT_ERROR, false)
    }

    /// Status bits selected by `mask` for the data FIFO step. Error bits are
    /// consumed only when `mask` asks for the error summary bit.
    pub fn take_fifo_irq_status(&mut self, mask: u16) -> (r: (u16, u16))
        requires
            old(self).wf(),
        ensures
            final(self).wf(),
            (r.0, r.1, final(self)@) == spec_take_status(old(self)@, mask, true),
    {
        self.take_irq_status(mask, true)
    }

    fn prepare_irq_for_request(&mut self)
        requires
            old(self).wf(),
        ensures
            final(self).wf(),
            final(self)@ == (SdhciModel {
                window: spec_clear_hw_status(old(self)@.window),
                irq: IrqState {
                    generation: spec_next_generation(old(self)@.irq.generation),
                    active: true,
                    normal: 0,
                    error: 0,
                },
                ..old(self)@
            }),
    {
        self.write_u16(REG_NORMAL_INT_STATUS, NORMAL_INT_CLEAR_ALL);
        self.write_u16(REG_ERROR_INT_STATUS, ERROR_INT_CLEAR_ALL);
        self.irq.state.begin_request();
    }

    /// Closes the interrupt generation of the finished request.
    pub(crate) fn clear_cached_irq_status(&mut self)
        ensures
            final(self)@ == (SdhciModel { irq: IrqState { active: false, normal: 0, error: 0, ..old(self)@.irq }, ..old(self)@ }),
    {
        self.irq.state.end_request();
    }

    fn translate_error_bits(&self, err: u16, cmd_index: u8) -> (e: Error)
        ensures
            e == spec_translate_error(err, cmd_index),
    {
        let ctx = ErrorContext::for_cmd(Phase::ResponseWait, cmd_index);
        if err & (ERROR_INT_CMD_TIMEOUT | ERROR_INT_DATA_TIMEOUT) != 0 {
            Error::Timeout(ctx)
        } else if err & (ERROR_INT_CMD_CRC | ERROR_INT_DATA_CRC) != 0 {
            Error::Crc(ctx)
        } else if err & ERROR_INT_DATA_LINE_MASK != 0 {
            Error::ReadError(ctx)
        } else {
            Error::BadResponse(ctx)
        }
    }

    fn configure_data_phase(&mut self, direction: DataDirection, block_size: u32, block_count: u32, use_dma: bool)
        requires
            old(self).wf(),
        ensures
            final(self).wf(),
            final(self)@ == (SdhciModel {
                window: spec_data_phase_window(
                    old(self)@.window,
                    PendingData { direction, block_size, block_count },
                    use_dma,
                ),
                ..old(self)@
            }),
    {
        // Block size register: bits 11..0 hold the block length, bits 14..12
        // the SDMA buffer boundary (0 = 4 KiB).
        self.write_u16(REG_BLOCK_SIZE, (block_size as u16) & 0x0FFF);
        self.write_u16(REG_BLOCK_COUNT, block_count as u16);
        let mode = transfer_mode(direction, block_count, use_dma);
        self.write_u8(REG_TIMEOUT_CONTROL, DATA_TIMEOUT_COUNTER);
        self.write_u16(REG_TRANSFER_MODE, mode);
    }

    fn command_can_issue(&self, cmd: &Command, has_data: bool) -> (r: bool)
        requires
            self.wf(),
        ensures
            r == (spec_read32(self@.window, REG_PRESENT_STATE as int) & spec_inhibit_mask(*cmd, has_data) == 0),
    {
        self.read_u32(REG_PRESENT_STATE) & command_inhibit_mask(cmd, has_data) == 0
    }

    fn program_command(&mut self, cmd: &Command, data: Option<PendingData>, use_dma: bool) -> (r: Result<(), Error>)
        requires
            old(self).wf(),
        ensures
            final(self).wf(),
            r is Ok,
            final(self)@ == spec_program(old(self)@, *cmd, data, use_dma),
    {
        let has_data = data.is_some();
        let data_line = command_uses_data_line(cmd, has_data);

        self.write_u16(REG_NORMAL_INT_STATUS, NORMAL_INT_CLEAR_ALL);
        self.write_u16(REG_ERROR_INT_STATUS, ERROR_INT_CLEAR_ALL);
        // Keep the active request generation alive: the IRQ top half must be
        // able to cache this command/data completion for the task-side poll.
        self.irq.state.clear_all();

        if let Some(d) = data {
            self.configure_data_phase(d.direction, d.block_size, d.block_count, use_dma);
        } else {
            self.write_u16(REG_TRANSFER_MODE, 0);
        }

        self.write_u32(REG_ARGUMENT, cmd.argument);
        let cmd_reg = encode_command(cmd, has_data)?;
        self.write_u16(REG_COMMAND, cmd_reg);
        if has_data {
            self.active_data_cmd = cmd.index;
        }
        self.command_state = CommandState::Issued { cmd: *cmd, data_line, polls: 0 };
        Ok(())
    }

    fn poll_r1b_busy(&mut self, cmd: Command, response: Response, polls: u32) -> (r: Result<CommandPoll, Error>)
        requires
            old(self).wf(),
        ensures
            final(self).wf(),
            (final(self)@, r) == spec_busy_step(old(self)@, cmd, response, polls),
    {
        let (normal, error) = self.take_command_irq_status();
        if normal & NORMAL_INT_ERROR != 0 {
            self.write_u16(REG_NORMAL_INT_STATUS, NORMAL_INT_CLEAR_ALL);
            self.write_u16(REG_ERROR_INT_STATUS, ERROR_INT_CLEAR_ALL);
            let _ = self.reset_cmd();
            let _ = self.reset_dat();
            let err = self.translate_error_bits(error & ERROR_INT_DATA_LINE_MASK, cmd.index);
            self.command_state = CommandState::Failed { error: err };
            return Err(err);
        }
        let present = self.read_u32(REG_PRESENT_STATE);
        if present & PRESENT_DAT0_LINE_SIGNAL_LEVEL != 0 {
            self.command_state = CommandState::Complete { response };
            return Ok(CommandPoll::Complete);
        }
        if polls >= COMMAND_BUSY_POLLS {
            let _ = self.reset_dat();
            let err = Error::Timeout(ErrorContext::for_cmd(Phase::BusyWait, cmd.index));
            self.command_state = CommandState::Failed { error: err };
            return Err(err);
        }
        self.command_state = CommandState::WaitingBusy { cmd, response, polls: polls + 1 };
        Ok(CommandPoll::Pending)
    }

    fn poll_issued(&mut self, cmd: Command, data_line: bool, polls: u32) -> (r: Result<CommandPoll, Error>)
        requires
            old(self).wf(),
        ensures
            final(self).wf(),
            (final(self)@, r) == spec_issued_step(old(self)@, cmd, data_line, polls),
    {
        let (normal, error) = self.take_command_irq_status();
        if normal & NORMAL_INT_CMD_COMPLETE != 0 {
            let response = match decode_response(self, cmd.response) {
                Ok(r) => r,
                Err(err) => {
                    // Park the pipeline in Failed before propagating: the
                    // status bits are already consumed, so staying in Issued
                    // would idle until the caller's own timeout fires.
                    self.command_state = CommandState::Failed { error: err };
                    return Err(err);
                },
            };
            if matches!(cmd.response, ResponseType::R1b) {
                self.command_state = CommandState::WaitingBusy { cmd, response, polls: 0 };
                return Ok(CommandPoll::Pending);
            }
            self.command_state = CommandState::Complete { response };
            Ok(CommandPoll::Complete)
        } else if normal & NORMAL_INT_ERROR != 0 {
            self.write_u16(REG_NORMAL_INT_STATUS, NORMAL_INT_CLEAR_ALL);
            self.write_u16(REG_ERROR_INT_STATUS, ERROR_INT_CLEAR_ALL);
            let _ = self.reset_cmd();
            if data_line {
                let _ = self.reset_dat();
            }
            let err = self.translate_error_bits(error & ERROR_INT_CMD_LINE_MASK, cmd.index);
            self.command_state = CommandState::Failed { error: err };
            Err(err)
        } else {
            if polls >= COMMAND_WAIT_POLLS {
                let _ = self.reset_cmd();
                if data_line {
                    let _ = self.reset_dat();
                }
                let err = Error::Timeout(ErrorContext::for_cmd(Phase::ResponseWait, cmd.index));
                self.command_state = CommandState::Failed { error: err };
                return Err(err);
            }
            self.command_state = CommandState::Issued { cmd, data_line, polls: polls + 1 };
            Ok(CommandPoll::Pending)
        }
    }

    /// Advances the currently submitted command without blocking.
    pub fn poll_command(&mut self) -> (r: Result<CommandPoll, Error>)
        requires
            old(self).wf(),
        ensures
            final(self).wf(),
            (final(self)@, r) == spec_poll_command(old(self)@),
    {
        match self.command_state {
            CommandState::WaitingInhibit { cmd, data, use_dma, polls } => {
                if !self.command_can_issue(&cmd, data.is_some()) {
                    if polls >= COMMAND_WAIT_POLLS {
                        let err = Error::Timeout(ErrorContext::for_cmd(Phase::CommandSend, cmd.index));
                        self.command_state = CommandState::Failed { error: err };
                        return Err(err);
                    }
                    self.command_state = CommandState::WaitingInhibit { cmd, data, use_dma, polls: polls + 1 };
                    return Ok(CommandPoll::Pending);
                }
                self.program_command(&cmd, data, use_dma)?;
                Ok(CommandPoll::Pending)
            },
            CommandState::Issued { cmd, data_line, polls } => self.poll_issued(cmd, data_line, polls),
            CommandState::WaitingBusy { cmd, response, polls } => self.poll_r1b_busy(cmd, response, polls),
            CommandState::Complete { .. } => Ok(CommandPoll::Complete),
            CommandState::Failed { error } => Err(error),
            CommandState::Idle => Err(Error::InvalidArgument),
        }
    }

    /// Programs the command register and leaves completion to
    /// [`Sdhci::poll_command`].
    pub fn submit_command(&mut self, cmd: &Command) -> (r: Result<(), Error>)
        requires
            old(self).wf(),
        ensures
            final(self).wf(),
            (final(self)@, r) == spec_submit_command(old(self)@, *cmd),
    {
        if !matches!(self.command_state, CommandState::Idle) {
            return Err(Error::UnsupportedCommand);
        }
        let data = self.pending_data.take();
        self.prepare_irq_for_request();
        self.command_state = CommandState::WaitingInhibit { cmd: *cmd, data, use_dma: self.use_dma, polls: 0 };
        assert(self@ == spec_submit_start(old(self)@, *cmd));
        if let Err(err) = self.poll_command() {
            self.command_state = CommandState::Idle;
            return Err(err);
        }
        Ok(())
    }

    /// Hands the outcome of a finished command back and returns the
    /// pipeline to idle.
    pub fn take_command_response(&mut self) -> (r: Result<Response, Error>)
        ensures
            (final(self)@, r) == spec_take_command_response(old(self)@),
    {
        match self.command_state {
            CommandState::Complete { response } => {
                self.command_state = CommandState::Idle;
                if self.active_data_cmd == 0 {
                    self.clear_cached_irq_status();
                }
                Ok(response)
            },
            CommandState::Failed { error } => {
                self.command_state = CommandState::Idle;
                self.clear_cached_irq_status();
                Err(error)
            },
            _ => Err(Error::InvalidArgument),
        }
    }

    /// Polls the command and, once it has finished, harvests its response.
    pub fn poll_command_response(&mut self) -> (r: Result<CommandResponsePoll, Error>)
        requires
            old(self).wf(),
        ensures
            final(self).wf(),
            (final(self)@, r) == spec_poll_command_response(old(self)@),
    {
        match self.poll_command() {
            Ok(CommandPoll::Pending) => Ok(CommandResponsePoll::Pending),
            _ => match self.take_command_response() {
                Ok(response) => Ok(CommandResponsePoll::Complete(response)),
                Err(e) => Err(e),
            },
        }
    }

    /// Drops the current command: clears every status, resets both lines
    /// and returns the pipeline to idle.
    pub fn abort_command(&mut self) -> (r: Result<(), Error>)
        requires
            old(self).wf(),
        ensures
            final(self).wf(),
            (final(self)@, r) == spec_abort(old(self)@),
    {
        self.write_u16(REG_NORMAL_INT_STATUS, NORMAL_INT_CLEAR_ALL);
        self.write_u16(REG_ERROR_INT_STATUS, ERROR_INT_CLEAR_ALL);
        self.clear_cached_irq_status();
        self.reset_cmd()?;
        self.reset_dat()?;
        self.pending_data = None;
        self.use_dma = false;
        self.active_data_cmd = 0;
        self.command_state = CommandState::Idle;
        Ok(())
    }

    /// Interrupt top half: acknowledges the raised normal status bits and,
    /// when the error summary bit is among them, the error status bits;
    /// caches them for the active request and reports what happened.
    pub fn handle_irq(&mut self) -> (e: Event)
        requires
            old(self).wf(),
        ensures
            final(self).wf(),
            (final(self)@, e) == spec_handle_irq(old(self)@),
    {
        let normal = self.read_u16(REG_NORMAL_INT_STATUS);
        let error = if normal & NORMAL_INT_ERROR != 0 {
            self.read_u16(REG_ERROR_INT_STATUS)
        } else {
            0
        };
        if normal == 0 {
            return Event::NoEvent;
        }
        self.write_u16(REG_NORMAL_INT_STATUS, normal);
        if error != 0 {
            self.write_u16(REG_ERROR_INT_STATUS, error);
        }
        let generation = self.irq.state.generation();
        self.irq.state.cache_if_current(generation, normal, error);
        if normal & NORMAL_INT_ERROR != 0 || error != 0 {
            Event::Error
        } else if normal & NORMAL_INT_CMD_COMPLETE != 0 {
            Event::CommandComplete
        } else if normal & NORMAL_INT_XFER_COMPLETE != 0 {
            Event::TransferComplete
        } else if normal & (NORMAL_INT_BUFFER_READ_READY | NORMAL_INT_BUFFER_WRITE_READY) != 0 {
            Event::BufferReady
        } else {
            Event::Other
        }
    }
}

fn decode_response(host: &Sdhci, resp_type: ResponseType) -> (r: Result<Response, Error>)
    requires
        host.wf(),
    ensures
        r == Ok::<Response, Error>(spec_decode_response(host@.window, resp_type)),
{
    Ok(match resp_type {
        ResponseType::NoResponse => Response::Empty,
        ResponseType::R1 => Response::R1(host.response32(0)),
        ResponseType::R1b => Response::R1b(host.response32(0)),
        ResponseType::R2 => Response::R2(read_r2(host)),
        ResponseType::R3 => Response::R3(host.response32(0)),
        ResponseType::R4 => Response::R4(host.response32(0)),
        ResponseType::R5 => Response::R5(host.response32(0)),
        ResponseType::R6 => Response::R6(host.response32(0)),
        ResponseType::R7 => Response::R7(host.response32(0)),
    })
}

/// Reconstructs the on-bus 128-bit R2 frame from the four response slots
/// and serialises it most significant byte first.
fn read_r2(host: &Sdhci) -> (bytes: [u8; 16])
    requires
        host.wf(),
    ensures
        bytes == spec_r2_bytes(host@.window),
        bytes@ == spec_r2_frame(host@.window),
{
    proof {
        lemma_r2_bytes_are_shifted_response(host@.window);
    }
    let raw0 = host.response32(0);
    let raw1 = host.response32(1);
    let raw2 = host.response32(2);
    let raw3 = host.response32(3);
    let w0 = (raw3 << 8u32) | (raw2 >> 24u32);
    let w1 = (raw2 << 8u32) | (raw1 >> 24u32);
    let w2 = (raw1 << 8u32) | (raw0 >> 24u32);
    let w3 = raw0 << 8u32;
    [
        (w0 >> 24u32) as u8, (w0 >> 16u32) as u8, (w0 >> 8u32) as u8, w0 as u8,
        (w1 >> 24u32) as u8, (w1 >> 16u32) as u8, (w1 >> 8u32) as u8, w1 as u8,
        (w2 >> 24u32) as u8, (w2 >> 16u32) as u8, (w2 >> 8u32) as u8, w2 as u8,
        (w3 >> 24u32) as u8, (w3 >> 16u32) as u8, (w3 >> 8u32) as u8, w3 as u8,
    ]
}

/// Submitting a command from idle always starts from a fresh interrupt
/// generation with nothing cached: status left over from an earlier request
/// can never be observed by the new one. When the submission succeeds the
/// generation stays active so the top half can cache its completion.
pub proof fn lemma_submit_discards_stale_status(m: SdhciModel, cmd: Command)
    requires
        m.command_state is Idle,
    ensures
        spec_submit_command(m, cmd).0.irq.normal == 0,
        spec_submit_command(m, cmd).0.irq.error == 0,
        spec_submit_command(m, cmd).0.irq.generation == spec_next_generation(m.irq.generation),
        spec_submit_command(m, cmd).0.irq.generation != 0,
        spec_submit_command(m, cmd).1 is Ok ==> spec_submit_command(m, cmd).0.irq.active,
        spec_submit_command(m, cmd).0.pending_data is None,
{
}

/// A command cannot be submitted while another one is in flight; the
/// refused submission changes nothing.
pub proof fn lemma_submit_refused_while_busy(m: SdhciModel, cmd: Command)
    requires
        !(m.command_state is Idle),
    ensures
        spec_submit_command(m, cmd) == (m, Err::<(), Error>(Error::UnsupportedCommand)),
{
}

/// The poll count of a command waiting for the inhibit bits, its response
/// or the end of busy; none outside those phases.
pub open spec fn spec_wait_polls(s: CommandState) -> Option<u32> {
    match s {
        CommandState::WaitingInhibit { polls, .. } => Some(polls),
        CommandState::Issued { polls, .. } => Some(polls),
        CommandState::WaitingBusy { polls, .. } => Some(polls),
        _ => None,
    }
}

/// Whether two pipeline states are the same waiting phase.
pub open spec fn spec_same_wait_phase(a: CommandState, b: CommandState) -> bool {
    ||| a is WaitingInhibit && b is WaitingInhibit
    ||| a is Issued && b is Issued
    ||| a is WaitingBusy && b is WaitingBusy
}

/// A command cannot wait forever. A poll that leaves it waiting in the same
/// phase reports `Pending` and counts one more poll, and the count never
/// passes the phase's limit. Once the count has reached the limit, a poll
/// that finds no progress (inhibit bits still set; neither completion nor
/// error reported; DAT0 still low without error) fails with a timeout for
/// that phase and the command, and the pipeline keeps that error for
/// `take_command_response`.
pub proof fn lemma_command_wait_is_bounded(m: SdhciModel)
    ensures
        ({
            let (m2, r) = spec_poll_command(m);
            spec_same_wait_phase(m.command_state, m2.command_state) ==> {
                &&& r == Ok::<CommandPoll, Error>(CommandPoll::Pending)
                &&& spec_wait_polls(m2.command_state)->0 == spec_wait_polls(m.command_state)->0 + 1
                &&& spec_wait_polls(m2.command_state)->0 <= COMMAND_WAIT_POLLS
                &&& spec_wait_polls(m2.command_state)->0 <= COMMAND_BUSY_POLLS
            }
        }),
        m.command_state matches CommandState::WaitingInhibit { cmd, data, polls, .. } ==> polls >= COMMAND_WAIT_POLLS
            && spec_read32(m.window, REG_PRESENT_STATE as int) & spec_inhibit_mask(cmd, data is Some) != 0 ==> {
            let err = Error::Timeout(ErrorContext { phase: Phase::CommandSend, cmd: Some(cmd.index) });
            &&& spec_poll_command(m).1 == Err::<CommandPoll, Error>(err)
            &&& spec_poll_command(m).0.command_state == CommandState::Failed { error: err }
        },
        m.command_state matches CommandState::Issued { cmd, polls, .. } ==> polls >= COMMAND_WAIT_POLLS && spec_take_status(
            m,
            NORMAL_INT_CMD_COMPLETE | NORMAL_INT_ERROR,
            false,
        ).0 & (NORMAL_INT_CMD_COMPLETE | NORMAL_INT_ERROR) == 0 ==> {
            let err = Error::Timeout(ErrorContext { phase: Phase::ResponseWait, cmd: Some(cmd.index) });
            &&& spec_poll_command(m).1 == Err::<CommandPoll, Error>(err)
            &&& spec_poll_command(m).0.command_state == CommandState::Failed { error: err }
        },
        m.command_state matches CommandState::WaitingBusy { cmd, polls, .. } ==> polls >= COMMAND_BUSY_POLLS && ({
            let t = spec_take_status(m, NORMAL_INT_CMD_COMPLETE | NORMAL_INT_ERROR, false);
            t.0 & NORMAL_INT_ERROR == 0 && spec_read32(t.2.window, REG_PRESENT_STATE as int) & PRESENT_DAT0_LINE_SIGNAL_LEVEL == 0
        }) ==> {
            let err = Error::Timeout(ErrorContext { phase: Phase::BusyWait, cmd: Some(cmd.index) });
            &&& spec_poll_command(m).1 == Err::<CommandPoll, Error>(err)
            &&& spec_poll_command(m).0.command_state == CommandState::Failed { error: err }
        },
{
    let x: u16 = spec_take_status(m, NORMAL_INT_CMD_COMPLETE | NORMAL_INT_ERROR, false).0;
    assert(x & (NORMAL_INT_CMD_COMPLETE | NORMAL_INT_ERROR) == 0 ==> x & NORMAL_INT_CMD_COMPLETE == 0 && x & NORMAL_INT_ERROR
        == 0) by (bit_vector);
}

/// However the polls go, a command stays in one waiting phase for at most
/// as many consecutive `Pending` polls as the phase allows: along a run of
/// polls `ms` that never leaves the phase, the count grows by one per poll,
/// so the run is no longer than the limit.
pub proof fn lemma_wait_run_is_bounded(ms: Seq<SdhciModel>)
    requires
        ms.len() > 0,
        spec_wait_polls(ms[0].command_state) is Some,
        forall|i: int| 0 <= i < ms.len() - 1 ==> #[trigger] ms[i + 1] == spec_poll_command(ms[i]).0
            && spec_same_wait_phase(ms[i].command_state, ms[i + 1].command_state),
    ensures
        spec_wait_polls(ms.last().command_state)->0 == spec_wait_polls(ms[0].command_state)->0 + ms.len() - 1,
        ms.len() - 1 <= COMMAND_WAIT_POLLS,
    decreases ms.len(),
{
    if ms.len() > 1 {
        let prefix = ms.drop_last();
        assert forall|i: int| 0 <= i < prefix.len() - 1 implies #[trigger] prefix[i + 1] == spec_poll_command(prefix[i]).0
            && spec_same_wait_phase(prefix[i].command_state, prefix[i + 1].command_state) by {
            assert(prefix[i + 1] == ms[i + 1]);
            assert(prefix[i] == ms[i]);
        }
        lemma_wait_run_is_bounded(prefix);
        let k = ms.len() - 2;
        assert(ms[k + 1] == spec_poll_command(ms[k]).0);
        lemma_command_wait_is_bounded(ms[k]);
        assert(prefix.last() == ms[k]);
    }
}

/// Whether a poll of `m` finds no progress in its waiting phase: the
/// inhibit bits still set; neither completion nor error reported; DAT0
/// still low without an error.
pub open spec fn spec_no_progress(m: SdhciModel) -> bool {
    let t = spec_take_status(m, NORMAL_INT_CMD_COMPLETE | NORMAL_INT_ERROR, false);
    match m.command_state {
        CommandState::WaitingInhibit { cmd, data, .. } => spec_read32(m.window, REG_PRESENT_STATE as int)
            & spec_inhibit_mask(cmd, data is Some) != 0,
        CommandState::Issued { .. } => t.0 & (NORMAL_INT_CMD_COMPLETE | NORMAL_INT_ERROR) == 0,
        CommandState::WaitingBusy { .. } => t.0 & NORMAL_INT_ERROR == 0 && spec_read32(t.2.window, REG_PRESENT_STATE as int)
            & PRESENT_DAT0_LINE_SIGNAL_LEVEL == 0,
        _ => false,
    }
}

/// The timeout error of the waiting phase of `s`.
pub open spec fn spec_timeout_error(s: CommandState) -> Error {
    match s {
        CommandState::WaitingInhibit { cmd, .. } => Error::Timeout(ErrorContext { phase: Phase::CommandSend, cmd: Some(cmd.index) }),
        CommandState::Issued { cmd, .. } => Error::Timeout(ErrorContext { phase: Phase::ResponseWait, cmd: Some(cmd.index) }),
        CommandState::WaitingBusy { cmd, .. } => Error::Timeout(ErrorContext { phase: Phase::BusyWait, cmd: Some(cmd.index) }),
        _ => Error::InvalidArgument,
    }
}

/// A stalled command times out. Take a run of polls that stays in one
/// waiting phase, starting from a fresh count (as submitting a command or
/// entering the phase leaves it), with 1,000,000 `Pending` polls in it: a
/// further poll that finds no progress fails with the phase's timeout for
/// the command, and `take_command_response` then hands back that error.
/// No run that stays in the phase is longer.
pub proof fn lemma_stalled_command_times_out(ms: Seq<SdhciModel>)
    requires
        ms.len() == COMMAND_WAIT_POLLS + 1,
        spec_wait_polls(ms[0].command_state) == Some(0u32),
        forall|i: int| 0 <= i < ms.len() - 1 ==> #[trigger] ms[i + 1] == spec_poll_command(ms[i]).0
            && spec_same_wait_phase(ms[i].command_state, ms[i + 1].command_state),
        spec_no_progress(ms.last()),
    ensures
        spec_poll_command(ms.last()).1 == Err::<CommandPoll, Error>(spec_timeout_error(ms.last().command_state)),
        spec_take_command_response(spec_poll_command(ms.last()).0).1 == Err::<Response, Error>(
            spec_timeout_error(ms.last().command_state),
        ),
        !spec_same_wait_phase(ms.last().command_state, spec_poll_command(ms.last()).0.command_state),
{
    lemma_wait_run_is_bounded(ms);
    let m = ms.last();
    lemma_command_wait_is_bounded(m);
    assert(spec_wait_polls(m.command_state) is Some);
}

/// Once a command has finished (successfully or not) polling it again
/// reports the same outcome and changes nothing; polling with no command
/// submitted is an invalid request.
pub proof fn lemma_finished_poll_is_stable(m: SdhciModel)
    ensures
        m.command_state is Complete ==> spec_poll_command(m) == (m, Ok::<CommandPoll, Error>(CommandPoll::Complete)),
        m.command_state is Failed ==> spec_poll_command(m) == (m, Err::<CommandPoll, Error>(m.command_state->error)),
        m.command_state is Idle ==> spec_poll_command(m) == (m, Err::<CommandPoll, Error>(Error::InvalidArgument)),
{
}

/// Harvesting the outcome of a finished command returns the pipeline to
/// idle and hands back exactly the stored response or error.
pub proof fn lemma_take_response_returns_to_idle(m: SdhciModel)
    ensures
        m.command_state matches CommandState::Complete { response } ==> spec_take_command_response(m).0.command_state is Idle
            && spec_take_command_response(m).1 == Ok::<Response, Error>(response),
        m.command_state is Failed ==> spec_take_command_response(m).0.command_state is Idle
            && spec_take_command_response(m).1 == Err::<Response, Error>(m.command_state->error)
            && !spec_take_command_response(m).0.irq.active,
        !(m.command_state is Complete || m.command_state is Failed) ==> spec_take_command_response(m) == (m, Err::<Response, Error>(Error::InvalidArgument)),
{
}

/// The stop command never waits for the data line, and every other command
/// waits for it exactly when it moves data or expects a busy response.
pub proof fn lemma_inhibit_mask(cmd: Command, has_data: bool)
    ensures
        (spec_inhibit_mask(cmd, has_data) & PRESENT_CMD_INHIBIT) != 0,
        cmd.index == CMD12_INDEX ==> (spec_inhibit_mask(cmd, has_data) & PRESENT_DAT_INHIBIT) == 0,
        cmd.index != CMD12_INDEX ==> ((spec_inhibit_mask(cmd, has_data) & PRESENT_DAT_INHIBIT) != 0
            <==> (has_data || cmd.response == ResponseType::R1b)),
{
    assert((1u32 & 1u32) != 0 && ((1u32 | 2u32) & 1u32) != 0 && (1u32 & 2u32) == 0 && ((1u32 | 2u32) & 2u32) != 0) by (bit_vector);
}

/// While a request generation is active, every status bit the top half
/// acknowledges is kept in the cache for the task-side poll step.
pub proof fn lemma_irq_status_cached_for_active_request(m: SdhciModel, bit: u16)
    requires
        m.irq.active,
        spec_read16(m.window, REG_NORMAL_INT_STATUS as int) & bit != 0,
    ensures
        spec_handle_irq(m).0.irq.normal & bit != 0,
        spec_handle_irq(m).0.irq.generation == m.irq.generation,
{
    let n = spec_read16(m.window, REG_NORMAL_INT_STATUS as int);
    let old_n = m.irq.normal;
    assert((old_n | n) & bit != 0 && n != 0) by (bit_vector)
        requires
            n & bit != 0,
    ;
}

/// With completion interrupts on, the FIFO step consumes exactly the cached
/// bits it asked for and leaves every other cached bit for later steps.
pub proof fn lemma_fifo_take_consumes_only_mask(m: SdhciModel, mask: u16)
    requires
        m.completion_irq,
        (m.irq.normal & mask) != 0,
        mask & NORMAL_INT_ERROR == 0,
    ensures
        spec_take_status(m, mask, true).0 == m.irq.normal & mask,
        spec_take_status(m, mask, true).2.irq.normal == m.irq.normal & !mask,
        spec_take_status(m, mask, true).2.irq.normal & mask == 0,
        spec_take_status(m, mask, true).2.window == m.window,
{
    let n = m.irq.normal;
    assert((n & mask) & 0x8000u16 == 0) by (bit_vector)
        requires
            mask & 0x8000u16 == 0,
    ;
    assert((n & !mask) & mask == 0) by (bit_vector);
    assert((n & mask) & mask == n & mask) by (bit_vector);
}

impl IrqState {
    pub open spec fn new_spec() -> IrqState {
        IrqState { generation: 0, active: false, normal: 0, error: 0 }
    }
}

} // verus!
