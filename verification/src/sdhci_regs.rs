//! Register offsets and bit assignments of the SD host controller window.
use vstd::prelude::*;

verus! {

/// Size in bytes of the register window the host controller decodes.
pub const REG_WINDOW_SIZE: usize = 0x100;

pub const REG_BLOCK_SIZE: usize = 0x04;
pub const REG_BLOCK_COUNT: usize = 0x06;
pub const REG_ARGUMENT: usize = 0x08;
pub const REG_TRANSFER_MODE: usize = 0x0C;
pub const REG_COMMAND: usize = 0x0E;
pub const REG_RESPONSE0: usize = 0x10;
pub const REG_PRESENT_STATE: usize = 0x24;
pub const REG_HOST_CONTROL1: usize = 0x28;
pub const REG_POWER_CONTROL: usize = 0x29;
pub const REG_CLOCK_CONTROL: usize = 0x2C;
pub const REG_TIMEOUT_CONTROL: usize = 0x2E;
pub const REG_SOFTWARE_RESET: usize = 0x2F;
pub const REG_NORMAL_INT_STATUS: usize = 0x30;
pub const REG_ERROR_INT_STATUS: usize = 0x32;
pub const REG_NORMAL_INT_STATUS_ENABLE: usize = 0x34;
pub const REG_ERROR_INT_STATUS_ENABLE: usize = 0x36;
pub const REG_NORMAL_INT_SIGNAL_ENABLE: usize = 0x38;
pub const REG_ERROR_INT_SIGNAL_ENABLE: usize = 0x3A;
pub const REG_HOST_CONTROL2: usize = 0x3E;

pub const NORMAL_INT_CMD_COMPLETE: u16 = 0x0001;
pub const NORMAL_INT_XFER_COMPLETE: u16 = 0x0002;
pub const NORMAL_INT_BUFFER_WRITE_READY: u16 = 0x0010;
pub const NORMAL_INT_BUFFER_READ_READY: u16 = 0x0020;
pub const NORMAL_INT_ERROR: u16 = 0x8000;
pub const NORMAL_INT_CLEAR_ALL: u16 = 0xFFFF;

pub const ERROR_INT_CMD_TIMEOUT: u16 = 0x0001;
pub const ERROR_INT_CMD_CRC: u16 = 0x0002;
pub const ERROR_INT_CMD_END_BIT: u16 = 0x0004;
pub const ERROR_INT_CMD_INDEX: u16 = 0x0008;
pub const ERROR_INT_DATA_TIMEOUT: u16 = 0x0010;
pub const ERROR_INT_DATA_CRC: u16 = 0x0020;
pub const ERROR_INT_DATA_END_BIT: u16 = 0x0040;
pub const ERROR_INT_CMD_LINE_MASK: u16 = 0x000F;
pub const ERROR_INT_DATA_LINE_MASK: u16 = 0x0070;
pub const ERROR_INT_CLEAR_ALL: u16 = 0xFFFF;

pub const XFER_MODE_DMA_ENABLE: u16 = 0x0001;
pub const XFER_MODE_BLOCK_COUNT_ENABLE: u16 = 0x0002;
pub const XFER_MODE_AUTO_CMD12: u16 = 0x0004;
pub const XFER_MODE_READ: u16 = 0x0010;
pub const XFER_MODE_MULTI_BLOCK: u16 = 0x0020;

pub const CMD_RESP_NONE: u16 = 0x0000;
pub const CMD_RESP_LEN136: u16 = 0x0001;
pub const CMD_RESP_LEN48: u16 = 0x0002;
pub const CMD_RESP_LEN48_BUSY: u16 = 0x0003;
pub const CMD_CRC_CHECK: u16 = 0x0008;
pub const CMD_INDEX_CHECK: u16 = 0x0010;
pub const CMD_DATA_PRESENT: u16 = 0x0020;

pub const PRESENT_CMD_INHIBIT: u32 = 0x0000_0001;
pub const PRESENT_DAT_INHIBIT: u32 = 0x0000_0002;
pub const PRESENT_DAT0_LINE_SIGNAL_LEVEL: u32 = 0x0010_0000;

pub const SOFTWARE_RESET_CMD: u8 = 0x02;
pub const SOFTWARE_RESET_DAT: u8 = 0x04;

/// Data timeout counter value programmed before every data command.
pub const DATA_TIMEOUT_COUNTER: u8 = 0x0E;

} // verus!
