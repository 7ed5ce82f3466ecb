//! SD/MMC protocol vocabulary shared by the host controller and the block
//! adapter: commands, response kinds, decoded responses and errors.
use vstd::prelude::*;

verus! {

/// Direction of the data phase of a command.
#[derive(Clone, Copy, Debug, PartialEq, Eq, Structural)]
pub enum DataDirection {
    Read,
    Write,
}

/// Response format a command expects from the card.
#[derive(Clone, Copy, Debug, PartialEq, Eq, Structural)]
pub enum ResponseType {
    NoResponse,
    R1,
    R1b,
    R2,
    R3,
    R4,
    R5,
    R6,
    R7,
}

/// A command as issued on the CMD line.
#[derive(Clone, Copy, Debug, PartialEq, Eq, Structural)]
pub struct Command {
    pub index: u8,
    pub argument: u32,
    pub response: ResponseType,
}

/// Index of STOP_TRANSMISSION.
pub const CMD12_INDEX: u8 = 12;

/// READ_SINGLE_BLOCK at the given card address.
pub fn cmd17(address: u32) -> (c: Command)
    ensures
        c == (Command { index: 17, argument: address, response: ResponseType::R1 }),
{
    Command { index: 17, argument: address, response: ResponseType::R1 }
}

/// STOP_TRANSMISSION.
pub fn cmd12() -> (c: Command)
    ensures
        c == (Command { index: CMD12_INDEX, argument: 0, response: ResponseType::R1b }),
{
    Command { index: CMD12_INDEX, argument: 0, response: ResponseType::R1b }
}

/// Stage of a request at which an error was raised.
#[derive(Clone, Copy, Debug, PartialEq, Eq, Structural)]
pub enum Phase {
    Init,
    CommandSend,
    ResponseWait,
    BusyWait,
    DataRead,
    DataWrite,
    Reset,
}

/// Where an error happened: the phase and, when known, the command index.
#[derive(Clone, Copy, Debug, PartialEq, Eq, Structural)]
pub struct ErrorContext {
    pub phase: Phase,
    pub cmd: Option<u8>,
}

impl ErrorContext {
    /// Context of an error raised while handling command `index`.
    pub fn for_cmd(phase: Phase, index: u8) -> (c: ErrorContext)
        ensures
            c == (ErrorContext { phase, cmd: Some(index) }),
    {
        ErrorContext { phase, cmd: Some(index) }
    }

    /// Context of an error not tied to a command.
    pub fn for_phase(phase: Phase) -> (c: ErrorContext)
        ensures
            c == (ErrorContext { phase, cmd: None }),
    {
        ErrorContext { phase, cmd: None }
    }
}

/// Errors of the SD/MMC stack.
#[derive(Clone, Copy, Debug, PartialEq, Eq, Structural)]
pub enum Error {
    NoCard,
    Busy,
    UnsupportedCommand,
    InvalidArgument,
    Misaligned,
    CardLocked,
    Timeout(ErrorContext),
    Crc(ErrorContext),
    BadResponse(ErrorContext),
    ReadError(ErrorContext),
    WriteError(ErrorContext),
}

/// A decoded card response. Short responses keep their raw 32-bit word;
/// R2 carries the 128-bit frame serialised most significant byte first.
#[derive(Clone, Copy, Debug, PartialEq, Eq)]
pub enum Response {
    Empty,
    R1(u32),
    R1b(u32),
    R2([u8; 16]),
    R3(u32),
    R4(u32),
    R5(u32),
    R6(u32),
    R7(u32),
}

/// Progress of a submitted command.
#[derive(Clone, Copy, Debug, PartialEq, Eq, Structural)]
pub enum CommandPoll {
    Pending,
    Complete,
}

/// Progress of a submitted command, with its response once complete.
#[derive(Clone, Copy, Debug, PartialEq, Eq)]
pub enum CommandResponsePoll {
    Pending,
    Complete(Response),
}

} // verus!
