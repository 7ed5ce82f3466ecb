//! Kernel error codes returned by the components of this crate.
use vstd::prelude::*;

verus! {

/// Error codes of kernel operations.
#[derive(Clone, Copy, Debug, PartialEq, Eq, Structural)]
pub enum AxError {
    BadFileDescriptor,
    BadState,
    InvalidData,
    InvalidInput,
    Io,
    NoMemory,
    NoSuchDevice,
    NoSuchProcess,
    NotATty,
    OperationNotPermitted,
    Unsupported,
    WouldBlock,
}

} // verus!
