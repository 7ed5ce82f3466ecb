//! Thread system calls that only read or set per-thread state:
//! `arch_prctl` on the FS/GS segment bases and `getppid`.
use vstd::prelude::*;

use crate::errno::AxError;

verus! {

pub const ARCH_SET_GS: i32 = 0x1001;
pub const ARCH_SET_FS: i32 = 0x1002;
pub const ARCH_GET_FS: i32 = 0x1003;
pub const ARCH_GET_GS: i32 = 0x1004;
pub const ARCH_GET_CPUID: i32 = 0x1011;
pub const ARCH_SET_CPUID: i32 = 0x1012;

/// Segment bases of a user thread.
#[derive(Clone, Copy, Debug, PartialEq, Eq, Structural)]
pub struct SegmentBases {
    /// FS base (the TLS pointer).
    pub fs_base: usize,
    pub gs_base: usize,
}

/// `arch_prctl(code, addr)` on the thread's segment bases: the setters
/// store `addr` and return 0; the getters return 0 and the value to store
/// at user address `addr`; reading the CPUID flag returns 0 and setting it
/// is unsupported (no such device); any other code is invalid.
pub fn arch_prctl(regs: &mut SegmentBases, code: i32, addr: usize) -> (r: Result<(isize, Option<usize>), AxError>)
    ensures
        code == ARCH_SET_FS ==> r == Ok::<(isize, Option<usize>), AxError>((0, None)) && *final(regs) == (SegmentBases { fs_base: addr, ..*old(regs) }),
        code == ARCH_SET_GS ==> r == Ok::<(isize, Option<usize>), AxError>((0, None)) && *final(regs) == (SegmentBases { gs_base: addr, ..*old(regs) }),
        code == ARCH_GET_FS ==> r == Ok::<(isize, Option<usize>), AxError>((0, Some(old(regs).fs_base))) && *final(regs) == *old(regs),
        code == ARCH_GET_GS ==> r == Ok::<(isize, Option<usize>), AxError>((0, Some(old(regs).gs_base))) && *final(regs) == *old(regs),
        code == ARCH_GET_CPUID ==> r == Ok::<(isize, Option<usize>), AxError>((0, None)) && *final(regs) == *old(regs),
        code == ARCH_SET_CPUID ==> r == Err::<(isize, Option<usize>), AxError>(AxError::NoSuchDevice) && *final(regs) == *old(regs),
        !(code == ARCH_SET_FS || code == ARCH_SET_GS || code == ARCH_GET_FS || code == ARCH_GET_GS || code == ARCH_GET_CPUID
            || code == ARCH_SET_CPUID) ==> r == Err::<(isize, Option<usize>), AxError>(AxError::InvalidInput) && *final(regs) == *old(regs),
{
    if code == ARCH_GET_FS {
        Ok((0, Some(regs.fs_base)))
    } else if code == ARCH_SET_FS {
        regs.fs_base = addr;
        Ok((0, None))
    } else if code == ARCH_GET_GS {
        Ok((0, Some(regs.gs_base)))
    } else if code == ARCH_SET_GS {
        regs.gs_base = addr;
        Ok((0, None))
    } else if code == ARCH_GET_CPUID {
        Ok((0, None))
    } else if code == ARCH_SET_CPUID {
        Err(AxError::NoSuchDevice)
    } else {
        Err(AxError::InvalidInput)
    }
}

/// `getppid`: the parent's process ID; a process without a parent has no
/// such process.
pub fn getppid(parent_pid: Option<u32>) -> (r: Result<isize, AxError>)
    ensures
        match parent_pid {
            Some(p) => r == Ok::<isize, AxError>(p as isize),
            None => r == Err::<isize, AxError>(AxError::NoSuchProcess),
        },
{
    match parent_pid {
        Some(p) => Ok(p as isize),
        None => Err(AxError::NoSuchProcess),
    }
}

} // verus!
