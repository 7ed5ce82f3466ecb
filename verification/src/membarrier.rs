//! The `membarrier` system call.
use vstd::prelude::*;

use crate::errno::AxError;

verus! {

pub const MEMBARRIER_CMD_QUERY: i32 = 0;
pub const MEMBARRIER_CMD_GLOBAL: i32 = 1;
pub const MEMBARRIER_CMD_GLOBAL_EXPEDITED: i32 = 2;
pub const MEMBARRIER_CMD_REGISTER_GLOBAL_EXPEDITED: i32 = 3;
pub const MEMBARRIER_CMD_PRIVATE_EXPEDITED: i32 = 4;
pub const MEMBARRIER_CMD_REGISTER_PRIVATE_EXPEDITED: i32 = 5;

/// Commands reported by `MEMBARRIER_CMD_QUERY`: bits 1 to 5.
pub const SUPPORTED_COMMANDS: i32 = 0x3e;

/// Compiler-level full barrier: `core::sync::atomic::compiler_fence` with
/// sequentially consistent ordering. It only constrains code generation, so
/// nothing is claimed of it.
#[verifier::external_body]
fn compiler_fence_seq_cst() {
    core::sync::atomic::compiler_fence(core::sync::atomic::Ordering::SeqCst);
}

/// `membarrier(cmd, flags, cpu_id)`: non-zero flags are rejected, a query
/// reports the supported commands, and every other command issues a
/// barrier and succeeds.
pub fn sys_membarrier(cmd: i32, flags: u32, cpu_id: i32) -> (r: Result<isize, AxError>)
    ensures
        flags != 0 ==> r == Err::<isize, AxError>(AxError::InvalidInput),
        flags == 0 && cmd == MEMBARRIER_CMD_QUERY ==> r == Ok::<isize, AxError>(SUPPORTED_COMMANDS as isize),
        flags == 0 && cmd != MEMBARRIER_CMD_QUERY ==> r == Ok::<isize, AxError>(0),
{
    if flags != 0 {
        return Err(AxError::InvalidInput);
    }
    if cmd == MEMBARRIER_CMD_QUERY {
        Ok(SUPPORTED_COMMANDS as isize)
    } else {
        compiler_fence_seq_cst();
        Ok(0)
    }
}

} // verus!
