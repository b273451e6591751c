//! The user library: the calls user programs make and the logic of the
//! test programs.
pub mod sys_call;
pub mod sleep;

use vstd::prelude::*;
use crate::sys_call::{SYS_EXIT, SYS_WRITE, SYS_YIELD};
use crate::usr::sys_call::SyscallRegs;

verus! {

/// Writes `len` bytes at address `buf` to file descriptor `fd`.
pub fn write(fd: usize, buf: usize, len: usize) -> (regs: SyscallRegs)
    ensures
        regs.id == SYS_WRITE,
        regs.args@ == seq![fd, buf, len],
{
    sys_call::sys_write(fd, buf, len)
}

/// Ends the program with exit code `code`.
pub fn exit(code: i32) -> (regs: SyscallRegs)
    ensures
        regs.id == SYS_EXIT,
        regs.args@ == seq![code as usize, 0usize, 0usize],
{
    sys_call::sys_exit(code)
}

/// Gives the processor to another task.
pub fn yield_() -> (regs: SyscallRegs)
    ensures
        regs.id == SYS_YIELD,
        regs.args@ == seq![0usize, 0usize, 0usize],
{
    sys_call::sys_yield()
}

} // verus!
