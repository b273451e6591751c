//! How user code encodes its system calls into registers.
use vstd::prelude::*;
use crate::sys_call::{spec_syscall, SyscallRequest, SYS_EXIT, SYS_GET_TIME, SYS_WRITE, SYS_YIELD};

verus! {

/// The registers of an `ecall`: the call number (in `a7`) and three
/// arguments (in `a0`, `a1`, `a2`).
#[derive(Clone, Copy, Debug)]
pub struct SyscallRegs {
    pub id: usize,
    pub args: [usize; 3],
}

/// A time as the kernel stores it for user code.
#[derive(Clone, Copy, Debug, PartialEq, Eq, Structural)]
pub struct TimeVal {
    pub sec: usize,
    pub usec: usize,
}

/// Writes `len` bytes at address `buf` to file descriptor `fd`.
pub fn sys_write(fd: usize, buf: usize, len: usize) -> (regs: SyscallRegs)
    ensures
        regs.id == SYS_WRITE,
        regs.args@ == seq![fd, buf, len],
{
    let regs = SyscallRegs { id: SYS_WRITE, args: [fd, buf, len] };
    assert(regs.args@ =~= seq![fd, buf, len]);
    regs
}

/// Ends the program with exit code `code`, passed as a sign-extended word.
pub fn sys_exit(code: i32) -> (regs: SyscallRegs)
    ensures
        regs.id == SYS_EXIT,
        regs.args@ == seq![code as usize, 0usize, 0usize],
{
    let regs = SyscallRegs { id: SYS_EXIT, args: [code as usize, 0, 0] };
    assert(regs.args@ =~= seq![code as usize, 0usize, 0usize]);
    regs
}

/// Gives the processor to another task.
pub fn sys_yield() -> (regs: SyscallRegs)
    ensures
        regs.id == SYS_YIELD,
        regs.args@ == seq![0usize, 0usize, 0usize],
{
    let regs = SyscallRegs { id: SYS_YIELD, args: [0, 0, 0] };
    assert(regs.args@ =~= seq![0usize, 0usize, 0usize]);
    regs
}

/// Asks for the current time to be stored at address `ts`.
pub fn sys_get_time(ts: usize, tz: usize) -> (regs: SyscallRegs)
    ensures
        regs.id == SYS_GET_TIME,
        regs.args@ == seq![ts, tz, 0usize],
{
    let regs = SyscallRegs { id: SYS_GET_TIME, args: [ts, tz, 0] };
    assert(regs.args@ =~= seq![ts, tz, 0usize]);
    regs
}

/// What the kernel decodes from an encoded call is the call that was
/// encoded: a write keeps its descriptor, buffer and length, an exit its
/// code (negative codes included), a get_time its pointer.
pub proof fn law_encoded_calls_decode(fd: usize, buf: usize, len: usize, code: i32, ts: usize, tz: usize)
    ensures
        spec_syscall(SYS_WRITE, [fd, buf, len]) == (SyscallRequest::Write { fd, buf, len }),
        spec_syscall(SYS_EXIT, [code as usize, 0, 0]) == (SyscallRequest::Exit { code }),
        spec_syscall(SYS_YIELD, [0, 0, 0]) == SyscallRequest::Yield,
        spec_syscall(SYS_GET_TIME, [ts, tz, 0]) == (SyscallRequest::GetTime { ts, tz }),
{
    assert(((code as usize) as i32) == code) by (bit_vector);
}

} // verus!
