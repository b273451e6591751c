//! System calls: the numbers and registers user code passes, and what the
//! kernel decides for each call.
pub mod fs;
pub mod process;

use vstd::prelude::*;
use vstd::utf8::valid_utf8;
use crate::app_loader::StackLayout;
use crate::log::LogLevel;
use crate::config::{APP_BASE_ADDRESS, APP_SIZE_LIMIT, MAX_APP_NUM, USER_STACK_SIZE};
use crate::sys_call::fs::{spec_write_check, sys_write, WriteError};
use crate::sys_call::process::{spec_get_time_check, sys_exit, sys_get_time, sys_yield, GetTimeError};
use crate::task::{law_exit_keeps_one_running, law_suspend_keeps_one_running, SchedAction, SchedView, TaskManager};

verus! {

/// Number of the `write` call.
pub const SYS_WRITE: usize = 64;
/// Number of the `exit` call.
pub const SYS_EXIT: usize = 93;
/// Number of the `yield` call.
pub const SYS_YIELD: usize = 124;
/// Number of the `get_time` call.
pub const SYS_GET_TIME: usize = 169;

/// A system call as the kernel understands it.
#[derive(Clone, Copy, Debug, PartialEq, Eq, Structural)]
pub enum SyscallRequest {
    /// Write `len` bytes at user address `buf` to file descriptor `fd`.
    Write { fd: usize, buf: usize, len: usize },
    /// End the calling task with exit code `code`.
    Exit { code: i32 },
    /// Give the processor to the next ready task.
    Yield,
    /// Store the current time into the record at user address `ts`.
    GetTime { ts: usize, tz: usize },
    /// A call number the kernel does not know.
    Unknown { id: usize },
}

/// The call described by call number `id` and argument registers `args`.
pub open spec fn spec_syscall(id: usize, args: [usize; 3]) -> SyscallRequest {
    if id == SYS_WRITE {
        SyscallRequest::Write { fd: args[0], buf: args[1], len: args[2] }
    } else if id == SYS_EXIT {
        SyscallRequest::Exit { code: args[0] as i32 }
    } else if id == SYS_YIELD {
        SyscallRequest::Yield
    } else if id == SYS_GET_TIME {
        SyscallRequest::GetTime { ts: args[0], tz: args[1] }
    } else {
        SyscallRequest::Unknown { id }
    }
}

/// Decodes a system call from its number and argument registers. The exit
/// code is the low 32 bits of the first argument.
pub fn syscall(id: usize, args: [usize; 3]) -> (req: SyscallRequest)
    ensures
        req == spec_syscall(id, args),
{
    if id == SYS_WRITE {
        SyscallRequest::Write { fd: args[0], buf: args[1], len: args[2] }
    } else if id == SYS_EXIT {
        SyscallRequest::Exit { code: args[0] as i32 }
    } else if id == SYS_YIELD {
        SyscallRequest::Yield
    } else if id == SYS_GET_TIME {
        SyscallRequest::GetTime { ts: args[0], tz: args[1] }
    } else {
        SyscallRequest::Unknown { id }
    }
}

/// What is left to do for a system call once the kernel has decided on it.
#[derive(Clone, Copy, Debug, PartialEq, Eq, Structural)]
pub enum SyscallOutcome {
    /// The write was refused: log why and return -1.
    WriteRefused(WriteError),
    /// The write passed its checks: read `len` bytes at `buf` and finish
    /// with [`fs::sys_write_finish`].
    ReadBuffer { buf: usize, len: usize },
    /// The time pointer was refused: log why and return -1.
    TimeRefused(GetTimeError),
    /// The pointer passed its checks: store the current time at `ts` and
    /// return 0.
    StoreTime { ts: usize },
    /// The task exited with `code`, logged at `level`; carry out `action`.
    Exited { code: i32, level: LogLevel, action: SchedAction },
    /// The task yielded: carry out `action`; the call returns 0.
    Yielded { action: SchedAction },
    /// The call number is unknown: log it as an error; the task exits with
    /// code -1, logged at `level`; carry out `action`.
    Unknown { id: usize, level: LogLevel, action: SchedAction },
}

/// The level an exit with `code` is logged at.
pub open spec fn exit_level(code: i32) -> LogLevel {
    if code == 0 { LogLevel::Info } else { LogLevel::Warn }
}

/// The decision for system call `req` made by the current task.
pub open spec fn spec_dispatch(v: SchedView, layout: StackLayout, req: SyscallRequest) -> (SchedView, SyscallOutcome) {
    match req {
        SyscallRequest::Write { fd, buf, len } => (v, match spec_write_check(layout, v.current, fd, buf as int, len as int) {
            Ok(_) => SyscallOutcome::ReadBuffer { buf, len },
            Err(e) => SyscallOutcome::WriteRefused(e),
        }),
        SyscallRequest::Exit { code } => (
            v.exit().0,
            SyscallOutcome::Exited { code, level: exit_level(code), action: v.exit().1 },
        ),
        SyscallRequest::Yield => (v.suspend().0, SyscallOutcome::Yielded { action: v.suspend().1 }),
        SyscallRequest::GetTime { ts, tz } => (v, match spec_get_time_check(layout, v.current, ts as int) {
            Ok(_) => SyscallOutcome::StoreTime { ts },
            Err(e) => SyscallOutcome::TimeRefused(e),
        }),
        SyscallRequest::Unknown { id } => (
            v.exit().0,
            SyscallOutcome::Unknown { id, level: exit_level(-1i32), action: v.exit().1 },
        ),
    }
}

/// Decides system call `req` for the current task: writes and time reads
/// are checked against the task's memory, exit and yield reschedule, and an
/// unknown call ends the task with code -1.
pub fn dispatch(tm: &mut TaskManager, layout: &StackLayout, req: SyscallRequest) -> (out: SyscallOutcome)
    requires
        old(tm).wf(),
        layout.wf(),
    ensures
        (final(tm)@, out) == spec_dispatch(old(tm)@, *layout, req),
        final(tm).wf(),
{
    let current = tm.get_current_task();
    match req {
        SyscallRequest::Write { fd, buf, len } => match sys_write(layout, current, fd, buf, len) {
            Ok(()) => SyscallOutcome::ReadBuffer { buf, len },
            Err(e) => SyscallOutcome::WriteRefused(e),
        },
        SyscallRequest::Exit { code } => {
            let (level, action) = sys_exit(tm, code);
            SyscallOutcome::Exited { code, level, action }
        },
        SyscallRequest::Yield => {
            let (_, action) = sys_yield(tm);
            SyscallOutcome::Yielded { action }
        },
        SyscallRequest::GetTime { ts, tz } => match sys_get_time(layout, current, ts, tz) {
            Ok(()) => SyscallOutcome::StoreTime { ts },
            Err(e) => SyscallOutcome::TimeRefused(e),
        },
        SyscallRequest::Unknown { id } => {
            let (level, action) = sys_exit(tm, -1);
            SyscallOutcome::Unknown { id, level, action }
        },
    }
}

/// Every system call keeps exactly one task running, the current one,
/// unless it ends the last task, in which case none runs and the machine
/// shuts down.
pub proof fn law_dispatch_keeps_one_running(v: SchedView, layout: StackLayout, req: SyscallRequest)
    requires
        v.wf(),
        v.one_running(),
    ensures
        spec_dispatch(v, layout, req).0.wf(),
        match spec_dispatch(v, layout, req).1 {
            SyscallOutcome::Exited { action: SchedAction::Shutdown, .. } => spec_dispatch(v, layout, req).0.none_running(),
            SyscallOutcome::Unknown { action: SchedAction::Shutdown, .. } => spec_dispatch(v, layout, req).0.none_running(),
            _ => spec_dispatch(v, layout, req).0.one_running(),
        },
{
    law_suspend_keeps_one_running(v);
    law_exit_keeps_one_running(v);
}

/// The value a system call returns to its caller once it has been carried
/// out, given the bytes read for a write (empty for other calls): -1 for a
/// refusal, the byte count for a write of valid UTF-8, 0 for a stored time
/// or a yield. Exits, and unknown calls (which exit), never return.
pub open spec fn spec_syscall_return(out: SyscallOutcome, data: Seq<u8>) -> Option<isize> {
    match out {
        SyscallOutcome::WriteRefused(_) => Some(-1isize),
        SyscallOutcome::ReadBuffer { .. } => Some(if valid_utf8(data) { data.len() as isize } else { -1isize }),
        SyscallOutcome::TimeRefused(_) => Some(-1isize),
        SyscallOutcome::StoreTime { .. } => Some(0),
        SyscallOutcome::Yielded { .. } => Some(0),
        SyscallOutcome::Exited { .. } => None,
        SyscallOutcome::Unknown { .. } => None,
    }
}

/// A write is judged against the memory of the task that makes it: with
/// task `v.current` calling, a write to descriptor 1 of a buffer inside its
/// own program region or user stack is carried out; a non-empty buffer
/// inside the program region of any other task `u` is refused as outside
/// the caller's memory (when the user stacks lie below the program
/// regions, as the kernel image places them). Deciding a write changes no
/// task.
pub proof fn law_write_judged_against_current_task(v: SchedView, layout: StackLayout, u: int, buf: usize, len: usize)
    requires
        v.wf(),
        layout.wf(),
    ensures
        spec_dispatch(v, layout, SyscallRequest::Write { fd: 1, buf, len }).0 == v,
        ((APP_BASE_ADDRESS + v.current * APP_SIZE_LIMIT <= buf && buf + len <= APP_BASE_ADDRESS + (v.current + 1)
            * APP_SIZE_LIMIT) || (layout.user_stacks + v.current * USER_STACK_SIZE <= buf && buf + len
            <= layout.user_stacks + (v.current + 1) * USER_STACK_SIZE)) ==> spec_dispatch(
            v,
            layout,
            SyscallRequest::Write { fd: 1, buf, len },
        ).1 == (SyscallOutcome::ReadBuffer { buf, len }),
        (layout.user_stacks + MAX_APP_NUM * USER_STACK_SIZE <= APP_BASE_ADDRESS && 0 <= u < MAX_APP_NUM && u
            != v.current && len > 0 && APP_BASE_ADDRESS + u * APP_SIZE_LIMIT <= buf && buf + len
            <= APP_BASE_ADDRESS + (u + 1) * APP_SIZE_LIMIT) ==> spec_dispatch(
            v,
            layout,
            SyscallRequest::Write { fd: 1, buf, len },
        ).1 == SyscallOutcome::WriteRefused(WriteError::OutOfUserSpace),
{
    if (APP_BASE_ADDRESS + v.current * APP_SIZE_LIMIT <= buf && buf + len <= APP_BASE_ADDRESS + (v.current + 1)
        * APP_SIZE_LIMIT) || (layout.user_stacks + v.current * USER_STACK_SIZE <= buf && buf + len
        <= layout.user_stacks + (v.current + 1) * USER_STACK_SIZE) {
        crate::sys_call::fs::law_write_accepts_callers_memory(layout, v.current, buf as int, len as int);
    }
    if layout.user_stacks + MAX_APP_NUM * USER_STACK_SIZE <= APP_BASE_ADDRESS && 0 <= u < MAX_APP_NUM && u
        != v.current && len > 0 && APP_BASE_ADDRESS + u * APP_SIZE_LIMIT <= buf && buf + len <= APP_BASE_ADDRESS
        + (u + 1) * APP_SIZE_LIMIT {
        assert(buf + len <= usize::MAX) by {
            assert(APP_BASE_ADDRESS + (u + 1) * APP_SIZE_LIMIT <= APP_BASE_ADDRESS + MAX_APP_NUM * APP_SIZE_LIMIT);
        }
        crate::sys_call::fs::law_user_space_is_callers_memory(layout, v.current, buf as int, buf + len);
        if v.current < u {
            crate::app_loader::law_app_regions_disjoint(v.current, u);
        } else {
            crate::app_loader::law_app_regions_disjoint(u, v.current);
        }
        assert(layout.user_stacks + (v.current + 1) * USER_STACK_SIZE <= layout.user_stacks + MAX_APP_NUM
            * USER_STACK_SIZE);
    }
}

/// Every refused call returns -1, a write of valid
/// UTF-8 returns its byte count, an invalid one -1, and a stored time or a
/// yield 0; completing a call changes no register but `a0`.
pub proof fn law_syscall_return_values(
    out: SyscallOutcome,
    data: Seq<u8>,
)
    ensures
        (out is WriteRefused || out is TimeRefused) ==> spec_syscall_return(out, data) == Some(-1isize),
        out is ReadBuffer ==> spec_syscall_return(out, data) == Some(
            if valid_utf8(data) { data.len() as isize } else { -1isize },
        ),
        (out is StoreTime || out is Yielded) ==> spec_syscall_return(out, data) == Some(0isize),
        (out is Exited || out is Unknown) ==> spec_syscall_return(out, data) is None,
{
}

} // verus!
