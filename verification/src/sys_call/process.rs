//! The process system calls: exit, yield and get_time.
use vstd::prelude::*;
use crate::app_loader::StackLayout;
use crate::config::{APP_BASE_ADDRESS, APP_SIZE_LIMIT, MAX_APP_NUM, USER_STACK_SIZE};
use crate::log::LogLevel;
use crate::sys_call::fs::{in_user_space, user_range_in_space};
use crate::task::{SchedAction, TaskManager};

verus! {

/// A time as stored for user code: seconds and the microseconds past them.
#[derive(Clone, Copy, Debug, PartialEq, Eq, Structural)]
pub struct TimeVal {
    pub sec: usize,
    pub usec: usize,
}

impl TimeVal {
    /// Splits a time in microseconds into seconds and microseconds.
    pub fn from_us(us: usize) -> (tv: TimeVal)
        ensures
            tv.sec == us / 1_000_000,
            tv.usec == us % 1_000_000,
    {
        TimeVal { sec: us / 1_000_000, usec: us % 1_000_000 }
    }
}

/// Ends the current task with exit code `code`: the task is marked exited
/// and the next ready task is scheduled. Also returns the level the exit is
/// logged at: info for code 0, a warning otherwise.
pub fn sys_exit(tm: &mut TaskManager, code: i32) -> (res: (LogLevel, SchedAction))
    requires
        old(tm).wf(),
    ensures
        res.0 == (if code == 0 { LogLevel::Info } else { LogLevel::Warn }),
        (final(tm)@, res.1) == old(tm)@.exit(),
        final(tm).wf(),
{
    let level = if code == 0 { LogLevel::Info } else { LogLevel::Warn };
    let action = tm.exit_current_task();
    (level, action)
}

/// Gives the processor to the next ready task; the call returns 0 once the
/// caller runs again.
pub fn sys_yield(tm: &mut TaskManager) -> (res: (isize, SchedAction))
    requires
        old(tm).wf(),
    ensures
        res.0 == 0,
        (final(tm)@, res.1) == old(tm)@.suspend(),
        final(tm).wf(),
{
    let action = tm.suspend_current_task();
    (0, action)
}

/// Why a `get_time` call is refused.
#[derive(Clone, Copy, Debug, PartialEq, Eq, Structural)]
pub enum GetTimeError {
    /// The record would run past the end of the address space.
    PointerOverflow,
    /// The record is not inside the caller's stack or program region, or is
    /// not aligned.
    InvalidPointer,
}

/// Size in bytes of the time record in user memory: two machine words.
pub open spec fn time_val_size() -> int {
    2 * vstd::layout::size_of::<usize>() as int
}

/// Alignment in bytes of the time record in user memory: that of a word.
pub open spec fn time_val_align() -> int {
    vstd::layout::align_of::<usize>() as int
}

/// Whether the record at `ts` may be written for task `task`: it must lie
/// wholly inside the task's user stack or program region, and be aligned.
pub open spec fn spec_get_time_check(layout: StackLayout, task: int, ts: int) -> Result<(), GetTimeError> {
    if ts + time_val_size() > usize::MAX {
        Err(GetTimeError::PointerOverflow)
    } else if !(in_user_space(layout, task, ts, ts + time_val_size()) && ts % time_val_align() == 0) {
        Err(GetTimeError::InvalidPointer)
    } else {
        Ok(())
    }
}

/// Checks the user pointer of a `get_time` call made by task `task`. On
/// `Ok` the caller stores the current time at `ts` and the call returns 0;
/// on an error nothing is stored and the call returns -1.
pub fn sys_get_time(layout: &StackLayout, task: usize, ts: usize, _tz: usize) -> (r: Result<(), GetTimeError>)
    requires
        layout.wf(),
        task < MAX_APP_NUM,
    ensures
        r == spec_get_time_check(*layout, task as int, ts as int),
{
    broadcast use vstd::layout::layout_of_primitives, vstd::layout::align_nonzero;
    let word = core::mem::size_of::<usize>();
    let size = 2 * word;
    let align = core::mem::align_of::<usize>();
    let ts_end = match ts.checked_add(size) {
        Some(end) => end,
        None => { return Err(GetTimeError::PointerOverflow); },
    };
    let inside = user_range_in_space(layout, task, ts, ts_end);
    let aligned = ts % align == 0;
    if !(inside && aligned) {
        return Err(GetTimeError::InvalidPointer);
    }
    Ok(())
}

/// A time record is accepted exactly when its two words lie inside the
/// caller's user stack or program region and it is aligned for a machine
/// word: every word-aligned record there is accepted (not only those on a
/// larger boundary), and an accepted record is one of them.
pub proof fn law_get_time_accepts_aligned_records(layout: StackLayout, task: int, ts: int)
    requires
        layout.wf(),
        0 <= task < MAX_APP_NUM,
        0 <= ts,
    ensures
        ({
            let word = vstd::layout::size_of::<usize>() as int;
            let inside = (layout.user_stacks + task * USER_STACK_SIZE <= ts && ts + 2 * word <= layout.user_stacks
                + (task + 1) * USER_STACK_SIZE) || (APP_BASE_ADDRESS + task * APP_SIZE_LIMIT <= ts && ts + 2
                * word <= APP_BASE_ADDRESS + (task + 1) * APP_SIZE_LIMIT);
            (spec_get_time_check(layout, task, ts) is Ok) <==> (inside && ts % (vstd::layout::align_of::<usize>() as int) == 0)
        }),
{
    broadcast use vstd::layout::layout_of_primitives;
    let word = vstd::layout::size_of::<usize>() as int;
    assert(time_val_size() == 2 * word);
    crate::sys_call::fs::law_user_space_is_callers_memory(layout, task, ts, ts + 2 * word);
    assert(layout.user_stacks + (task + 1) * USER_STACK_SIZE <= layout.user_stacks + MAX_APP_NUM * USER_STACK_SIZE);
    assert(APP_BASE_ADDRESS + (task + 1) * APP_SIZE_LIMIT <= APP_BASE_ADDRESS + MAX_APP_NUM * APP_SIZE_LIMIT);
}

} // verus!
