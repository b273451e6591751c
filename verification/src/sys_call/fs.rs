//! The `write` system call.
use vstd::prelude::*;
use vstd::string::StringSliceAdditionalSpecFns;
use vstd::utf8::valid_utf8;
use crate::app_loader::{get_app_base, get_user_stack_base, spec_app_base, StackLayout};
use crate::config::{APP_BASE_ADDRESS, APP_SIZE_LIMIT, MAX_APP_NUM, USER_STACK_SIZE};

verus! {

/// The only file descriptor that can be written: standard output.
pub const FD_STDOUT: usize = 1;

/// Whether the bytes `[start, end)` lie wholly inside the user stack of
/// `task` or wholly inside its program region.
pub open spec fn in_user_space(layout: StackLayout, task: int, start: int, end: int) -> bool {
    let stack_top = layout.user_stack_top(task);
    let app_base = spec_app_base(task);
    ||| (start >= stack_top - USER_STACK_SIZE && end <= stack_top)
    ||| (start >= app_base && end <= app_base + APP_SIZE_LIMIT)
}

/// Whether the bytes `[start, end)` lie wholly inside the user stack of
/// `task` or wholly inside its program region.
pub fn user_range_in_space(layout: &StackLayout, task: usize, start: usize, end: usize) -> (r: bool)
    requires
        layout.wf(),
        task < MAX_APP_NUM,
    ensures
        r == in_user_space(*layout, task as int, start as int, end as int),
{
    let stack_top = get_user_stack_base(layout, task);
    let app_base = get_app_base(task);
    let in_user_stack = start >= stack_top - USER_STACK_SIZE && end <= stack_top;
    let in_app = start >= app_base && end <= app_base + APP_SIZE_LIMIT;
    in_user_stack || in_app
}

/// Why a `write` call is refused; every refusal returns -1 to the caller.
#[derive(Clone, Copy, Debug, PartialEq, Eq, Structural)]
pub enum WriteError {
    /// The buffer would run past the end of the address space.
    LengthOverflow,
    /// The buffer is not inside the caller's stack or program region.
    OutOfUserSpace,
    /// The file descriptor is not standard output.
    UnsupportedFd,
    /// The bytes are not valid UTF-8.
    InvalidUtf8,
}

/// The checks made before the buffer of a `write` by task `task` is read,
/// in the order they are made.
pub open spec fn spec_write_check(layout: StackLayout, task: int, fd: usize, buf: int, len: int) -> Result<(), WriteError> {
    if buf + len > usize::MAX {
        Err(WriteError::LengthOverflow)
    } else if !in_user_space(layout, task, buf, buf + len) {
        Err(WriteError::OutOfUserSpace)
    } else if fd != FD_STDOUT {
        Err(WriteError::UnsupportedFd)
    } else {
        Ok(())
    }
}

/// Checks a `write` of `len` bytes at `buf` to `fd` by task `task`. On `Ok`
/// the caller reads the buffer and finishes with [`sys_write_finish`].
pub fn sys_write(layout: &StackLayout, task: usize, fd: usize, buf: usize, len: usize) -> (r: Result<(), WriteError>)
    requires
        layout.wf(),
        task < MAX_APP_NUM,
    ensures
        r == spec_write_check(*layout, task as int, fd, buf as int, len as int),
        r is Ok ==> len <= APP_SIZE_LIMIT,
{
    let buf_end = match buf.checked_add(len) {
        Some(end) => end,
        None => { return Err(WriteError::LengthOverflow); },
    };
    if !user_range_in_space(layout, task, buf, buf_end) {
        return Err(WriteError::OutOfUserSpace);
    }
    if fd != FD_STDOUT {
        return Err(WriteError::UnsupportedFd);
    }
    Ok(())
}

/// Calls `core::str::from_utf8`. Its documentation: the result is `Ok`
/// exactly when the bytes are valid UTF-8, and then it is a string made of
/// those very bytes; this contract claims exactly that.
#[verifier::external_body]
fn str_from_utf8(bytes: &[u8]) -> (r: Option<&str>)
    ensures
        r is Some <==> valid_utf8(bytes@),
        r matches Some(s) ==> s.spec_bytes() == bytes@,
{
    match core::str::from_utf8(bytes) {
        Ok(s) => Some(s),
        Err(_) => None,
    }
}

/// Finishes a `write` whose checks passed, given the bytes read from the
/// buffer: valid UTF-8 is handed back as the text to print and the call
/// returns the number of bytes; anything else returns -1 and prints
/// nothing.
pub fn sys_write_finish(data: &[u8]) -> (res: (isize, Result<&str, WriteError>))
    requires
        data@.len() <= isize::MAX,
    ensures
        valid_utf8(data@) ==> res.0 == data@.len() && (res.1 matches Ok(s) && s.spec_bytes() == data@),
        !valid_utf8(data@) ==> res.0 == -1 && res.1 == Err::<&str, WriteError>(WriteError::InvalidUtf8),
{
    match str_from_utf8(data) {
        Some(text) => (data.len() as isize, Ok(text)),
        None => (-1, Err(WriteError::InvalidUtf8)),
    }
}

/// Isolation between tasks: when the user stacks lie below the application
/// regions (they are part of the kernel image), a non-empty range that
/// passes the check for task `t` overlaps neither the program region nor
/// the user stack of any other task `u`.
pub proof fn law_user_range_isolated(layout: StackLayout, t: int, u: int, start: int, end: int)
    requires
        layout.wf(),
        layout.user_stacks + MAX_APP_NUM * USER_STACK_SIZE <= APP_BASE_ADDRESS,
        0 <= t < MAX_APP_NUM,
        0 <= u < MAX_APP_NUM,
        t != u,
        start < end,
        in_user_space(layout, t, start, end),
    ensures
        end <= spec_app_base(u) || spec_app_base(u) + APP_SIZE_LIMIT <= start,
        end <= layout.user_stack_top(u) - USER_STACK_SIZE || layout.user_stack_top(u) <= start,
{
    if t < u {
        crate::app_loader::law_app_regions_disjoint(t, u);
        crate::app_loader::law_stacks_disjoint(layout, t, u);
    } else {
        crate::app_loader::law_app_regions_disjoint(u, t);
        crate::app_loader::law_stacks_disjoint(layout, u, t);
    }
    assert(layout.user_stack_top(t) <= layout.user_stacks + MAX_APP_NUM * USER_STACK_SIZE) by {
        assert(layout.user_stack_top(t) == layout.user_stacks + (t + 1) * USER_STACK_SIZE);
    }
    assert(layout.user_stack_top(u) <= layout.user_stacks + MAX_APP_NUM * USER_STACK_SIZE) by {
        assert(layout.user_stack_top(u) == layout.user_stacks + (u + 1) * USER_STACK_SIZE);
    }
    assert(spec_app_base(t) >= APP_BASE_ADDRESS);
    assert(spec_app_base(u) >= APP_BASE_ADDRESS);
}

/// The user space of task `t` is exactly its own memory: a range
/// `[start, end)` passes the check for `t` if and only if it lies wholly
/// inside the `USER_STACK_SIZE` bytes of `t`'s user stack (anywhere in it,
/// not only against its top) or wholly inside `t`'s program region.
pub proof fn law_user_space_is_callers_memory(layout: StackLayout, t: int, start: int, end: int)
    requires
        0 <= t < MAX_APP_NUM,
        start <= end,
    ensures
        in_user_space(layout, t, start, end) <==> {
            ||| (layout.user_stacks + t * USER_STACK_SIZE <= start && end <= layout.user_stacks + (t + 1)
                * USER_STACK_SIZE)
            ||| (APP_BASE_ADDRESS + t * APP_SIZE_LIMIT <= start && end <= APP_BASE_ADDRESS + (t + 1)
                * APP_SIZE_LIMIT)
        },
{
    assert(layout.user_stack_top(t) - USER_STACK_SIZE == layout.user_stacks + t * USER_STACK_SIZE);
    assert(spec_app_base(t) + APP_SIZE_LIMIT == APP_BASE_ADDRESS + (t + 1) * APP_SIZE_LIMIT);
}

/// A write to standard output (descriptor 1) of a buffer lying anywhere in
/// the caller's own user stack or program region is accepted.
pub proof fn law_write_accepts_callers_memory(layout: StackLayout, t: int, buf: int, len: int)
    requires
        layout.wf(),
        0 <= t < MAX_APP_NUM,
        0 <= buf,
        0 <= len,
        (layout.user_stacks + t * USER_STACK_SIZE <= buf && buf + len <= layout.user_stacks + (t + 1)
            * USER_STACK_SIZE) || (APP_BASE_ADDRESS + t * APP_SIZE_LIMIT <= buf && buf + len
            <= APP_BASE_ADDRESS + (t + 1) * APP_SIZE_LIMIT),
    ensures
        spec_write_check(layout, t, 1, buf, len) == Ok::<(), WriteError>(()),
{
    law_user_space_is_callers_memory(layout, t, buf, buf + len);
    assert(layout.user_stacks + (t + 1) * USER_STACK_SIZE <= layout.user_stacks + MAX_APP_NUM * USER_STACK_SIZE);
    assert(APP_BASE_ADDRESS + (t + 1) * APP_SIZE_LIMIT <= APP_BASE_ADDRESS + MAX_APP_NUM * APP_SIZE_LIMIT);
}

/// Only standard output can be written: a buffer the caller may read is
/// still refused for any descriptor other than 1; and a buffer running past
/// the end of the address space is refused whatever the descriptor.
pub proof fn law_write_refusals(layout: StackLayout, t: int, fd: usize, buf: int, len: int)
    requires
        layout.wf(),
        0 <= t < MAX_APP_NUM,
        0 <= buf,
        0 <= len,
    ensures
        buf + len > usize::MAX ==> spec_write_check(layout, t, fd, buf, len) == Err::<(), WriteError>(
            WriteError::LengthOverflow,
        ),
        (fd != 1 && ((layout.user_stacks + t * USER_STACK_SIZE <= buf && buf + len <= layout.user_stacks + (t + 1)
            * USER_STACK_SIZE) || (APP_BASE_ADDRESS + t * APP_SIZE_LIMIT <= buf && buf + len
            <= APP_BASE_ADDRESS + (t + 1) * APP_SIZE_LIMIT))) ==> spec_write_check(layout, t, fd, buf, len)
            == Err::<(), WriteError>(WriteError::UnsupportedFd),
{
    if (layout.user_stacks + t * USER_STACK_SIZE <= buf && buf + len <= layout.user_stacks + (t + 1)
        * USER_STACK_SIZE) || (APP_BASE_ADDRESS + t * APP_SIZE_LIMIT <= buf && buf + len <= APP_BASE_ADDRESS + (t
        + 1) * APP_SIZE_LIMIT) {
        law_write_accepts_callers_memory(layout, t, buf, len);
    }
    law_user_space_is_callers_memory(layout, t, buf, buf + len);
}

} // verus!
