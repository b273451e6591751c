use mars_rcore::app_loader::{get_app_base, get_user_stack_base, StackLayout};
use mars_rcore::config::{APP_SIZE_LIMIT, USER_STACK_SIZE};
use mars_rcore::log::LogLevel;
use mars_rcore::sys_call::fs::{sys_write, sys_write_finish, WriteError};
use mars_rcore::sys_call::process::{sys_exit, sys_get_time, sys_yield, GetTimeError, TimeVal};
use mars_rcore::sys_call::{dispatch, syscall, SyscallOutcome, SyscallRequest, SYS_EXIT, SYS_GET_TIME, SYS_WRITE, SYS_YIELD};
use mars_rcore::task::task_info::TaskStatus;
use mars_rcore::task::{SchedAction, TaskManager};

fn layout() -> StackLayout {
    StackLayout { kernel_stacks: 0x8000_0000, user_stacks: 0x9000_0000 }
}

#[test]
fn syscall_decodes_numbers_and_arguments() {
    assert_eq!(syscall(SYS_WRITE, [1, 0x1000, 5]), SyscallRequest::Write { fd: 1, buf: 0x1000, len: 5 });
    assert_eq!(syscall(SYS_EXIT, [usize::MAX, 9, 9]), SyscallRequest::Exit { code: -1 });
    assert_eq!(syscall(SYS_EXIT, [0x1_0000_0007usize as usize, 0, 0]), SyscallRequest::Exit { code: 7 });
    assert_eq!(syscall(SYS_YIELD, [1, 2, 3]), SyscallRequest::Yield);
    assert_eq!(syscall(SYS_GET_TIME, [0x2000, 3, 4]), SyscallRequest::GetTime { ts: 0x2000, tz: 3 });
    assert_eq!(syscall(42, [0, 0, 0]), SyscallRequest::Unknown { id: 42 });
}

#[test]
fn write_accepts_buffers_in_user_space() {
    let l = layout();
    let top = get_user_stack_base(&l, 1);
    assert_eq!(sys_write(&l, 1, 1, top - 16, 16), Ok(()));
    assert_eq!(sys_write(&l, 1, 1, top - USER_STACK_SIZE, USER_STACK_SIZE), Ok(()));
    let base = get_app_base(1);
    assert_eq!(sys_write(&l, 1, 1, base, APP_SIZE_LIMIT), Ok(()));
    assert_eq!(sys_write(&l, 1, 1, base + 10, 0), Ok(()));
}

#[test]
fn write_refuses_bad_buffers_and_descriptors() {
    let l = layout();
    let top = get_user_stack_base(&l, 1);
    assert_eq!(sys_write(&l, 1, 1, usize::MAX - 3, 10), Err(WriteError::LengthOverflow));
    assert_eq!(sys_write(&l, 1, 1, top - 8, 16), Err(WriteError::OutOfUserSpace));
    // another task's region is not the caller's
    assert_eq!(sys_write(&l, 1, 1, get_app_base(2), 4), Err(WriteError::OutOfUserSpace));
    // kernel address, as in the invalid-write test program
    assert_eq!(sys_write(&l, 0, 1, 0x4020_0000, 1), Err(WriteError::OutOfUserSpace));
    assert_eq!(sys_write(&l, 1, 2, top - 16, 16), Err(WriteError::UnsupportedFd));
    // the range is checked before the descriptor
    assert_eq!(sys_write(&l, 1, 2, 0, 1), Err(WriteError::OutOfUserSpace));
}

#[test]
fn write_finish_checks_utf8() {
    let (ret, text) = sys_write_finish("héllo".as_bytes());
    assert_eq!(ret, 6);
    assert_eq!(text, Ok("héllo"));
    let (ret, text) = sys_write_finish(&[0x66, 0xff, 0x66]);
    assert_eq!(ret, -1);
    assert_eq!(text, Err(WriteError::InvalidUtf8));
    assert_eq!(sys_write_finish(&[]), (0, Ok("")));
}

#[test]
fn get_time_checks_pointer() {
    let l = layout();
    let word = core::mem::size_of::<usize>();
    let top = get_user_stack_base(&l, 0);
    assert_eq!(sys_get_time(&l, 0, top - 2 * word, 0), Ok(()));
    assert_eq!(sys_get_time(&l, 0, top - word, 0), Err(GetTimeError::InvalidPointer));
    assert_eq!(sys_get_time(&l, 0, top - 2 * word - 1, 0), Err(GetTimeError::InvalidPointer));
    assert_eq!(sys_get_time(&l, 0, get_app_base(0) + 64, 0), Ok(()));
    assert_eq!(sys_get_time(&l, 0, usize::MAX - 1, 0), Err(GetTimeError::PointerOverflow));
    assert_eq!(sys_get_time(&l, 0, 0, 0), Err(GetTimeError::InvalidPointer));
}

#[test]
fn time_val_splits_microseconds() {
    assert_eq!(TimeVal::from_us(0), TimeVal { sec: 0, usec: 0 });
    assert_eq!(TimeVal::from_us(5_123_456), TimeVal { sec: 5, usec: 123_456 });
    assert_eq!(TimeVal::from_us(999_999), TimeVal { sec: 0, usec: 999_999 });
}

#[test]
fn exit_and_yield_schedule() {
    let mut tm = TaskManager::new(2, 0, &layout());
    tm.run_first_task();
    assert_eq!(sys_yield(&mut tm), (0, SchedAction::Switch { from: 0, to: 1 }));
    assert_eq!(sys_exit(&mut tm, 3), (LogLevel::Warn, SchedAction::Switch { from: 1, to: 0 }));
    assert_eq!(tm.tasks[1].status, TaskStatus::Exited);
    assert_eq!(sys_exit(&mut tm, 0), (LogLevel::Info, SchedAction::Shutdown));
}

#[test]
fn dispatch_decides_each_call() {
    let l = layout();
    let mut tm = TaskManager::new(3, 0, &l);
    tm.run_first_task();
    let top = get_user_stack_base(&l, 0);
    assert_eq!(
        dispatch(&mut tm, &l, SyscallRequest::Write { fd: 1, buf: top - 4, len: 4 }),
        SyscallOutcome::ReadBuffer { buf: top - 4, len: 4 }
    );
    assert_eq!(
        dispatch(&mut tm, &l, SyscallRequest::Write { fd: 1, buf: 0, len: 4 }),
        SyscallOutcome::WriteRefused(WriteError::OutOfUserSpace)
    );
    assert_eq!(
        dispatch(&mut tm, &l, SyscallRequest::GetTime { ts: top - 16, tz: 0 }),
        SyscallOutcome::StoreTime { ts: top - 16 }
    );
    assert_eq!(
        dispatch(&mut tm, &l, SyscallRequest::GetTime { ts: 3, tz: 0 }),
        SyscallOutcome::TimeRefused(GetTimeError::InvalidPointer)
    );
    assert_eq!(tm.current_task, 0);
    assert_eq!(
        dispatch(&mut tm, &l, SyscallRequest::Yield),
        SyscallOutcome::Yielded { action: SchedAction::Switch { from: 0, to: 1 } }
    );
    assert_eq!(
        dispatch(&mut tm, &l, SyscallRequest::Unknown { id: 7 }),
        SyscallOutcome::Unknown { id: 7, level: LogLevel::Warn, action: SchedAction::Switch { from: 1, to: 2 } }
    );
    assert_eq!(tm.tasks[1].status, TaskStatus::Exited);
    assert_eq!(
        dispatch(&mut tm, &l, SyscallRequest::Exit { code: 0 }),
        SyscallOutcome::Exited { code: 0, level: LogLevel::Info, action: SchedAction::Switch { from: 2, to: 0 } }
    );
}
