use mars_rcore::sys_call::process::TimeVal as KernelTimeVal;
use mars_rcore::sys_call::{syscall, SyscallRequest};
use mars_rcore::usr::sleep::{now_us, SleepOutcome, SleepStep, SleepTest, MAX_POLLS, SLEEP_US};
use mars_rcore::usr::sys_call::{sys_exit, sys_get_time, sys_write, sys_yield, TimeVal};

#[test]
fn user_calls_round_trip_through_kernel_decoding() {
    let r = sys_write(1, 0x1000, 5);
    assert_eq!(syscall(r.id, r.args), SyscallRequest::Write { fd: 1, buf: 0x1000, len: 5 });
    for code in [0, 1, -1, i32::MIN, i32::MAX] {
        let r = sys_exit(code);
        assert_eq!(syscall(r.id, r.args), SyscallRequest::Exit { code });
    }
    let r = sys_yield();
    assert_eq!(syscall(r.id, r.args), SyscallRequest::Yield);
    let r = sys_get_time(0x2000, 0);
    assert_eq!(syscall(r.id, r.args), SyscallRequest::GetTime { ts: 0x2000, tz: 0 });
}

#[test]
fn library_calls_encode_like_raw_calls() {
    assert_eq!(mars_rcore::usr::write(1, 2, 3).args, [1, 2, 3]);
    assert_eq!(mars_rcore::usr::write(1, 2, 3).id, 64);
    assert_eq!(mars_rcore::usr::exit(-1).args, [usize::MAX, 0, 0]);
    assert_eq!(mars_rcore::usr::exit(-1).id, 93);
    assert_eq!(mars_rcore::usr::yield_().id, 124);
    assert_eq!(mars_rcore::usr::yield_().args, [0, 0, 0]);
}

#[test]
fn now_us_joins_seconds_and_microseconds() {
    assert_eq!(now_us(0, TimeVal { sec: 3, usec: 250 }), Some(3_000_250));
    assert_eq!(now_us(-1, TimeVal { sec: 3, usec: 250 }), None);
    for t in [0usize, 1, 999_999, 1_000_000, 123_456_789] {
        let k = KernelTimeVal::from_us(t);
        assert_eq!(now_us(0, TimeVal { sec: k.sec, usec: k.usec }), Some(t));
    }
}

#[test]
fn sleep_passes_at_deadline() {
    let mut t = SleepTest::start(Some(100)).unwrap();
    assert_eq!(t.deadline, 100 + SLEEP_US);
    assert_eq!(t.poll(Some(100 + SLEEP_US - 1)), SleepStep::Yield);
    assert_eq!(t.polls, 1);
    assert_eq!(t.poll(Some(100 + SLEEP_US)), SleepStep::Done(SleepOutcome::Passed));
    assert_eq!(SleepOutcome::Passed.exit_code(), 0);
}

#[test]
fn sleep_fails_on_time_error_or_poll_limit() {
    assert_eq!(SleepTest::start(None), Err(SleepOutcome::TimeError));
    let mut t = SleepTest::start(Some(0)).unwrap();
    assert_eq!(t.poll(None), SleepStep::Done(SleepOutcome::TimeError));
    let mut t = SleepTest { deadline: SLEEP_US, polls: MAX_POLLS - 1 };
    assert!(!t.finished_polling());
    assert_eq!(t.poll(Some(0)), SleepStep::Yield);
    assert!(t.finished_polling());
    assert_eq!(SleepOutcome::PollLimit.exit_code(), -1);
    assert_eq!(SleepOutcome::TimeError.exit_code(), -1);
}
