use mars_rcore::app_loader::StackLayout;
use mars_rcore::sys_call::{dispatch, SyscallOutcome, SyscallRequest};
use mars_rcore::task::TaskManager;
use mars_rcore::time::{get_time, set_next_timer};
use mars_rcore::trap::context::TrapContext;
use mars_rcore::trap::{decode_scause, finish_syscall, trap_handler, Exception, Interrupt, Trap, TrapAction};

const INTERRUPT: usize = 1 << (usize::BITS - 1);

#[test]
fn scause_decodes_standard_causes() {
    assert_eq!(decode_scause(8), Some(Trap::Exception(Exception::UserEnvCall)));
    assert_eq!(decode_scause(7), Some(Trap::Exception(Exception::StoreFault)));
    assert_eq!(decode_scause(15), Some(Trap::Exception(Exception::StorePageFault)));
    assert_eq!(decode_scause(2), Some(Trap::Exception(Exception::IllegalInstruction)));
    assert_eq!(decode_scause(INTERRUPT | 5), Some(Trap::Interrupt(Interrupt::SupervisorTimer)));
    assert_eq!(decode_scause(INTERRUPT | 9), Some(Trap::Interrupt(Interrupt::SupervisorExternal)));
}

#[test]
fn scause_refuses_reserved_codes() {
    assert_eq!(decode_scause(10), None);
    assert_eq!(decode_scause(11), None);
    assert_eq!(decode_scause(16), None);
    assert_eq!(decode_scause(INTERRUPT | 7), None);
    assert_eq!(decode_scause(INTERRUPT), None);
}

fn cx_with(a7: usize, a0: usize, a1: usize, a2: usize) -> TrapContext {
    let mut cx = TrapContext::app_init_context(0x4040_0000, 0x9000_2000, 0);
    cx.x[17] = a7;
    cx.x[10] = a0;
    cx.x[11] = a1;
    cx.x[12] = a2;
    cx.sepc = 0x4040_0100;
    cx
}

#[test]
fn ecall_advances_pc_and_decodes_call() {
    let mut cx = cx_with(64, 1, 0x4040_0200, 12);
    let action = trap_handler(&mut cx, decode_scause(8));
    assert_eq!(action, TrapAction::Syscall(SyscallRequest::Write { fd: 1, buf: 0x4040_0200, len: 12 }));
    assert_eq!(cx.sepc, 0x4040_0104);
    cx.set_syscall_return(-1);
    assert_eq!(cx.x[10], usize::MAX);
    cx.set_syscall_return(12);
    assert_eq!(cx.x[10], 12);
}

#[test]
fn faults_and_timer_leave_context_alone() {
    let cases = [
        (Some(Trap::Exception(Exception::StoreFault)), TrapAction::KillStoreFault),
        (Some(Trap::Exception(Exception::StorePageFault)), TrapAction::KillStoreFault),
        (Some(Trap::Exception(Exception::IllegalInstruction)), TrapAction::KillIllegalInstruction),
        (Some(Trap::Interrupt(Interrupt::SupervisorTimer)), TrapAction::Preempt),
        (Some(Trap::Exception(Exception::LoadFault)), TrapAction::KillUnsupported),
        (Some(Trap::Interrupt(Interrupt::SupervisorSoft)), TrapAction::KillUnsupported),
        (None, TrapAction::KillUnknownCause),
    ];
    for (trap, expected) in cases {
        let mut cx = cx_with(93, 0, 0, 0);
        assert_eq!(trap_handler(&mut cx, trap), expected);
        assert_eq!(cx.sepc, 0x4040_0100);
        assert_eq!(cx.x[10], 0);
    }
}

#[test]
fn time_conversions() {
    assert_eq!(get_time(4_000_000), 1_000_000);
    assert_eq!(get_time(7), 1);
    assert_eq!(set_next_timer(1000, 10_000), 41_000);
}

#[test]
fn syscall_result_lands_in_a0() {
    let layout = StackLayout { kernel_stacks: 0x8000_0000, user_stacks: 0x9000_0000 };
    let mut tm = TaskManager::new(2, 0, &layout);
    tm.run_first_task();

    // write(fd 1, null buffer, 0 bytes): refused, a0 = -1, pc past the ecall
    let mut cx = cx_with(64, 1, 0, 0);
    cx.sepc = 0x4040_0000;
    let before = cx;
    let TrapAction::Syscall(req) = trap_handler(&mut cx, decode_scause(8)) else { panic!("not a system call") };
    let out = dispatch(&mut tm, &layout, req);
    assert_eq!(finish_syscall(&mut cx, out, &[]), None);
    assert_eq!(cx.sepc, 0x4040_0004);
    assert_eq!(cx.x[10], usize::MAX);
    for i in 0..32 {
        if i != 10 {
            assert_eq!(cx.x[i], before.x[i]);
        }
    }
    assert_eq!(cx.sstatus, before.sstatus);

    // a write that passes: a0 = byte count, text handed back
    let mut cx = cx_with(64, 1, 0x4040_0100, 2);
    let TrapAction::Syscall(req) = trap_handler(&mut cx, decode_scause(8)) else { panic!("not a system call") };
    let out = dispatch(&mut tm, &layout, req);
    assert_eq!(out, SyscallOutcome::ReadBuffer { buf: 0x4040_0100, len: 2 });
    assert_eq!(finish_syscall(&mut cx, out, b"hi"), Some("hi"));
    assert_eq!(cx.x[10], 2);
    // invalid UTF-8: a0 = -1
    let mut cx = cx_with(64, 1, 0x4040_0100, 1);
    assert_eq!(finish_syscall(&mut cx, SyscallOutcome::ReadBuffer { buf: 0x4040_0100, len: 1 }, &[0xff]), None);
    assert_eq!(cx.x[10], usize::MAX);

    // yield and a stored time return 0; an exit leaves a0 alone
    let mut cx = cx_with(124, 7, 0, 0);
    let out = dispatch(&mut tm, &layout, SyscallRequest::Yield);
    finish_syscall(&mut cx, out, &[]);
    assert_eq!(cx.x[10], 0);
    let mut cx = cx_with(169, 7, 0, 0);
    finish_syscall(&mut cx, SyscallOutcome::StoreTime { ts: 0x4040_0000 }, &[]);
    assert_eq!(cx.x[10], 0);
    let mut cx = cx_with(93, 7, 0, 0);
    let out = dispatch(&mut tm, &layout, SyscallRequest::Exit { code: 7 });
    finish_syscall(&mut cx, out, &[]);
    assert_eq!(cx.x[10], 7);
}
