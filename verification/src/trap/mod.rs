//! Trap handling: decoding the trap cause and deciding what to do with it.
pub mod context;

use vstd::prelude::*;
use riscv::interrupt::supervisor;
use riscv::interrupt::Trap as RawTrap;
use riscv::register::scause::Scause;
use riscv::{ExceptionNumber, InterruptNumber};
use crate::sys_call::{spec_dispatch, spec_syscall, spec_syscall_return, syscall, SyscallOutcome, SyscallRequest};
use crate::sys_call::fs::sys_write_finish;
use crate::app_loader::StackLayout;
use crate::task::SchedView;
use vstd::string::StringSliceAdditionalSpecFns;
use vstd::utf8::valid_utf8;
use crate::trap::context::TrapContext;

verus! {

/// The supervisor-level interrupts.
#[derive(Clone, Copy, Debug, PartialEq, Eq, Structural)]
pub enum Interrupt {
    SupervisorSoft,
    SupervisorTimer,
    SupervisorExternal,
}

/// The supervisor-level exceptions.
#[derive(Clone, Copy, Debug, PartialEq, Eq, Structural)]
pub enum Exception {
    InstructionMisaligned,
    InstructionFault,
    IllegalInstruction,
    Breakpoint,
    LoadMisaligned,
    LoadFault,
    StoreMisaligned,
    StoreFault,
    UserEnvCall,
    SupervisorEnvCall,
    InstructionPageFault,
    LoadPageFault,
    StorePageFault,
}

/// A decoded trap cause.
#[derive(Clone, Copy, Debug, PartialEq, Eq, Structural)]
pub enum Trap {
    Interrupt(Interrupt),
    Exception(Exception),
}

/// The interrupt with code `code`, if it is one of the standard ones.
pub open spec fn spec_interrupt_from_number(code: usize) -> Option<Interrupt> {
    if code == 1 {
        Some(Interrupt::SupervisorSoft)
    } else if code == 5 {
        Some(Interrupt::SupervisorTimer)
    } else if code == 9 {
        Some(Interrupt::SupervisorExternal)
    } else {
        None
    }
}

/// The exception with code `code`, if it is one of the standard ones.
pub open spec fn spec_exception_from_number(code: usize) -> Option<Exception> {
    if code == 0 {
        Some(Exception::InstructionMisaligned)
    } else if code == 1 {
        Some(Exception::InstructionFault)
    } else if code == 2 {
        Some(Exception::IllegalInstruction)
    } else if code == 3 {
        Some(Exception::Breakpoint)
    } else if code == 4 {
        Some(Exception::LoadMisaligned)
    } else if code == 5 {
        Some(Exception::LoadFault)
    } else if code == 6 {
        Some(Exception::StoreMisaligned)
    } else if code == 7 {
        Some(Exception::StoreFault)
    } else if code == 8 {
        Some(Exception::UserEnvCall)
    } else if code == 9 {
        Some(Exception::SupervisorEnvCall)
    } else if code == 12 {
        Some(Exception::InstructionPageFault)
    } else if code == 13 {
        Some(Exception::LoadPageFault)
    } else if code == 15 {
        Some(Exception::StorePageFault)
    } else {
        None
    }
}

/// Whether the cause register says "interrupt" (its top bit).
pub open spec fn spec_scause_is_interrupt(bits: usize) -> bool {
    if usize::BITS == 64 {
        (bits as u64 >> 63u64) == 1u64
    } else {
        (bits as u32 >> 31u32) == 1u32
    }
}

/// The cause code held in the cause register (all bits but the top one).
pub open spec fn spec_scause_code(bits: usize) -> usize {
    if usize::BITS == 64 {
        (bits as u64 & 0x7fff_ffff_ffff_ffffu64) as usize
    } else {
        (bits as u32 & 0x7fff_ffffu32) as usize
    }
}

/// Calls `Scause::cause` of the `riscv` crate on the register value `bits`
/// and returns whether it is an interrupt and its code. The crate reads the
/// top bit as the interrupt flag and the remaining bits as the code; this
/// contract claims exactly that.
#[verifier::external_body]
fn scause_cause(bits: usize) -> (r: (bool, usize))
    ensures
        r.0 == spec_scause_is_interrupt(bits),
        r.1 == spec_scause_code(bits),
{
    match Scause::from_bits(bits).cause() {
        RawTrap::Interrupt(code) => (true, code),
        RawTrap::Exception(code) => (false, code),
    }
}

/// Calls `from_number` of the `riscv` crate's supervisor `Interrupt` and
/// converts the variant it returns. The crate maps codes 1, 5 and 9 to the
/// soft, timer and external interrupts and refuses every other code; this
/// contract claims exactly that.
#[verifier::external_body]
fn interrupt_from_number(code: usize) -> (r: Option<Interrupt>)
    ensures
        r == spec_interrupt_from_number(code),
{
    match supervisor::Interrupt::from_number(code) {
        Ok(supervisor::Interrupt::SupervisorSoft) => Some(Interrupt::SupervisorSoft),
        Ok(supervisor::Interrupt::SupervisorTimer) => Some(Interrupt::SupervisorTimer),
        Ok(supervisor::Interrupt::SupervisorExternal) => Some(Interrupt::SupervisorExternal),
        Err(_) => None,
    }
}

/// Calls `from_number` of the `riscv` crate's supervisor `Exception` and
/// tells whether it accepted `code`. The crate accepts codes 0 to 9, 12, 13
/// and 15 (the standard exceptions) and refuses every other code; this
/// contract claims exactly that.
#[verifier::external_body]
fn exception_code_known(code: usize) -> (r: bool)
    ensures
        r == spec_exception_from_number(code) is Some,
{
    match supervisor::Exception::from_number(code) {
        Ok(_) => true,
        Err(_) => false,
    }
}

/// The exception with code `code`, if the `riscv` crate knows it; the
/// variants carry the crate's numbering.
pub fn exception_from_number(code: usize) -> (r: Option<Exception>)
    ensures
        r == spec_exception_from_number(code),
{
    if !exception_code_known(code) {
        None
    } else if code == 0 {
        Some(Exception::InstructionMisaligned)
    } else if code == 1 {
        Some(Exception::InstructionFault)
    } else if code == 2 {
        Some(Exception::IllegalInstruction)
    } else if code == 3 {
        Some(Exception::Breakpoint)
    } else if code == 4 {
        Some(Exception::LoadMisaligned)
    } else if code == 5 {
        Some(Exception::LoadFault)
    } else if code == 6 {
        Some(Exception::StoreMisaligned)
    } else if code == 7 {
        Some(Exception::StoreFault)
    } else if code == 8 {
        Some(Exception::UserEnvCall)
    } else if code == 9 {
        Some(Exception::SupervisorEnvCall)
    } else if code == 12 {
        Some(Exception::InstructionPageFault)
    } else if code == 13 {
        Some(Exception::LoadPageFault)
    } else {
        Some(Exception::StorePageFault)
    }
}

/// The decoded cause held in the cause register value `bits`, or `None`
/// when its code is not a standard supervisor interrupt or exception.
pub open spec fn spec_decode_scause(bits: usize) -> Option<Trap> {
    if spec_scause_is_interrupt(bits) {
        match spec_interrupt_from_number(spec_scause_code(bits)) {
            Some(i) => Some(Trap::Interrupt(i)),
            None => None,
        }
    } else {
        match spec_exception_from_number(spec_scause_code(bits)) {
            Some(e) => Some(Trap::Exception(e)),
            None => None,
        }
    }
}

/// Decodes the cause register value `bits`.
pub fn decode_scause(bits: usize) -> (t: Option<Trap>)
    ensures
        t == spec_decode_scause(bits),
{
    let (is_interrupt, code) = scause_cause(bits);
    if is_interrupt {
        match interrupt_from_number(code) {
            Some(i) => Some(Trap::Interrupt(i)),
            None => None,
        }
    } else {
        match exception_from_number(code) {
            Some(e) => Some(Trap::Exception(e)),
            None => None,
        }
    }
}

/// What the kernel does after a trap.
#[derive(Clone, Copy, Debug, PartialEq, Eq, Structural)]
pub enum TrapAction {
    /// Carry out a system call; its result goes into `a0`.
    Syscall(SyscallRequest),
    /// A store fault in the task: kill it.
    KillStoreFault,
    /// An illegal instruction in the task: kill it.
    KillIllegalInstruction,
    /// The timer fired: arm it again and let the next task run.
    Preempt,
    /// A known cause the kernel does not handle: kill the task.
    KillUnsupported,
    /// A cause code that is not a standard one: kill the task.
    KillUnknownCause,
}

/// Index of argument register `a0`, which also carries the return value.
pub const REG_A0: usize = 10;
/// Index of argument register `a1`.
pub const REG_A1: usize = 11;
/// Index of argument register `a2`.
pub const REG_A2: usize = 12;
/// Index of register `a7`, which carries the system call number.
pub const REG_A7: usize = 17;

/// The decision for a trap with cause `trap` taken in context `cx`.
pub open spec fn spec_trap_action(cx: TrapContext, trap: Option<Trap>) -> TrapAction {
    match trap {
        Some(Trap::Exception(Exception::UserEnvCall)) => TrapAction::Syscall(
            spec_syscall(cx.x[REG_A7 as int], [cx.x[REG_A0 as int], cx.x[REG_A1 as int], cx.x[REG_A2 as int]]),
        ),
        Some(Trap::Exception(Exception::StoreFault)) => TrapAction::KillStoreFault,
        Some(Trap::Exception(Exception::StorePageFault)) => TrapAction::KillStoreFault,
        Some(Trap::Exception(Exception::IllegalInstruction)) => TrapAction::KillIllegalInstruction,
        Some(Trap::Interrupt(Interrupt::SupervisorTimer)) => TrapAction::Preempt,
        Some(_) => TrapAction::KillUnsupported,
        None => TrapAction::KillUnknownCause,
    }
}

/// The context after the trap decision: an `ecall` from user mode moves
/// the saved program counter past the instruction; nothing else changes.
pub open spec fn spec_after_trap(cx: TrapContext, trap: Option<Trap>) -> TrapContext {
    if trap == Some(Trap::Exception(Exception::UserEnvCall)) {
        TrapContext { sepc: (cx.sepc + 4) as usize, ..cx }
    } else {
        cx
    }
}

/// Handles a trap with cause `trap` taken in context `cx`. For a system
/// call from user mode the saved program counter moves past the `ecall`
/// instruction (4 bytes) and the call is decoded from `a7` and `a0..a2`;
/// every other cause leaves the context as it is.
pub fn trap_handler(cx: &mut TrapContext, trap: Option<Trap>) -> (action: TrapAction)
    requires
        trap == Some(Trap::Exception(Exception::UserEnvCall)) ==> old(cx).sepc + 4 <= usize::MAX,
    ensures
        action == spec_trap_action(*old(cx), trap),
        *final(cx) == spec_after_trap(*old(cx), trap),
        final(cx).x == old(cx).x,
        final(cx).sstatus == old(cx).sstatus,
        final(cx).sepc == (if trap == Some(Trap::Exception(Exception::UserEnvCall)) {
            old(cx).sepc + 4
        } else {
            old(cx).sepc as int
        }),
{
    match trap {
        Some(Trap::Exception(Exception::UserEnvCall)) => {
            cx.sepc = cx.sepc + 4;
            let req = syscall(cx.x[REG_A7], [cx.x[REG_A0], cx.x[REG_A1], cx.x[REG_A2]]);
            TrapAction::Syscall(req)
        },
        Some(Trap::Exception(Exception::StoreFault)) => TrapAction::KillStoreFault,
        Some(Trap::Exception(Exception::StorePageFault)) => TrapAction::KillStoreFault,
        Some(Trap::Exception(Exception::IllegalInstruction)) => TrapAction::KillIllegalInstruction,
        Some(Trap::Interrupt(Interrupt::SupervisorTimer)) => TrapAction::Preempt,
        Some(_) => TrapAction::KillUnsupported,
        None => TrapAction::KillUnknownCause,
    }
}

impl TrapContext {
    /// Stores the result of a system call in `a0`, as the bits of the
    /// signed value.
    pub fn set_syscall_return(&mut self, ret: isize)
        ensures
            final(self).x@ == old(self).x@.update(REG_A0 as int, ret as usize),
            final(self).sstatus == old(self).sstatus,
            final(self).sepc == old(self).sepc,
    {
        self.x[REG_A0] = ret as usize;
    }
}

/// The context once a system call has been carried out: its return value,
/// if it returns, is in `a0`; nothing else changes.
pub open spec fn spec_finish_syscall(cx: TrapContext, out: SyscallOutcome, data: Seq<u8>) -> TrapContext {
    match spec_syscall_return(out, data) {
        Some(r) => TrapContext { x: vstd::array::spec_array_update(cx.x, REG_A0 as int, r as usize), ..cx },
        None => cx,
    }
}

/// Completes a system call that the kernel carried out with outcome `out`;
/// `data` holds the bytes read for a write (and is empty otherwise). The
/// call's return value goes into `a0`, and for a write of valid UTF-8 the
/// text to print is handed back.
pub fn finish_syscall<'a>(cx: &mut TrapContext, out: SyscallOutcome, data: &'a [u8]) -> (text: Option<&'a str>)
    requires
        data@.len() <= isize::MAX,
        out matches SyscallOutcome::ReadBuffer { len, .. } ==> data@.len() == len,
    ensures
        *final(cx) == spec_finish_syscall(*old(cx), out, data@),
        (out is ReadBuffer && valid_utf8(data@)) ==> (text matches Some(s) && s.spec_bytes() == data@),
        !(out is ReadBuffer && valid_utf8(data@)) ==> text is None,
{
    broadcast use vstd::array::group_array_axioms;
    let ghost c0 = *cx;
    let (ret, text) = match out {
        SyscallOutcome::ReadBuffer { .. } => {
            let (ret, text) = sys_write_finish(data);
            match text {
                Ok(s) => (Some(ret), Some(s)),
                Err(_) => (Some(ret), None),
            }
        },
        SyscallOutcome::WriteRefused(_) => (Some(-1isize), None),
        SyscallOutcome::TimeRefused(_) => (Some(-1isize), None),
        SyscallOutcome::StoreTime { .. } => (Some(0isize), None),
        SyscallOutcome::Yielded { .. } => (Some(0isize), None),
        SyscallOutcome::Exited { .. } => (None, None),
        SyscallOutcome::Unknown { .. } => (None, None),
    };
    if let Some(r) = ret {
        cx.set_syscall_return(r);
        assert(cx.x =~= vstd::array::spec_array_update(c0.x, REG_A0 as int, r as usize));
    }
    text
}

/// A system call returns to the instruction after its `ecall` with its
/// result in `a0` and every other register as it was: the call decoded from
/// the trapped context is decided by the scheduler state `v`, carried out
/// (reading `data` for a write), and its return value lands in `a0`.
pub proof fn law_syscall_result_in_a0(
    c0: TrapContext,
    v: SchedView,
    layout: StackLayout,
    data: Seq<u8>,
)
    requires
        c0.sepc + 4 <= usize::MAX,
        spec_syscall_return(
            spec_dispatch(v, layout, spec_syscall(c0.x[REG_A7 as int], [c0.x[REG_A0 as int], c0.x[REG_A1 as int], c0.x[REG_A2 as int]])).1,
            data,
        ) is Some,
    ensures
        ({
            let trap = Some(Trap::Exception(Exception::UserEnvCall));
            let req = spec_syscall(c0.x[REG_A7 as int], [c0.x[REG_A0 as int], c0.x[REG_A1 as int], c0.x[REG_A2 as int]]);
            let out = spec_dispatch(v, layout, req).1;
            let c2 = spec_finish_syscall(spec_after_trap(c0, trap), out, data);
            &&& spec_trap_action(c0, trap) == TrapAction::Syscall(req)
            &&& c2.sepc == c0.sepc + 4
            &&& c2.sstatus == c0.sstatus
            &&& c2.x[REG_A0 as int] == spec_syscall_return(out, data)->Some_0 as usize
            &&& forall|i: int| 0 <= i < 32 && i != REG_A0 ==> c2.x[i] == c0.x[i]
        }),
{
    broadcast use vstd::array::group_array_axioms;
}

/// Completing a refused call (a write or a time read that failed its
/// checks) puts -1 in `a0` and changes nothing else in the context.
pub proof fn law_refused_call_returns_minus_one(cx: TrapContext, out: SyscallOutcome, data: Seq<u8>)
    requires
        out is WriteRefused || out is TimeRefused,
    ensures
        spec_finish_syscall(cx, out, data).x[REG_A0 as int] == (-1isize) as usize,
        forall|i: int| 0 <= i < 32 && i != REG_A0 ==> spec_finish_syscall(cx, out, data).x[i] == cx.x[i],
        spec_finish_syscall(cx, out, data).sepc == cx.sepc,
        spec_finish_syscall(cx, out, data).sstatus == cx.sstatus,
{
    broadcast use vstd::array::group_array_axioms;
}

impl Exception {
    /// The exception code the RISC-V privileged architecture assigns to
    /// each standard supervisor exception.
    pub open spec fn spec_number(self) -> usize {
        match self {
            Exception::InstructionMisaligned => 0,
            Exception::InstructionFault => 1,
            Exception::IllegalInstruction => 2,
            Exception::Breakpoint => 3,
            Exception::LoadMisaligned => 4,
            Exception::LoadFault => 5,
            Exception::StoreMisaligned => 6,
            Exception::StoreFault => 7,
            Exception::UserEnvCall => 8,
            Exception::SupervisorEnvCall => 9,
            Exception::InstructionPageFault => 12,
            Exception::LoadPageFault => 13,
            Exception::StorePageFault => 15,
        }
    }
}

impl Interrupt {
    /// The interrupt code the RISC-V privileged architecture assigns to each
    /// standard supervisor interrupt.
    pub open spec fn spec_number(self) -> usize {
        match self {
            Interrupt::SupervisorSoft => 1,
            Interrupt::SupervisorTimer => 5,
            Interrupt::SupervisorExternal => 9,
        }
    }
}

/// Decoding gives each code its own cause: an exception or interrupt
/// decoded from a code carries exactly that code, and every standard
/// exception and interrupt is decoded from its code. So a load fault
/// (code 5) is never taken for a store fault (code 7), and so on.
pub proof fn law_cause_codes_round_trip(code: usize, e: Exception, i: Interrupt)
    ensures
        spec_exception_from_number(code) matches Some(d) ==> d.spec_number() == code,
        spec_exception_from_number(e.spec_number()) == Some(e),
        spec_interrupt_from_number(code) matches Some(d) ==> d.spec_number() == code,
        spec_interrupt_from_number(i.spec_number()) == Some(i),
{
}

/// A decoded cause register value names the cause its code field holds:
/// an exception only when the interrupt bit is clear, an interrupt only when
/// it is set, each with the code of the register.
pub proof fn law_decode_scause_keeps_code(bits: usize)
    ensures
        spec_decode_scause(bits) matches Some(Trap::Exception(e)) ==> !spec_scause_is_interrupt(bits)
            && e.spec_number() == spec_scause_code(bits),
        spec_decode_scause(bits) matches Some(Trap::Interrupt(i)) ==> spec_scause_is_interrupt(bits)
            && i.spec_number() == spec_scause_code(bits),
{
    law_cause_codes_round_trip(spec_scause_code(bits), Exception::UserEnvCall, Interrupt::SupervisorTimer);
}

} // verus!
