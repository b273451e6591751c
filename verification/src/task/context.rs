//! The callee-saved state a task is switched out with.
use vstd::prelude::*;

verus! {

/// Registers saved by a task switch: the return address, the stack pointer
/// and the twelve callee-saved registers.
#[derive(Clone, Copy)]
pub struct TaskContext {
    pub ra: usize,
    pub sp: usize,
    pub s: [usize; 12],
}

/// All twelve callee-saved registers are zero.
pub open spec fn saved_regs_zero(s: [usize; 12]) -> bool {
    forall|i: int| 0 <= i < 12 ==> s[i] == 0
}

impl TaskContext {
    /// A context with every register zero.
    pub fn zero_init() -> (cx: Self)
        ensures
            cx.ra == 0,
            cx.sp == 0,
            saved_regs_zero(cx.s),
    {
        TaskContext { ra: 0, sp: 0, s: [0usize; 12] }
    }

    /// A context that, when switched to, returns into the trap-return code
    /// at `restore_addr` with the kernel stack pointer `k_stack_ptr`.
    pub fn goto_restore(restore_addr: usize, k_stack_ptr: usize) -> (cx: Self)
        ensures
            cx.ra == restore_addr,
            cx.sp == k_stack_ptr,
            saved_regs_zero(cx.s),
    {
        TaskContext { ra: restore_addr, sp: k_stack_ptr, s: [0usize; 12] }
    }
}

} // verus!
