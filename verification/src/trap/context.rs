//! The register state saved on a trap, and the state an application starts in.
use vstd::prelude::*;

verus! {

/// Number of machine words in a saved trap context: the 32 general
/// registers, `sstatus` and `sepc`.
pub const TRAP_CONTEXT_WORDS: usize = 34;

/// Index of the stack pointer among the general registers.
pub const REG_SP: usize = 2;

/// Register state saved when a trap enters the kernel.
///
/// `sstatus` holds the raw bits of the status register.
#[derive(Clone, Copy)]
pub struct TrapContext {
    pub x: [usize; 32],
    pub sstatus: usize,
    pub sepc: usize,
}

/// Bit 8 of `sstatus`: the privilege the hart returns to (0: user).
pub const SSTATUS_SPP: usize = 0x100;

/// Bits 13 and 14 of `sstatus`: the state of the floating-point unit.
pub const SSTATUS_FS: usize = 0x6000;

/// The floating-point state `Initial` (value 1) in bits 13 and 14.
pub const SSTATUS_FS_INITIAL: usize = 0x2000;

/// `bits` with the previous privilege set to user mode and the
/// floating-point state set to `Initial`; every other bit kept.
pub open spec fn spec_user_sstatus(bits: usize) -> usize {
    (bits & !0x6100usize) | 0x2000usize
}

/// Writes user mode into the previous-privilege field (bit 8): the
/// one-bit field insertion that the status register's `set_spp(SPP::User)`
/// performs.
fn set_spp_user(bits: usize) -> (r: usize)
    ensures
        r == bits & !SSTATUS_SPP,
{
    bits & !SSTATUS_SPP
}

/// Writes `Initial` (1) into the floating-point state field (bits 13..=14):
/// the two-bit field insertion that the status register's
/// `set_fs(FS::Initial)` performs.
fn set_fs_initial(bits: usize) -> (r: usize)
    ensures
        r == (bits & !SSTATUS_FS) | SSTATUS_FS_INITIAL,
{
    (bits & !SSTATUS_FS) | SSTATUS_FS_INITIAL
}

impl TrapContext {
    /// Sets the saved stack pointer.
    pub fn set_sp(&mut self, sp: usize)
        ensures
            final(self).x@ == old(self).x@.update(REG_SP as int, sp),
            final(self).sstatus == old(self).sstatus,
            final(self).sepc == old(self).sepc,
    {
        self.x[REG_SP] = sp;
    }

    /// The context an application starts from: it enters user mode at
    /// `entry` with stack pointer `sp`, the floating-point unit on, and
    /// every other register zero. `sstatus` is the status register as read
    /// before the switch; all its bits but the previous privilege and the
    /// floating-point state are kept.
    pub fn app_init_context(entry: usize, sp: usize, sstatus: usize) -> (cx: Self)
        ensures
            cx.sepc == entry,
            cx.x[REG_SP as int] == sp,
            forall|i: int| 0 <= i < 32 && i != REG_SP ==> cx.x[i] == 0,
            cx.sstatus == spec_user_sstatus(sstatus),
    {
        let bits = set_spp_user(sstatus);
        let bits = set_fs_initial(bits);
        assert(bits == spec_user_sstatus(sstatus)) by (bit_vector)
            requires
                bits == ((sstatus & !0x100usize) & !0x6000usize) | 0x2000usize,
        ;
        let mut cx = TrapContext { sepc: entry, x: [0usize; 32], sstatus: bits };
        cx.set_sp(sp);
        cx
    }
}

} // verus!
