//! Where applications, their stacks and their initial trap contexts live.
use vstd::prelude::*;
use crate::trap::context::{spec_user_sstatus, TrapContext, REG_SP, TRAP_CONTEXT_WORDS};
use crate::config::{APP_BASE_ADDRESS, APP_SIZE_LIMIT, KERNEL_STACK_SIZE, MAX_APP_NUM, USER_STACK_SIZE};

verus! {

/// The region that application `app_id` is loaded to starts here.
pub open spec fn spec_app_base(app_id: int) -> int {
    APP_BASE_ADDRESS + app_id * APP_SIZE_LIMIT
}

/// Start address of the region that application `app_id` is loaded to.
pub fn get_app_base(app_id: usize) -> (base: usize)
    requires
        spec_app_base(app_id as int) <= usize::MAX,
    ensures
        base == spec_app_base(app_id as int),
{
    APP_BASE_ADDRESS + app_id * APP_SIZE_LIMIT
}

} // verus!

verus! {

/// Every stack starts on a page boundary.
pub const STACK_ALIGN: usize = 4096;

/// Addresses of the two stack arrays: `MAX_APP_NUM` kernel stacks of
/// `KERNEL_STACK_SIZE` bytes each and as many user stacks of
/// `USER_STACK_SIZE` bytes each, laid out one after the other.
#[derive(Clone, Copy, Debug)]
pub struct StackLayout {
    pub kernel_stacks: usize,
    pub user_stacks: usize,
}

impl StackLayout {
    /// Both arrays fit below the top of the address space.
    pub open spec fn wf(self) -> bool {
        &&& self.kernel_stacks + MAX_APP_NUM * KERNEL_STACK_SIZE <= usize::MAX
        &&& self.user_stacks + MAX_APP_NUM * USER_STACK_SIZE <= usize::MAX
        &&& self.kernel_stacks % STACK_ALIGN == 0
        &&& self.user_stacks % STACK_ALIGN == 0
    }

    /// The top (highest address, where the stack starts) of the kernel
    /// stack of `app_id`.
    pub open spec fn kernel_stack_top(self, app_id: int) -> int {
        self.kernel_stacks + (app_id + 1) * KERNEL_STACK_SIZE
    }

    /// The top (highest address, where the stack starts) of the user stack
    /// of `app_id`.
    pub open spec fn user_stack_top(self, app_id: int) -> int {
        self.user_stacks + (app_id + 1) * USER_STACK_SIZE
    }

    /// Where the initial trap context of `app_id` is stored: right below the
    /// top of its kernel stack.
    pub open spec fn trap_context_slot(self, app_id: int) -> int {
        self.kernel_stack_top(app_id) - trap_context_size()
    }
}

/// Size in bytes of a saved trap context.
pub open spec fn trap_context_size() -> int {
    TRAP_CONTEXT_WORDS * vstd::layout::size_of::<usize>()
}

/// Size in bytes of a saved trap context.
pub fn get_trap_context_size() -> (size: usize)
    ensures
        size == trap_context_size(),
{
    broadcast use vstd::layout::layout_of_primitives;
    let word = core::mem::size_of::<usize>();
    assert(word == 4 || word == 8);
    TRAP_CONTEXT_WORDS * word
}

/// The top of the kernel stack of `app_id`.
pub fn get_kernel_stack_top(layout: &StackLayout, app_id: usize) -> (sp: usize)
    requires
        layout.wf(),
        app_id < MAX_APP_NUM,
    ensures
        sp == layout.kernel_stack_top(app_id as int),
{
    layout.kernel_stacks + (app_id + 1) * KERNEL_STACK_SIZE
}

/// The top of the user stack of `app_id`, where its stack pointer starts.
pub fn get_user_stack_base(layout: &StackLayout, app_id: usize) -> (sp: usize)
    requires
        layout.wf(),
        app_id < MAX_APP_NUM,
    ensures
        sp == layout.user_stack_top(app_id as int),
{
    layout.user_stacks + (app_id + 1) * USER_STACK_SIZE
}

/// Where the initial trap context of `app_id` goes on its kernel stack: an
/// address aligned for the machine words the context is made of.
pub fn get_trap_context_slot(layout: &StackLayout, app_id: usize) -> (addr: usize)
    requires
        layout.wf(),
        app_id < MAX_APP_NUM,
    ensures
        addr == layout.trap_context_slot(app_id as int),
        addr as int % (vstd::layout::align_of::<usize>() as int) == 0,
{
    let top = get_kernel_stack_top(layout, app_id);
    let size = get_trap_context_size();
    proof { lemma_trap_context_slot_aligned(*layout, app_id as int); }
    top - size
}

/// The trap context slot of every application is aligned for machine
/// words.
pub proof fn lemma_trap_context_slot_aligned(layout: StackLayout, app_id: int)
    requires
        layout.wf(),
        0 <= app_id < MAX_APP_NUM,
    ensures
        layout.trap_context_slot(app_id) % (vstd::layout::align_of::<usize>() as int) == 0,
{
    broadcast use vstd::layout::layout_of_primitives, vstd::layout::align_properties, vstd::layout::align_nonzero;
    let a = vstd::layout::align_of::<usize>() as int;
    let w = vstd::layout::size_of::<usize>() as int;
    assert(w == 4 || w == 8);
    assert(w % a == 0);
    assert(1 <= a <= w) by {
        if a > w {
            vstd::arithmetic::div_mod::lemma_small_mod(w as nat, a as nat);
        }
    }
    let slot = layout.trap_context_slot(app_id);
    let k = layout.kernel_stacks as int / 4096;
    assert(layout.kernel_stacks == k * 4096);
    assert(slot == k * 4096 + (app_id + 1) * 8192 - 34 * w);
    if a == 3 || a == 5 || a == 6 || a == 7 {
        assert(w % a != 0) by {
            if a == 3 { assert(w % 3 != 0); }
            else if a == 5 { assert(w % 5 != 0); }
            else if a == 6 { assert(w % 6 != 0); }
            else { assert(w % 7 != 0); }
        }
    }
    assert(a == 1 || a == 2 || a == 4 || a == 8);
    if a == 1 {
        assert(slot % 1 == 0);
    } else if a == 2 {
        assert(slot % 2 == 0);
    } else if a == 4 {
        assert(slot % 4 == 0);
    } else {
        assert(w == 8);
        assert(slot % 8 == 0);
    }
}

/// The initial trap context of application `app_id` and the address on its
/// kernel stack where it is to be stored. The context enters user mode at
/// the start of the application's region with the stack pointer at the top
/// of its user stack; `sstatus` is the status register as currently read.
pub fn init_app_cx(layout: &StackLayout, app_id: usize, sstatus: usize) -> (res: (usize, TrapContext))
    requires
        layout.wf(),
        app_id < MAX_APP_NUM,
    ensures
        res.0 == layout.trap_context_slot(app_id as int),
        res.0 as int % (vstd::layout::align_of::<usize>() as int) == 0,
        res.1.sepc == spec_app_base(app_id as int),
        res.1.x[REG_SP as int] == layout.user_stack_top(app_id as int),
        forall|i: int| 0 <= i < 32 && i != REG_SP ==> res.1.x[i] == 0,
        res.1.sstatus == spec_user_sstatus(sstatus),
{
    let entry = get_app_base(app_id);
    let sp = get_user_stack_base(layout, app_id);
    let cx = TrapContext::app_init_context(entry, sp, sstatus);
    (get_trap_context_slot(layout, app_id), cx)
}

/// Application regions do not overlap: region `i` ends at or before the
/// start of region `j` for `i < j`.
pub proof fn law_app_regions_disjoint(i: int, j: int)
    requires
        0 <= i < j,
    ensures
        spec_app_base(i) + APP_SIZE_LIMIT <= spec_app_base(j),
{
    assert(spec_app_base(j) - spec_app_base(i) == (j - i) * APP_SIZE_LIMIT);
}

/// Stacks do not overlap: the user stack and the kernel stack of `i` end
/// at or below the bottom of those of `j` for `i < j`, and a trap context
/// stored for `i` lies inside the kernel stack of `i`.
pub proof fn law_stacks_disjoint(layout: StackLayout, i: int, j: int)
    requires
        0 <= i < j,
    ensures
        layout.user_stack_top(i) <= layout.user_stack_top(j) - USER_STACK_SIZE,
        layout.kernel_stack_top(i) <= layout.kernel_stack_top(j) - KERNEL_STACK_SIZE,
        layout.kernel_stack_top(i) - KERNEL_STACK_SIZE <= layout.trap_context_slot(i),
        layout.trap_context_slot(i) + trap_context_size() == layout.kernel_stack_top(i),
{
    broadcast use vstd::layout::layout_of_primitives;
    assert(layout.user_stack_top(j) - layout.user_stack_top(i) == (j - i) * USER_STACK_SIZE);
    assert(layout.kernel_stack_top(j) - layout.kernel_stack_top(i) == (j - i) * KERNEL_STACK_SIZE);
}

} // verus!

verus! {

/// Copying one application image into memory: clear the `APP_SIZE_LIMIT`
/// bytes at `dst`, then copy `len` bytes from `src` to `dst`.
#[derive(Clone, Copy, Debug, PartialEq, Eq, Structural)]
pub struct AppImage {
    pub dst: usize,
    pub src: usize,
    pub len: usize,
}

/// The images are stored back to back: image `i` spans from entry `i` to
/// entry `i + 1` of the table.
pub open spec fn table_sorted(app_start: Seq<usize>) -> bool {
    forall|i: int, j: int| 0 <= i <= j < app_start.len() ==> app_start[i] <= app_start[j]
}

/// The image of application `i` described by the table of image bounds.
pub open spec fn spec_app_image(app_start: Seq<usize>, i: int) -> AppImage {
    AppImage {
        dst: spec_app_base(i) as usize,
        src: app_start[i],
        len: (app_start[i + 1] - app_start[i]) as usize,
    }
}

/// How to load every application, given the table of image bounds that the
/// linker placed after the application count (`num_app + 1` entries):
/// application `i` is copied from between entries `i` and `i + 1` into its
/// own region.
pub fn load_apps(app_start: &[usize]) -> (plan: Vec<AppImage>)
    requires
        app_start@.len() >= 1,
        table_sorted(app_start@),
        spec_app_base(app_start@.len() - 1) <= usize::MAX,
    ensures
        plan@.len() == app_start@.len() - 1,
        forall|i: int| 0 <= i < plan@.len() ==> #[trigger] plan@[i] == spec_app_image(app_start@, i),
{
    let num_app = app_start.len() - 1;
    let mut plan: Vec<AppImage> = Vec::new();
    let mut i: usize = 0;
    while i < num_app
        invariant
            num_app == app_start@.len() - 1,
            i <= num_app,
            table_sorted(app_start@),
            spec_app_base(num_app as int) <= usize::MAX,
            plan@.len() == i,
            forall|j: int| 0 <= j < i ==> #[trigger] plan@[j] == spec_app_image(app_start@, j),
        decreases num_app - i,
    {
        assert(spec_app_base(i as int) <= spec_app_base(num_app as int));
        let base = get_app_base(i);
        plan.push(AppImage { dst: base, src: app_start[i], len: app_start[i + 1] - app_start[i] });
        i = i + 1;
    }
    plan
}

} // verus!
