use mars_rcore::app_loader::{
    get_app_base, get_kernel_stack_top, get_trap_context_size, get_trap_context_slot, get_user_stack_base,
    init_app_cx, load_apps, AppImage, StackLayout,
};
use mars_rcore::batch::{AppManager, BatchLoad};
use mars_rcore::config::{APP_BASE_ADDRESS, APP_SIZE_LIMIT};
use mars_rcore::trap::context::{TrapContext, REG_SP};

fn layout() -> StackLayout {
    StackLayout { kernel_stacks: 0x8000_0000, user_stacks: 0x9000_0000 }
}

#[test]
fn app_bases_are_consecutive_regions() {
    assert_eq!(get_app_base(0), 0x4040_0000);
    assert_eq!(get_app_base(1), 0x4060_0000);
    assert_eq!(get_app_base(3), 0x40a0_0000);
    for i in 0..15 {
        assert!(get_app_base(i) + APP_SIZE_LIMIT <= get_app_base(i + 1));
    }
}

#[test]
fn stacks_grow_down_from_their_tops() {
    let l = layout();
    assert_eq!(get_user_stack_base(&l, 0), 0x9000_2000);
    assert_eq!(get_user_stack_base(&l, 2), 0x9000_6000);
    assert_eq!(get_kernel_stack_top(&l, 1), 0x8000_4000);
    let size = get_trap_context_size();
    assert_eq!(size, 34 * core::mem::size_of::<usize>());
    assert_eq!(get_trap_context_slot(&l, 1), 0x8000_4000 - size);
}

#[test]
fn initial_context_enters_user_mode_at_app_base() {
    let l = layout();
    // SPP (bit 8) set, FS = Dirty (bits 13..14), SIE (bit 1) set
    let sstatus: usize = (1 << 8) | (3 << 13) | (1 << 1);
    let (slot, cx) = init_app_cx(&l, 2, sstatus);
    assert_eq!(slot, get_trap_context_slot(&l, 2));
    assert_eq!(cx.sepc, get_app_base(2));
    assert_eq!(cx.x[REG_SP], get_user_stack_base(&l, 2));
    for (i, r) in cx.x.iter().enumerate() {
        if i != REG_SP {
            assert_eq!(*r, 0);
        }
    }
    // SPP cleared (user), FS = Initial, SIE kept
    assert_eq!(cx.sstatus, (1 << 13) | (1 << 1));
}

#[test]
fn app_init_context_masks_and_sets_fields() {
    let cx = TrapContext::app_init_context(0x1000, 0x2000, 0);
    assert_eq!(cx.sstatus, 1 << 13);
    assert_eq!(cx.sepc, 0x1000);
    assert_eq!(cx.x[2], 0x2000);
    // every bit but the previous privilege and the floating-point state is kept
    let cx = TrapContext::app_init_context(0, 0, 1 << 4);
    assert_eq!(cx.sstatus, (1 << 4) | (1 << 13));
    let cx = TrapContext::app_init_context(0, 0, 1);
    assert_eq!(cx.sstatus, 1 | (1 << 13));
    let cx = TrapContext::app_init_context(0, 0, usize::MAX);
    assert_eq!(cx.sstatus, usize::MAX & !0x4100);
}

#[test]
fn set_sp_sets_register_two() {
    let mut cx = TrapContext::app_init_context(0, 0, 0);
    cx.set_sp(0xdead);
    assert_eq!(cx.x[2], 0xdead);
}

#[test]
fn load_plan_copies_each_image_to_its_region() {
    let table = [0x1000usize, 0x1800, 0x1800, 0x3000];
    let plan = load_apps(&table);
    assert_eq!(
        plan,
        vec![
            AppImage { dst: APP_BASE_ADDRESS, src: 0x1000, len: 0x800 },
            AppImage { dst: APP_BASE_ADDRESS + APP_SIZE_LIMIT, src: 0x1800, len: 0 },
            AppImage { dst: APP_BASE_ADDRESS + 2 * APP_SIZE_LIMIT, src: 0x1800, len: 0x1800 },
        ]
    );
    assert!(load_apps(&[0x42]).is_empty());
}

#[test]
fn batch_runs_each_app_once_then_is_done() {
    let mut m = AppManager::new(&[0x100, 0x300, 0x350]);
    assert_eq!(m.num_app, 2);
    assert_eq!(m.get_current_app(), 0);
    assert_eq!(m.run_next_app(), BatchLoad::Load(AppImage { dst: APP_BASE_ADDRESS, src: 0x100, len: 0x200 }));
    assert_eq!(m.run_next_app(), BatchLoad::Load(AppImage { dst: APP_BASE_ADDRESS, src: 0x300, len: 0x50 }));
    assert_eq!(m.get_current_app(), 2);
    assert_eq!(m.run_next_app(), BatchLoad::AllDone);
    assert_eq!(m.run_next_app(), BatchLoad::AllDone);
    assert_eq!(m.get_current_app(), 2);
    assert_eq!(m.load_app(7), BatchLoad::AllDone);
    m.move_to_next_app();
    assert_eq!(m.get_current_app(), 3);
}

#[test]
fn trap_context_slots_are_word_aligned() {
    let l = layout();
    for i in 0..16 {
        let (slot, _) = init_app_cx(&l, i, 0);
        assert_eq!(slot % core::mem::align_of::<usize>(), 0);
    }
}
