use mars_rcore::app_loader::StackLayout;
use mars_rcore::config::MAX_APP_NUM;
use mars_rcore::task::task_info::TaskStatus;
use mars_rcore::task::{
    exit_current_task_and_run_next, get_current_task, run_first_task, suspend_current_task_and_run_next,
    SchedAction, TaskManager,
};

fn layout() -> StackLayout {
    StackLayout { kernel_stacks: 0x8000_0000, user_stacks: 0x9000_0000 }
}

fn statuses(tm: &TaskManager) -> Vec<TaskStatus> {
    tm.tasks.iter().map(|t| t.status).collect()
}

#[test]
fn new_table_loads_apps_and_leaves_rest_empty() {
    let tm = TaskManager::new(3, 0x1234, &layout());
    assert_eq!(tm.current_task, 0);
    for i in 0..MAX_APP_NUM {
        let t = &tm.tasks[i];
        if i < 3 {
            assert_eq!(t.id, i);
            assert_eq!(t.status, TaskStatus::Ready);
            assert_eq!(t.cx.ra, 0x1234);
            let word = core::mem::size_of::<usize>();
            assert_eq!(t.cx.sp, 0x8000_0000 + (i + 1) * 8192 - 34 * word);
        } else {
            assert_eq!(t.id, 0);
            assert_eq!(t.status, TaskStatus::UnInit);
            assert_eq!(t.cx.ra, 0);
            assert_eq!(t.cx.sp, 0);
        }
        assert!(t.cx.s.iter().all(|&r| r == 0));
    }
}

#[test]
fn new_table_caps_at_slot_count() {
    let tm = TaskManager::new(MAX_APP_NUM + 5, 7, &layout());
    assert!(tm.tasks.iter().all(|t| t.status == TaskStatus::Ready));
}

#[test]
fn first_task_runs_slot_zero() {
    let mut tm = TaskManager::new(2, 0, &layout());
    assert_eq!(run_first_task(&mut tm), 0);
    assert_eq!(tm.tasks[0].status, TaskStatus::Running);
    assert_eq!(tm.tasks[1].status, TaskStatus::Ready);
    assert_eq!(get_current_task(&tm), 0);
}

#[test]
fn yield_switches_round_robin() {
    let mut tm = TaskManager::new(3, 0, &layout());
    tm.run_first_task();
    assert_eq!(suspend_current_task_and_run_next(&mut tm), SchedAction::Switch { from: 0, to: 1 });
    assert_eq!(tm.current_task, 1);
    assert_eq!(tm.tasks[0].status, TaskStatus::Ready);
    assert_eq!(tm.tasks[1].status, TaskStatus::Running);
    assert_eq!(tm.suspend_current_task(), SchedAction::Switch { from: 1, to: 2 });
    // wrapping around the ring back to slot 0
    assert_eq!(tm.suspend_current_task(), SchedAction::Switch { from: 2, to: 0 });
    assert_eq!(tm.get_current_task(), 0);
}

#[test]
fn yield_alone_continues() {
    let mut tm = TaskManager::new(2, 0, &layout());
    tm.run_first_task();
    assert_eq!(tm.suspend_current_task(), SchedAction::Switch { from: 0, to: 1 });
    assert_eq!(exit_current_task_and_run_next(&mut tm), SchedAction::Switch { from: 1, to: 0 });
    // only task 0 is left: yielding returns to it without a switch
    assert_eq!(tm.suspend_current_task(), SchedAction::Continue);
    assert_eq!(tm.current_task, 0);
    assert_eq!(tm.tasks[0].status, TaskStatus::Running);
    assert_eq!(tm.tasks[1].status, TaskStatus::Exited);
}

#[test]
fn exit_skips_exited_and_empty_slots_then_shuts_down() {
    let mut tm = TaskManager::new(3, 0, &layout());
    tm.run_first_task();
    assert_eq!(tm.exit_current_task(), SchedAction::Switch { from: 0, to: 1 });
    assert_eq!(tm.exit_current_task(), SchedAction::Switch { from: 1, to: 2 });
    assert_eq!(tm.exit_current_task(), SchedAction::Shutdown);
    let st = statuses(&tm);
    assert_eq!(&st[..3], &[TaskStatus::Exited, TaskStatus::Exited, TaskStatus::Exited]);
    assert!(st[3..].iter().all(|s| *s == TaskStatus::UnInit));
    assert!(st.iter().all(|s| *s != TaskStatus::Running));
}

#[test]
fn find_next_starts_after_current_and_ends_with_it() {
    let mut tm = TaskManager::new(MAX_APP_NUM, 0, &layout());
    for t in tm.tasks.iter_mut() {
        t.status = TaskStatus::Exited;
    }
    tm.current_task = 5;
    assert_eq!(tm.find_next_task(), None);
    tm.tasks[5].status = TaskStatus::Ready;
    assert_eq!(tm.find_next_task(), Some(5));
    tm.tasks[2].status = TaskStatus::Ready;
    assert_eq!(tm.find_next_task(), Some(2));
    tm.tasks[MAX_APP_NUM - 1].status = TaskStatus::Ready;
    assert_eq!(tm.find_next_task(), Some(MAX_APP_NUM - 1));
    tm.tasks[6].status = TaskStatus::Ready;
    assert_eq!(tm.find_next_task(), Some(6));
}

#[test]
fn exited_task_is_never_revived() {
    let mut tm = TaskManager::new(3, 0, &layout());
    tm.run_first_task();
    tm.exit_current_task();
    for _ in 0..10 {
        tm.suspend_current_task();
        assert_eq!(tm.tasks[0].status, TaskStatus::Exited);
        assert_ne!(tm.current_task, 0);
        let running = tm.tasks.iter().filter(|t| t.status == TaskStatus::Running).count();
        assert_eq!(running, 1);
    }
}

#[test]
fn scheduling_keeps_ids_and_contexts() {
    let mut tm = TaskManager::new(4, 0xabc, &layout());
    let before: Vec<(usize, usize, usize)> = tm.tasks.iter().map(|t| (t.id, t.cx.ra, t.cx.sp)).collect();
    tm.run_first_task();
    tm.suspend_current_task();
    tm.exit_current_task();
    tm.suspend_current_task();
    let after: Vec<(usize, usize, usize)> = tm.tasks.iter().map(|t| (t.id, t.cx.ra, t.cx.sp)).collect();
    assert_eq!(before, after);
}
