//! Round-robin scheduling of the application tasks.
//!
//! The scheduler is a state machine: each operation updates the task table
//! and answers with the [`SchedAction`] that the trap path then carries out
//! (switching stacks, returning to the current task, or powering off).
pub mod context;
pub mod task_info;

use vstd::prelude::*;
use crate::config::MAX_APP_NUM;
use crate::task::task_info::{TaskControlBlock, TaskStatus};
use crate::task::context::{saved_regs_zero, TaskContext};
use crate::app_loader::{get_trap_context_slot, StackLayout};

verus! {

/// What the caller has to do after a scheduling decision.
#[derive(Clone, Copy, Debug, PartialEq, Eq, Structural)]
pub enum SchedAction {
    /// Return to the task that was running; no switch is needed.
    Continue,
    /// Save the context of task `from` and resume task `to`.
    Switch { from: usize, to: usize },
    /// No task can run any more: power the machine off.
    Shutdown,
}

/// The task table.
pub struct TaskManager {
    pub current_task: usize,
    pub tasks: [TaskControlBlock; MAX_APP_NUM],
}

/// The abstract state of the scheduler: the current slot and the slots.
pub struct SchedView {
    pub current: int,
    pub tasks: Seq<TaskControlBlock>,
}

impl View for TaskManager {
    type V = SchedView;

    open spec fn view(&self) -> SchedView {
        SchedView { current: self.current_task as int, tasks: self.tasks@ }
    }
}

/// The slot reached from `current` after `offset` steps around the ring.
pub open spec fn ring_slot(current: int, offset: int) -> int {
    (current + offset) % (MAX_APP_NUM as int)
}

/// The number of steps around the ring from `current` to `slot`, between
/// 1 and the ring's size (a full turn leads back to `current`).
pub open spec fn ring_distance(current: int, slot: int) -> int {
    if slot > current {
        slot - current
    } else {
        slot + MAX_APP_NUM - current
    }
}

/// The first ready slot met when walking the ring from `current + offset`
/// up to a full turn.
pub open spec fn scan_ready(tasks: Seq<TaskControlBlock>, current: int, offset: int) -> Option<int>
    decreases MAX_APP_NUM + 1 - offset,
{
    if offset < 1 || offset > MAX_APP_NUM {
        None
    } else if tasks[ring_slot(current, offset)].status == TaskStatus::Ready {
        Some(ring_slot(current, offset))
    } else {
        scan_ready(tasks, current, offset + 1)
    }
}

/// The task chosen to run next: the first ready slot after `current` in
/// ring order, `current` itself being looked at last.
pub open spec fn next_ready(tasks: Seq<TaskControlBlock>, current: int) -> Option<int> {
    scan_ready(tasks, current, 1)
}

/// Slot `i` holds application `i`, ready to run, with a context that
/// returns through `restore_addr` onto the trap context stored on its
/// kernel stack.
pub open spec fn loaded_slot(t: TaskControlBlock, i: int, restore_addr: usize, layout: StackLayout) -> bool {
    &&& t.id == i
    &&& t.status == TaskStatus::Ready
    &&& t.cx.ra == restore_addr
    &&& t.cx.sp == layout.trap_context_slot(i)
    &&& saved_regs_zero(t.cx.s)
}

/// The slot holds no application and an all-zero context.
pub open spec fn empty_slot(t: TaskControlBlock) -> bool {
    &&& t.id == 0
    &&& t.status == TaskStatus::UnInit
    &&& t.cx.ra == 0
    &&& t.cx.sp == 0
    &&& saved_regs_zero(t.cx.s)
}

/// `tcb` with its status replaced.
pub open spec fn with_status(tcb: TaskControlBlock, status: TaskStatus) -> TaskControlBlock {
    TaskControlBlock { status, ..tcb }
}

impl SchedView {
    /// The current slot names a slot of the table.
    pub open spec fn wf(self) -> bool {
        &&& 0 <= self.current < MAX_APP_NUM
        &&& self.tasks.len() == MAX_APP_NUM
    }

    /// The status of slot `i`.
    #[verifier::inline]
    pub open spec fn status(self, i: int) -> TaskStatus {
        self.tasks[i].status
    }

    /// The state with the status of slot `i` replaced.
    pub open spec fn mark(self, i: int, status: TaskStatus) -> SchedView {
        SchedView { current: self.current, tasks: self.tasks.update(i, with_status(self.tasks[i], status)) }
    }

    /// Scheduling the next task: the first ready slot in ring order is made
    /// running and current; if that is the current slot itself it simply
    /// keeps running; if no slot is ready the machine shuts down.
    pub open spec fn run_next(self) -> (SchedView, SchedAction) {
        match next_ready(self.tasks, self.current) {
            None => (self, SchedAction::Shutdown),
            Some(next) => if next == self.current {
                (self.mark(next, TaskStatus::Running), SchedAction::Continue)
            } else {
                (
                    SchedView { current: next, ..self.mark(next, TaskStatus::Running) },
                    SchedAction::Switch { from: self.current as usize, to: next as usize },
                )
            },
        }
    }

    /// The current task yields: it becomes ready and the next one is chosen.
    pub open spec fn suspend(self) -> (SchedView, SchedAction) {
        self.mark(self.current, TaskStatus::Ready).run_next()
    }

    /// The current task exits: it is marked exited and the next one is chosen.
    pub open spec fn exit(self) -> (SchedView, SchedAction) {
        self.mark(self.current, TaskStatus::Exited).run_next()
    }

    /// Exactly one task runs, and it is the current one.
    pub open spec fn one_running(self) -> bool {
        &&& self.status(self.current) == TaskStatus::Running
        &&& forall|i: int| 0 <= i < MAX_APP_NUM && i != self.current ==> self.status(i) != TaskStatus::Running
    }

    /// No slot is running.
    pub open spec fn none_running(self) -> bool {
        forall|i: int| 0 <= i < MAX_APP_NUM ==> self.status(i) != TaskStatus::Running
    }
}

impl TaskManager {
    /// The table the kernel starts with: slots `0..num_app` hold the
    /// applications, ready to run, each with a context that returns through
    /// `restore_addr` onto the trap context stored on its kernel stack; the
    /// remaining slots are empty. Slot 0 is current.
    pub fn new(num_app: usize, restore_addr: usize, layout: &StackLayout) -> (tm: Self)
        requires
            layout.wf(),
        ensures
            tm.current_task == 0,
            tm.wf(),
            tm@.none_running(),
            forall|i: int| 0 <= i < MAX_APP_NUM && i < num_app ==> loaded_slot(#[trigger] tm.tasks[i], i, restore_addr, *layout),
            forall|i: int| 0 <= i < MAX_APP_NUM && i >= num_app ==> empty_slot(#[trigger] tm.tasks[i]),
    {
        let empty = TaskControlBlock { id: 0, status: TaskStatus::UnInit, cx: TaskContext::zero_init() };
        let mut tasks = [empty; MAX_APP_NUM];
        let mut i: usize = 0;
        while i < MAX_APP_NUM && i < num_app
            invariant
                i <= MAX_APP_NUM,
                i <= num_app,
                layout.wf(),
                forall|j: int| 0 <= j < i ==> loaded_slot(#[trigger] tasks[j], j, restore_addr, *layout),
                forall|j: int| i <= j < MAX_APP_NUM ==> #[trigger] tasks[j] == empty,
                empty_slot(empty),
            decreases MAX_APP_NUM - i,
        {
            let sp = get_trap_context_slot(layout, i);
            tasks[i] = TaskControlBlock { id: i, status: TaskStatus::Ready, cx: TaskContext::goto_restore(restore_addr, sp) };
            i = i + 1;
        }
        TaskManager { current_task: 0, tasks }
    }

    /// The current slot names a slot of the table.
    pub open spec fn wf(&self) -> bool {
        self.current_task < MAX_APP_NUM
    }

    fn set_status(&mut self, i: usize, status: TaskStatus)
        requires
            i < MAX_APP_NUM,
        ensures
            final(self)@ == old(self)@.mark(i as int, status),
    {
        let mut t = self.tasks[i];
        t.status = status;
        self.tasks[i] = t;
        assert(self@.tasks =~= old(self)@.mark(i as int, status).tasks);
    }

    /// The index of the current task.
    pub fn get_current_task(&self) -> (id: usize)
        ensures
            id == self.current_task,
    {
        self.current_task
    }

    /// Looks for the next task to run: walks the whole ring starting right
    /// after the current task and ending with the current task itself, and
    /// returns the first ready slot met.
    pub fn find_next_task(&self) -> (next: Option<usize>)
        requires
            self.wf(),
        ensures
            match next {
                Some(i) => next_ready(self@.tasks, self@.current) == Some(i as int),
                None => next_ready(self@.tasks, self@.current) is None,
            },
    {
        let n = MAX_APP_NUM;
        let current = self.current_task;
        let mut offset: usize = 1;
        while offset <= n
            invariant
                1 <= offset <= n + 1,
                n == MAX_APP_NUM,
                current == self.current_task,
                current < MAX_APP_NUM,
                next_ready(self@.tasks, self@.current) == scan_ready(self@.tasks, current as int, offset as int),
            decreases n + 1 - offset,
        {
            let idx = (current + offset) % n;
            if self.tasks[idx].status == TaskStatus::Ready {
                return Some(idx);
            }
            offset = offset + 1;
        }
        None
    }

    /// Picks and starts the next task; see [`SchedView::run_next`].
    fn run_next_task(&mut self) -> (action: SchedAction)
        requires
            old(self).wf(),
        ensures
            (final(self)@, action) == old(self)@.run_next(),
            final(self).wf(),
    {
        match self.find_next_task() {
            Some(next) => {
                let current = self.current_task;
                if next == current {
                    self.set_status(current, TaskStatus::Running);
                    SchedAction::Continue
                } else {
                    proof { lemma_next_ready_in_range(self@.tasks, self@.current); }
                    self.set_status(next, TaskStatus::Running);
                    self.current_task = next;
                    SchedAction::Switch { from: current, to: next }
                }
            },
            None => SchedAction::Shutdown,
        }
    }

    /// The current task yields: it becomes ready and the next ready task in
    /// ring order runs (possibly the yielding task itself).
    pub fn suspend_current_task(&mut self) -> (action: SchedAction)
        requires
            old(self).wf(),
        ensures
            (final(self)@, action) == old(self)@.suspend(),
            final(self).wf(),
    {
        let current = self.current_task;
        self.set_status(current, TaskStatus::Ready);
        self.run_next_task()
    }

    /// The current task exits: it is marked exited and the next ready task
    /// in ring order runs; with none left the machine shuts down.
    pub fn exit_current_task(&mut self) -> (action: SchedAction)
        requires
            old(self).wf(),
        ensures
            (final(self)@, action) == old(self)@.exit(),
            final(self).wf(),
    {
        let current = self.current_task;
        self.set_status(current, TaskStatus::Exited);
        self.run_next_task()
    }

    /// Marks slot 0 running; the caller then switches to its context.
    /// Returns the slot to switch to.
    pub fn run_first_task(&mut self) -> (first: usize)
        ensures
            first == 0,
            final(self)@ == old(self)@.mark(0, TaskStatus::Running),
    {
        self.set_status(0, TaskStatus::Running);
        0
    }
}

/// The index of the current task.
pub fn get_current_task(tm: &TaskManager) -> (id: usize)
    ensures
        id == tm.current_task,
{
    tm.get_current_task()
}

/// Starts the first task; see [`TaskManager::run_first_task`].
pub fn run_first_task(tm: &mut TaskManager) -> (first: usize)
    ensures
        first == 0,
        final(tm)@ == old(tm)@.mark(0, TaskStatus::Running),
{
    tm.run_first_task()
}

/// The current task yields; see [`TaskManager::suspend_current_task`].
pub fn suspend_current_task_and_run_next(tm: &mut TaskManager) -> (action: SchedAction)
    requires
        old(tm).wf(),
    ensures
        (final(tm)@, action) == old(tm)@.suspend(),
        final(tm).wf(),
{
    tm.suspend_current_task()
}

/// The current task exits; see [`TaskManager::exit_current_task`].
pub fn exit_current_task_and_run_next(tm: &mut TaskManager) -> (action: SchedAction)
    requires
        old(tm).wf(),
    ensures
        (final(tm)@, action) == old(tm)@.exit(),
        final(tm).wf(),
{
    tm.exit_current_task()
}

/// A ready slot found by the scan lies in the table and is ready.
pub proof fn lemma_scan_ready_in_range(tasks: Seq<TaskControlBlock>, current: int, offset: int)
    requires
        0 <= current < MAX_APP_NUM,
        tasks.len() == MAX_APP_NUM,
    ensures
        scan_ready(tasks, current, offset) matches Some(i) ==> 0 <= i < MAX_APP_NUM && tasks[i].status
            == TaskStatus::Ready,
    decreases MAX_APP_NUM + 1 - offset,
{
    if 1 <= offset <= MAX_APP_NUM {
        lemma_scan_ready_in_range(tasks, current, offset + 1);
    }
}

/// The task chosen to run next lies in the table and is ready.
pub proof fn lemma_next_ready_in_range(tasks: Seq<TaskControlBlock>, current: int)
    requires
        0 <= current < MAX_APP_NUM,
        tasks.len() == MAX_APP_NUM,
    ensures
        next_ready(tasks, current) matches Some(i) ==> 0 <= i < MAX_APP_NUM && tasks[i].status
            == TaskStatus::Ready,
{
    lemma_scan_ready_in_range(tasks, current, 1);
}

/// Walking `k` steps from `current` (at most a full turn) lands on a slot
/// whose ring distance from `current` is `k`.
pub proof fn lemma_ring_slot_distance(current: int, k: int)
    requires
        0 <= current < MAX_APP_NUM,
        1 <= k <= MAX_APP_NUM,
    ensures
        0 <= ring_slot(current, k) < MAX_APP_NUM,
        ring_distance(current, ring_slot(current, k)) == k,
{
    if current + k < MAX_APP_NUM {
        assert(ring_slot(current, k) == current + k);
    } else {
        assert(ring_slot(current, k) == current + k - MAX_APP_NUM);
    }
}

/// Every slot is reached from `current` by walking its ring distance.
pub proof fn lemma_distance_reaches_slot(current: int, slot: int)
    requires
        0 <= current < MAX_APP_NUM,
        0 <= slot < MAX_APP_NUM,
    ensures
        1 <= ring_distance(current, slot) <= MAX_APP_NUM,
        ring_slot(current, ring_distance(current, slot)) == slot,
{
    if slot > current {
        assert(ring_slot(current, slot - current) == slot);
    } else {
        assert(ring_slot(current, slot + MAX_APP_NUM - current) == slot);
    }
}

/// What the scan from `offset` finds: the returned `k` is the first number
/// of steps, at or after `offset`, that lands on a ready slot, or one past
/// a full turn when there is none.
proof fn lemma_scan_first(tasks: Seq<TaskControlBlock>, current: int, offset: int) -> (k: int)
    requires
        0 <= current < MAX_APP_NUM,
        tasks.len() == MAX_APP_NUM,
        1 <= offset <= MAX_APP_NUM + 1,
    ensures
        offset <= k <= MAX_APP_NUM + 1,
        forall|j: int| offset <= j < k ==> tasks[#[trigger] ring_slot(current, j)].status != TaskStatus::Ready,
        k <= MAX_APP_NUM ==> scan_ready(tasks, current, offset) == Some(ring_slot(current, k)),
        k <= MAX_APP_NUM ==> tasks[ring_slot(current, k)].status == TaskStatus::Ready,
        k == MAX_APP_NUM + 1 ==> scan_ready(tasks, current, offset) is None,
    decreases MAX_APP_NUM + 1 - offset,
{
    if offset > MAX_APP_NUM {
        offset
    } else if tasks[ring_slot(current, offset)].status == TaskStatus::Ready {
        offset
    } else {
        lemma_scan_first(tasks, current, offset + 1)
    }
}

/// Round-robin choice: the task chosen to run next is ready, and every
/// slot met before it when walking the ring from the current task is not
/// ready; nothing is chosen exactly when no slot at all is ready.
pub proof fn law_next_ready_is_first_ready(tasks: Seq<TaskControlBlock>, current: int)
    requires
        0 <= current < MAX_APP_NUM,
        tasks.len() == MAX_APP_NUM,
    ensures
        next_ready(tasks, current) is None <==> (forall|i: int|
            0 <= i < MAX_APP_NUM ==> #[trigger] tasks[i].status != TaskStatus::Ready),
        next_ready(tasks, current) matches Some(i) ==> {
            &&& 0 <= i < MAX_APP_NUM
            &&& tasks[i].status == TaskStatus::Ready
            &&& forall|k: int|
                1 <= k < ring_distance(current, i) ==> tasks[#[trigger] ring_slot(current, k)].status
                    != TaskStatus::Ready
        },
{
    let k = lemma_scan_first(tasks, current, 1);
    lemma_next_ready_in_range(tasks, current);
    if k <= MAX_APP_NUM {
        lemma_ring_slot_distance(current, k);
        assert(tasks[ring_slot(current, k)].status == TaskStatus::Ready);
    } else {
        assert forall|i: int| 0 <= i < MAX_APP_NUM implies #[trigger] tasks[i].status != TaskStatus::Ready by {
            lemma_distance_reaches_slot(current, i);
            assert(tasks[ring_slot(current, ring_distance(current, i))].status != TaskStatus::Ready);
        }
    }
}

/// Yielding never powers the machine off: the yielding task is ready
/// itself, so some task can always run.
pub proof fn law_suspend_never_shuts_down(v: SchedView)
    requires
        v.wf(),
    ensures
        v.suspend().1 != SchedAction::Shutdown,
{
    let w = v.mark(v.current, TaskStatus::Ready);
    law_next_ready_is_first_ready(w.tasks, w.current);
    assert(w.tasks[w.current].status == TaskStatus::Ready);
}

/// When the yielding task is the only one that is ready, it keeps running
/// and nothing else changes.
pub proof fn law_suspend_alone_continues(v: SchedView)
    requires
        v.wf(),
        v.one_running(),
        forall|i: int| 0 <= i < MAX_APP_NUM && i != v.current ==> v.status(i) != TaskStatus::Ready,
    ensures
        v.suspend() == (v, SchedAction::Continue),
{
    let w = v.mark(v.current, TaskStatus::Ready);
    law_next_ready_is_first_ready(w.tasks, w.current);
    assert(w.tasks[w.current].status == TaskStatus::Ready);
    let next = next_ready(w.tasks, w.current)->Some_0;
    assert(w.tasks[next].status == TaskStatus::Ready);
    assert(next == v.current);
    assert(v.suspend().0.tasks =~= v.tasks);
}

/// An exiting task never keeps running.
pub proof fn law_exit_never_continues(v: SchedView)
    requires
        v.wf(),
    ensures
        v.exit().1 != SchedAction::Continue,
{
    let w = v.mark(v.current, TaskStatus::Exited);
    law_next_ready_is_first_ready(w.tasks, w.current);
}

/// Yielding keeps exactly one task running, and that task is current.
pub proof fn law_suspend_keeps_one_running(v: SchedView)
    requires
        v.wf(),
        v.one_running(),
    ensures
        v.suspend().0.wf(),
        v.suspend().0.one_running(),
{
    let w = v.mark(v.current, TaskStatus::Ready);
    law_next_ready_is_first_ready(w.tasks, w.current);
    law_suspend_never_shuts_down(v);
}

/// Exiting keeps exactly one task running, and that task is current,
/// unless no task is left, in which case none runs and the machine shuts
/// down.
pub proof fn law_exit_keeps_one_running(v: SchedView)
    requires
        v.wf(),
        v.one_running(),
    ensures
        v.exit().0.wf(),
        v.exit().1 == SchedAction::Shutdown ==> v.exit().0.none_running(),
        v.exit().1 != SchedAction::Shutdown ==> v.exit().0.one_running(),
{
    let w = v.mark(v.current, TaskStatus::Exited);
    law_next_ready_is_first_ready(w.tasks, w.current);
}

/// Starting the first task from a table where none runs makes it the one
/// running task.
pub proof fn law_run_first_starts_one(v: SchedView)
    requires
        v.wf(),
        v.current == 0,
        v.none_running(),
    ensures
        v.mark(0, TaskStatus::Running).one_running(),
{
}

/// Scheduling never revives a task: under the one-running invariant, a slot
/// that has exited, or that holds no application, keeps that status through
/// a yield and through an exit.
pub proof fn law_finished_and_empty_slots_stay(v: SchedView, i: int)
    requires
        v.wf(),
        v.one_running(),
        0 <= i < MAX_APP_NUM,
        v.status(i) == TaskStatus::Exited || v.status(i) == TaskStatus::UnInit,
    ensures
        v.suspend().0.status(i) == v.status(i),
        v.exit().0.status(i) == v.status(i),
{
    let w = v.mark(v.current, TaskStatus::Ready);
    law_next_ready_is_first_ready(w.tasks, w.current);
    let e = v.mark(v.current, TaskStatus::Exited);
    law_next_ready_is_first_ready(e.tasks, e.current);
}

/// Scheduling only changes statuses and the current slot: every slot keeps
/// its id and its saved context through a yield and through an exit.
pub proof fn law_scheduling_keeps_ids_and_contexts(v: SchedView, i: int)
    requires
        v.wf(),
        0 <= i < MAX_APP_NUM,
    ensures
        v.suspend().0.tasks[i].id == v.tasks[i].id,
        v.suspend().0.tasks[i].cx == v.tasks[i].cx,
        v.exit().0.tasks[i].id == v.tasks[i].id,
        v.exit().0.tasks[i].cx == v.tasks[i].cx,
        v.suspend().0.tasks.len() == MAX_APP_NUM,
        v.exit().0.tasks.len() == MAX_APP_NUM,
{
    let w = v.mark(v.current, TaskStatus::Ready);
    lemma_next_ready_in_range(w.tasks, w.current);
    let e = v.mark(v.current, TaskStatus::Exited);
    lemma_next_ready_in_range(e.tasks, e.current);
}

/// The machine shuts down after an exit exactly when no other task is
/// ready.
pub proof fn law_exit_shuts_down_iff_none_ready(v: SchedView)
    requires
        v.wf(),
    ensures
        (v.exit().1 == SchedAction::Shutdown) <==> (forall|i: int|
            0 <= i < MAX_APP_NUM && i != v.current ==> #[trigger] v.tasks[i].status != TaskStatus::Ready),
{
    let e = v.mark(v.current, TaskStatus::Exited);
    law_next_ready_is_first_ready(e.tasks, e.current);
    if v.exit().1 == SchedAction::Shutdown {
        assert forall|i: int| 0 <= i < MAX_APP_NUM && i != v.current implies #[trigger] v.tasks[i].status
            != TaskStatus::Ready by {
            assert(e.tasks[i] == v.tasks[i]);
        }
    } else {
        let next = next_ready(e.tasks, e.current)->Some_0;
        assert(e.tasks[next] == v.tasks[next]);
    }
}

/// A scheduling call made while tasks run.
#[derive(Clone, Copy, Debug, PartialEq, Eq, Structural)]
pub enum SchedOp {
    /// The current task yields ([`TaskManager::suspend_current_task`]).
    Suspend,
    /// The current task exits ([`TaskManager::exit_current_task`]).
    Exit,
}

/// One scheduling call.
pub open spec fn sched_step(v: SchedView, op: SchedOp) -> (SchedView, SchedAction) {
    match op {
        SchedOp::Suspend => v.suspend(),
        SchedOp::Exit => v.exit(),
    }
}

/// The state after the calls `ops`, made one after the other, and whether
/// the machine shut down on the way (after which no call is made).
pub open spec fn sched_run(v: SchedView, ops: Seq<SchedOp>) -> (SchedView, bool)
    decreases ops.len(),
{
    if ops.len() == 0 {
        (v, false)
    } else {
        let (w, action) = sched_step(v, ops[0]);
        if action == SchedAction::Shutdown {
            (w, true)
        } else {
            sched_run(w, ops.drop_first())
        }
    }
}

/// The run invariant: the table is well formed and either exactly the
/// current task runs or, once the machine has shut down, none does.
pub open spec fn run_inv(v: SchedView, halted: bool) -> bool {
    &&& v.wf()
    &&& if halted { v.none_running() } else { v.one_running() }
}

/// A run that goes on from a state where exactly the current task runs
/// keeps the run invariant, never revives a slot that has exited or holds
/// no application, and keeps every slot's id and saved context.
pub proof fn lemma_sched_run(v: SchedView, ops: Seq<SchedOp>)
    requires
        v.wf(),
        v.one_running(),
    ensures
        run_inv(sched_run(v, ops).0, sched_run(v, ops).1),
        forall|i: int| 0 <= i < MAX_APP_NUM && (v.status(i) == TaskStatus::Exited || v.status(i) == TaskStatus::UnInit)
            ==> #[trigger] sched_run(v, ops).0.tasks[i].status == v.tasks[i].status,
        forall|i: int| 0 <= i < MAX_APP_NUM ==> #[trigger] sched_run(v, ops).0.tasks[i].id == v.tasks[i].id
            && sched_run(v, ops).0.tasks[i].cx == v.tasks[i].cx,
    decreases ops.len(),
{
    if ops.len() > 0 {
        let (w, action) = sched_step(v, ops[0]);
        law_suspend_keeps_one_running(v);
        law_exit_keeps_one_running(v);
        law_suspend_never_shuts_down(v);
        assert forall|i: int| 0 <= i < MAX_APP_NUM implies #[trigger] w.tasks[i].id == v.tasks[i].id
            && w.tasks[i].cx == v.tasks[i].cx && ((v.status(i) == TaskStatus::Exited || v.status(i)
            == TaskStatus::UnInit) ==> w.tasks[i].status == v.tasks[i].status) by {
            law_scheduling_keeps_ids_and_contexts(v, i);
            if v.status(i) == TaskStatus::Exited || v.status(i) == TaskStatus::UnInit {
                law_finished_and_empty_slots_stay(v, i);
            }
        }
        if action != SchedAction::Shutdown {
            lemma_sched_run(w, ops.drop_first());
        }
    }
}

/// A run of `a` followed by `b` is the run of `a`, then (unless the machine
/// shut down) the run of `b` from where `a` left off.
pub proof fn lemma_sched_run_split(v: SchedView, a: Seq<SchedOp>, b: Seq<SchedOp>)
    ensures
        sched_run(v, a + b) == (if sched_run(v, a).1 {
            sched_run(v, a)
        } else {
            sched_run(sched_run(v, a).0, b)
        }),
    decreases a.len(),
{
    if a.len() == 0 {
        assert(a + b =~= b);
    } else {
        assert((a + b)[0] == a[0]);
        assert((a + b).drop_first() =~= a.drop_first() + b);
        lemma_sched_run_split(sched_step(v, a[0]).0, a.drop_first(), b);
    }
}

/// The scheduler over a whole run. Start from a table where no task runs
/// and slot 0 is current (as [`TaskManager::new`] builds it), start the
/// first task, then make any sequence of yields and exits until the machine
/// shuts down. Throughout, the table stays well formed; exactly one task
/// runs and it is the current one, until the shutdown, after which none
/// runs; a slot other than the first that is empty or has exited at the
/// start stays so; and every slot keeps its id and saved context. The same
/// holds from any point of the run onward, since every point reached
/// before the shutdown has exactly the current task running.
pub proof fn law_scheduler_whole_run(v0: SchedView, ops: Seq<SchedOp>)
    requires
        v0.wf(),
        v0.current == 0,
        v0.none_running(),
    ensures
        ({
            let v1 = v0.mark(0, TaskStatus::Running);
            let (w, halted) = sched_run(v1, ops);
            &&& run_inv(w, halted)
            &&& forall|i: int| 0 < i < MAX_APP_NUM && (v0.status(i) == TaskStatus::Exited || v0.status(i) == TaskStatus::UnInit)
                ==> #[trigger] w.tasks[i].status == v0.tasks[i].status
            &&& forall|i: int| 0 <= i < MAX_APP_NUM ==> #[trigger] w.tasks[i].id == v0.tasks[i].id && w.tasks[i].cx
                == v0.tasks[i].cx
        }),
        forall|k: int| 0 <= k <= ops.len() && !(#[trigger] sched_run(v0.mark(0, TaskStatus::Running), ops.take(k))).1
            ==> sched_run(v0.mark(0, TaskStatus::Running), ops.take(k)).0.one_running(),
        forall|k: int, i: int|
            0 <= k <= ops.len() && !(#[trigger] sched_run(v0.mark(0, TaskStatus::Running), ops.take(k))).1 && 0 <= i
                < MAX_APP_NUM && (sched_run(v0.mark(0, TaskStatus::Running), ops.take(k)).0.status(i)
                == TaskStatus::Exited || sched_run(v0.mark(0, TaskStatus::Running), ops.take(k)).0.status(i)
                == TaskStatus::UnInit) ==> #[trigger] sched_run(v0.mark(0, TaskStatus::Running), ops).0.tasks[i].status
                == sched_run(v0.mark(0, TaskStatus::Running), ops.take(k)).0.tasks[i].status,
{
    let v1 = v0.mark(0, TaskStatus::Running);
    law_run_first_starts_one(v0);
    lemma_sched_run(v1, ops);
    assert forall|i: int| 0 < i < MAX_APP_NUM implies #[trigger] v1.tasks[i] == v0.tasks[i] by {}
    assert forall|k: int| 0 <= k <= ops.len() && !(#[trigger] sched_run(v1, ops.take(k))).1 implies sched_run(
        v1,
        ops.take(k),
    ).0.one_running() by {
        lemma_sched_run(v1, ops.take(k));
    }
    assert forall|k: int, i: int|
        0 <= k <= ops.len() && !(#[trigger] sched_run(v1, ops.take(k))).1 && 0 <= i < MAX_APP_NUM && (sched_run(
            v1,
            ops.take(k),
        ).0.status(i) == TaskStatus::Exited || sched_run(v1, ops.take(k)).0.status(i) == TaskStatus::UnInit) implies
        #[trigger] sched_run(v1, ops).0.tasks[i].status == sched_run(v1, ops.take(k)).0.tasks[i].status by {
        lemma_sched_run(v1, ops.take(k));
        let mid = sched_run(v1, ops.take(k)).0;
        lemma_sched_run_split(v1, ops.take(k), ops.skip(k));
        assert(ops.take(k) + ops.skip(k) =~= ops);
        lemma_sched_run(mid, ops.skip(k));
    }
}

} // verus!
