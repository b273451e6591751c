//! What the kernel records about each task.
use vstd::prelude::*;
use crate::task::context::TaskContext;

verus! {

/// The life cycle of a task slot.
#[derive(Clone, Copy, Debug, PartialEq, Eq, Structural)]
pub enum TaskStatus {
    /// The slot holds no application.
    UnInit,
    /// Initialised and waiting to be scheduled.
    Ready,
    /// Currently running.
    Running,
    /// Finished.
    Exited,
}

/// One task slot.
#[derive(Clone, Copy)]
pub struct TaskControlBlock {
    pub id: usize,
    pub status: TaskStatus,
    pub cx: TaskContext,
}

} // verus!
