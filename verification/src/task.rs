//! Tasks: a pollable computation, known to the scheduler by its handle,
//! together with an explicit lifecycle tag.

use vstd::prelude::*;

verus! {

/// Lifecycle tag of a task.
#[allow(non_camel_case_types)]
#[derive(Clone, Copy, Debug, PartialEq, Eq, Structural)]
pub enum TaskState {
    /// Waiting for an event; not due to be polled.
    _BLOCKED,
    /// Ready to be polled.
    RUNNABLE,
    /// Being polled right now.
    _RUNNING,
}

/// What a task is, as contracts see it.
pub struct TaskView {
    /// Handle of the boxed, pinned computation that the task drives.
    pub future: usize,
    /// Current lifecycle tag.
    pub state: TaskState,
    /// Tier that the task was spawned into.
    pub priority: u8,
}

/// A pollable unit of work with its lifecycle tag.
///
/// The computation itself lives behind `future`, a handle that only the code
/// which polls it can turn back into the computation.
#[derive(Debug)]
pub struct Task {
    future: usize,
    state: TaskState,
    _priority: u8,
}

impl View for Task {
    type V = TaskView;

    closed spec fn view(&self) -> TaskView {
        TaskView { future: self.future, state: self.state, priority: self._priority }
    }
}

impl Task {
    /// A task for the computation behind `future`, spawned into tier
    /// `priority`. A new task is runnable.
    pub fn new(future: usize, priority: u8) -> (task: Task)
        ensures
            task@ == (TaskView { future, state: TaskState::RUNNABLE, priority }),
    {
        Task { future, state: TaskState::RUNNABLE, _priority: priority }
    }

    /// Handle of the computation that the task drives.
    pub fn future(&self) -> (handle: usize)
        ensures
            handle == self@.future,
    {
        self.future
    }

    /// Whether the task's tag is `RUNNABLE`.
    pub fn _is_runnable(&self) -> (runnable: bool)
        ensures
            runnable == (self@.state == TaskState::RUNNABLE),
    {
        match self.state {
            TaskState::RUNNABLE => true,
            _ => false,
        }
    }

    /// Sets the task's tag to `_BLOCKED`; handle and priority stay.
    pub fn _block(&mut self)
        ensures
            final(self)@ == (TaskView { state: TaskState::_BLOCKED, ..old(self)@ }),
    {
        self.state = TaskState::_BLOCKED;
    }
}

} // verus!
