//! The per-core runtime: one priority tier set, the strong executor that
//! drives it, and the place of a weak executor.

use crate::context::Context;
use crate::executor::Executor;
use crate::priority::{PriorityInner, DEFAULT_PRIORITY, MAX_PRIORITY};
use crate::storage::InnerView;
use crate::task::{Task, TaskState, TaskView};
use vstd::prelude::*;

verus! {

/// The scheduler state of one core.
pub struct ExecutorRuntime {
    // Touched from one core only: whoever spawns or polls holds the runtime
    // exclusively.
    priority_inner: PriorityInner,
    // The executor that `run` enters.
    strong_executor: Box<Executor>,
    // An executor that is dropped after it has run once. Nothing fills it yet.
    weak_executor: Option<Box<Executor>>,
}

impl ExecutorRuntime {
    /// The tier set of this runtime.
    pub closed spec fn tiers(&self) -> PriorityInner {
        self.priority_inner
    }

    /// The strong executor of this runtime.
    pub closed spec fn strong(&self) -> Executor {
        *self.strong_executor
    }

    /// The weak executor of this runtime, if it has one.
    pub closed spec fn weak(&self) -> Option<Executor> {
        match self.weak_executor {
            Some(executor) => Some(*executor),
            None => None,
        }
    }

    /// A runtime with 32 empty tiers, a strong executor whose context has not
    /// been saved yet, and no weak executor.
    pub fn new() -> (runtime: ExecutorRuntime)
        ensures
            runtime.tiers().tier_count() == MAX_PRIORITY,
            forall|priority: int|
                0 <= priority < MAX_PRIORITY ==> (#[trigger] runtime.tiers().tier(priority))@
                    == InnerView::empty(),
            runtime.strong().context@ == 0,
            runtime.weak() is None,
    {
        ExecutorRuntime {
            priority_inner: PriorityInner::new(),
            strong_executor: Box::new(Executor::new()),
            weak_executor: None,
        }
    }

    /// The executor whose scheduling loop is to be entered: the strong one.
    pub fn run(&self) -> (executor: &Executor)
        ensures
            *executor == self.strong(),
    {
        &*self.strong_executor
    }

    /// Exclusive access to the strong executor, to record where its context
    /// was saved. The tiers and the weak executor are not touched.
    pub fn strong_executor_mut(&mut self) -> (executor: &mut Executor)
        ensures
            *executor == old(self).strong(),
            final(self).strong() == *final(executor),
            final(self).tiers() == old(self).tiers(),
            final(self).weak() == old(self).weak(),
    {
        &mut *self.strong_executor
    }

    /// Exclusive access to the tier set, for the scheduling loop to scan. The
    /// executors are not touched.
    pub fn priority_inner_mut(&mut self) -> (tiers: &mut PriorityInner)
        ensures
            *tiers == old(self).tiers(),
            final(self).tiers() == *final(tiers),
            final(self).strong() == old(self).strong(),
            final(self).weak() == old(self).weak(),
    {
        &mut self.priority_inner
    }

    /// Adds `future` to tier `priority` and returns the key of its slot. The
    /// slot is marked occupied and runnable, so the task is due to be polled.
    pub fn add_task(&mut self, priority: usize, future: Task) -> (key: u64)
        requires
            priority < MAX_PRIORITY,
        ensures
            key == old(self).tiers().tier(priority as int)@.next,
            final(self).tiers().tier_count() == MAX_PRIORITY,
            final(self).tiers().tier(priority as int)@ == old(self).tiers().tier(
                priority as int,
            )@.insert(future@),
            forall|other: int|
                0 <= other < MAX_PRIORITY && other != priority
                    ==> #[trigger] final(self).tiers().tier(other) == old(self).tiers().tier(other),
            final(self).strong() == old(self).strong(),
            final(self).weak() == old(self).weak(),
    {
        let inner = self.priority_inner.get_mut_inner(priority);
        let key = inner.insert(future);
        key
    }
}

/// The task that spawning the computation behind `future` into tier
/// `priority` stores.
pub open spec fn spawned(future: usize, priority: usize) -> TaskView {
    TaskView { future, state: TaskState::RUNNABLE, priority: priority as u8 }
}

/// Spawns the computation behind `future` into tier `DEFAULT_PRIORITY`.
pub fn spawn(runtime: &mut ExecutorRuntime, future: usize)
    ensures
        final(runtime).tiers().tier_count() == MAX_PRIORITY,
        final(runtime).tiers().tier(DEFAULT_PRIORITY as int)@ == old(runtime).tiers().tier(
            DEFAULT_PRIORITY as int,
        )@.insert(spawned(future, DEFAULT_PRIORITY)),
        forall|other: int|
            0 <= other < MAX_PRIORITY && other != DEFAULT_PRIORITY
                ==> #[trigger] final(runtime).tiers().tier(other) == old(runtime).tiers().tier(other),
        final(runtime).strong() == old(runtime).strong(),
        final(runtime).weak() == old(runtime).weak(),
{
    priority_spawn(runtime, future, DEFAULT_PRIORITY)
}

/// Spawns the computation behind `future` into tier `priority`: a runnable
/// task for it is stored in the next free slot of that tier, and the slot is
/// marked occupied and runnable. The other tiers and the executors are not
/// touched.
pub fn priority_spawn(runtime: &mut ExecutorRuntime, future: usize, priority: usize)
    requires
        priority < MAX_PRIORITY,
    ensures
        final(runtime).tiers().tier_count() == MAX_PRIORITY,
        final(runtime).tiers().tier(priority as int)@ == old(runtime).tiers().tier(
            priority as int,
        )@.insert(spawned(future, priority)),
        forall|other: int|
            0 <= other < MAX_PRIORITY && other != priority
                ==> #[trigger] final(runtime).tiers().tier(other) == old(runtime).tiers().tier(other),
        final(runtime).strong() == old(runtime).strong(),
        final(runtime).weak() == old(runtime).weak(),
{
    let task = Task::new(future, priority as u8);
    runtime.add_task(priority, task);
}

/// The switch that enters the scheduler: the first handle is a fresh one, in
/// which the calling context is to be saved and which may be thrown away
/// after; the second is the handle of the strong executor's context, which is
/// to be resumed.
pub fn run(runtime: &ExecutorRuntime) -> (switch: (Context, &Context))
    ensures
        switch.0@ == 0,
        *switch.1 == runtime.strong().context,
{
    let cx = Context::default();
    (cx, &runtime.run().context)
}

/// Meant to demote the strong executor to a weak one. For now it changes
/// nothing.
pub fn force_switch_future(runtime: &mut ExecutorRuntime)
    ensures
        *final(runtime) == *old(runtime),
{
}

} // verus!
