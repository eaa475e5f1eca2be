//! The scheduling loop's place in the runtime: the context that the loop runs
//! in. The loop itself, which polls the tasks, is the caller's.

use crate::context::Context;
use vstd::prelude::*;

verus! {

/// An owner of a scheduling loop, known to the runtime by the saved context
/// that the loop is entered and left through.
#[derive(Debug)]
pub struct Executor {
    /// Handle of the context in which the scheduling loop runs.
    pub context: Context,
}

impl Executor {
    /// An executor whose context has not been saved yet: its handle holds
    /// address 0.
    pub fn new() -> (executor: Executor)
        ensures
            executor.context@ == 0,
    {
        Executor { context: Context::default() }
    }
}

} // verus!
