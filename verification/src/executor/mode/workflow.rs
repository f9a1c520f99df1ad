//! Workflow mode.
use crate::executor::base::BaseExecutor;
use crate::executor::mode::single::{initial_result, is_initial_result};
use crate::executor::{Context, ExecutionResult};
use vstd::prelude::*;

verus! {

/// Runs a workflow of steps.
pub struct WorkflowMode {
    base: BaseExecutor,
}

impl WorkflowMode {
    /// The chain the mode was made with.
    pub closed spec fn base(&self) -> BaseExecutor {
        self.base
    }

    /// The mode with the given chain.
    pub fn new(base: BaseExecutor) -> (m: Self)
        ensures
            m.base()@ == base@,
    {
        WorkflowMode { base }
    }

    /// Runs the workflow: the chain is not run, and the result is the
    /// initial one whatever the context.
    pub fn execute(&self, context: Context) -> (r: Result<ExecutionResult, String>)
        ensures
            r matches Ok(res) && is_initial_result(res),
    {
        Ok(initial_result())
    }

    /// The mode's name.
    pub fn mode(&self) -> (r: &'static str)
        ensures
            r@ == "workflow"@,
    {
        "workflow"
    }
}

} // verus!
