//! Single mode: the chain's hooks around one step.
use crate::executor::base::BaseExecutor;
use crate::executor::ExecutionResult;
use crate::strmap::StrMap;
use vstd::prelude::*;
use vstd::string::*;

verus! {

/// Runs one step between the hooks of its chain.
pub struct SingleMode {
    base: BaseExecutor,
}

/// The result a mode starts from: successful, status `500`, no data, no
/// time taken, no metadata.
pub open spec fn is_initial_result(r: ExecutionResult) -> bool {
    &&& r.success
    &&& r.status@ == "500"@
    &&& r.data@.len() == 0
    &&& r.duration == 0
    &&& r.metadata@ == Map::<Seq<char>, Seq<char>>::empty()
}

/// The result a mode starts from.
pub fn initial_result() -> (r: ExecutionResult)
    ensures
        is_initial_result(r),
{
    ExecutionResult {
        success: true,
        status: String::from_str("500"),
        data: Vec::new(),
        duration: 0,
        metadata: StrMap::new(),
    }
}

impl SingleMode {
    /// The chain run around the step.
    pub closed spec fn base(&self) -> BaseExecutor {
        self.base
    }

    /// The mode with the given chain.
    pub fn new(base: BaseExecutor) -> (m: Self)
        ensures
            m.base()@ == base@,
    {
        SingleMode { base }
    }

    /// The chain run around the step.
    pub fn chain(&self) -> (r: &BaseExecutor)
        ensures
            r@ == self.base()@,
    {
        &self.base
    }

    /// The result handed to the chain's `after` hooks.
    pub fn start_result(&self) -> (r: ExecutionResult)
        ensures
            is_initial_result(r),
    {
        initial_result()
    }

    /// The mode's name.
    pub fn mode(&self) -> (r: &'static str)
        ensures
            r@ == "single"@,
    {
        "single"
    }
}

} // verus!
