//! IFTTT metadata query request types.

use vstd::prelude::*;

verus! {

/// Parameters for `query.ifttt.trigger` / `query.ifttt.action`.
#[derive(Clone, Debug)]
#[non_exhaustive]
pub struct IftttModelsParams {
    /// Model list.
    pub models: Vec<String>,
}

impl IftttModelsParams {
    /// Create params.
    pub fn new(models: Vec<String>) -> (r: IftttModelsParams)
        ensures
            r.models == models,
    {
        IftttModelsParams { models }
    }
}

} // verus!
