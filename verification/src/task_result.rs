use vstd::prelude::*;

verus! {

/// Terminal signal of the whole workflow: either nothing further is
/// required, or control should be handed to an interactive shell at the
/// given directory.
#[derive(Debug, Clone, PartialEq, Eq)]
pub enum TaskResult {
    Proceed,
    ShellActionRequired(String),
}

impl TaskResult {
    /// True exactly when no further action is required.
    pub fn is_proceed(&self) -> (r: bool)
        ensures
            r == (self is Proceed),
    {
        match self {
            TaskResult::Proceed => true,
            TaskResult::ShellActionRequired(_) => false,
        }
    }
}

} // verus!
