//! The process-environment facts the workflow needs, injected by the caller
//! instead of read from ambient global state.

use vstd::prelude::*;

verus! {

/// The environment values the assistant consumes: the path of the file that
/// receives a suggested directory, when one is configured.
pub struct ProcessEnvironment {
    suggested_cd_file: Option<String>,
}

impl ProcessEnvironment {
    /// The configured hint-file path.
    pub closed spec fn spec_suggested_cd_file(&self) -> Option<Seq<char>> {
        match self.suggested_cd_file {
            Some(s) => Some(s@),
            None => None,
        }
    }

    /// An environment where the hint-file path is `suggested_cd_file`.
    pub fn new(suggested_cd_file: Option<String>) -> (r: ProcessEnvironment)
        ensures
            r.spec_suggested_cd_file() == (match suggested_cd_file {
                Some(s) => Some(s@),
                None => None::<Seq<char>>,
            }),
    {
        ProcessEnvironment { suggested_cd_file }
    }

    /// The configured hint-file path, when any.
    pub fn suggested_cd_file(&self) -> (r: &Option<String>)
        ensures
            self.spec_suggested_cd_file() == (match r {
                Some(s) => Some(s@),
                None => None::<Seq<char>>,
            }),
    {
        &self.suggested_cd_file
    }
}

} // verus!
