//! The persisted suggested-directory hint: the verified side prepares the
//! exact text and target path, and the caller performs the write.

use vstd::prelude::*;

use crate::env::ProcessEnvironment;
use crate::fs_utils::expand_tilde;
use crate::fs_utils::expand_tilde_spec;

verus! {

/// The keeper of the suggested-directory hint.
#[derive(Default)]
pub struct Repository;

impl Repository {
    /// A fresh keeper.
    pub fn new() -> (r: Repository) {
        Repository
    }

    /// Where the hint must be written: the configured hint-file path with a
    /// leading tilde expanded, or nothing when no path is configured, in
    /// which case the write is skipped entirely.
    pub fn suggested_directory_target(
        &self,
        environment: &ProcessEnvironment,
        home: &Option<String>,
    ) -> (r: Option<String>)
        ensures
            match environment.spec_suggested_cd_file() {
                Some(configured) => (r matches Some(target) && target@ == expand_tilde_spec(
                    configured,
                    match home {
                        Some(h) => Some(h@),
                        None => None,
                    },
                )),
                None => r is None,
            },
    {
        match environment.suggested_cd_file() {
            Some(configured) => Some(expand_tilde(configured.as_str(), home)),
            None => None,
        }
    }
}

/// The exact text persisted for a suggested directory: the path itself.
pub fn suggested_directory_to_string(path: &str) -> (r: String)
    ensures
        r@ == path@,
{
    path.to_owned()
}

} // verus!
