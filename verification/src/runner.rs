//! The capability that runs external commands for the assistant.
//!
//! The core never spawns processes itself: every version-control operation
//! is delegated to an implementation of [`CommandRunner`] supplied by the
//! caller. The trait carries no contracts; whatever a run returns, the
//! verified code around it states what holds of every outcome.

use vstd::prelude::*;

verus! {

/// Runs commands in a working directory and reports success and output.
///
/// `Err` always means the command could not be run at all (for example, the
/// program was not found); the payload is a diagnostic for error messages.
pub trait CommandRunner {
    /// Runs `program` with `args` in `dir` and captures its standard output.
    /// Returns `Ok(stdout)` when the command succeeded, and `Err(detail)`
    /// when it could not be run or exited unsuccessfully.
    fn run_and_capture(&mut self, dir: &str, program: &str, args: &Vec<String>) -> Result<
        String,
        String,
    >;

    /// Runs `program` with `args` in `dir`, connected to the caller's
    /// terminal. Returns `Ok(true)` when the command exited successfully and
    /// `Ok(false)` when it exited with a failure status.
    fn run_interactive(&mut self, dir: &str, program: &str, args: &Vec<String>) -> Result<
        bool,
        String,
    >;

    /// Runs `program` with `args` in `dir` silently and reports the raw exit
    /// code: `Ok(Some(code))`, or `Ok(None)` when the command was terminated
    /// by a signal.
    fn run_exit_code(&mut self, dir: &str, program: &str, args: &Vec<String>) -> Result<
        Option<i32>,
        String,
    >;

    /// The canonical (symlink-resolved) form of `path`, when it can be
    /// resolved at all.
    fn canonicalize(&mut self, path: &str) -> Option<String>;
}

} // verus!
