//! Verified core of a git branch assistant.
//!
//! The library classifies local git branches against their upstream
//! counterparts and resolves a bounded menu of remediation actions to a
//! single terminal outcome, either for one repository or for a sweep over
//! the child directories of a parent directory.
//!
//! Running external commands and asking the user to pick a menu entry are
//! capabilities injected by the (unverified) caller: commands go through the
//! [`runner::CommandRunner`] trait, and menu selections arrive as a finite
//! script of indices ([`ui::PromptScript`]). Every operation with a side
//! effect outside the process is recorded as a [`git::GitOp`], so the
//! contracts can state exactly which operations a workflow issues.

pub mod task_result;
pub mod text;
pub mod runner;
pub mod git;
pub mod ui;
pub mod fs_utils;
pub mod cleaner;
pub mod env;
pub mod repository;
pub mod services;
