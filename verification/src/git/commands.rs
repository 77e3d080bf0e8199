//! The exact command lines behind each version-control capability.
//!
//! Each builder pins the full argument vector in its contract, so callers
//! and the unverified runner agree on precisely what is executed.

use vstd::prelude::*;
use vstd::string::StrSliceExecFns;

verus! {

/// `git branch --format=%(refname:short):%(upstream:short)`
pub fn branch_listing_args() -> (r: Vec<String>)
    ensures
        r@.len() == 2,
        r@[0]@ == "branch"@,
        r@[1]@ == "--format=%(refname:short):%(upstream:short)"@,
{
    let mut v: Vec<String> = Vec::new();
    v.push("branch".to_owned());
    v.push("--format=%(refname:short):%(upstream:short)".to_owned());
    v
}

/// `git worktree list --porcelain`
pub fn worktree_listing_args() -> (r: Vec<String>)
    ensures
        r@.len() == 3,
        r@[0]@ == "worktree"@,
        r@[1]@ == "list"@,
        r@[2]@ == "--porcelain"@,
{
    let mut v: Vec<String> = Vec::new();
    v.push("worktree".to_owned());
    v.push("list".to_owned());
    v.push("--porcelain".to_owned());
    v
}

/// `git status --porcelain -unormal`
pub fn status_args() -> (r: Vec<String>)
    ensures
        r@.len() == 3,
        r@[0]@ == "status"@,
        r@[1]@ == "--porcelain"@,
        r@[2]@ == "-unormal"@,
{
    let mut v: Vec<String> = Vec::new();
    v.push("status".to_owned());
    v.push("--porcelain".to_owned());
    v.push("-unormal".to_owned());
    v
}

/// `git merge-base --is-ancestor <base> <commit>`
pub fn is_ancestor_args(base: &str, commit: &str) -> (r: Vec<String>)
    ensures
        r@.len() == 4,
        r@[0]@ == "merge-base"@,
        r@[1]@ == "--is-ancestor"@,
        r@[2]@ == base@,
        r@[3]@ == commit@,
{
    let mut v: Vec<String> = Vec::new();
    v.push("merge-base".to_owned());
    v.push("--is-ancestor".to_owned());
    v.push(base.to_owned());
    v.push(commit.to_owned());
    v
}

/// `git rev-parse --quiet --verify <refname>`
pub fn ref_exists_args(refname: &str) -> (r: Vec<String>)
    ensures
        r@.len() == 4,
        r@[0]@ == "rev-parse"@,
        r@[1]@ == "--quiet"@,
        r@[2]@ == "--verify"@,
        r@[3]@ == refname@,
{
    let mut v: Vec<String> = Vec::new();
    v.push("rev-parse".to_owned());
    v.push("--quiet".to_owned());
    v.push("--verify".to_owned());
    v.push(refname.to_owned());
    v
}

/// `git push origin <refname>`
pub fn push_args(refname: &str) -> (r: Vec<String>)
    ensures
        r@.len() == 3,
        r@[0]@ == "push"@,
        r@[1]@ == "origin"@,
        r@[2]@ == refname@,
{
    let mut v: Vec<String> = Vec::new();
    v.push("push".to_owned());
    v.push("origin".to_owned());
    v.push(refname.to_owned());
    v
}

/// `git push --set-upstream origin <refname>`
pub fn push_creating_origin_args(refname: &str) -> (r: Vec<String>)
    ensures
        r@.len() == 4,
        r@[0]@ == "push"@,
        r@[1]@ == "--set-upstream"@,
        r@[2]@ == "origin"@,
        r@[3]@ == refname@,
{
    let mut v: Vec<String> = Vec::new();
    v.push("push".to_owned());
    v.push("--set-upstream".to_owned());
    v.push("origin".to_owned());
    v.push(refname.to_owned());
    v
}

/// `git rebase <upstream> <refname>`
pub fn rebase_args(refname: &str, upstream: &str) -> (r: Vec<String>)
    ensures
        r@.len() == 3,
        r@[0]@ == "rebase"@,
        r@[1]@ == upstream@,
        r@[2]@ == refname@,
{
    let mut v: Vec<String> = Vec::new();
    v.push("rebase".to_owned());
    v.push(upstream.to_owned());
    v.push(refname.to_owned());
    v
}

/// `git branch -D <branch>`
pub fn delete_branch_args(branch: &str) -> (r: Vec<String>)
    ensures
        r@.len() == 3,
        r@[0]@ == "branch"@,
        r@[1]@ == "-D"@,
        r@[2]@ == branch@,
{
    let mut v: Vec<String> = Vec::new();
    v.push("branch".to_owned());
    v.push("-D".to_owned());
    v.push(branch.to_owned());
    v
}

/// `git worktree remove <path>`
pub fn delete_worktree_args(path: &str) -> (r: Vec<String>)
    ensures
        r@.len() == 3,
        r@[0]@ == "worktree"@,
        r@[1]@ == "remove"@,
        r@[2]@ == path@,
{
    let mut v: Vec<String> = Vec::new();
    v.push("worktree".to_owned());
    v.push("remove".to_owned());
    v.push(path.to_owned());
    v
}

/// `git checkout <branch>`
pub fn checkout_args(branch: &str) -> (r: Vec<String>)
    ensures
        r@.len() == 2,
        r@[0]@ == "checkout"@,
        r@[1]@ == branch@,
{
    let mut v: Vec<String> = Vec::new();
    v.push("checkout".to_owned());
    v.push(branch.to_owned());
    v
}

/// `gh repo view --json defaultBranchRef`
pub fn default_branch_args() -> (r: Vec<String>)
    ensures
        r@.len() == 4,
        r@[0]@ == "repo"@,
        r@[1]@ == "view"@,
        r@[2]@ == "--json"@,
        r@[3]@ == "defaultBranchRef"@,
{
    let mut v: Vec<String> = Vec::new();
    v.push("repo".to_owned());
    v.push("view".to_owned());
    v.push("--json".to_owned());
    v.push("defaultBranchRef".to_owned());
    v
}

/// `gh pr create --head <refname> --base <base>`
pub fn create_pull_request_args(refname: &str, base: &str) -> (r: Vec<String>)
    ensures
        r@.len() == 6,
        r@[0]@ == "pr"@,
        r@[1]@ == "create"@,
        r@[2]@ == "--head"@,
        r@[3]@ == refname@,
        r@[4]@ == "--base"@,
        r@[5]@ == base@,
{
    let mut v: Vec<String> = Vec::new();
    v.push("pr".to_owned());
    v.push("create".to_owned());
    v.push("--head".to_owned());
    v.push(refname.to_owned());
    v.push("--base".to_owned());
    v.push(base.to_owned());
    v
}

/// `tig <branch>`
pub fn show_log_args(branch: &str) -> (r: Vec<String>)
    ensures
        r@.len() == 1,
        r@[0]@ == branch@,
{
    let mut v: Vec<String> = Vec::new();
    v.push(branch.to_owned());
    v
}

} // verus!
