//! Branch and worktree facts, the upstream classifier, and the repository
//! gateway that issues version-control operations through a
//! [`crate::runner::CommandRunner`].

use vstd::prelude::*;
use vstd::string::StrSliceExecFns;
use vstd::string::StringExecFns;

use crate::text::views_of;

pub mod commands;
pub mod json;
pub mod parse;

use crate::runner::CommandRunner;
use crate::text::format_command;
use crate::text::split_lines;
use crate::text::split_lines_spec;
use crate::text::trim;
use crate::text::clone_strings;

verus! {

/// How a local branch relates to its configured upstream.
#[derive(Debug, Clone, Copy, PartialEq, Eq, Structural)]
pub enum UpstreamStatus {
    Identical,
    UpstreamIsAheadOfLocal,
    LocalIsAheadOfUpstream,
    MergeNeeded,
    UpstreamIsGone,
}

/// A branch's configured upstream together with its classified state.
#[derive(Debug, Clone, PartialEq, Eq)]
pub struct Upstream {
    pub name: String,
    pub status: UpstreamStatus,
}

/// One local branch: its name, its upstream relationship when one is
/// configured, and the worktree where it is checked out, if any.
#[derive(Debug, Clone, PartialEq, Eq)]
pub struct Branch {
    pub refname: String,
    pub upstream: Option<Upstream>,
    pub worktree_path: Option<String>,
}

impl Branch {
    /// Whether this branch needs attention: it has no upstream, or its
    /// upstream relationship is anything but `Identical`.
    pub open spec fn spec_needs_action(&self) -> bool {
        match self.upstream {
            Some(u) => u.status != UpstreamStatus::Identical,
            None => true,
        }
    }

    /// A branch needs action unless its upstream state is `Identical`.
    pub fn needs_action(&self) -> (r: bool)
        ensures
            r == self.spec_needs_action(),
    {
        match &self.upstream {
            Some(u) => u.status != UpstreamStatus::Identical,
            None => true,
        }
    }
}

/// One worktree of a repository: its directory and the branch checked out
/// there, if any.
#[derive(Debug, PartialEq, Eq)]
pub struct Worktree {
    pub path: String,
    pub branch: Option<String>,
}

impl Worktree {
    /// Whether this worktree holds uncommitted modifications, untracked
    /// files included: its porcelain status output is non-empty.
    pub fn is_dirty<R: CommandRunner>(&self, runner: &mut R) -> (r: Result<bool, GitError>)
        ensures
            r matches Err(e) ==> e matches GitError::CommandFailed { .. },
    {
        let args = commands::status_args();
        match runner.run_and_capture(self.path.as_str(), "git", &args) {
            Ok(output) => Ok(parse::dirty_from_status_output(output.as_str())),
            Err(detail) => Err(
                GitError::CommandFailed { command: format_command("git", &args), detail },
            ),
        }
    }
}

/// The mathematical shape of a [`Worktree`], used by contracts.
pub struct WorktreeSpec {
    pub path: Seq<char>,
    pub branch: Option<Seq<char>>,
}

impl DeepView for Worktree {
    type V = WorktreeSpec;

    open spec fn deep_view(&self) -> WorktreeSpec {
        WorktreeSpec {
            path: self.path@,
            branch: match self.branch {
                Some(b) => Some(b@),
                None => None,
            },
        }
    }
}

/// The views of a sequence of worktrees.
pub open spec fn worktree_views(s: Seq<Worktree>) -> Seq<WorktreeSpec> {
    Seq::new(s.len(), |i: int| s[i].deep_view())
}

/// Classifies the relationship between a local branch and its upstream from
/// three facts: whether the upstream ref exists, whether the local tip is an
/// ancestor of the upstream tip, and whether the upstream tip is an ancestor
/// of the local tip. A missing upstream ref always classifies as
/// `UpstreamIsGone`, whatever the ancestry flags say.
pub fn classify_upstream(upstream_exists: bool, local_is_ancestor: bool, upstream_is_ancestor: bool) -> (r:
    UpstreamStatus)
    ensures
        !upstream_exists ==> r == UpstreamStatus::UpstreamIsGone,
        upstream_exists && local_is_ancestor && upstream_is_ancestor ==> r
            == UpstreamStatus::Identical,
        upstream_exists && local_is_ancestor && !upstream_is_ancestor ==> r
            == UpstreamStatus::UpstreamIsAheadOfLocal,
        upstream_exists && !local_is_ancestor && upstream_is_ancestor ==> r
            == UpstreamStatus::LocalIsAheadOfUpstream,
        upstream_exists && !local_is_ancestor && !upstream_is_ancestor ==> r
            == UpstreamStatus::MergeNeeded,
{
    if !upstream_exists {
        UpstreamStatus::UpstreamIsGone
    } else if local_is_ancestor && upstream_is_ancestor {
        UpstreamStatus::Identical
    } else if local_is_ancestor {
        UpstreamStatus::UpstreamIsAheadOfLocal
    } else if upstream_is_ancestor {
        UpstreamStatus::LocalIsAheadOfUpstream
    } else {
        UpstreamStatus::MergeNeeded
    }
}

/// Everything that can go wrong while classifying branches or performing
/// actions on them.
#[derive(Debug, Clone, PartialEq, Eq)]
pub enum GitError {
    /// A command could not be run, or ran and reported failure.
    CommandFailed { command: String, detail: String },
    /// A silent query exited with a code the caller does not understand.
    UnexpectedExitCode { command: String, code: i32 },
    /// A silent query was terminated by a signal.
    TerminatedBySignal { command: String },
    /// A worktree listing entry had no path.
    MissingWorktreePath,
    /// The default-branch lookup returned output without the expected field.
    MalformedDefaultBranch { detail: String },
    /// The selection script ran out before the menu was resolved.
    NoSelectionsRemaining,
    /// A selection pointed outside the presented menu.
    InvalidSelection { index: usize },
    /// A rebase was requested for a branch that has no upstream.
    NoUpstreamToRebase,
    /// A worktree deletion was requested for a branch that has no worktree.
    NoWorktreeToDelete,
    /// None of the candidate branches could be checked out.
    NoAvailableBranch,
}

impl GitError {
    /// A human-readable description of the failure.
    pub fn message(&self) -> String {
        match self {
            GitError::CommandFailed { command, detail } => {
                let mut m = command.clone();
                m.append(" failed: ");
                m.append(detail.as_str());
                m
            },
            GitError::UnexpectedExitCode { command, code: _ } => {
                let mut m = command.clone();
                m.append(" returned an unexpected exit code");
                m
            },
            GitError::TerminatedBySignal { command } => {
                let mut m = command.clone();
                m.append(" was terminated by a signal");
                m
            },
            GitError::MissingWorktreePath => "git worktree entry missing path".to_owned(),
            GitError::MalformedDefaultBranch { detail } => {
                let mut m = "failed to parse default branch lookup output: ".to_owned();
                m.append(detail.as_str());
                m
            },
            GitError::NoSelectionsRemaining => "no selections remaining".to_owned(),
            GitError::InvalidSelection { index: _ } => "invalid selection index".to_owned(),
            GitError::NoUpstreamToRebase => "branch has no upstream to rebase onto".to_owned(),
            GitError::NoWorktreeToDelete => {
                "branch has no associated worktree to delete".to_owned()
            },
            GitError::NoAvailableBranch => "no available branch could be checked out".to_owned(),
        }
    }
}

/// Interprets the exit status of `git merge-base --is-ancestor`: 0 means
/// ancestor, 1 and 128 both mean "not an ancestor" (128 covers an unknown
/// ref), every other code is unexpected, and a signal termination is fatal.
pub fn ancestor_from_exit(code: Option<i32>, command: &str) -> (r: Result<bool, GitError>)
    ensures
        code == Some(0i32) ==> r == Ok::<bool, GitError>(true),
        code == Some(1i32) || code == Some(128i32) ==> r == Ok::<bool, GitError>(false),
        match code {
            Some(c) => c != 0 && c != 1 && c != 128 ==> (r matches Err(
                GitError::UnexpectedExitCode { command: cmd, code: rc },
            ) && cmd@ == command@ && rc == c),
            None => (r matches Err(GitError::TerminatedBySignal { command: cmd }) && cmd@
                == command@),
        },
{
    match code {
        Some(0) => Ok(true),
        Some(1) => Ok(false),
        Some(128) => Ok(false),
        Some(c) => Err(GitError::UnexpectedExitCode { command: command.to_owned(), code: c }),
        None => Err(GitError::TerminatedBySignal { command: command.to_owned() }),
    }
}

/// Interprets the exit status of `git rev-parse --quiet --verify`: 0 means
/// the ref exists, 1 means it does not, anything else is unexpected.
pub fn ref_exists_from_exit(code: Option<i32>, command: &str) -> (r: Result<bool, GitError>)
    ensures
        code == Some(0i32) ==> r == Ok::<bool, GitError>(true),
        code == Some(1i32) ==> r == Ok::<bool, GitError>(false),
        match code {
            Some(c) => c != 0 && c != 1 ==> (r matches Err(
                GitError::UnexpectedExitCode { command: cmd, code: rc },
            ) && cmd@ == command@ && rc == c),
            None => (r matches Err(GitError::TerminatedBySignal { command: cmd }) && cmd@
                == command@),
        },
{
    match code {
        Some(0) => Ok(true),
        Some(1) => Ok(false),
        Some(c) => Err(GitError::UnexpectedExitCode { command: command.to_owned(), code: c }),
        None => Err(GitError::TerminatedBySignal { command: command.to_owned() }),
    }
}

/// The version-control operations with effects outside the process, exactly
/// as the workflow issues them. `CheckoutFirstAvailable` stands for the
/// whole try-each-candidate-in-order capability.
#[derive(Debug, Clone, PartialEq, Eq)]
pub enum GitOp {
    Push { refname: String },
    PushCreatingOrigin { refname: String },
    Rebase { refname: String, upstream: String },
    DeleteBranch { refname: String },
    DeleteWorktree { path: String },
    Checkout { refname: String },
    CheckoutFirstAvailable { candidates: Vec<String> },
    CreatePullRequest { refname: String, base: String },
    ShowLog { refname: String },
}

/// The mathematical shape of a [`GitOp`], used by contracts.
pub enum OpSpec {
    Push { refname: Seq<char> },
    PushCreatingOrigin { refname: Seq<char> },
    Rebase { refname: Seq<char>, upstream: Seq<char> },
    DeleteBranch { refname: Seq<char> },
    DeleteWorktree { path: Seq<char> },
    Checkout { refname: Seq<char> },
    CheckoutFirstAvailable { candidates: Seq<Seq<char>> },
    CreatePullRequest { refname: Seq<char>, base: Seq<char> },
    ShowLog { refname: Seq<char> },
}

impl DeepView for GitOp {
    type V = OpSpec;

    open spec fn deep_view(&self) -> OpSpec {
        match self {
            GitOp::Push { refname } => OpSpec::Push { refname: refname@ },
            GitOp::PushCreatingOrigin { refname } => OpSpec::PushCreatingOrigin {
                refname: refname@,
            },
            GitOp::Rebase { refname, upstream } => OpSpec::Rebase {
                refname: refname@,
                upstream: upstream@,
            },
            GitOp::DeleteBranch { refname } => OpSpec::DeleteBranch { refname: refname@ },
            GitOp::DeleteWorktree { path } => OpSpec::DeleteWorktree { path: path@ },
            GitOp::Checkout { refname } => OpSpec::Checkout { refname: refname@ },
            GitOp::CheckoutFirstAvailable { candidates } => OpSpec::CheckoutFirstAvailable {
                candidates: views_of(candidates@),
            },
            GitOp::CreatePullRequest { refname, base } => OpSpec::CreatePullRequest {
                refname: refname@,
                base: base@,
            },
            GitOp::ShowLog { refname } => OpSpec::ShowLog { refname: refname@ },
        }
    }
}

/// Whether an operation mutates repository state; only showing a log does
/// not.
pub open spec fn op_is_mutating(op: OpSpec) -> bool {
    !(op matches OpSpec::ShowLog { .. })
}

/// The mutating operations of a record, in order.
pub open spec fn mutating_ops(log: Seq<OpSpec>) -> Seq<OpSpec> {
    log.filter(|op: OpSpec| op_is_mutating(op))
}

/// Showing a log is informational: recording it leaves the mutating
/// operations of the record exactly as they were.
pub proof fn lemma_show_log_adds_no_mutation(log: Seq<OpSpec>, refname: Seq<char>)
    ensures
        mutating_ops(log.push(OpSpec::ShowLog { refname })) == mutating_ops(log),
{
    reveal_with_fuel(Seq::<OpSpec>::filter, 2);
    let pushed = log.push(OpSpec::ShowLog { refname });
    assert(pushed.drop_last() =~= log);
    assert(pushed.last() == (OpSpec::ShowLog { refname }));
}

/// The views of a sequence of operations.
pub open spec fn ops_views(s: Seq<GitOp>) -> Seq<OpSpec> {
    Seq::new(s.len(), |i: int| s[i].deep_view())
}

proof fn lemma_ops_views_push(pre: Seq<GitOp>, op: GitOp)
    ensures
        ops_views(pre.push(op)) == ops_views(pre).push(op.deep_view()),
{
    assert(ops_views(pre.push(op)) =~= ops_views(pre).push(op.deep_view()));
}

/// Concatenating operation records concatenates their views.
pub proof fn lemma_ops_views_concat(a: Seq<GitOp>, b: Seq<GitOp>)
    ensures
        ops_views(a + b) == ops_views(a) + ops_views(b),
{
    assert(ops_views(a + b) =~= ops_views(a) + ops_views(b));
}

/// Whether `op` is a pull-request creation for `refname`.
pub open spec fn is_create_pr_for(op: OpSpec, refname: Seq<char>) -> bool {
    match op {
        OpSpec::CreatePullRequest { refname: rn, base: _ } => rn == refname,
        _ => false,
    }
}

/// The first of `worktrees` whose status query reports modifications; any
/// worktree reported is one of those given.
pub fn find_dirty_among<R: CommandRunner>(runner: &mut R, worktrees: &Vec<Worktree>) -> (r: Result<
    Option<Worktree>,
    GitError,
>)
    ensures
        (r matches Ok(Some(w)) ==> exists|k: int|
            0 <= k < worktrees@.len() && w.deep_view() == worktrees@[k].deep_view()),
        r matches Err(e) ==> e matches GitError::CommandFailed { .. },
{
    let mut i: usize = 0;
    while i < worktrees.len()
        decreases worktrees@.len() - i,
    {
        let dirty = worktrees[i].is_dirty(runner)?;
        if dirty {
            let found = worktrees[i].clone();
            proof {
                assert(found.deep_view() == worktrees@[i as int].deep_view());
            }
            return Ok(Some(found));
        }
        i = i + 1;
    }
    Ok(None)
}

impl Clone for Worktree {
    /// A copy with the same path and branch.
    fn clone(&self) -> (r: Worktree)
        ensures
            r.deep_view() == self.deep_view(),
    {
        Worktree {
            path: self.path.clone(),
            branch: match &self.branch {
                Some(b) => Some(b.clone()),
                None => None,
            },
        }
    }
}

/// One repository directory, together with the record of every operation
/// with outside effects that was issued against it, in order.
pub struct GitRepo {
    dir: String,
    ops: Vec<GitOp>,
}

impl GitRepo {
    /// The repository's directory.
    pub closed spec fn spec_dir(&self) -> Seq<char> {
        self.dir@
    }

    /// The operations issued so far, oldest first.
    pub closed spec fn log(&self) -> Seq<OpSpec> {
        ops_views(self.ops@)
    }

    /// A gateway for the repository at `dir`, with an empty operation log.
    pub fn new(dir: String) -> (r: GitRepo)
        ensures
            r.spec_dir() == dir@,
            r.log() == Seq::<OpSpec>::empty(),
    {
        let r = GitRepo { dir, ops: Vec::new() };
        proof {
            assert(r.log() =~= Seq::<OpSpec>::empty());
        }
        r
    }

    /// The repository directory.
    pub fn dir(&self) -> (r: &String)
        ensures
            r@ == self.spec_dir(),
    {
        &self.dir
    }

    /// The operations issued so far, oldest first.
    pub fn issued_ops(&self) -> (r: &Vec<GitOp>)
        ensures
            ops_views(r@) == self.log(),
    {
        &self.ops
    }

    /// Consumes the gateway, yielding its operation record.
    pub fn into_ops(self) -> (r: Vec<GitOp>)
        ensures
            ops_views(r@) == self.log(),
    {
        self.ops
    }

    /// Records `op`, then runs it interactively as `program args` in the
    /// repository directory; a failure status becomes an error.
    fn run_mutating<R: CommandRunner>(
        &mut self,
        runner: &mut R,
        program: &str,
        args: Vec<String>,
        op: GitOp,
    ) -> (r: Result<(), GitError>)
        ensures
            final(self).spec_dir() == old(self).spec_dir(),
            final(self).log() == old(self).log().push(op.deep_view()),
            r matches Err(e) ==> e matches GitError::CommandFailed { .. },
    {
        let ghost pre = self.ops@;
        let ghost opv = op.deep_view();
        self.ops.push(op);
        proof {
            assert(ops_views(self.ops@) =~= ops_views(pre).push(opv));
        }
        match runner.run_interactive(self.dir.as_str(), program, &args) {
            Ok(true) => Ok(()),
            Ok(false) => Err(
                GitError::CommandFailed {
                    command: format_command(program, &args),
                    detail: "command reported failure".to_owned(),
                },
            ),
            Err(detail) => Err(
                GitError::CommandFailed { command: format_command(program, &args), detail },
            ),
        }
    }

    /// Pushes `refname` to origin.
    pub fn push<R: CommandRunner>(&mut self, runner: &mut R, refname: &str) -> (r: Result<
        (),
        GitError,
    >)
        ensures
            final(self).spec_dir() == old(self).spec_dir(),
            final(self).log() == old(self).log().push(OpSpec::Push { refname: refname@ }),
            r matches Err(e) ==> e matches GitError::CommandFailed { .. },
    {
        let args = commands::push_args(refname);
        self.run_mutating(runner, "git", args, GitOp::Push { refname: refname.to_owned() })
    }

    /// Pushes `refname`, creating the upstream on origin.
    pub fn push_creating_origin<R: CommandRunner>(&mut self, runner: &mut R, refname: &str) -> (r:
        Result<(), GitError>)
        ensures
            final(self).spec_dir() == old(self).spec_dir(),
            final(self).log() == old(self).log().push(
                OpSpec::PushCreatingOrigin { refname: refname@ },
            ),
            r matches Err(e) ==> e matches GitError::CommandFailed { .. },
    {
        let args = commands::push_creating_origin_args(refname);
        self.run_mutating(
            runner,
            "git",
            args,
            GitOp::PushCreatingOrigin { refname: refname.to_owned() },
        )
    }

    /// Rebases `refname` onto `upstream`.
    pub fn rebase<R: CommandRunner>(&mut self, runner: &mut R, refname: &str, upstream: &str) -> (r:
        Result<(), GitError>)
        ensures
            final(self).spec_dir() == old(self).spec_dir(),
            final(self).log() == old(self).log().push(
                OpSpec::Rebase { refname: refname@, upstream: upstream@ },
            ),
            r matches Err(e) ==> e matches GitError::CommandFailed { .. },
    {
        let args = commands::rebase_args(refname, upstream);
        self.run_mutating(
            runner,
            "git",
            args,
            GitOp::Rebase { refname: refname.to_owned(), upstream: upstream.to_owned() },
        )
    }

    /// Deletes `branch` even when it is not fully merged.
    pub fn delete_branch_forcefully<R: CommandRunner>(&mut self, runner: &mut R, branch: &str) -> (r:
        Result<(), GitError>)
        ensures
            final(self).spec_dir() == old(self).spec_dir(),
            final(self).log() == old(self).log().push(OpSpec::DeleteBranch { refname: branch@ }),
            r matches Err(e) ==> e matches GitError::CommandFailed { .. },
    {
        let args = commands::delete_branch_args(branch);
        self.run_mutating(runner, "git", args, GitOp::DeleteBranch { refname: branch.to_owned() })
    }

    /// Removes the worktree at `path`.
    pub fn delete_worktree<R: CommandRunner>(&mut self, runner: &mut R, path: &str) -> (r: Result<
        (),
        GitError,
    >)
        ensures
            final(self).spec_dir() == old(self).spec_dir(),
            final(self).log() == old(self).log().push(OpSpec::DeleteWorktree { path: path@ }),
            r matches Err(e) ==> e matches GitError::CommandFailed { .. },
    {
        let args = commands::delete_worktree_args(path);
        self.run_mutating(runner, "git", args, GitOp::DeleteWorktree { path: path.to_owned() })
    }

    /// Shows the log of `branch` in the interactive pager.
    pub fn show_log<R: CommandRunner>(&mut self, runner: &mut R, branch: &str) -> (r: Result<
        (),
        GitError,
    >)
        ensures
            final(self).spec_dir() == old(self).spec_dir(),
            final(self).log() == old(self).log().push(OpSpec::ShowLog { refname: branch@ }),
            r matches Err(e) ==> e matches GitError::CommandFailed { .. },
    {
        let args = commands::show_log_args(branch);
        self.run_mutating(runner, "tig", args, GitOp::ShowLog { refname: branch.to_owned() })
    }

    /// Checks out `branch`.
    pub fn checkout_branch<R: CommandRunner>(&mut self, runner: &mut R, branch: &str) -> (r: Result<
        (),
        GitError,
    >)
        ensures
            final(self).spec_dir() == old(self).spec_dir(),
            final(self).log() == old(self).log().push(OpSpec::Checkout { refname: branch@ }),
            r matches Err(e) ==> e matches GitError::CommandFailed { .. },
    {
        let ghost pre = self.ops@;
        let op = GitOp::Checkout { refname: branch.to_owned() };
        let ghost opv = op.deep_view();
        self.ops.push(op);
        proof {
            assert(ops_views(self.ops@) =~= ops_views(pre).push(opv));
        }
        let args = commands::checkout_args(branch);
        match runner.run_and_capture(self.dir.as_str(), "git", &args) {
            Ok(_) => Ok(()),
            Err(detail) => Err(
                GitError::CommandFailed { command: format_command("git", &args), detail },
            ),
        }
    }

    /// Checks out the first of `branches` that can be checked out, trying
    /// them in order.
    pub fn checkout_first_available_branch<R: CommandRunner>(
        &mut self,
        runner: &mut R,
        branches: &Vec<String>,
    ) -> (r: Result<(), GitError>)
        ensures
            final(self).spec_dir() == old(self).spec_dir(),
            final(self).log() == old(self).log().push(
                OpSpec::CheckoutFirstAvailable { candidates: crate::text::views_of(branches@) },
            ),
            r matches Err(e) ==> (e matches GitError::CommandFailed { .. } || e
                == GitError::NoAvailableBranch),
    {
        let ghost pre = self.ops@;
        let op = GitOp::CheckoutFirstAvailable { candidates: clone_strings(branches) };
        let ghost opv = op.deep_view();
        self.ops.push(op);
        proof {
            assert(ops_views(self.ops@) =~= ops_views(pre).push(opv));
        }
        let mut i: usize = 0;
        while i < branches.len()
            invariant
                self.spec_dir() == old(self).spec_dir(),
                self.log() == old(self).log().push(
                    OpSpec::CheckoutFirstAvailable {
                        candidates: crate::text::views_of(branches@),
                    },
                ),
            decreases branches@.len() - i,
        {
            let args = commands::checkout_args(branches[i].as_str());
            match runner.run_interactive(self.dir.as_str(), "git", &args) {
                Ok(true) => {
                    return Ok(());
                },
                Ok(false) => {},
                Err(detail) => {
                    return Err(
                        GitError::CommandFailed { command: format_command("git", &args), detail },
                    );
                },
            }
            i = i + 1;
        }
        Err(GitError::NoAvailableBranch)
    }

    /// Opens a pull request for `refname` against the base branch `base`:
    /// records exactly that pull-request operation and runs it.
    pub fn create_pull_request_against<R: CommandRunner>(
        &mut self,
        runner: &mut R,
        refname: &str,
        base: &str,
    ) -> (r: Result<(), GitError>)
        ensures
            final(self).spec_dir() == old(self).spec_dir(),
            final(self).log() == old(self).log().push(
                OpSpec::CreatePullRequest { refname: refname@, base: base@ },
            ),
            r matches Err(e) ==> e matches GitError::CommandFailed { .. },
    {
        let args = commands::create_pull_request_args(refname, base);
        self.run_mutating(
            runner,
            "gh",
            args,
            GitOp::CreatePullRequest { refname: refname.to_owned(), base: base.to_owned() },
        )
    }

    /// Looks up the default branch through the forge client, then opens a
    /// pull request for `refname` against it through
    /// [`Self::create_pull_request_against`], which pins the recorded
    /// operation to the name the lookup yielded. The log gains exactly one
    /// pull-request operation for `refname` once the lookup succeeds.
    pub fn create_pull_request<R: CommandRunner>(&mut self, runner: &mut R, refname: &str) -> (r:
        Result<(), GitError>)
        ensures
            final(self).spec_dir() == old(self).spec_dir(),
            final(self).log() == old(self).log() || (final(self).log().len() == old(
                self,
            ).log().len() + 1 && final(self).log().take(old(self).log().len() as int) == old(
                self,
            ).log() && is_create_pr_for(final(self).log().last(), refname@)),
            r is Ok ==> final(self).log().len() == old(self).log().len() + 1,
            r matches Err(e) ==> (e matches GitError::CommandFailed { .. } || e matches
                GitError::MalformedDefaultBranch { .. }),
    {
        let db_args = commands::default_branch_args();
        let output = match runner.run_and_capture(self.dir.as_str(), "gh", &db_args) {
            Ok(o) => o,
            Err(detail) => {
                return Err(
                    GitError::CommandFailed { command: format_command("gh", &db_args), detail },
                );
            },
        };
        let base = match json::default_branch_from_json(output.as_str()) {
            Ok(b) => b,
            Err(e) => {
                return Err(e);
            },
        };
        let result = self.create_pull_request_against(runner, refname, base.as_str());
        proof {
            assert(self.log().take(old(self).log().len() as int) =~= old(self).log());
        }
        result
    }

    /// Whether `base` is an ancestor of `commit`, by the permissive exit
    /// code mapping of [`ancestor_from_exit`].
    pub fn is_ancestor<R: CommandRunner>(&self, runner: &mut R, base: &str, commit: &str) -> (r:
        Result<bool, GitError>)
        ensures
            r matches Err(e) ==> (e matches GitError::CommandFailed { .. } || e matches
                GitError::UnexpectedExitCode { .. } || e matches GitError::TerminatedBySignal { .. }),
    {
        let args = commands::is_ancestor_args(base, commit);
        let cmd = format_command("git", &args);
        match runner.run_exit_code(self.dir.as_str(), "git", &args) {
            Ok(code) => ancestor_from_exit(code, cmd.as_str()),
            Err(detail) => Err(GitError::CommandFailed { command: cmd, detail }),
        }
    }

    /// Whether the ref `branch` resolves, by the exit code mapping of
    /// [`ref_exists_from_exit`].
    pub fn branch_exists<R: CommandRunner>(&self, runner: &mut R, branch: &str) -> (r: Result<
        bool,
        GitError,
    >)
        ensures
            r matches Err(e) ==> (e matches GitError::CommandFailed { .. } || e matches
                GitError::UnexpectedExitCode { .. } || e matches GitError::TerminatedBySignal { .. }),
    {
        let args = commands::ref_exists_args(branch);
        let cmd = format_command("git", &args);
        match runner.run_exit_code(self.dir.as_str(), "git", &args) {
            Ok(code) => ref_exists_from_exit(code, cmd.as_str()),
            Err(detail) => Err(GitError::CommandFailed { command: cmd, detail }),
        }
    }

    /// Classifies `local` against `upstream`. A missing upstream ref is
    /// `UpstreamIsGone` without running any ancestry comparison; otherwise
    /// the two ancestry queries feed [`classify_upstream`].
    pub fn get_upstream_status<R: CommandRunner>(
        &self,
        runner: &mut R,
        local: &str,
        upstream: &str,
    ) -> (r: Result<UpstreamStatus, GitError>)
        ensures
            r matches Err(e) ==> (e matches GitError::CommandFailed { .. } || e matches
                GitError::UnexpectedExitCode { .. } || e matches GitError::TerminatedBySignal { .. }),
    {
        let exists = match self.branch_exists(runner, upstream) {
            Ok(e) => e,
            Err(e) => {
                return Err(e);
            },
        };
        if !exists {
            return Ok(classify_upstream(false, false, false));
        }
        let local_is_ancestor = match self.is_ancestor(runner, local, upstream) {
            Ok(b) => b,
            Err(e) => {
                return Err(e);
            },
        };
        let upstream_is_ancestor = match self.is_ancestor(runner, upstream, local) {
            Ok(b) => b,
            Err(e) => {
                return Err(e);
            },
        };
        Ok(classify_upstream(true, local_is_ancestor, upstream_is_ancestor))
    }

    /// The repository's worktrees: what `git worktree list --porcelain`
    /// reports, parsed by [`parse::parse_worktrees`].
    pub fn worktrees<R: CommandRunner>(&self, runner: &mut R) -> (r: Result<Vec<Worktree>, GitError>)
        ensures
            r matches Err(e) ==> (e matches GitError::CommandFailed { .. } || e
                == GitError::MissingWorktreePath),
    {
        let args = commands::worktree_listing_args();
        match runner.run_and_capture(self.dir.as_str(), "git", &args) {
            Ok(output) => parse::parse_worktrees(output.as_str()),
            Err(detail) => Err(
                GitError::CommandFailed { command: format_command("git", &args), detail },
            ),
        }
    }

    /// The first listed worktree with uncommitted modifications, if any.
    pub fn find_dirty_worktree<R: CommandRunner>(&self, runner: &mut R) -> (r: Result<
        Option<Worktree>,
        GitError,
    >)
        ensures
            r matches Err(e) ==> (e matches GitError::CommandFailed { .. } || e
                == GitError::MissingWorktreePath),
    {
        let worktrees = self.worktrees(runner)?;
        find_dirty_among(runner, &worktrees)
    }

    /// Assembles branches from a captured listing and a worktree list: one
    /// branch per non-blank listing line, in order, each as
    /// [`parse::branch_describes_line`] states; every configured upstream is
    /// classified through the ancestry queries and [`classify_upstream`].
    pub fn branches_from_listing<R: CommandRunner>(
        &self,
        runner: &mut R,
        output: &str,
        worktrees: &Vec<Worktree>,
    ) -> (r: Result<Vec<Branch>, GitError>)
        ensures
            r matches Ok(bs) ==> (bs@.len() == parse::listing_entries(output@).len() && (forall|
                j: int,
            |
                0 <= j < bs@.len() ==> parse::branch_describes_line(
                    bs@[j],
                    parse::listing_entries(output@)[j],
                    worktrees@,
                ))),
            r matches Err(e) ==> (e matches GitError::CommandFailed { .. } || e matches
                GitError::UnexpectedExitCode { .. } || e matches GitError::TerminatedBySignal { .. }),
    {
        let lines = split_lines(output);
        let mut branches: Vec<Branch> = Vec::new();
        let mut i: usize = 0;
        proof {
            reveal_with_fuel(Seq::<Seq<char>>::filter, 2);
            assert(views_of(lines@).take(0) =~= Seq::<Seq<char>>::empty());
            assert(parse::nonblank_lines(views_of(lines@).take(0)).len() == 0);
        }
        while i < lines.len()
            invariant
                0 <= i <= lines@.len(),
                views_of(lines@) == split_lines_spec(output@),
                branches@.len() == parse::nonblank_lines(views_of(lines@).take(i as int)).len(),
                forall|j: int|
                    0 <= j < branches@.len() ==> parse::branch_describes_line(
                        branches@[j],
                        parse::nonblank_lines(views_of(lines@).take(i as int))[j],
                        worktrees@,
                    ),
            decreases lines@.len() - i,
        {
            let ghost entries_pre = parse::nonblank_lines(views_of(lines@).take(i as int));
            let trimmed = trim(lines[i].as_str());
            if trimmed.unicode_len() != 0 {
                let parsed = parse::parse_branch_line(lines[i].as_str());
                let local = parsed.0;
                let worktree_path = parse::worktree_path_for(worktrees, local.as_str());
                let upstream = match parsed.1 {
                    None => None,
                    Some(name) => {
                        let status = match self.get_upstream_status(
                            runner,
                            local.as_str(),
                            name.as_str(),
                        ) {
                            Ok(s) => s,
                            Err(e) => {
                                return Err(e);
                            },
                        };
                        Some(Upstream { name, status })
                    },
                };
                let branch = Branch { refname: local, upstream, worktree_path };
                proof {
                    assert(parse::branch_describes_line(branch, lines@[i as int]@, worktrees@));
                }
                branches.push(branch);
            }
            proof {
                reveal_with_fuel(Seq::<Seq<char>>::filter, 2);
                let t1 = views_of(lines@).take(i as int + 1);
                assert(t1.drop_last() =~= views_of(lines@).take(i as int));
                assert(t1.last() == lines@[i as int]@);
                if trimmed@.len() != 0 {
                    assert(parse::nonblank_lines(t1) == entries_pre.push(lines@[i as int]@));
                } else {
                    assert(parse::nonblank_lines(t1) == entries_pre);
                }
            }
            i = i + 1;
        }
        proof {
            assert(views_of(lines@).take(lines@.len() as int) =~= views_of(lines@));
        }
        Ok(branches)
    }

    /// Lists local branches with their worktree and upstream facts: the
    /// captured listing and worktree list are handed to
    /// [`Self::branches_from_listing`], whose contract pins the assembly.
    pub fn get_branches<R: CommandRunner>(&self, runner: &mut R) -> (r: Result<
        Vec<Branch>,
        GitError,
    >)
        ensures
            r matches Err(e) ==> (e matches GitError::CommandFailed { .. } || e
                == GitError::MissingWorktreePath || e matches GitError::UnexpectedExitCode { .. }
                || e matches GitError::TerminatedBySignal { .. }),
    {
        let listing_args = commands::branch_listing_args();
        let output = match runner.run_and_capture(self.dir.as_str(), "git", &listing_args) {
            Ok(o) => o,
            Err(detail) => {
                return Err(
                    GitError::CommandFailed {
                        command: format_command("git", &listing_args),
                        detail,
                    },
                );
            },
        };
        let worktrees = self.worktrees(runner)?;
        self.branches_from_listing(runner, output.as_str(), &worktrees)
    }
}

} // verus!
