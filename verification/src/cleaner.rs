//! The action resolver: drives each classified branch to a terminal
//! outcome by offering a bounded menu of actions, performing the chosen
//! one, and looping until the branch is handled or control must pass to a
//! shell.

use vstd::prelude::*;
use vstd::string::StrSliceExecFns;
use vstd::string::StringExecFns;

use crate::fs_utils::file_name_of;
use crate::git::Branch;
use crate::git::GitError;
use crate::git::GitRepo;
use crate::git::OpSpec;
use crate::git::UpstreamStatus;
use crate::git::Worktree;
use crate::git::is_create_pr_for;
use crate::runner::CommandRunner;
use crate::task_result::TaskResult;
use crate::text::views_of;
use crate::ui::PromptScript;

verus! {

/// The actions a menu can offer for a branch.
#[derive(Debug, Clone, Copy, PartialEq, Eq, Structural)]
pub enum BranchAction {
    Push,
    PushCreatingOrigin,
    CreatePr,
    Rebase,
    Delete,
    DeleteWorktreeAndBranch,
    Log,
    Shell,
    Nothing,
}

/// The label shown for each action.
pub open spec fn description_spec(a: BranchAction) -> Seq<char> {
    match a {
        BranchAction::Push => "Push to origin"@,
        BranchAction::PushCreatingOrigin => "Push to create origin"@,
        BranchAction::CreatePr => "Push and create pull request"@,
        BranchAction::Rebase => "Rebase onto origin"@,
        BranchAction::Delete => "Delete it"@,
        BranchAction::DeleteWorktreeAndBranch => "Delete worktree and branch"@,
        BranchAction::Log => "Show git log"@,
        BranchAction::Shell => "Exit to shell with branch checked out"@,
        BranchAction::Nothing => "Do nothing"@,
    }
}

impl BranchAction {
    /// The label shown for this action.
    pub fn description(&self) -> (r: &'static str)
        ensures
            r@ == description_spec(*self),
    {
        match self {
            BranchAction::Push => "Push to origin",
            BranchAction::PushCreatingOrigin => "Push to create origin",
            BranchAction::CreatePr => "Push and create pull request",
            BranchAction::Rebase => "Rebase onto origin",
            BranchAction::Delete => "Delete it",
            BranchAction::DeleteWorktreeAndBranch => "Delete worktree and branch",
            BranchAction::Log => "Show git log",
            BranchAction::Shell => "Exit to shell with branch checked out",
            BranchAction::Nothing => "Do nothing",
        }
    }
}

/// What performing one action yields for the menu loop: the branch is
/// handled, the same menu must be shown again, or control passes to a shell
/// at the given directory.
#[derive(Debug, PartialEq, Eq)]
pub enum ActionResult {
    Handled,
    NotHandled,
    ExitToShell(String),
}

/// Whether `b`'s upstream relationship is exactly `s`.
pub open spec fn has_status(b: &Branch, s: UpstreamStatus) -> bool {
    match b.upstream {
        Some(u) => u.status == s,
        None => false,
    }
}

/// Whether the next scripted selection exists and picks `a` from `actions`.
pub open spec fn selection_picks(
    pending: Seq<usize>,
    actions: Seq<BranchAction>,
    a: BranchAction,
) -> bool {
    pending.len() > 0 && (pending[0] as int) < actions.len() && actions[pending[0] as int] == a
}

/// Everything one scripted resolution attempt promises, relative to the
/// menu presented. An exhausted script and an out-of-range first selection
/// are fatal with nothing issued. Otherwise the first selection's action
/// decides the outcome and exactly which operations the record gains:
/// nothing is terminal with no operation; the log entry never resolves by
/// itself, so a successful resolution after it consumed further selections;
/// pushes, deletions and the pull-request pair are accounted op by op; and
/// the actions that respect the worktree-redirect rule are pinned exactly
/// whenever the branch has no worktree to redirect to. `pending0`/`pending1`
/// and `log0`/`log1` are the selection script and the operation record
/// before and after the attempt; `dir0` is the repository directory.
pub open spec fn menu_selection_outcome(
    menu: Seq<BranchAction>,
    pending0: Seq<usize>,
    pending1: Seq<usize>,
    branch: Branch,
    log0: Seq<OpSpec>,
    log1: Seq<OpSpec>,
    dir0: Seq<char>,
    r: Result<TaskResult, GitError>,
) -> bool {
    &&& (pending0.len() == 0 ==> r == Err::<TaskResult, GitError>(GitError::NoSelectionsRemaining)
        && log1 == log0)
    &&& (pending0.len() > 0 && pending0[0] as int >= menu.len() ==> r == Err::<
        TaskResult,
        GitError,
    >(GitError::InvalidSelection { index: pending0[0] }) && log1 == log0)
    &&& (selection_picks(pending0, menu, BranchAction::Nothing) ==> r == Ok::<
        TaskResult,
        GitError,
    >(TaskResult::Proceed) && log1 == log0)
    &&& (selection_picks(pending0, menu, BranchAction::Log) && r is Ok ==> pending0.len()
        - pending1.len() >= 2)
    &&& (selection_picks(pending0, menu, BranchAction::Push) ==> log1 == log0.push(
        OpSpec::Push { refname: branch.refname@ },
    ) && (r is Ok ==> r == Ok::<TaskResult, GitError>(TaskResult::Proceed)))
    &&& (selection_picks(pending0, menu, BranchAction::PushCreatingOrigin) ==> log1 == log0.push(
        OpSpec::PushCreatingOrigin { refname: branch.refname@ },
    ) && (r is Ok ==> r == Ok::<TaskResult, GitError>(TaskResult::Proceed)))
    &&& (selection_picks(pending0, menu, BranchAction::CreatePr) ==> {
        &&& log0.len() + 1 <= log1.len() <= log0.len() + 2
        &&& log1.take(log0.len() as int) == log0
        &&& log1[log0.len() as int] == (OpSpec::PushCreatingOrigin { refname: branch.refname@ })
        &&& (log1.len() == log0.len() + 2 ==> is_create_pr_for(log1.last(), branch.refname@))
        &&& (r is Ok ==> r == Ok::<TaskResult, GitError>(TaskResult::Proceed) && log1.len()
            == log0.len() + 2)
    })
    &&& (selection_picks(pending0, menu, BranchAction::Rebase) ==> {
        &&& (r matches Ok(TaskResult::ShellActionRequired(p)) ==> log1 == log0 && (
        branch.worktree_path matches Some(w) && p@ == w@))
        &&& (r == Ok::<TaskResult, GitError>(TaskResult::Proceed) ==> (
        branch.upstream matches Some(u) && log1 == log0.push(
            OpSpec::Rebase { refname: branch.refname@, upstream: u.name@ },
        )))
        &&& (branch.upstream is None ==> log1 == log0 && (r is Err ==> r == Err::<
            TaskResult,
            GitError,
        >(GitError::NoUpstreamToRebase)))
        &&& (branch.worktree_path is None ==> ((branch.upstream is None ==> r == Err::<
            TaskResult,
            GitError,
        >(GitError::NoUpstreamToRebase)) && (branch.upstream matches Some(u) ==> log1 == log0.push(
            OpSpec::Rebase { refname: branch.refname@, upstream: u.name@ },
        ) && (r is Ok ==> r == Ok::<TaskResult, GitError>(TaskResult::Proceed)))))
    })
    &&& (selection_picks(pending0, menu, BranchAction::Delete) ==> {
        &&& (r matches Ok(TaskResult::ShellActionRequired(p)) ==> log1 == log0 && (
        branch.worktree_path matches Some(w) && p@ == w@))
        &&& (r == Ok::<TaskResult, GitError>(TaskResult::Proceed) ==> log1 == log0.push(
            OpSpec::CheckoutFirstAvailable { candidates: seq!["release"@, "master"@, "main"@] },
        ).push(OpSpec::DeleteBranch { refname: branch.refname@ }))
        &&& (branch.worktree_path is None ==> (r is Ok ==> r == Ok::<TaskResult, GitError>(
            TaskResult::Proceed,
        ) && log1 == log0.push(
            OpSpec::CheckoutFirstAvailable { candidates: seq!["release"@, "master"@, "main"@] },
        ).push(OpSpec::DeleteBranch { refname: branch.refname@ })))
    })
    &&& (selection_picks(pending0, menu, BranchAction::DeleteWorktreeAndBranch) ==> {
        &&& (branch.worktree_path is None ==> r == Err::<TaskResult, GitError>(
            GitError::NoWorktreeToDelete,
        ) && log1 == log0)
        &&& (r is Ok ==> r == Ok::<TaskResult, GitError>(TaskResult::Proceed) && (
        branch.worktree_path matches Some(w) && log1 == log0.push(
            OpSpec::DeleteWorktree { path: w@ },
        ).push(OpSpec::DeleteBranch { refname: branch.refname@ })))
    })
    &&& (selection_picks(pending0, menu, BranchAction::Shell) ==> {
        &&& (r matches Ok(TaskResult::ShellActionRequired(p)) ==> ((log1 == log0 && (
        branch.worktree_path matches Some(w) && p@ == w@)) || (log1 == log0.push(
            OpSpec::Checkout { refname: branch.refname@ },
        ) && p@ == dir0)))
        &&& (r is Ok ==> r matches Ok(TaskResult::ShellActionRequired(_)))
        &&& (branch.worktree_path is None ==> log1 == log0.push(
            OpSpec::Checkout { refname: branch.refname@ },
        ) && (r is Ok ==> (r matches Ok(TaskResult::ShellActionRequired(q)) && q@ == dir0)))
    })
}

/// The menu each relationship offers. `Identical` and an upstream that is
/// merely ahead never prompt, so they have no menu. A branch checked out in
/// another worktree gains a leading delete-worktree-and-branch entry when
/// its commits diverged or its upstream is gone.
pub open spec fn menu_for_spec(status: Option<UpstreamStatus>, occupied_elsewhere: bool) -> Seq<
    BranchAction,
> {
    match status {
        Some(UpstreamStatus::LocalIsAheadOfUpstream) => seq![
            BranchAction::Push,
            BranchAction::Log,
            BranchAction::Shell,
            BranchAction::Nothing,
        ],
        Some(UpstreamStatus::MergeNeeded) => if occupied_elsewhere {
            seq![
                BranchAction::DeleteWorktreeAndBranch,
                BranchAction::Rebase,
                BranchAction::Log,
                BranchAction::Delete,
                BranchAction::Shell,
                BranchAction::Nothing,
            ]
        } else {
            seq![
                BranchAction::Rebase,
                BranchAction::Log,
                BranchAction::Delete,
                BranchAction::Shell,
                BranchAction::Nothing,
            ]
        },
        Some(UpstreamStatus::UpstreamIsGone) => if occupied_elsewhere {
            seq![
                BranchAction::DeleteWorktreeAndBranch,
                BranchAction::Delete,
                BranchAction::Log,
                BranchAction::Shell,
                BranchAction::Nothing,
            ]
        } else {
            seq![
                BranchAction::Delete,
                BranchAction::Log,
                BranchAction::Shell,
                BranchAction::Nothing,
            ]
        },
        None => seq![
            BranchAction::CreatePr,
            BranchAction::PushCreatingOrigin,
            BranchAction::Delete,
            BranchAction::Log,
            BranchAction::Shell,
            BranchAction::Nothing,
        ],
        Some(UpstreamStatus::Identical) => Seq::empty(),
        Some(UpstreamStatus::UpstreamIsAheadOfLocal) => Seq::empty(),
    }
}

/// The menu offered for a relationship, exactly as [`menu_for_spec`] lists
/// it.
pub fn actions_for(status: Option<UpstreamStatus>, occupied_elsewhere: bool) -> (r: Vec<
    BranchAction,
>)
    ensures
        r@ == menu_for_spec(status, occupied_elsewhere),
{
    let mut v: Vec<BranchAction> = Vec::new();
    match status {
        Some(UpstreamStatus::LocalIsAheadOfUpstream) => {
            v.push(BranchAction::Push);
            v.push(BranchAction::Log);
            v.push(BranchAction::Shell);
            v.push(BranchAction::Nothing);
            proof {
                assert(v@ =~= seq![
                    BranchAction::Push,
                    BranchAction::Log,
                    BranchAction::Shell,
                    BranchAction::Nothing,
                ]);
            }
        },
        Some(UpstreamStatus::MergeNeeded) => {
            if occupied_elsewhere {
                v.push(BranchAction::DeleteWorktreeAndBranch);
            }
            v.push(BranchAction::Rebase);
            v.push(BranchAction::Log);
            v.push(BranchAction::Delete);
            v.push(BranchAction::Shell);
            v.push(BranchAction::Nothing);
            proof {
                if occupied_elsewhere {
                    assert(v@ =~= seq![
                        BranchAction::DeleteWorktreeAndBranch,
                        BranchAction::Rebase,
                        BranchAction::Log,
                        BranchAction::Delete,
                        BranchAction::Shell,
                        BranchAction::Nothing,
                    ]);
                } else {
                    assert(v@ =~= seq![
                        BranchAction::Rebase,
                        BranchAction::Log,
                        BranchAction::Delete,
                        BranchAction::Shell,
                        BranchAction::Nothing,
                    ]);
                }
            }
        },
        Some(UpstreamStatus::UpstreamIsGone) => {
            if occupied_elsewhere {
                v.push(BranchAction::DeleteWorktreeAndBranch);
            }
            v.push(BranchAction::Delete);
            v.push(BranchAction::Log);
            v.push(BranchAction::Shell);
            v.push(BranchAction::Nothing);
            proof {
                if occupied_elsewhere {
                    assert(v@ =~= seq![
                        BranchAction::DeleteWorktreeAndBranch,
                        BranchAction::Delete,
                        BranchAction::Log,
                        BranchAction::Shell,
                        BranchAction::Nothing,
                    ]);
                } else {
                    assert(v@ =~= seq![
                        BranchAction::Delete,
                        BranchAction::Log,
                        BranchAction::Shell,
                        BranchAction::Nothing,
                    ]);
                }
            }
        },
        None => {
            v.push(BranchAction::CreatePr);
            v.push(BranchAction::PushCreatingOrigin);
            v.push(BranchAction::Delete);
            v.push(BranchAction::Log);
            v.push(BranchAction::Shell);
            v.push(BranchAction::Nothing);
            proof {
                assert(v@ =~= seq![
                    BranchAction::CreatePr,
                    BranchAction::PushCreatingOrigin,
                    BranchAction::Delete,
                    BranchAction::Log,
                    BranchAction::Shell,
                    BranchAction::Nothing,
                ]);
            }
        },
        Some(UpstreamStatus::Identical) => {
            proof {
                assert(v@ =~= Seq::<BranchAction>::empty());
            }
        },
        Some(UpstreamStatus::UpstreamIsAheadOfLocal) => {
            proof {
                assert(v@ =~= Seq::<BranchAction>::empty());
            }
        },
    }
    v
}

/// The branches tried, in order, when a branch about to be deleted must
/// first be left.
pub fn delete_checkout_candidates() -> (r: Vec<String>)
    ensures
        views_of(r@) == seq!["release"@, "master"@, "main"@],
{
    let mut v: Vec<String> = Vec::new();
    v.push("release".to_owned());
    v.push("master".to_owned());
    v.push("main".to_owned());
    proof {
        assert(views_of(v@) =~= seq!["release"@, "master"@, "main"@]);
    }
    v
}

/// The note shown when a branch is checked out in some worktree.
pub fn worktree_location_message(branch: &Branch, path: &str) -> (r: String)
    ensures
        r@ == "Branch '"@ + branch.refname@ + "' is checked out in worktree "@ + path@,
{
    let mut m = "Branch '".to_owned();
    m.append(branch.refname.as_str());
    m.append("' is checked out in worktree ");
    m.append(path);
    m
}

/// A dry-run report line for one branch.
fn dry_run_note(branch: &Branch, note: &str) -> (r: String)
    ensures
        r@ == "[DRY RUN] "@ + branch.refname@ + ": "@ + note@,
{
    let mut m = "[DRY RUN] ".to_owned();
    m.append(branch.refname.as_str());
    m.append(": ");
    m.append(note);
    m
}

/// Two-tier path equality: canonical forms decide when both paths resolve,
/// and the literal spelling decides otherwise.
pub open spec fn paths_equivalent_with(
    ca: Option<Seq<char>>,
    cb: Option<Seq<char>>,
    a: Seq<char>,
    b: Seq<char>,
) -> bool {
    match (ca, cb) {
        (Some(x), Some(y)) => x == y,
        _ => a == b,
    }
}

/// Decides path equality from the canonicalization outcomes.
pub fn paths_equivalent_resolved(
    ca: &Option<String>,
    cb: &Option<String>,
    a: &str,
    b: &str,
) -> (r: bool)
    ensures
        r == paths_equivalent_with(
            match ca {
                Some(x) => Some(x@),
                None => None,
            },
            match cb {
                Some(y) => Some(y@),
                None => None,
            },
            a@,
            b@,
        ),
{
    match (ca, cb) {
        (Some(x), Some(y)) => crate::text::str_eq(x.as_str(), y.as_str()),
        _ => crate::text::str_eq(a, b),
    }
}

/// Whether `a` and `b` name the same directory: by canonical (symlink
/// resolved) comparison when both resolve, else by literal comparison.
pub fn paths_equivalent<R: CommandRunner>(runner: &mut R, a: &str, b: &str) -> (r: bool) {
    let ca = runner.canonicalize(a);
    let cb = runner.canonicalize(b);
    paths_equivalent_resolved(&ca, &cb, a, b)
}

/// Whether a branch is checked out somewhere other than directory `dir`,
/// decided from the canonicalization outcomes of its worktree path and of
/// `dir`: a branch with no worktree never is, and otherwise the two paths
/// are compared by the two-tier rule.
pub open spec fn checked_out_elsewhere_spec(
    branch: Branch,
    dir: Seq<char>,
    canon_worktree: Option<Seq<char>>,
    canon_dir: Option<Seq<char>>,
) -> bool {
    match branch.worktree_path {
        Some(p) => !paths_equivalent_with(canon_worktree, canon_dir, p@, dir),
        None => false,
    }
}

/// Decides, from the canonicalization outcomes, whether `branch` is checked
/// out somewhere other than `dir`.
pub fn branch_checked_out_elsewhere_resolved(
    branch: &Branch,
    dir: &str,
    canon_worktree: &Option<String>,
    canon_dir: &Option<String>,
) -> (r: bool)
    ensures
        r == checked_out_elsewhere_spec(*branch, dir@, match canon_worktree {
            Some(x) => Some(x@),
            None => None,
        }, match canon_dir {
            Some(y) => Some(y@),
            None => None,
        }),
{
    match &branch.worktree_path {
        Some(path) => !paths_equivalent_resolved(canon_worktree, canon_dir, path.as_str(), dir),
        None => false,
    }
}

/// The redirect target, decided from the canonicalization outcomes: the
/// branch's worktree path exactly when it is checked out elsewhere, and
/// nothing otherwise.
pub fn worktree_elsewhere_path_resolved(
    branch: &Branch,
    dir: &str,
    canon_worktree: &Option<String>,
    canon_dir: &Option<String>,
) -> (r: Option<String>)
    ensures
        ({
            let elsewhere = checked_out_elsewhere_spec(*branch, dir@, match canon_worktree {
                Some(x) => Some(x@),
                None => None,
            }, match canon_dir {
                Some(y) => Some(y@),
                None => None,
            });
            if elsewhere {
                r matches Some(p) && (branch.worktree_path matches Some(w) && p@ == w@)
            } else {
                r is None
            }
        }),
{
    if branch_checked_out_elsewhere_resolved(branch, dir, canon_worktree, canon_dir) {
        match &branch.worktree_path {
            Some(path) => Some(path.clone()),
            None => None,
        }
    } else {
        None
    }
}

/// Whether `branch` is checked out in a worktree other than the repository
/// directory being processed: [`branch_checked_out_elsewhere_resolved`] over
/// the runner's canonicalization outcomes. A branch with no worktree never
/// is.
pub fn branch_checked_out_elsewhere<R: CommandRunner>(
    branch: &Branch,
    repo: &GitRepo,
    runner: &mut R,
) -> (r: bool)
    ensures
        branch.worktree_path is None ==> r == false,
{
    match &branch.worktree_path {
        Some(path) => {
            let canon_worktree = runner.canonicalize(path.as_str());
            let canon_dir = runner.canonicalize(repo.dir().as_str());
            branch_checked_out_elsewhere_resolved(
                branch,
                repo.dir().as_str(),
                &canon_worktree,
                &canon_dir,
            )
        },
        None => false,
    }
}

/// The worktree path to redirect to when `branch` is checked out elsewhere:
/// [`worktree_elsewhere_path_resolved`] over the runner's canonicalization
/// outcomes. `None` when it is not, and always `None` for a branch with no
/// worktree.
pub fn worktree_elsewhere_path<R: CommandRunner>(
    branch: &Branch,
    repo: &GitRepo,
    runner: &mut R,
) -> (r: Option<String>)
    ensures
        (r matches Some(p) ==> (branch.worktree_path matches Some(w) && p@ == w@)),
        branch.worktree_path is None ==> r is None,
{
    match &branch.worktree_path {
        Some(path) => {
            let canon_worktree = runner.canonicalize(path.as_str());
            let canon_dir = runner.canonicalize(repo.dir().as_str());
            worktree_elsewhere_path_resolved(
                branch,
                repo.dir().as_str(),
                &canon_worktree,
                &canon_dir,
            )
        },
        None => None,
    }
}

/// Drives branches to terminal outcomes: the whole-repository entry point
/// checks worktree cleanliness first, then resolves branches one at a time,
/// stopping at the first outcome that is not `Proceed`. In dry-run mode
/// every decision point becomes a report and nothing is ever issued or
/// asked.
pub struct GitCleaner {
    prompt: PromptScript,
    dry_run: bool,
    messages: Vec<String>,
}

impl GitCleaner {
    /// The selections not yet consumed.
    pub closed spec fn pending(&self) -> Seq<usize> {
        self.prompt.pending()
    }

    /// Whether this resolver only reports.
    pub closed spec fn is_dry_run(&self) -> bool {
        self.dry_run
    }

    /// The prompt script is well formed.
    pub closed spec fn wf(&self) -> bool {
        self.prompt.wf()
    }

    /// The report lines produced so far.
    pub closed spec fn messages_view(&self) -> Seq<Seq<char>> {
        views_of(self.messages@)
    }

    /// A live resolver answering prompts from `prompt`.
    pub fn new(prompt: PromptScript) -> (r: GitCleaner)
        requires
            prompt.wf(),
        ensures
            r.wf(),
            !r.is_dry_run(),
            r.pending() == prompt.pending(),
            r.messages_view() == Seq::<Seq<char>>::empty(),
    {
        let r = GitCleaner { prompt, dry_run: false, messages: Vec::new() };
        proof {
            assert(r.messages_view() =~= Seq::<Seq<char>>::empty());
        }
        r
    }

    /// A resolver that only reports when `dry_run` is set.
    pub fn new_with_dry_run(prompt: PromptScript, dry_run: bool) -> (r: GitCleaner)
        requires
            prompt.wf(),
        ensures
            r.wf(),
            r.is_dry_run() == dry_run,
            r.pending() == prompt.pending(),
            r.messages_view() == Seq::<Seq<char>>::empty(),
    {
        let r = GitCleaner { prompt, dry_run, messages: Vec::new() };
        proof {
            assert(r.messages_view() =~= Seq::<Seq<char>>::empty());
        }
        r
    }

    /// The report lines produced so far, oldest first.
    pub fn messages(&self) -> (r: &Vec<String>)
        ensures
            views_of(r@) == self.messages_view(),
    {
        &self.messages
    }

    /// Performs one chosen action on `branch`, given the already-decided
    /// redirect fact: `elsewhere` holds the branch's worktree path exactly
    /// when the branch is checked out somewhere other than the repository
    /// being processed. The contract pins, action by action, exactly which
    /// operations are issued, and makes the worktree-redirect rule
    /// mandatory: an action that would mutate a branch checked out in
    /// another worktree issues nothing and surfaces that worktree instead.
    pub fn perform_action_with_redirect<R: CommandRunner>(
        &mut self,
        repo: &mut GitRepo,
        runner: &mut R,
        branch: &Branch,
        action: BranchAction,
        elsewhere: Option<String>,
    ) -> (r: Result<ActionResult, GitError>)
        requires
            old(self).wf(),
            (elsewhere matches Some(p) ==> (branch.worktree_path matches Some(w) && p@ == w@)),
        ensures
            final(self).wf(),
            final(self).is_dry_run() == old(self).is_dry_run(),
            final(self).pending() == old(self).pending(),
            final(repo).spec_dir() == old(repo).spec_dir(),
            action == BranchAction::Nothing ==> r == Ok::<ActionResult, GitError>(
                ActionResult::Handled,
            ) && final(repo).log() == old(repo).log() && *final(self) == *old(self),
            action == BranchAction::Log ==> final(repo).log() == old(repo).log().push(
                OpSpec::ShowLog { refname: branch.refname@ },
            ) && crate::git::mutating_ops(final(repo).log()) == crate::git::mutating_ops(
                old(repo).log(),
            ) && (r is Ok ==> r == Ok::<ActionResult, GitError>(ActionResult::NotHandled)),
            action == BranchAction::Push ==> final(repo).log() == old(repo).log().push(
                OpSpec::Push { refname: branch.refname@ },
            ) && (r is Ok ==> r == Ok::<ActionResult, GitError>(ActionResult::Handled)),
            action == BranchAction::PushCreatingOrigin ==> final(repo).log() == old(repo).log().push(OpSpec::PushCreatingOrigin { refname: branch.refname@ }) && (r is Ok ==> r
                == Ok::<ActionResult, GitError>(ActionResult::Handled)),
            action == BranchAction::CreatePr ==> {
                &&& old(repo).log().len() + 1 <= final(repo).log().len() <= old(repo).log().len()
                    + 2
                &&& final(repo).log().take(old(repo).log().len() as int) == old(repo).log()
                &&& final(repo).log()[old(repo).log().len() as int]
                    == (OpSpec::PushCreatingOrigin { refname: branch.refname@ })
                &&& (final(repo).log().len() == old(repo).log().len() + 2 ==> is_create_pr_for(
                    final(repo).log().last(),
                    branch.refname@,
                ))
                &&& (r is Ok ==> final(repo).log().len() == old(repo).log().len() + 2 && r
                    == Ok::<ActionResult, GitError>(ActionResult::Handled))
            },
            action == BranchAction::Rebase ==> {
                &&& (elsewhere matches Some(p) ==> final(repo).log() == old(repo).log() && (
                r matches Ok(ActionResult::ExitToShell(q)) && q@ == p@))
                &&& (elsewhere is None ==> ((branch.upstream is None ==> r == Err::<
                    ActionResult,
                    GitError,
                >(GitError::NoUpstreamToRebase) && final(repo).log() == old(repo).log()) && (
                branch.upstream matches Some(u) ==> final(repo).log() == old(repo).log().push(
                    OpSpec::Rebase { refname: branch.refname@, upstream: u.name@ },
                ) && (r is Ok ==> r == Ok::<ActionResult, GitError>(ActionResult::Handled)))))
                &&& (r matches Ok(ActionResult::ExitToShell(p)) ==> final(repo).log() == old(repo).log() && (branch.worktree_path matches Some(w) && p@ == w@))
                &&& r != Ok::<ActionResult, GitError>(ActionResult::NotHandled)
            },
            action == BranchAction::Delete ==> {
                &&& (elsewhere matches Some(p) ==> final(repo).log() == old(repo).log() && (
                r matches Ok(ActionResult::ExitToShell(q)) && q@ == p@))
                &&& (elsewhere is None ==> ((final(repo).log() == old(repo).log().push(
                    OpSpec::CheckoutFirstAvailable {
                        candidates: seq!["release"@, "master"@, "main"@],
                    },
                ) || final(repo).log() == old(repo).log().push(
                    OpSpec::CheckoutFirstAvailable {
                        candidates: seq!["release"@, "master"@, "main"@],
                    },
                ).push(OpSpec::DeleteBranch { refname: branch.refname@ })) && (r is Ok ==> r
                    == Ok::<ActionResult, GitError>(ActionResult::Handled) && final(repo).log()
                    == old(repo).log().push(
                    OpSpec::CheckoutFirstAvailable {
                        candidates: seq!["release"@, "master"@, "main"@],
                    },
                ).push(OpSpec::DeleteBranch { refname: branch.refname@ }))))
                &&& (r matches Ok(ActionResult::ExitToShell(p)) ==> final(repo).log() == old(repo).log() && (branch.worktree_path matches Some(w) && p@ == w@))
                &&& r != Ok::<ActionResult, GitError>(ActionResult::NotHandled)
            },
            action == BranchAction::DeleteWorktreeAndBranch ==> {
                &&& (branch.worktree_path is None ==> r == Err::<ActionResult, GitError>(
                    GitError::NoWorktreeToDelete,
                ) && final(repo).log() == old(repo).log())
                &&& (r is Ok ==> r == Ok::<ActionResult, GitError>(ActionResult::Handled) && (
                branch.worktree_path matches Some(w) && final(repo).log() == old(repo).log().push(
                    OpSpec::DeleteWorktree { path: w@ },
                ).push(OpSpec::DeleteBranch { refname: branch.refname@ })))
            },
            action == BranchAction::Shell ==> {
                &&& (elsewhere matches Some(p) ==> final(repo).log() == old(repo).log() && (
                r matches Ok(ActionResult::ExitToShell(q)) && q@ == p@))
                &&& (elsewhere is None ==> final(repo).log() == old(repo).log().push(
                    OpSpec::Checkout { refname: branch.refname@ },
                ) && (r is Ok ==> (r matches Ok(ActionResult::ExitToShell(q)) && q@ == old(repo).spec_dir())))
                &&& (r matches Ok(ActionResult::ExitToShell(p)) ==> ((final(repo).log() == old(repo).log() && (branch.worktree_path matches Some(w) && p@ == w@)) || (final(repo).log() == old(repo).log().push(OpSpec::Checkout { refname: branch.refname@ }) && p@
                    == old(repo).spec_dir())))
                &&& (r is Ok ==> r matches Ok(ActionResult::ExitToShell(_)))
            },
    {
        match action {
            BranchAction::CreatePr => {
                let ghost pre = repo.log();
                match repo.push_creating_origin(runner, branch.refname.as_str()) {
                    Ok(()) => {},
                    Err(e) => {
                        proof {
                            assert(repo.log().take(pre.len() as int) =~= pre);
                        }
                        return Err(e);
                    },
                }
                let ghost mid = repo.log();
                let outcome = repo.create_pull_request(runner, branch.refname.as_str());
                proof {
                    assert(mid.take(pre.len() as int) =~= pre);
                    assert(mid[pre.len() as int] == (OpSpec::PushCreatingOrigin {
                        refname: branch.refname@,
                    }));
                    if repo.log() == mid {
                        assert(repo.log().take(pre.len() as int) =~= pre);
                    } else {
                        assert(repo.log().take(mid.len() as int) == mid);
                        assert(repo.log()[pre.len() as int] == repo.log().take(
                            mid.len() as int,
                        )[pre.len() as int]);
                        assert(repo.log().take(pre.len() as int) =~= pre);
                    }
                }
                match outcome {
                    Ok(()) => Ok(ActionResult::Handled),
                    Err(e) => Err(e),
                }
            },
            BranchAction::Push => {
                match repo.push(runner, branch.refname.as_str()) {
                    Ok(()) => Ok(ActionResult::Handled),
                    Err(e) => Err(e),
                }
            },
            BranchAction::PushCreatingOrigin => {
                match repo.push_creating_origin(runner, branch.refname.as_str()) {
                    Ok(()) => Ok(ActionResult::Handled),
                    Err(e) => Err(e),
                }
            },
            BranchAction::Rebase => {
                match elsewhere {
                    Some(path) => {
                        self.messages.push(worktree_location_message(branch, path.as_str()));
                        Ok(ActionResult::ExitToShell(path))
                    },
                    None => match &branch.upstream {
                        None => Err(GitError::NoUpstreamToRebase),
                        Some(upstream) => {
                            match repo.rebase(
                                runner,
                                branch.refname.as_str(),
                                upstream.name.as_str(),
                            ) {
                                Ok(()) => Ok(ActionResult::Handled),
                                Err(e) => Err(e),
                            }
                        },
                    },
                }
            },
            BranchAction::Delete => {
                match elsewhere {
                    Some(path) => {
                        self.messages.push(worktree_location_message(branch, path.as_str()));
                        Ok(ActionResult::ExitToShell(path))
                    },
                    None => {
                        let candidates = delete_checkout_candidates();
                        match repo.checkout_first_available_branch(runner, &candidates) {
                            Ok(()) => {},
                            Err(e) => {
                                return Err(e);
                            },
                        }
                        match repo.delete_branch_forcefully(runner, branch.refname.as_str()) {
                            Ok(()) => Ok(ActionResult::Handled),
                            Err(e) => Err(e),
                        }
                    },
                }
            },
            BranchAction::DeleteWorktreeAndBranch => {
                match &branch.worktree_path {
                    None => Err(GitError::NoWorktreeToDelete),
                    Some(path) => {
                        let path = path.clone();
                        match repo.delete_worktree(runner, path.as_str()) {
                            Ok(()) => {},
                            Err(e) => {
                                return Err(e);
                            },
                        }
                        match repo.delete_branch_forcefully(runner, branch.refname.as_str()) {
                            Ok(()) => Ok(ActionResult::Handled),
                            Err(e) => Err(e),
                        }
                    },
                }
            },
            BranchAction::Log => {
                let outcome = repo.show_log(runner, branch.refname.as_str());
                proof {
                    crate::git::lemma_show_log_adds_no_mutation(old(repo).log(), branch.refname@);
                }
                match outcome {
                    Ok(()) => Ok(ActionResult::NotHandled),
                    Err(e) => Err(e),
                }
            },
            BranchAction::Shell => {
                match elsewhere {
                    Some(path) => {
                        self.messages.push(worktree_location_message(branch, path.as_str()));
                        Ok(ActionResult::ExitToShell(path))
                    },
                    None => {
                        match repo.checkout_branch(runner, branch.refname.as_str()) {
                            Ok(()) => Ok(ActionResult::ExitToShell(repo.dir().clone())),
                            Err(e) => Err(e),
                        }
                    },
                }
            },
            BranchAction::Nothing => Ok(ActionResult::Handled),
        }
    }

    /// Performs one chosen action on `branch`: decides whether the branch
    /// is checked out in another worktree (for the actions that would
    /// mutate its working copy) and hands the outcome to
    /// [`Self::perform_action_with_redirect`], whose contract makes the
    /// redirect mandatory. On top of the redirect-target and op-accounting
    /// clauses, everything is pinned exactly for a branch with no worktree,
    /// where no redirect can happen.
    pub fn perform_action<R: CommandRunner>(
        &mut self,
        repo: &mut GitRepo,
        runner: &mut R,
        branch: &Branch,
        action: BranchAction,
    ) -> (r: Result<ActionResult, GitError>)
        requires
            old(self).wf(),
        ensures
            final(self).wf(),
            final(self).is_dry_run() == old(self).is_dry_run(),
            final(self).pending() == old(self).pending(),
            final(repo).spec_dir() == old(repo).spec_dir(),
            action == BranchAction::Nothing ==> r == Ok::<ActionResult, GitError>(
                ActionResult::Handled,
            ) && final(repo).log() == old(repo).log() && *final(self) == *old(self),
            action == BranchAction::Log ==> final(repo).log() == old(repo).log().push(
                OpSpec::ShowLog { refname: branch.refname@ },
            ) && crate::git::mutating_ops(final(repo).log()) == crate::git::mutating_ops(
                old(repo).log(),
            ) && (r is Ok ==> r == Ok::<ActionResult, GitError>(ActionResult::NotHandled)),
            action == BranchAction::Push ==> final(repo).log() == old(repo).log().push(
                OpSpec::Push { refname: branch.refname@ },
            ) && (r is Ok ==> r == Ok::<ActionResult, GitError>(ActionResult::Handled)),
            action == BranchAction::PushCreatingOrigin ==> final(repo).log() == old(repo).log().push(OpSpec::PushCreatingOrigin { refname: branch.refname@ }) && (r is Ok ==> r
                == Ok::<ActionResult, GitError>(ActionResult::Handled)),
            action == BranchAction::CreatePr ==> {
                &&& old(repo).log().len() + 1 <= final(repo).log().len() <= old(repo).log().len()
                    + 2
                &&& final(repo).log().take(old(repo).log().len() as int) == old(repo).log()
                &&& final(repo).log()[old(repo).log().len() as int]
                    == (OpSpec::PushCreatingOrigin { refname: branch.refname@ })
                &&& (final(repo).log().len() == old(repo).log().len() + 2 ==> is_create_pr_for(
                    final(repo).log().last(),
                    branch.refname@,
                ))
                &&& (r is Ok ==> final(repo).log().len() == old(repo).log().len() + 2 && r
                    == Ok::<ActionResult, GitError>(ActionResult::Handled))
            },
            action == BranchAction::DeleteWorktreeAndBranch ==> {
                &&& (branch.worktree_path is None ==> r == Err::<ActionResult, GitError>(
                    GitError::NoWorktreeToDelete,
                ) && final(repo).log() == old(repo).log())
                &&& (r is Ok ==> r == Ok::<ActionResult, GitError>(ActionResult::Handled) && (
                branch.worktree_path matches Some(w) && final(repo).log() == old(repo).log().push(
                    OpSpec::DeleteWorktree { path: w@ },
                ).push(OpSpec::DeleteBranch { refname: branch.refname@ })))
            },
            action == BranchAction::Rebase ==> {
                &&& (r matches Ok(ActionResult::ExitToShell(p)) ==> final(repo).log() == old(repo).log() && (branch.worktree_path matches Some(w) && p@ == w@))
                &&& (r == Ok::<ActionResult, GitError>(ActionResult::Handled) ==> (
                branch.upstream matches Some(u) && final(repo).log() == old(repo).log().push(
                    OpSpec::Rebase { refname: branch.refname@, upstream: u.name@ },
                )))
                &&& (branch.upstream is None ==> final(repo).log() == old(repo).log() && (
                r is Err ==> r == Err::<ActionResult, GitError>(GitError::NoUpstreamToRebase)))
                &&& (branch.worktree_path is None ==> ((branch.upstream is None ==> r == Err::<
                    ActionResult,
                    GitError,
                >(GitError::NoUpstreamToRebase)) && (branch.upstream matches Some(u) ==> final(repo).log() == old(repo).log().push(
                    OpSpec::Rebase { refname: branch.refname@, upstream: u.name@ },
                ) && (r is Ok ==> r == Ok::<ActionResult, GitError>(ActionResult::Handled)))))
                &&& r != Ok::<ActionResult, GitError>(ActionResult::NotHandled)
            },
            action == BranchAction::Delete ==> {
                &&& (r matches Ok(ActionResult::ExitToShell(p)) ==> final(repo).log() == old(repo).log() && (branch.worktree_path matches Some(w) && p@ == w@))
                &&& (r == Ok::<ActionResult, GitError>(ActionResult::Handled) ==> final(repo).log() == old(repo).log().push(
                    OpSpec::CheckoutFirstAvailable {
                        candidates: seq!["release"@, "master"@, "main"@],
                    },
                ).push(OpSpec::DeleteBranch { refname: branch.refname@ }))
                &&& (branch.worktree_path is None ==> (r is Ok ==> r == Ok::<
                    ActionResult,
                    GitError,
                >(ActionResult::Handled) && final(repo).log() == old(repo).log().push(
                    OpSpec::CheckoutFirstAvailable {
                        candidates: seq!["release"@, "master"@, "main"@],
                    },
                ).push(OpSpec::DeleteBranch { refname: branch.refname@ })))
                &&& r != Ok::<ActionResult, GitError>(ActionResult::NotHandled)
            },
            action == BranchAction::Shell ==> {
                &&& (r matches Ok(ActionResult::ExitToShell(p)) ==> ((final(repo).log() == old(repo).log() && (branch.worktree_path matches Some(w) && p@ == w@)) || (final(repo).log() == old(repo).log().push(OpSpec::Checkout { refname: branch.refname@ }) && p@
                    == old(repo).spec_dir())))
                &&& (branch.worktree_path is None ==> final(repo).log() == old(repo).log().push(
                    OpSpec::Checkout { refname: branch.refname@ },
                ) && (r is Ok ==> (r matches Ok(ActionResult::ExitToShell(q)) && q@ == old(repo).spec_dir())))
                &&& (r is Ok ==> r matches Ok(ActionResult::ExitToShell(_)))
            },
    {
        let elsewhere = match action {
            BranchAction::Rebase | BranchAction::Delete | BranchAction::Shell => {
                worktree_elsewhere_path(branch, repo, runner)
            },
            _ => None,
        };
        self.perform_action_with_redirect(repo, runner, branch, action, elsewhere)
    }

    /// Presents `actions` for `branch` until one selection resolves the
    /// branch. What one attempt yields, selection by selection, is exactly
    /// what [`menu_selection_outcome`] states; any shell redirect points at
    /// the branch's worktree or at the repository itself.
    pub fn select_action<R: CommandRunner>(
        &mut self,
        repo: &mut GitRepo,
        runner: &mut R,
        branch: &Branch,
        message: &str,
        actions: &Vec<BranchAction>,
    ) -> (r: Result<TaskResult, GitError>)
        requires
            old(self).wf(),
        ensures
            final(self).wf(),
            final(self).is_dry_run() == old(self).is_dry_run(),
            final(repo).spec_dir() == old(repo).spec_dir(),
            menu_selection_outcome(
                actions@,
                old(self).pending(),
                final(self).pending(),
                *branch,
                old(repo).log(),
                final(repo).log(),
                old(repo).spec_dir(),
                r,
            ),
            (r matches Ok(TaskResult::ShellActionRequired(p)) ==> ((
            branch.worktree_path matches Some(w) && p@ == w@) || p@ == old(repo).spec_dir())),
    {
        loop
            invariant
                self.wf(),
                self.is_dry_run() == old(self).is_dry_run(),
                repo.spec_dir() == old(repo).spec_dir(),
                self.pending() == old(self).pending() ==> repo.log() == old(repo).log(),
                self.pending().len() <= old(self).pending().len(),
                self.pending() == old(self).pending() || selection_picks(
                    old(self).pending(),
                    actions@,
                    BranchAction::Log,
                ),
                selection_picks(old(self).pending(), actions@, BranchAction::Log) ==> (
                self.pending() == old(self).pending() || old(self).pending().len()
                    - self.pending().len() >= 1),
            decreases self.pending().len(),
        {
            match &branch.worktree_path {
                Some(path) => {
                    let hint = worktree_location_message(branch, path.as_str());
                    self.messages.push(hint);
                },
                None => {},
            }
            let prompt_label = menu_prompt(repo, branch, message);
            let options = descriptions_of(actions);
            let selected_index = match self.prompt.select(prompt_label.as_str(), &options) {
                Ok(i) => i,
                Err(e) => {
                    return Err(e);
                },
            };
            if selected_index >= actions.len() {
                return Err(GitError::InvalidSelection { index: selected_index });
            }
            let action = actions[selected_index];
            match self.perform_action(repo, runner, branch, action) {
                Ok(ActionResult::Handled) => {
                    return Ok(TaskResult::Proceed);
                },
                Ok(ActionResult::NotHandled) => {
                    // the informational action re-presents the same menu
                },
                Ok(ActionResult::ExitToShell(path)) => {
                    return Ok(TaskResult::ShellActionRequired(path));
                },
                Err(e) => {
                    return Err(e);
                },
            }
        }
    }

    /// Resolves a branch whose upstream is strictly ahead, given whether it
    /// is checked out elsewhere. Checked out elsewhere: no operation is
    /// issued and control is redirected to that worktree. Otherwise the
    /// rebase onto the upstream is issued automatically. Never prompts, and
    /// in dry-run mode only reports.
    pub fn resolve_upstream_ahead<R: CommandRunner>(
        &mut self,
        repo: &mut GitRepo,
        runner: &mut R,
        branch: &Branch,
        upstream_name: &str,
        elsewhere: Option<String>,
    ) -> (r: Result<TaskResult, GitError>)
        requires
            old(self).wf(),
        ensures
            final(self).wf(),
            final(self).is_dry_run() == old(self).is_dry_run(),
            final(self).pending() == old(self).pending(),
            final(repo).spec_dir() == old(repo).spec_dir(),
            old(self).is_dry_run() ==> r == Ok::<TaskResult, GitError>(TaskResult::Proceed)
                && final(repo).log() == old(repo).log(),
            !old(self).is_dry_run() ==> (elsewhere matches Some(p) ==> (final(repo).log() == old(repo).log() && (r matches Ok(TaskResult::ShellActionRequired(q)) && q@ == p@))),
            !old(self).is_dry_run() && elsewhere is None ==> final(repo).log() == old(repo).log().push(OpSpec::Rebase { refname: branch.refname@, upstream: upstream_name@ }) && (
            r is Ok ==> r == Ok::<TaskResult, GitError>(TaskResult::Proceed)),
    {
        match elsewhere {
            Some(path) => {
                if self.dry_run {
                    let note = dry_run_note(branch, "Upstream is ahead (checked out elsewhere)");
                    self.messages.push(note);
                    Ok(TaskResult::Proceed)
                } else {
                    let note = worktree_location_message(branch, path.as_str());
                    self.messages.push(note);
                    Ok(TaskResult::ShellActionRequired(path))
                }
            },
            None => {
                if self.dry_run {
                    let note = dry_run_note(branch, "Upstream is ahead, would rebase");
                    self.messages.push(note);
                    Ok(TaskResult::Proceed)
                } else {
                    match repo.rebase(runner, branch.refname.as_str(), upstream_name) {
                        Ok(()) => Ok(TaskResult::Proceed),
                        Err(e) => Err(e),
                    }
                }
            },
        }
    }

    /// Resolves one branch to a terminal outcome. A branch identical to its
    /// upstream proceeds at once, with no prompt and no operation. An
    /// upstream strictly ahead never prompts: it is rebased automatically,
    /// or control is redirected to the worktree where the branch is checked
    /// out. Every other relationship offers its menu, whose outcome,
    /// selection by selection, is what [`menu_selection_outcome`] states
    /// over that relationship's menu — for commits that diverged or a gone
    /// upstream, over whichever of its two menus the worktree-occupancy
    /// check picked. A dry run only reports and proceeds.
    pub fn handle_branch<R: CommandRunner>(
        &mut self,
        repo: &mut GitRepo,
        runner: &mut R,
        branch: &Branch,
    ) -> (r: Result<TaskResult, GitError>)
        requires
            old(self).wf(),
        ensures
            final(self).wf(),
            final(self).is_dry_run() == old(self).is_dry_run(),
            final(repo).spec_dir() == old(repo).spec_dir(),
            old(self).is_dry_run() ==> r == Ok::<TaskResult, GitError>(TaskResult::Proceed)
                && final(repo).log() == old(repo).log() && final(self).pending() == old(self).pending(),
            has_status(branch, UpstreamStatus::Identical) ==> r == Ok::<TaskResult, GitError>(
                TaskResult::Proceed,
            ) && final(repo).log() == old(repo).log() && *final(self) == *old(self),
            !old(self).is_dry_run() && has_status(branch, UpstreamStatus::UpstreamIsAheadOfLocal)
                ==> {
                &&& final(self).pending() == old(self).pending()
                &&& (r matches Ok(TaskResult::ShellActionRequired(p)) ==> final(repo).log() == old(repo).log() && (branch.worktree_path matches Some(w) && p@ == w@))
                &&& (r == Ok::<TaskResult, GitError>(TaskResult::Proceed) ==> (
                branch.upstream matches Some(u) && final(repo).log() == old(repo).log().push(
                    OpSpec::Rebase { refname: branch.refname@, upstream: u.name@ },
                )))
            },
            (r matches Ok(TaskResult::ShellActionRequired(p)) ==> ((
            branch.worktree_path matches Some(w) && p@ == w@) || p@ == old(repo).spec_dir())),
            !old(self).is_dry_run() && has_status(branch, UpstreamStatus::LocalIsAheadOfUpstream)
                ==> menu_selection_outcome(
                menu_for_spec(Some(UpstreamStatus::LocalIsAheadOfUpstream), false),
                old(self).pending(),
                final(self).pending(),
                *branch,
                old(repo).log(),
                final(repo).log(),
                old(repo).spec_dir(),
                r,
            ),
            !old(self).is_dry_run() && branch.upstream is None ==> menu_selection_outcome(
                menu_for_spec(None, false),
                old(self).pending(),
                final(self).pending(),
                *branch,
                old(repo).log(),
                final(repo).log(),
                old(repo).spec_dir(),
                r,
            ),
            !old(self).is_dry_run() && has_status(branch, UpstreamStatus::MergeNeeded) ==> exists|
                occ: bool,
            |
                menu_selection_outcome(
                    menu_for_spec(Some(UpstreamStatus::MergeNeeded), occ),
                    old(self).pending(),
                    final(self).pending(),
                    *branch,
                    old(repo).log(),
                    final(repo).log(),
                    old(repo).spec_dir(),
                    r,
                ),
            !old(self).is_dry_run() && has_status(branch, UpstreamStatus::UpstreamIsGone) ==> exists|
                occ: bool,
            |
                menu_selection_outcome(
                    menu_for_spec(Some(UpstreamStatus::UpstreamIsGone), occ),
                    old(self).pending(),
                    final(self).pending(),
                    *branch,
                    old(repo).log(),
                    final(repo).log(),
                    old(repo).spec_dir(),
                    r,
                ),
    {
        match &branch.upstream {
            Some(upstream) => {
                let status = upstream.status;
                if status == UpstreamStatus::Identical {
                    return Ok(TaskResult::Proceed);
                }
                if status == UpstreamStatus::UpstreamIsAheadOfLocal {
                    let elsewhere = worktree_elsewhere_path(branch, repo, runner);
                    return self.resolve_upstream_ahead(
                        repo,
                        runner,
                        branch,
                        upstream.name.as_str(),
                        elsewhere,
                    );
                }
                let note_text: &str = match status {
                    UpstreamStatus::LocalIsAheadOfUpstream => "Branch is ahead of upstream",
                    UpstreamStatus::MergeNeeded => "Different commits on local and upstream",
                    _ => "Upstream is set, but it is gone",
                };
                if self.dry_run {
                    let note = dry_run_note(branch, note_text);
                    self.messages.push(note);
                    return Ok(TaskResult::Proceed);
                }
                let occupied = match status {
                    UpstreamStatus::MergeNeeded | UpstreamStatus::UpstreamIsGone => {
                        branch_checked_out_elsewhere(branch, repo, runner)
                    },
                    _ => false,
                };
                let actions = actions_for(Some(status), occupied);
                self.select_action(repo, runner, branch, note_text, &actions)
            },
            None => {
                if self.dry_run {
                    let note = dry_run_note(branch, "Branch has no upstream");
                    self.messages.push(note);
                    return Ok(TaskResult::Proceed);
                }
                let actions = actions_for(None, false);
                self.select_action(repo, runner, branch, "Branch has no upstream", &actions)
            },
        }
    }

    /// The whole-repository resolution, given the already-decided worktree
    /// cleanliness fact. A dirty worktree takes priority over all branch
    /// handling: live it is terminal at the dirty path with no branch
    /// touched, no operation issued and no selection consumed; in dry-run
    /// mode it is reported and the pass continues. Then branches are
    /// resolved one at a time, in order, stopping at the first outcome that
    /// is not `Proceed`; an empty branch list proceeds untouched. A dry run
    /// always ends in `Proceed`, issues no operation and consumes no
    /// selection.
    pub fn handle_with_dirty<R: CommandRunner>(
        &mut self,
        repo: &mut GitRepo,
        runner: &mut R,
        dirty: Option<Worktree>,
        branches: Vec<Branch>,
    ) -> (r: Result<TaskResult, GitError>)
        requires
            old(self).wf(),
        ensures
            final(self).wf(),
            final(self).is_dry_run() == old(self).is_dry_run(),
            final(repo).spec_dir() == old(repo).spec_dir(),
            old(self).is_dry_run() ==> r == Ok::<TaskResult, GitError>(TaskResult::Proceed)
                && final(repo).log() == old(repo).log() && final(self).pending() == old(self).pending(),
            !old(self).is_dry_run() ==> (dirty matches Some(w) ==> ((r matches Ok(
                TaskResult::ShellActionRequired(p),
            ) && p@ == w.path@) && final(repo).log() == old(repo).log() && final(self).pending()
                == old(self).pending())),
            dirty is None && branches@.len() == 0 ==> r == Ok::<TaskResult, GitError>(
                TaskResult::Proceed,
            ) && final(repo).log() == old(repo).log() && final(self).pending() == old(self).pending(),
    {
        if !self.dry_run {
            match dirty {
                Some(worktree) => {
                    let mut note = "Dirty git worktree: ".to_owned();
                    note.append(worktree.path.as_str());
                    self.messages.push(note);
                    return Ok(TaskResult::ShellActionRequired(worktree.path));
                },
                None => {},
            }
        } else {
            match &dirty {
                Some(worktree) => {
                    let mut note = "[DRY RUN] Dirty git worktree: ".to_owned();
                    note.append(worktree.path.as_str());
                    self.messages.push(note);
                },
                None => {},
            }
        }
        let mut result = TaskResult::Proceed;
        let mut i: usize = 0;
        while i < branches.len()
            invariant
                self.wf(),
                self.is_dry_run() == old(self).is_dry_run(),
                repo.spec_dir() == old(repo).spec_dir(),
                !old(self).is_dry_run() ==> dirty is None,
                old(self).is_dry_run() ==> repo.log() == old(repo).log() && self.pending() == old(self).pending() && result == TaskResult::Proceed,
                branches@.len() == 0 ==> repo.log() == old(repo).log() && self.pending() == old(self).pending() && result == TaskResult::Proceed,
            decreases branches@.len() - i,
        {
            if !result.is_proceed() {
                break ;
            }
            match self.handle_branch(repo, runner, &branches[i]) {
                Ok(next) => {
                    result = next;
                },
                Err(e) => {
                    return Err(e);
                },
            }
            i = i + 1;
        }
        Ok(result)
    }

    /// The whole-repository entry point: checks worktree cleanliness first
    /// and hands the outcome, with the branches, to
    /// [`Self::handle_with_dirty`], whose contract pins what each
    /// cleanliness outcome yields.
    pub fn handle<R: CommandRunner>(
        &mut self,
        repo: &mut GitRepo,
        runner: &mut R,
        branches: Vec<Branch>,
    ) -> (r: Result<TaskResult, GitError>)
        requires
            old(self).wf(),
        ensures
            final(self).wf(),
            final(self).is_dry_run() == old(self).is_dry_run(),
            final(repo).spec_dir() == old(repo).spec_dir(),
            old(self).is_dry_run() ==> (r is Ok ==> r == Ok::<TaskResult, GitError>(
                TaskResult::Proceed,
            )) && final(repo).log() == old(repo).log() && final(self).pending() == old(self).pending(),
    {
        let dirty = match repo.find_dirty_worktree(runner) {
            Ok(d) => d,
            Err(e) => {
                return Err(e);
            },
        };
        self.handle_with_dirty(repo, runner, dirty, branches)
    }
}

/// The repository name shown in prompts: the directory's final path
/// component, or the whole path when it has none.
fn repo_display(dir: &str) -> (r: String) {
    let name = file_name_of(dir);
    if name.unicode_len() == 0 {
        dir.to_owned()
    } else {
        name.to_owned()
    }
}

/// The prompt label for one menu: repository, branch and situation.
fn menu_prompt(repo: &GitRepo, branch: &Branch, message: &str) -> (r: String) {
    let mut m = repo_display(repo.dir().as_str());
    m.append(":");
    m.append(branch.refname.as_str());
    m.append(": ");
    m.append(message);
    m
}

/// The labels of `actions`, in order: each entry is its action's
/// description.
fn descriptions_of(actions: &Vec<BranchAction>) -> (r: Vec<String>)
    ensures
        r@.len() == actions@.len(),
        forall|j: int| 0 <= j < r@.len() ==> r@[j]@ == description_spec(actions@[j]),
{
    let mut out: Vec<String> = Vec::new();
    let mut i: usize = 0;
    while i < actions.len()
        invariant
            0 <= i <= actions@.len(),
            out@.len() == i,
            forall|j: int| 0 <= j < i ==> out@[j]@ == description_spec(actions@[j]),
        decreases actions@.len() - i,
    {
        out.push(actions[i].description().to_owned());
        i = i + 1;
    }
    out
}

} // verus!
