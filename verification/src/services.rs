//! The repository sweeper: classifies every entry of a parent directory and
//! drives the action resolver for entries that need attention, stopping at
//! the first outcome that is not `Proceed`.

use vstd::prelude::*;
use vstd::string::StringExecFns;

use crate::cleaner::GitCleaner;
use crate::fs_utils::file_name_spec;
use crate::fs_utils::is_globally_ignored;
use crate::fs_utils::parent_of;
use crate::fs_utils::parent_of_spec;
use crate::git::Branch;
use crate::git::GitError;
use crate::git::GitOp;
use crate::git::GitRepo;
use crate::git::OpSpec;
use crate::git::lemma_ops_views_concat;
use crate::git::ops_views;
use crate::runner::CommandRunner;
use crate::task_result::TaskResult;
use crate::text::eq_ignore_case_spec;
use crate::text::views_of;
use crate::ui::PromptScript;

verus! {

/// One entry of the directory being swept, with the facts the caller
/// gathered about it: its path, whether it is a directory, and whether that
/// directory is version controlled.
#[derive(Debug, PartialEq, Eq)]
pub struct SweepEntry {
    pub path: String,
    pub is_dir: bool,
    pub is_git_repo: bool,
}

/// The classification of one swept entry. Exactly one applies per entry per
/// pass.
#[derive(Debug, PartialEq, Eq)]
pub enum GitResult {
    Clean,
    NotGitRepository,
    NotDirectory,
    DirtyWorktree(String),
    BranchesNeedingAction(Vec<Branch>),
}

/// Whether a branch needs attention, as a predicate value.
pub open spec fn needs_action_pred() -> spec_fn(Branch) -> bool {
    |b: Branch| b.spec_needs_action()
}

/// The classification a branch list yields: `Clean` exactly when no branch
/// needs action, and otherwise the branches that do, in listing order, none
/// dropped.
pub fn needing_action_outcome(branches: Vec<Branch>) -> (r: GitResult)
    ensures
        ({
            let needing = branches@.filter(needs_action_pred());
            &&& (needing.len() == 0 ==> r == GitResult::Clean)
            &&& (needing.len() > 0 ==> (r matches GitResult::BranchesNeedingAction(bs) && bs@
                == needing))
        }),
{
    let ghost all = branches@;
    let mut rest = branches;
    let mut needing: Vec<Branch> = Vec::new();
    let ghost mut i: int = 0;
    proof {
        reveal_with_fuel(Seq::<Branch>::filter, 2);
        assert(all.take(0) =~= Seq::<Branch>::empty());
        assert(rest@ =~= all.skip(0));
    }
    while rest.len() > 0
        invariant
            0 <= i <= all.len(),
            rest@ == all.skip(i),
            needing@ == all.take(i).filter(needs_action_pred()),
        decreases rest@.len(),
    {
        let branch = rest.remove(0);
        proof {
            assert(branch == all[i]);
            assert(rest@ =~= all.skip(i + 1));
        }
        if branch.needs_action() {
            needing.push(branch);
        }
        proof {
            reveal_with_fuel(Seq::<Branch>::filter, 2);
            let t1 = all.take(i + 1);
            assert(t1.drop_last() =~= all.take(i));
            assert(t1.last() == all[i]);
            i = i + 1;
        }
    }
    proof {
        assert(all.take(i) =~= all);
    }
    if needing.len() == 0 {
        GitResult::Clean
    } else {
        GitResult::BranchesNeedingAction(needing)
    }
}

proof fn lemma_prefix_chain(a: Seq<OpSpec>, b: Seq<OpSpec>, c: Seq<OpSpec>)
    requires
        a.len() <= b.len() <= c.len(),
        b.take(a.len() as int) == a,
        c.take(b.len() as int) == b,
    ensures
        c.take(a.len() as int) == a,
{
    assert forall|j: int| 0 <= j < a.len() implies c.take(a.len() as int)[j] == a[j] by {
        assert(c.take(b.len() as int)[j] == c[j]);
        assert(b.take(a.len() as int)[j] == b[j]);
        assert(c.take(a.len() as int)[j] == c[j]);
    }
    assert(c.take(a.len() as int) =~= a);
}

/// Sweeps sibling repositories: classification per entry, resolution for
/// the first entry needing it, and the record of every operation issued
/// along the way.
pub struct GitReposService {
    dry_run: bool,
    messages: Vec<String>,
    ops: Vec<GitOp>,
}

impl GitReposService {
    /// Whether this sweep only reports.
    pub closed spec fn is_dry_run(&self) -> bool {
        self.dry_run
    }

    /// Every operation issued by this sweep, oldest first.
    pub closed spec fn issued(&self) -> Seq<OpSpec> {
        ops_views(self.ops@)
    }

    /// The report lines produced so far.
    pub closed spec fn messages_view(&self) -> Seq<Seq<char>> {
        views_of(self.messages@)
    }

    /// A sweep that only reports when `dry_run` is set.
    pub fn new_with_dry_run(dry_run: bool) -> (r: GitReposService)
        ensures
            r.is_dry_run() == dry_run,
            r.issued() == Seq::<OpSpec>::empty(),
            r.messages_view() == Seq::<Seq<char>>::empty(),
    {
        let r = GitReposService { dry_run, messages: Vec::new(), ops: Vec::new() };
        proof {
            assert(r.issued() =~= Seq::<OpSpec>::empty());
            assert(r.messages_view() =~= Seq::<Seq<char>>::empty());
        }
        r
    }

    /// The report lines produced so far, oldest first.
    pub fn messages(&self) -> (r: &Vec<String>)
        ensures
            views_of(r@) == self.messages_view(),
    {
        &self.messages
    }

    /// Every operation issued by this sweep, oldest first.
    pub fn issued_ops(&self) -> (r: &Vec<GitOp>)
        ensures
            ops_views(r@) == self.issued(),
    {
        &self.ops
    }

    /// Classifies one entry. A non-directory is `NotDirectory` unless its
    /// name is globally ignored, which counts as `Clean`; a directory that
    /// is not version controlled is `NotGitRepository`; a dirty worktree
    /// anywhere in a repository takes priority over branch classification;
    /// otherwise the repository is `Clean` exactly when no branch needs
    /// action, and the branches that do are reported in listing order.
    pub fn repo_result<R: CommandRunner>(&self, runner: &mut R, entry: &SweepEntry) -> (r: Result<
        GitResult,
        GitError,
    >)
        ensures
            !entry.is_dir && eq_ignore_case_spec(file_name_spec(entry.path@), ".DS_Store"@) ==> r
                == Ok::<GitResult, GitError>(GitResult::Clean),
            !entry.is_dir && !eq_ignore_case_spec(file_name_spec(entry.path@), ".DS_Store"@) ==> r
                == Ok::<GitResult, GitError>(GitResult::NotDirectory),
            entry.is_dir && !entry.is_git_repo ==> r == Ok::<GitResult, GitError>(
                GitResult::NotGitRepository,
            ),
            (r matches Ok(GitResult::BranchesNeedingAction(bs)) ==> bs@.len() > 0 && (forall|
                j: int,
            | 0 <= j < bs@.len() ==> bs@[j].spec_needs_action())),
            r matches Err(e) ==> (e matches GitError::CommandFailed { .. } || e
                == GitError::MissingWorktreePath || e matches GitError::UnexpectedExitCode { .. }
                || e matches GitError::TerminatedBySignal { .. }),
    {
        if !entry.is_dir {
            if is_globally_ignored(entry.path.as_str()) {
                return Ok(GitResult::Clean);
            }
            return Ok(GitResult::NotDirectory);
        }
        if !entry.is_git_repo {
            return Ok(GitResult::NotGitRepository);
        }
        let repo = GitRepo::new(entry.path.clone());
        match repo.find_dirty_worktree(runner) {
            Ok(Some(worktree)) => {
                return Ok(GitResult::DirtyWorktree(worktree.path));
            },
            Ok(None) => {},
            Err(e) => {
                return Err(e);
            },
        }
        let branches = match repo.get_branches(runner) {
            Ok(bs) => bs,
            Err(e) => {
                return Err(e);
            },
        };
        let ghost all = branches@;
        let outcome = needing_action_outcome(branches);
        proof {
            let needing = all.filter(needs_action_pred());
            assert forall|j: int| 0 <= j < needing.len() implies needing[j].spec_needs_action() by {
                all.lemma_filter_pred(needs_action_pred(), j);
            }
        }
        Ok(outcome)
    }

    /// Resolves one entry that was not classified `Clean`. In dry-run mode
    /// every case reduces to a report and `Proceed`; live, a non-repository
    /// or dirty entry is terminal at the offending path (a plain file at
    /// its parent directory), and branches needing action go through the
    /// resolver.
    pub fn handle_non_clean_repo_result<R: CommandRunner>(
        &mut self,
        runner: &mut R,
        cleaner: &mut GitCleaner,
        path: String,
        result: GitResult,
    ) -> (r: Result<TaskResult, GitError>)
        requires
            old(cleaner).wf(),
            old(cleaner).is_dry_run() == old(self).is_dry_run(),
        ensures
            final(cleaner).wf(),
            final(cleaner).is_dry_run() == old(cleaner).is_dry_run(),
            final(self).is_dry_run() == old(self).is_dry_run(),
            old(self).is_dry_run() ==> (r is Ok ==> r == Ok::<TaskResult, GitError>(
                TaskResult::Proceed,
            )) && final(self).issued() == old(self).issued() && final(cleaner).pending() == old(cleaner).pending(),
            result == GitResult::Clean ==> r == Ok::<TaskResult, GitError>(TaskResult::Proceed)
                && final(self).issued() == old(self).issued() && final(cleaner).pending() == old(cleaner).pending(),
            !old(self).is_dry_run() ==> {
                &&& (result == GitResult::NotGitRepository ==> (r matches Ok(
                    TaskResult::ShellActionRequired(p),
                ) && p@ == path@) && final(self).issued() == old(self).issued())
                &&& (result == GitResult::NotDirectory ==> (r matches Ok(
                    TaskResult::ShellActionRequired(p),
                ) && p@ == parent_of_spec(path@)) && final(self).issued() == old(self).issued())
                &&& (result matches GitResult::DirtyWorktree(d) ==> (r matches Ok(
                    TaskResult::ShellActionRequired(p),
                ) && p@ == d@) && final(self).issued() == old(self).issued())
            },
            final(self).issued() == old(self).issued() || (old(self).issued().len() <= final(self).issued().len() && final(self).issued().take(old(self).issued().len() as int) == old(self).issued()),
    {
        match result {
            GitResult::Clean => Ok(TaskResult::Proceed),
            GitResult::NotGitRepository => {
                if self.dry_run {
                    let mut note = "[DRY RUN] Not a git repository: ".to_owned();
                    note.append(path.as_str());
                    self.messages.push(note);
                    Ok(TaskResult::Proceed)
                } else {
                    let mut note = "Not a git repository: ".to_owned();
                    note.append(path.as_str());
                    self.messages.push(note);
                    Ok(TaskResult::ShellActionRequired(path))
                }
            },
            GitResult::NotDirectory => {
                if self.dry_run {
                    let mut note = "[DRY RUN] Not a directory: ".to_owned();
                    note.append(path.as_str());
                    self.messages.push(note);
                    Ok(TaskResult::Proceed)
                } else {
                    let mut note = "Not a directory: ".to_owned();
                    note.append(path.as_str());
                    self.messages.push(note);
                    let parent = parent_of(path.as_str());
                    Ok(TaskResult::ShellActionRequired(parent))
                }
            },
            GitResult::DirtyWorktree(dirty_path) => {
                if self.dry_run {
                    let mut note = "[DRY RUN] Dirty git worktree: ".to_owned();
                    note.append(dirty_path.as_str());
                    self.messages.push(note);
                    Ok(TaskResult::Proceed)
                } else {
                    let mut note = "Dirty git worktree: ".to_owned();
                    note.append(dirty_path.as_str());
                    self.messages.push(note);
                    Ok(TaskResult::ShellActionRequired(dirty_path))
                }
            },
            GitResult::BranchesNeedingAction(branches) => {
                if self.dry_run {
                    let mut note = "[DRY RUN] Has branches needing action: ".to_owned();
                    note.append(path.as_str());
                    self.messages.push(note);
                } else {
                    let mut note = "Has branches needing action: ".to_owned();
                    note.append(path.as_str());
                    self.messages.push(note);
                }
                let mut repo = GitRepo::new(path);
                let outcome = cleaner.handle(&mut repo, runner, branches);
                let ghost ops_before = self.ops@;
                let ghost repo_log = repo.log();
                let mut repo_ops = repo.into_ops();
                let ghost moved = repo_ops@;
                self.ops.append(&mut repo_ops);
                proof {
                    lemma_ops_views_concat(ops_before, moved);
                    assert(self.issued().take(ops_views(ops_before).len() as int) =~= ops_views(
                        ops_before,
                    ));
                    if old(self).is_dry_run() {
                        assert(ops_views(moved).len() == 0);
                        assert(moved.len() == 0);
                        assert(self.ops@ =~= ops_before);
                    }
                }
                outcome
            },
        }
    }

    /// Sweeps `entries` in order: each entry is classified on demand, clean
    /// entries are skipped, and the first entry needing attention is
    /// resolved; the sweep stops at the first result that is not `Proceed`,
    /// leaving the remaining entries unclassified in this pass. A dry run
    /// issues no operation and, when it succeeds, always ends in `Proceed`.
    pub fn handle_all_git_repos<R: CommandRunner>(
        &mut self,
        runner: &mut R,
        entries: Vec<SweepEntry>,
        prompt: PromptScript,
    ) -> (r: Result<TaskResult, GitError>)
        requires
            prompt.wf(),
        ensures
            final(self).is_dry_run() == old(self).is_dry_run(),
            old(self).is_dry_run() ==> (r is Ok ==> r == Ok::<TaskResult, GitError>(
                TaskResult::Proceed,
            )) && final(self).issued() == old(self).issued(),
            entries@.len() == 0 ==> r == Ok::<TaskResult, GitError>(TaskResult::Proceed) && final(self).issued() == old(self).issued(),
            final(self).issued() == old(self).issued() || (old(self).issued().len() <= final(self).issued().len() && final(self).issued().take(old(self).issued().len() as int) == old(self).issued()),
    {
        let mut cleaner = GitCleaner::new_with_dry_run(prompt, self.dry_run);
        let mut result = TaskResult::Proceed;
        let mut rest = entries;
        while rest.len() > 0
            invariant
                cleaner.wf(),
                cleaner.is_dry_run() == self.is_dry_run(),
                self.is_dry_run() == old(self).is_dry_run(),
                rest@.len() <= entries@.len(),
                old(self).is_dry_run() ==> self.issued() == old(self).issued() && result
                    == TaskResult::Proceed,
                entries@.len() == 0 ==> self.issued() == old(self).issued() && result
                    == TaskResult::Proceed,
                self.issued() == old(self).issued() || (old(self).issued().len()
                    <= self.issued().len() && self.issued().take(old(self).issued().len() as int)
                    == old(self).issued()),
            decreases rest@.len(),
        {
            if !result.is_proceed() {
                break ;
            }
            let entry = rest.remove(0);
            let classified = match self.repo_result(runner, &entry) {
                Ok(c) => c,
                Err(e) => {
                    return Err(e);
                },
            };
            match classified {
                GitResult::Clean => {},
                other => {
                    let ghost mid = self.issued();
                    match self.handle_non_clean_repo_result(runner, &mut cleaner, entry.path, other) {
                        Ok(next) => {
                            result = next;
                        },
                        Err(e) => {
                            proof {
                                if old(self).issued() != mid && mid != self.issued() {
                                    lemma_prefix_chain(old(self).issued(), mid, self.issued());
                                }
                            }
                            return Err(e);
                        },
                    }
                    proof {
                        if old(self).issued() != mid && mid != self.issued() {
                            lemma_prefix_chain(old(self).issued(), mid, self.issued());
                        }
                    }
                },
            }
        }
        let produced = cleaner.messages();
        let mut i: usize = 0;
        while i < produced.len()
            invariant
                self.is_dry_run() == old(self).is_dry_run(),
                old(self).is_dry_run() ==> self.issued() == old(self).issued() && result
                    == TaskResult::Proceed,
                entries@.len() == 0 ==> self.issued() == old(self).issued() && result
                    == TaskResult::Proceed,
                self.issued() == old(self).issued() || (old(self).issued().len()
                    <= self.issued().len() && self.issued().take(old(self).issued().len() as int)
                    == old(self).issued()),
            decreases produced@.len() - i,
        {
            self.messages.push(produced[i].clone());
            i = i + 1;
        }
        Ok(result)
    }
}

/// A one-word summary of a classification.
pub fn summarize_git_result(result: &GitResult) -> (r: &'static str)
    ensures
        result is Clean ==> r@ == "Clean"@,
        result is NotGitRepository ==> r@ == "NotGitRepository"@,
        result is NotDirectory ==> r@ == "NotDirectory"@,
        result is DirtyWorktree ==> r@ == "DirtyWorktree"@,
        result is BranchesNeedingAction ==> r@ == "BranchesNeedingAction"@,
{
    match result {
        GitResult::Clean => "Clean",
        GitResult::NotGitRepository => "NotGitRepository",
        GitResult::NotDirectory => "NotDirectory",
        GitResult::DirtyWorktree(_) => "DirtyWorktree",
        GitResult::BranchesNeedingAction(_) => "BranchesNeedingAction",
    }
}

} // verus!
