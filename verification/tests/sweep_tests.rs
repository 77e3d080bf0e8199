use git_branch_assistant::git::{GitError, GitOp};
use git_branch_assistant::runner::CommandRunner;
use git_branch_assistant::git::{Branch, Upstream, UpstreamStatus};
use git_branch_assistant::services::{
    needing_action_outcome, summarize_git_result, GitReposService, GitResult, SweepEntry,
};
use git_branch_assistant::task_result::TaskResult;
use git_branch_assistant::ui::PromptScript;

struct FakeRunner {
    calls: Vec<(String, String, Vec<String>)>,
    branch_listings: Vec<(String, String)>,
    worktree_listings: Vec<(String, String)>,
    dirty_paths: Vec<String>,
    existing_refs: Vec<String>,
    ancestors: Vec<(String, String)>,
}

impl FakeRunner {
    fn new() -> FakeRunner {
        FakeRunner {
            calls: Vec::new(),
            branch_listings: Vec::new(),
            worktree_listings: Vec::new(),
            dirty_paths: Vec::new(),
            existing_refs: Vec::new(),
            ancestors: Vec::new(),
        }
    }

    fn lookup(table: &[(String, String)], dir: &str) -> String {
        table
            .iter()
            .find(|(d, _)| d == dir)
            .map(|(_, v)| v.clone())
            .unwrap_or_default()
    }

    fn touched(&self, dir: &str) -> bool {
        self.calls.iter().any(|(d, _, _)| d == dir)
    }
}

impl CommandRunner for FakeRunner {
    fn run_and_capture(
        &mut self,
        dir: &str,
        program: &str,
        args: &Vec<String>,
    ) -> Result<String, String> {
        self.calls
            .push((dir.to_string(), program.to_string(), args.clone()));
        match args.first().map(|s| s.as_str()) {
            Some("branch") => Ok(Self::lookup(&self.branch_listings, dir)),
            Some("worktree") => Ok(Self::lookup(&self.worktree_listings, dir)),
            Some("status") => Ok(if self.dirty_paths.iter().any(|p| p == dir) {
                "?? file\n".to_string()
            } else {
                String::new()
            }),
            _ => Ok(String::new()),
        }
    }

    fn run_interactive(
        &mut self,
        dir: &str,
        program: &str,
        args: &Vec<String>,
    ) -> Result<bool, String> {
        self.calls
            .push((dir.to_string(), program.to_string(), args.clone()));
        Ok(true)
    }

    fn run_exit_code(
        &mut self,
        dir: &str,
        program: &str,
        args: &Vec<String>,
    ) -> Result<Option<i32>, String> {
        self.calls
            .push((dir.to_string(), program.to_string(), args.clone()));
        match args.first().map(|s| s.as_str()) {
            Some("rev-parse") => Ok(Some(if self.existing_refs.iter().any(|r| r == &args[3]) {
                0
            } else {
                1
            })),
            Some("merge-base") => Ok(Some(
                if self
                    .ancestors
                    .iter()
                    .any(|(b, c)| b == &args[2] && c == &args[3])
                {
                    0
                } else {
                    1
                },
            )),
            _ => Ok(Some(0)),
        }
    }

    fn canonicalize(&mut self, _path: &str) -> Option<String> {
        None
    }
}

fn repo_entry(path: &str) -> SweepEntry {
    SweepEntry {
        path: path.to_string(),
        is_dir: true,
        is_git_repo: true,
    }
}

/// A runner where `/one` is clean, and `/two` and `/three` each hold one
/// branch with no upstream.
fn three_repo_runner() -> FakeRunner {
    let mut runner = FakeRunner::new();
    runner
        .branch_listings
        .push(("/one".to_string(), "main:origin/main\n".to_string()));
    runner
        .branch_listings
        .push(("/two".to_string(), "feature:\n".to_string()));
    runner
        .branch_listings
        .push(("/three".to_string(), "feature:\n".to_string()));
    runner.existing_refs.push("origin/main".to_string());
    runner
        .ancestors
        .push(("main".to_string(), "origin/main".to_string()));
    runner
        .ancestors
        .push(("origin/main".to_string(), "main".to_string()));
    runner
}

#[test]
fn sweep_stops_at_first_shell_result() {
    let mut runner = three_repo_runner();
    let entries = vec![repo_entry("/one"), repo_entry("/two"), repo_entry("/three")];
    let mut service = GitReposService::new_with_dry_run(false);
    // the menu for a branch without upstream offers the shell at index 4
    let result = service
        .handle_all_git_repos(&mut runner, entries, PromptScript::new(vec![4]))
        .unwrap();
    match result {
        TaskResult::ShellActionRequired(path) => assert_eq!(path, "/two".to_string()),
        TaskResult::Proceed => panic!("expected shell action"),
    }
    assert!(runner.touched("/one"));
    assert!(runner.touched("/two"));
    // the third entry was never classified or resolved in this pass
    assert!(!runner.touched("/three"));
    assert_eq!(
        service.issued_ops(),
        &vec![GitOp::Checkout {
            refname: "feature".to_string()
        }]
    );
}

#[test]
fn sweep_dry_run_always_proceeds_and_issues_nothing() {
    let mut runner = three_repo_runner();
    let entries = vec![repo_entry("/one"), repo_entry("/two"), repo_entry("/three")];
    let mut service = GitReposService::new_with_dry_run(true);
    let result = service
        .handle_all_git_repos(&mut runner, entries, PromptScript::new(Vec::new()))
        .unwrap();
    assert!(matches!(result, TaskResult::Proceed));
    assert!(service.issued_ops().is_empty());
    // a dry run classifies everything, including the last entry
    assert!(runner.touched("/three"));
}

#[test]
fn sweep_skips_clean_entries_without_resolving_them() {
    let mut runner = three_repo_runner();
    let entries = vec![repo_entry("/one")];
    let mut service = GitReposService::new_with_dry_run(false);
    let result = service
        .handle_all_git_repos(&mut runner, entries, PromptScript::new(Vec::new()))
        .unwrap();
    assert!(matches!(result, TaskResult::Proceed));
    assert!(service.issued_ops().is_empty());
}

#[test]
fn ignored_file_counts_as_clean() {
    let mut runner = FakeRunner::new();
    let mut service = GitReposService::new_with_dry_run(false);
    let entry = SweepEntry {
        path: "/parent/.DS_Store".to_string(),
        is_dir: false,
        is_git_repo: false,
    };
    let result = service.repo_result(&mut runner, &entry).unwrap();
    assert_eq!(result, GitResult::Clean);
    let mut sweep_service = GitReposService::new_with_dry_run(false);
    let outcome = sweep_service
        .handle_all_git_repos(&mut runner, vec![entry], PromptScript::new(Vec::new()))
        .unwrap();
    assert!(matches!(outcome, TaskResult::Proceed));
}

#[test]
fn plain_file_is_not_a_directory() {
    let mut runner = FakeRunner::new();
    let service = GitReposService::new_with_dry_run(false);
    let entry = SweepEntry {
        path: "/parent/notes.txt".to_string(),
        is_dir: false,
        is_git_repo: false,
    };
    let result = service.repo_result(&mut runner, &entry).unwrap();
    assert_eq!(result, GitResult::NotDirectory);
}

#[test]
fn plain_file_redirects_to_its_parent() {
    let mut runner = FakeRunner::new();
    let mut service = GitReposService::new_with_dry_run(false);
    let entries = vec![SweepEntry {
        path: "/parent/notes.txt".to_string(),
        is_dir: false,
        is_git_repo: false,
    }];
    let result = service
        .handle_all_git_repos(&mut runner, entries, PromptScript::new(Vec::new()))
        .unwrap();
    match result {
        TaskResult::ShellActionRequired(path) => assert_eq!(path, "/parent".to_string()),
        TaskResult::Proceed => panic!("expected shell action"),
    }
}

#[test]
fn non_repository_directory_is_terminal_at_its_path() {
    let mut runner = FakeRunner::new();
    let mut service = GitReposService::new_with_dry_run(false);
    let entries = vec![SweepEntry {
        path: "/parent/plain".to_string(),
        is_dir: true,
        is_git_repo: false,
    }];
    let result = service
        .handle_all_git_repos(&mut runner, entries, PromptScript::new(Vec::new()))
        .unwrap();
    match result {
        TaskResult::ShellActionRequired(path) => assert_eq!(path, "/parent/plain".to_string()),
        TaskResult::Proceed => panic!("expected shell action"),
    }
}

#[test]
fn dirty_repository_classifies_as_dirty_worktree() {
    let mut runner = FakeRunner::new();
    runner.worktree_listings.push((
        "/repo".to_string(),
        "worktree /repo\nbranch refs/heads/main\n".to_string(),
    ));
    runner.dirty_paths.push("/repo".to_string());
    let service = GitReposService::new_with_dry_run(false);
    let result = service.repo_result(&mut runner, &repo_entry("/repo")).unwrap();
    assert_eq!(result, GitResult::DirtyWorktree("/repo".to_string()));
}

#[test]
fn branches_needing_action_lists_only_those() {
    let mut runner = FakeRunner::new();
    runner.branch_listings.push((
        "/repo".to_string(),
        "main:origin/main\nfeature:\n".to_string(),
    ));
    runner.existing_refs.push("origin/main".to_string());
    runner
        .ancestors
        .push(("main".to_string(), "origin/main".to_string()));
    runner
        .ancestors
        .push(("origin/main".to_string(), "main".to_string()));
    let service = GitReposService::new_with_dry_run(false);
    let result = service.repo_result(&mut runner, &repo_entry("/repo")).unwrap();
    match result {
        GitResult::BranchesNeedingAction(branches) => {
            assert_eq!(branches.len(), 1);
            assert_eq!(branches[0].refname, "feature".to_string());
        }
        other => panic!("expected branches needing action, got {:?}", other),
    }
}

/// A runner where no command can be run at all.
struct FailingRunner;

impl CommandRunner for FailingRunner {
    fn run_and_capture(
        &mut self,
        _dir: &str,
        _program: &str,
        _args: &Vec<String>,
    ) -> Result<String, String> {
        Err("spawn failed".to_string())
    }
    fn run_interactive(
        &mut self,
        _dir: &str,
        _program: &str,
        _args: &Vec<String>,
    ) -> Result<bool, String> {
        Err("spawn failed".to_string())
    }
    fn run_exit_code(
        &mut self,
        _dir: &str,
        _program: &str,
        _args: &Vec<String>,
    ) -> Result<Option<i32>, String> {
        Err("spawn failed".to_string())
    }
    fn canonicalize(&mut self, _path: &str) -> Option<String> {
        None
    }
}

#[test]
fn sweep_propagates_fatal_errors() {
    let mut runner = FailingRunner;
    let mut service = GitReposService::new_with_dry_run(false);
    let result =
        service.handle_all_git_repos(&mut runner, vec![repo_entry("/repo")], PromptScript::new(Vec::new()));
    match result {
        Err(GitError::CommandFailed { detail, .. }) => {
            assert_eq!(detail, "spawn failed".to_string());
        }
        other => panic!("expected a command failure, got {:?}", other),
    }
}

#[test]
fn needing_action_outcome_drops_no_branch() {
    let clean = Branch {
        refname: "main".to_string(),
        upstream: Some(Upstream {
            name: "origin/main".to_string(),
            status: UpstreamStatus::Identical,
        }),
        worktree_path: None,
    };
    let gone = Branch {
        refname: "old".to_string(),
        upstream: Some(Upstream {
            name: "origin/old".to_string(),
            status: UpstreamStatus::UpstreamIsGone,
        }),
        worktree_path: None,
    };
    let fresh = Branch {
        refname: "fresh".to_string(),
        upstream: None,
        worktree_path: None,
    };
    assert_eq!(needing_action_outcome(vec![clean.clone()]), GitResult::Clean);
    assert_eq!(needing_action_outcome(Vec::new()), GitResult::Clean);
    match needing_action_outcome(vec![clean, gone, fresh]) {
        GitResult::BranchesNeedingAction(bs) => {
            assert_eq!(bs.len(), 2);
            assert_eq!(bs[0].refname, "old".to_string());
            assert_eq!(bs[1].refname, "fresh".to_string());
        }
        other => panic!("expected branches needing action, got {:?}", other),
    }
}

#[test]
fn summaries_name_each_classification() {
    assert_eq!(summarize_git_result(&GitResult::Clean), "Clean");
    assert_eq!(
        summarize_git_result(&GitResult::NotGitRepository),
        "NotGitRepository"
    );
    assert_eq!(summarize_git_result(&GitResult::NotDirectory), "NotDirectory");
    assert_eq!(
        summarize_git_result(&GitResult::DirtyWorktree("/p".to_string())),
        "DirtyWorktree"
    );
    assert_eq!(
        summarize_git_result(&GitResult::BranchesNeedingAction(Vec::new())),
        "BranchesNeedingAction"
    );
}
