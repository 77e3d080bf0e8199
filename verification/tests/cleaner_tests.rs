use git_branch_assistant::cleaner::{
    actions_for, branch_checked_out_elsewhere, branch_checked_out_elsewhere_resolved,
    worktree_elsewhere_path_resolved, worktree_location_message, ActionResult, BranchAction,
    GitCleaner,
};
use git_branch_assistant::git::Worktree;
use git_branch_assistant::git::{Branch, GitError, GitOp, GitRepo, Upstream, UpstreamStatus};
use git_branch_assistant::runner::CommandRunner;
use git_branch_assistant::task_result::TaskResult;
use git_branch_assistant::ui::PromptScript;

struct FakeRunner {
    calls: Vec<(String, String, Vec<String>)>,
    branch_listings: Vec<(String, String)>,
    worktree_listings: Vec<(String, String)>,
    dirty_paths: Vec<String>,
    existing_refs: Vec<String>,
    ancestors: Vec<(String, String)>,
    default_branch_json: String,
    interactive_ok: bool,
}

impl FakeRunner {
    fn new() -> FakeRunner {
        FakeRunner {
            calls: Vec::new(),
            branch_listings: Vec::new(),
            worktree_listings: Vec::new(),
            dirty_paths: Vec::new(),
            existing_refs: Vec::new(),
            ancestors: Vec::new(),
            default_branch_json: String::new(),
            interactive_ok: true,
        }
    }

    fn lookup(table: &[(String, String)], dir: &str) -> String {
        table
            .iter()
            .find(|(d, _)| d == dir)
            .map(|(_, v)| v.clone())
            .unwrap_or_default()
    }

    fn mutating_calls(&self) -> usize {
        self.calls
            .iter()
            .filter(|(_, program, args)| {
                let first = args.first().map(|s| s.as_str());
                (program == "git"
                    && (first == Some("push")
                        || first == Some("rebase")
                        || first == Some("checkout")
                        || (first == Some("branch") && args.get(1).map(|s| s.as_str()) == Some("-D"))
                        || (first == Some("worktree")
                            && args.get(1).map(|s| s.as_str()) == Some("remove"))))
                    || (program == "gh" && first == Some("pr"))
            })
            .count()
    }

    fn calls_with(&self, program: &str, first_arg: &str) -> Vec<&(String, String, Vec<String>)> {
        self.calls
            .iter()
            .filter(|(_, p, args)| p == program && args.first().map(|s| s.as_str()) == Some(first_arg))
            .collect()
    }
}

impl CommandRunner for FakeRunner {
    fn run_and_capture(
        &mut self,
        dir: &str,
        program: &str,
        args: &Vec<String>,
    ) -> Result<String, String> {
        self.calls
            .push((dir.to_string(), program.to_string(), args.clone()));
        match args.first().map(|s| s.as_str()) {
            Some("branch") => Ok(Self::lookup(&self.branch_listings, dir)),
            Some("worktree") => Ok(Self::lookup(&self.worktree_listings, dir)),
            Some("status") => Ok(if self.dirty_paths.iter().any(|p| p == dir) {
                "?? file\n".to_string()
            } else {
                String::new()
            }),
            Some("repo") => Ok(self.default_branch_json.clone()),
            _ => Ok(String::new()),
        }
    }

    fn run_interactive(
        &mut self,
        dir: &str,
        program: &str,
        args: &Vec<String>,
    ) -> Result<bool, String> {
        self.calls
            .push((dir.to_string(), program.to_string(), args.clone()));
        Ok(self.interactive_ok)
    }

    fn run_exit_code(
        &mut self,
        dir: &str,
        program: &str,
        args: &Vec<String>,
    ) -> Result<Option<i32>, String> {
        self.calls
            .push((dir.to_string(), program.to_string(), args.clone()));
        match args.first().map(|s| s.as_str()) {
            Some("rev-parse") => Ok(Some(if self.existing_refs.iter().any(|r| r == &args[3]) {
                0
            } else {
                1
            })),
            Some("merge-base") => Ok(Some(
                if self
                    .ancestors
                    .iter()
                    .any(|(b, c)| b == &args[2] && c == &args[3])
                {
                    0
                } else {
                    1
                },
            )),
            _ => Ok(Some(0)),
        }
    }

    fn canonicalize(&mut self, _path: &str) -> Option<String> {
        None
    }
}

fn branch_with(status: Option<UpstreamStatus>, worktree_path: Option<&str>) -> Branch {
    Branch {
        refname: "feature".to_string(),
        upstream: status.map(|s| Upstream {
            name: "origin/feature".to_string(),
            status: s,
        }),
        worktree_path: worktree_path.map(|p| p.to_string()),
    }
}

#[test]
fn local_ahead_branch_allows_do_nothing() {
    let mut repo = GitRepo::new("/repo".to_string());
    let mut runner = FakeRunner::new();
    let branch = branch_with(Some(UpstreamStatus::LocalIsAheadOfUpstream), None);
    let mut cleaner = GitCleaner::new(PromptScript::new(vec![3]));
    let result = cleaner
        .handle_branch(&mut repo, &mut runner, &branch)
        .unwrap();
    assert!(matches!(result, TaskResult::Proceed));
}

#[test]
fn cleaner_local_ahead_branch_allows_do_nothing() {
    let mut repo = GitRepo::new("/repo".to_string());
    let mut runner = FakeRunner::new();
    let branch = branch_with(Some(UpstreamStatus::LocalIsAheadOfUpstream), None);
    let mut cleaner = GitCleaner::new(PromptScript::new(vec![3]));
    let result = cleaner
        .handle_branch(&mut repo, &mut runner, &branch)
        .unwrap();
    assert!(matches!(result, TaskResult::Proceed));
}

#[test]
fn identical_branch_skips_prompt() {
    let mut repo = GitRepo::new("/repo".to_string());
    let mut runner = FakeRunner::new();
    let branch = branch_with(Some(UpstreamStatus::Identical), None);
    let mut cleaner = GitCleaner::new(PromptScript::new(Vec::new()));
    let result = cleaner
        .handle_branch(&mut repo, &mut runner, &branch)
        .unwrap();
    assert!(matches!(result, TaskResult::Proceed));
}

#[test]
fn cleaner_identical_branch_skips_prompt() {
    let mut repo = GitRepo::new("/repo".to_string());
    let mut runner = FakeRunner::new();
    let branch = branch_with(Some(UpstreamStatus::Identical), None);
    let mut cleaner = GitCleaner::new(PromptScript::new(Vec::new()));
    let result = cleaner
        .handle_branch(&mut repo, &mut runner, &branch)
        .unwrap();
    assert!(matches!(result, TaskResult::Proceed));
    assert!(repo.issued_ops().is_empty());
    assert_eq!(runner.mutating_calls(), 0);
}

#[test]
fn rebase_redirects_when_branch_in_other_worktree() {
    let mut repo = GitRepo::new("/repo".to_string());
    let mut runner = FakeRunner::new();
    let branch = branch_with(
        Some(UpstreamStatus::UpstreamIsAheadOfLocal),
        Some("/worktree"),
    );
    let mut cleaner = GitCleaner::new(PromptScript::new(Vec::new()));
    let result = cleaner
        .handle_branch(&mut repo, &mut runner, &branch)
        .unwrap();
    match result {
        TaskResult::ShellActionRequired(path) => {
            assert_eq!(path, "/worktree".to_string());
        }
        TaskResult::Proceed => panic!("expected shell action"),
    }
    assert!(repo.issued_ops().is_empty());
    assert_eq!(runner.calls_with("git", "rebase").len(), 0);
}

#[test]
fn shell_action_uses_worktree_path() {
    let mut repo = GitRepo::new("/repo".to_string());
    let mut runner = FakeRunner::new();
    let branch = branch_with(
        Some(UpstreamStatus::LocalIsAheadOfUpstream),
        Some("/worktree"),
    );
    let mut cleaner = GitCleaner::new(PromptScript::new(vec![2]));
    let result = cleaner
        .handle_branch(&mut repo, &mut runner, &branch)
        .unwrap();
    match result {
        TaskResult::ShellActionRequired(path) => {
            assert_eq!(path, "/worktree".to_string());
        }
        TaskResult::Proceed => panic!("expected shell action"),
    }
}

#[test]
fn branch_checked_out_elsewhere_false_when_same_dir() {
    let repo = GitRepo::new("/repo".to_string());
    let mut runner = FakeRunner::new();
    let branch = branch_with(None, Some("/repo"));
    assert!(!branch_checked_out_elsewhere(&branch, &repo, &mut runner));
}

#[test]
fn branch_checked_out_elsewhere_true_when_different_dir() {
    let repo = GitRepo::new("/repo".to_string());
    let mut runner = FakeRunner::new();
    let branch = branch_with(None, Some("/worktree"));
    assert!(branch_checked_out_elsewhere(&branch, &repo, &mut runner));
}

/// A runner where every path canonicalizes to the same directory.
struct CanonRunner(FakeRunner);

impl CommandRunner for CanonRunner {
    fn run_and_capture(
        &mut self,
        dir: &str,
        program: &str,
        args: &Vec<String>,
    ) -> Result<String, String> {
        self.0.run_and_capture(dir, program, args)
    }
    fn run_interactive(
        &mut self,
        dir: &str,
        program: &str,
        args: &Vec<String>,
    ) -> Result<bool, String> {
        self.0.run_interactive(dir, program, args)
    }
    fn run_exit_code(
        &mut self,
        dir: &str,
        program: &str,
        args: &Vec<String>,
    ) -> Result<Option<i32>, String> {
        self.0.run_exit_code(dir, program, args)
    }
    fn canonicalize(&mut self, _path: &str) -> Option<String> {
        Some("/real/repo".to_string())
    }
}

#[test]
fn branch_checked_out_elsewhere_uses_canonical_paths() {
    let repo = GitRepo::new("/repo".to_string());
    let mut runner = CanonRunner(FakeRunner::new());
    let branch = branch_with(None, Some("/link/repo"));
    assert!(!branch_checked_out_elsewhere(&branch, &repo, &mut runner));
}

#[test]
fn do_nothing_proceeds_from_every_menu() {
    let cases: Vec<(Option<UpstreamStatus>, usize)> = vec![
        (Some(UpstreamStatus::LocalIsAheadOfUpstream), 3),
        (Some(UpstreamStatus::MergeNeeded), 4),
        (Some(UpstreamStatus::UpstreamIsGone), 3),
        (None, 5),
    ];
    for (status, nothing_index) in cases {
        let mut repo = GitRepo::new("/repo".to_string());
        let mut runner = FakeRunner::new();
        let branch = branch_with(status, None);
        let mut cleaner = GitCleaner::new(PromptScript::new(vec![nothing_index]));
        let result = cleaner
            .handle_branch(&mut repo, &mut runner, &branch)
            .unwrap();
        assert!(matches!(result, TaskResult::Proceed));
        assert!(repo.issued_ops().is_empty());
        assert_eq!(runner.mutating_calls(), 0);
    }
}

#[test]
fn show_log_represents_the_same_menu() {
    let mut repo = GitRepo::new("/repo".to_string());
    let mut runner = FakeRunner::new();
    let branch = branch_with(Some(UpstreamStatus::LocalIsAheadOfUpstream), None);
    let mut cleaner = GitCleaner::new(PromptScript::new(vec![1, 3]));
    let result = cleaner
        .handle_branch(&mut repo, &mut runner, &branch)
        .unwrap();
    assert!(matches!(result, TaskResult::Proceed));
    assert_eq!(
        repo.issued_ops(),
        &vec![GitOp::ShowLog {
            refname: "feature".to_string()
        }]
    );
    assert_eq!(runner.mutating_calls(), 0);
}

#[test]
fn show_log_alone_does_not_resolve_the_branch() {
    let mut repo = GitRepo::new("/repo".to_string());
    let mut runner = FakeRunner::new();
    let branch = branch_with(Some(UpstreamStatus::LocalIsAheadOfUpstream), None);
    let mut cleaner = GitCleaner::new(PromptScript::new(vec![1]));
    let result = cleaner.handle_branch(&mut repo, &mut runner, &branch);
    assert_eq!(result, Err(GitError::NoSelectionsRemaining));
}

#[test]
fn push_selection_pushes_exactly_once() {
    let mut repo = GitRepo::new("/repo".to_string());
    let mut runner = FakeRunner::new();
    let branch = branch_with(Some(UpstreamStatus::LocalIsAheadOfUpstream), None);
    let mut cleaner = GitCleaner::new(PromptScript::new(vec![0]));
    let result = cleaner
        .handle_branch(&mut repo, &mut runner, &branch)
        .unwrap();
    assert!(matches!(result, TaskResult::Proceed));
    assert_eq!(
        repo.issued_ops(),
        &vec![GitOp::Push {
            refname: "feature".to_string()
        }]
    );
    let pushes = runner.calls_with("git", "push");
    assert_eq!(pushes.len(), 1);
    assert_eq!(
        pushes[0].2,
        vec!["push".to_string(), "origin".to_string(), "feature".to_string()]
    );
}

#[test]
fn create_pr_pushes_then_opens_pull_request() {
    let mut repo = GitRepo::new("/repo".to_string());
    let mut runner = FakeRunner::new();
    runner.default_branch_json = "{\"defaultBranchRef\":{\"name\":\"main\"}}".to_string();
    let branch = branch_with(None, None);
    let mut cleaner = GitCleaner::new(PromptScript::new(vec![0]));
    let result = cleaner
        .handle_branch(&mut repo, &mut runner, &branch)
        .unwrap();
    assert!(matches!(result, TaskResult::Proceed));
    assert_eq!(
        repo.issued_ops(),
        &vec![
            GitOp::PushCreatingOrigin {
                refname: "feature".to_string()
            },
            GitOp::CreatePullRequest {
                refname: "feature".to_string(),
                base: "main".to_string()
            },
        ]
    );
    assert_eq!(runner.calls_with("git", "push").len(), 1);
    assert_eq!(runner.calls_with("gh", "pr").len(), 1);
    // the default-branch lookup ran strictly before the pull-request creation
    let gh_firsts: Vec<&str> = runner
        .calls
        .iter()
        .filter(|(_, p, _)| p == "gh")
        .map(|(_, _, args)| args[0].as_str())
        .collect();
    assert_eq!(gh_firsts, vec!["repo", "pr"]);
}

#[test]
fn create_pr_fails_on_malformed_default_branch() {
    let mut repo = GitRepo::new("/repo".to_string());
    let mut runner = FakeRunner::new();
    runner.default_branch_json = "{\"somethingElse\":true}".to_string();
    let branch = branch_with(None, None);
    let mut cleaner = GitCleaner::new(PromptScript::new(vec![0]));
    let result = cleaner.handle_branch(&mut repo, &mut runner, &branch);
    match result {
        Err(GitError::MalformedDefaultBranch { .. }) => {}
        other => panic!("expected a malformed default branch error, got {:?}", other),
    }
    // the upstream-creating push had already been issued; no pull request was
    assert_eq!(
        repo.issued_ops(),
        &vec![GitOp::PushCreatingOrigin {
            refname: "feature".to_string()
        }]
    );
    assert_eq!(runner.calls_with("gh", "pr").len(), 0);
}

#[test]
fn upstream_ahead_rebases_automatically() {
    let mut repo = GitRepo::new("/repo".to_string());
    let mut runner = FakeRunner::new();
    let branch = branch_with(Some(UpstreamStatus::UpstreamIsAheadOfLocal), None);
    let mut cleaner = GitCleaner::new(PromptScript::new(Vec::new()));
    let result = cleaner
        .handle_branch(&mut repo, &mut runner, &branch)
        .unwrap();
    assert!(matches!(result, TaskResult::Proceed));
    assert_eq!(
        repo.issued_ops(),
        &vec![GitOp::Rebase {
            refname: "feature".to_string(),
            upstream: "origin/feature".to_string()
        }]
    );
}

#[test]
fn dry_run_always_proceeds_and_issues_nothing() {
    let statuses: Vec<Option<UpstreamStatus>> = vec![
        Some(UpstreamStatus::Identical),
        Some(UpstreamStatus::UpstreamIsAheadOfLocal),
        Some(UpstreamStatus::LocalIsAheadOfUpstream),
        Some(UpstreamStatus::MergeNeeded),
        Some(UpstreamStatus::UpstreamIsGone),
        None,
    ];
    for status in statuses {
        for worktree in [None, Some("/worktree")] {
            let mut repo = GitRepo::new("/repo".to_string());
            let mut runner = FakeRunner::new();
            let branch = branch_with(status, worktree);
            let mut cleaner = GitCleaner::new_with_dry_run(PromptScript::new(Vec::new()), true);
            let result = cleaner
                .handle(&mut repo, &mut runner, vec![branch])
                .unwrap();
            assert!(matches!(result, TaskResult::Proceed));
            assert!(repo.issued_ops().is_empty());
            assert_eq!(runner.mutating_calls(), 0);
        }
    }
}

#[test]
fn dry_run_reports_dirty_worktree_and_proceeds() {
    let mut repo = GitRepo::new("/repo".to_string());
    let mut runner = FakeRunner::new();
    runner
        .worktree_listings
        .push(("/repo".to_string(), "worktree /repo\nHEAD abc\nbranch refs/heads/main\n".to_string()));
    runner.dirty_paths.push("/repo".to_string());
    let mut cleaner = GitCleaner::new_with_dry_run(PromptScript::new(Vec::new()), true);
    let result = cleaner.handle(&mut repo, &mut runner, Vec::new()).unwrap();
    assert!(matches!(result, TaskResult::Proceed));
    assert_eq!(runner.mutating_calls(), 0);
    assert_eq!(
        cleaner.messages(),
        &vec!["[DRY RUN] Dirty git worktree: /repo".to_string()]
    );
}

#[test]
fn dirty_worktree_is_terminal_before_any_branch() {
    let mut repo = GitRepo::new("/repo".to_string());
    let mut runner = FakeRunner::new();
    runner
        .worktree_listings
        .push(("/repo".to_string(), "worktree /repo\nHEAD abc\nbranch refs/heads/main\n".to_string()));
    runner.dirty_paths.push("/repo".to_string());
    let branch = branch_with(Some(UpstreamStatus::UpstreamIsAheadOfLocal), None);
    let mut cleaner = GitCleaner::new(PromptScript::new(Vec::new()));
    let result = cleaner
        .handle(&mut repo, &mut runner, vec![branch])
        .unwrap();
    match result {
        TaskResult::ShellActionRequired(path) => assert_eq!(path, "/repo".to_string()),
        TaskResult::Proceed => panic!("expected shell action"),
    }
    assert!(repo.issued_ops().is_empty());
}

#[test]
fn branch_processing_stops_at_first_shell_result() {
    let mut repo = GitRepo::new("/repo".to_string());
    let mut runner = FakeRunner::new();
    let first = branch_with(Some(UpstreamStatus::Identical), None);
    let second = branch_with(
        Some(UpstreamStatus::UpstreamIsAheadOfLocal),
        Some("/worktree"),
    );
    let mut third = branch_with(Some(UpstreamStatus::UpstreamIsAheadOfLocal), None);
    third.refname = "other".to_string();
    let mut cleaner = GitCleaner::new(PromptScript::new(Vec::new()));
    let result = cleaner
        .handle(&mut repo, &mut runner, vec![first, second, third])
        .unwrap();
    match result {
        TaskResult::ShellActionRequired(path) => assert_eq!(path, "/worktree".to_string()),
        TaskResult::Proceed => panic!("expected shell action"),
    }
    // the third branch was never touched: its rebase was not issued
    assert!(repo.issued_ops().is_empty());
}

#[test]
fn invalid_selection_is_fatal() {
    let mut repo = GitRepo::new("/repo".to_string());
    let mut runner = FakeRunner::new();
    let branch = branch_with(Some(UpstreamStatus::LocalIsAheadOfUpstream), None);
    let mut cleaner = GitCleaner::new(PromptScript::new(vec![9]));
    let result = cleaner.handle_branch(&mut repo, &mut runner, &branch);
    assert_eq!(result, Err(GitError::InvalidSelection { index: 9 }));
}

#[test]
fn failed_push_is_fatal() {
    let mut repo = GitRepo::new("/repo".to_string());
    let mut runner = FakeRunner::new();
    runner.interactive_ok = false;
    let branch = branch_with(Some(UpstreamStatus::LocalIsAheadOfUpstream), None);
    let mut cleaner = GitCleaner::new(PromptScript::new(vec![0]));
    let result = cleaner.handle_branch(&mut repo, &mut runner, &branch);
    match result {
        Err(GitError::CommandFailed { command, .. }) => {
            assert_eq!(command, "git push origin feature".to_string());
        }
        other => panic!("expected a command failure, got {:?}", other),
    }
}

#[test]
fn rebase_without_upstream_is_rejected() {
    let mut repo = GitRepo::new("/repo".to_string());
    let mut runner = FakeRunner::new();
    let branch = branch_with(None, None);
    let mut cleaner = GitCleaner::new(PromptScript::new(Vec::new()));
    let result = cleaner.perform_action(&mut repo, &mut runner, &branch, BranchAction::Rebase);
    assert_eq!(result, Err(GitError::NoUpstreamToRebase));
}

#[test]
fn delete_worktree_without_worktree_is_rejected() {
    let mut repo = GitRepo::new("/repo".to_string());
    let mut runner = FakeRunner::new();
    let branch = branch_with(Some(UpstreamStatus::UpstreamIsGone), None);
    let mut cleaner = GitCleaner::new(PromptScript::new(Vec::new()));
    let result = cleaner.perform_action(
        &mut repo,
        &mut runner,
        &branch,
        BranchAction::DeleteWorktreeAndBranch,
    );
    assert_eq!(result, Err(GitError::NoWorktreeToDelete));
}

#[test]
fn delete_checks_out_first_available_then_deletes() {
    let mut repo = GitRepo::new("/repo".to_string());
    let mut runner = FakeRunner::new();
    let branch = branch_with(Some(UpstreamStatus::UpstreamIsGone), None);
    let mut cleaner = GitCleaner::new(PromptScript::new(Vec::new()));
    let result = cleaner
        .perform_action(&mut repo, &mut runner, &branch, BranchAction::Delete)
        .unwrap();
    assert_eq!(result, ActionResult::Handled);
    assert_eq!(
        repo.issued_ops(),
        &vec![
            GitOp::CheckoutFirstAvailable {
                candidates: vec![
                    "release".to_string(),
                    "master".to_string(),
                    "main".to_string()
                ]
            },
            GitOp::DeleteBranch {
                refname: "feature".to_string()
            },
        ]
    );
}

#[test]
fn delete_fails_when_no_candidate_can_be_checked_out() {
    let mut repo = GitRepo::new("/repo".to_string());
    let mut runner = FakeRunner::new();
    runner.interactive_ok = false;
    let branch = branch_with(Some(UpstreamStatus::UpstreamIsGone), None);
    let mut cleaner = GitCleaner::new(PromptScript::new(Vec::new()));
    let result = cleaner.perform_action(&mut repo, &mut runner, &branch, BranchAction::Delete);
    assert_eq!(result, Err(GitError::NoAvailableBranch));
}

#[test]
fn delete_worktree_and_branch_issues_both_operations() {
    let mut repo = GitRepo::new("/repo".to_string());
    let mut runner = FakeRunner::new();
    let branch = branch_with(Some(UpstreamStatus::UpstreamIsGone), Some("/repo"));
    let mut cleaner = GitCleaner::new(PromptScript::new(Vec::new()));
    let result = cleaner
        .perform_action(
            &mut repo,
            &mut runner,
            &branch,
            BranchAction::DeleteWorktreeAndBranch,
        )
        .unwrap();
    assert_eq!(result, ActionResult::Handled);
    assert_eq!(
        repo.issued_ops(),
        &vec![
            GitOp::DeleteWorktree {
                path: "/repo".to_string()
            },
            GitOp::DeleteBranch {
                refname: "feature".to_string()
            },
        ]
    );
}

#[test]
fn menus_match_the_relationship_table() {
    assert_eq!(
        actions_for(Some(UpstreamStatus::LocalIsAheadOfUpstream), false),
        vec![
            BranchAction::Push,
            BranchAction::Log,
            BranchAction::Shell,
            BranchAction::Nothing
        ]
    );
    assert_eq!(
        actions_for(Some(UpstreamStatus::MergeNeeded), false),
        vec![
            BranchAction::Rebase,
            BranchAction::Log,
            BranchAction::Delete,
            BranchAction::Shell,
            BranchAction::Nothing
        ]
    );
    assert_eq!(
        actions_for(Some(UpstreamStatus::MergeNeeded), true),
        vec![
            BranchAction::DeleteWorktreeAndBranch,
            BranchAction::Rebase,
            BranchAction::Log,
            BranchAction::Delete,
            BranchAction::Shell,
            BranchAction::Nothing
        ]
    );
    assert_eq!(
        actions_for(Some(UpstreamStatus::UpstreamIsGone), true),
        vec![
            BranchAction::DeleteWorktreeAndBranch,
            BranchAction::Delete,
            BranchAction::Log,
            BranchAction::Shell,
            BranchAction::Nothing
        ]
    );
    assert_eq!(
        actions_for(None, false),
        vec![
            BranchAction::CreatePr,
            BranchAction::PushCreatingOrigin,
            BranchAction::Delete,
            BranchAction::Log,
            BranchAction::Shell,
            BranchAction::Nothing
        ]
    );
    assert!(actions_for(Some(UpstreamStatus::Identical), false).is_empty());
}

#[test]
fn action_descriptions_match_labels() {
    assert_eq!(BranchAction::Push.description(), "Push to origin");
    assert_eq!(BranchAction::CreatePr.description(), "Push and create pull request");
    assert_eq!(BranchAction::Nothing.description(), "Do nothing");
    assert_eq!(
        BranchAction::Shell.description(),
        "Exit to shell with branch checked out"
    );
}

#[test]
fn no_branches_means_nothing_to_do() {
    let mut repo = GitRepo::new("/repo".to_string());
    let mut runner = FakeRunner::new();
    let mut cleaner = GitCleaner::new(PromptScript::new(Vec::new()));
    let result = cleaner.handle(&mut repo, &mut runner, Vec::new()).unwrap();
    assert!(matches!(result, TaskResult::Proceed));
    assert!(repo.issued_ops().is_empty());
}

#[test]
fn gone_upstream_menu_gains_worktree_entry_when_occupied_elsewhere() {
    let mut repo = GitRepo::new("/repo".to_string());
    let mut runner = FakeRunner::new();
    let branch = branch_with(Some(UpstreamStatus::UpstreamIsGone), Some("/worktree"));
    // the leading entry deletes the worktree and then the branch
    let mut cleaner = GitCleaner::new(PromptScript::new(vec![0]));
    let result = cleaner
        .handle_branch(&mut repo, &mut runner, &branch)
        .unwrap();
    assert!(matches!(result, TaskResult::Proceed));
    assert_eq!(
        repo.issued_ops(),
        &vec![
            GitOp::DeleteWorktree {
                path: "/worktree".to_string()
            },
            GitOp::DeleteBranch {
                refname: "feature".to_string()
            },
        ]
    );
}

#[test]
fn redirect_fact_forces_the_redirect() {
    // with the redirect fact supplied, a rebase must surface the other
    // worktree and issue nothing, even though the runner would obey
    let mut repo = GitRepo::new("/repo".to_string());
    let mut runner = FakeRunner::new();
    let branch = branch_with(Some(UpstreamStatus::MergeNeeded), Some("/worktree"));
    let mut cleaner = GitCleaner::new(PromptScript::new(Vec::new()));
    let result = cleaner
        .perform_action_with_redirect(
            &mut repo,
            &mut runner,
            &branch,
            BranchAction::Rebase,
            Some("/worktree".to_string()),
        )
        .unwrap();
    assert_eq!(result, ActionResult::ExitToShell("/worktree".to_string()));
    assert!(repo.issued_ops().is_empty());
    assert_eq!(runner.mutating_calls(), 0);
}

#[test]
fn resolved_redirect_checks_are_two_directional() {
    let on_worktree = branch_with(None, Some("/worktree"));
    let none = None;
    assert!(branch_checked_out_elsewhere_resolved(&on_worktree, "/repo", &none, &none));
    assert_eq!(
        worktree_elsewhere_path_resolved(&on_worktree, "/repo", &none, &none),
        Some("/worktree".to_string())
    );
    let same = branch_with(None, Some("/repo"));
    assert!(!branch_checked_out_elsewhere_resolved(&same, "/repo", &none, &none));
    assert_eq!(worktree_elsewhere_path_resolved(&same, "/repo", &none, &none), None);
    // canonical forms win over the literal spelling
    let canon = Some("/real".to_string());
    assert!(!branch_checked_out_elsewhere_resolved(&on_worktree, "/repo", &canon, &canon));
}

#[test]
fn dirty_fact_is_terminal_at_the_dirty_path() {
    let mut repo = GitRepo::new("/repo".to_string());
    let mut runner = FakeRunner::new();
    let branch = branch_with(Some(UpstreamStatus::UpstreamIsAheadOfLocal), None);
    let mut cleaner = GitCleaner::new(PromptScript::new(Vec::new()));
    let dirty = Some(Worktree {
        path: "/repo/feature".to_string(),
        branch: Some("feature".to_string()),
    });
    let result = cleaner
        .handle_with_dirty(&mut repo, &mut runner, dirty, vec![branch])
        .unwrap();
    match result {
        TaskResult::ShellActionRequired(path) => assert_eq!(path, "/repo/feature".to_string()),
        TaskResult::Proceed => panic!("expected shell action"),
    }
    // the branch was never touched: no rebase was issued
    assert!(repo.issued_ops().is_empty());
}

#[test]
fn worktree_message_names_branch_and_path() {
    let branch = branch_with(None, Some("/worktree"));
    assert_eq!(
        worktree_location_message(&branch, "/worktree"),
        "Branch 'feature' is checked out in worktree /worktree".to_string()
    );
}
