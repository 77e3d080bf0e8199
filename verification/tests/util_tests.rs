use git_branch_assistant::env::ProcessEnvironment;
use git_branch_assistant::fs_utils::{expand_tilde, file_name_of, is_globally_ignored, parent_of};
use git_branch_assistant::git::GitError;
use git_branch_assistant::repository::{suggested_directory_to_string, Repository};
use git_branch_assistant::task_result::TaskResult;
use git_branch_assistant::text::{
    eq_ignore_ascii_case, format_command, split_lines, str_eq, strip_prefix, trim, trim_end,
};
use git_branch_assistant::ui::{Choice, PromptScript, UserInterface};

#[test]
fn expand_tilde_replaces_home() {
    let home = Some("/home/user".to_string());
    assert_eq!(expand_tilde("~", &home), "/home/user".to_string());
    assert_eq!(expand_tilde("~/notes", &home), "/home/user/notes".to_string());
    assert_eq!(expand_tilde("~///notes", &home), "/home/user/notes".to_string());
    assert_eq!(expand_tilde("~cache", &home), "/home/user/cache".to_string());
    assert_eq!(expand_tilde("/abs/path", &home), "/abs/path".to_string());
    assert_eq!(expand_tilde("~/notes", &None), "~/notes".to_string());
    assert_eq!(expand_tilde("", &home), "".to_string());
}

#[test]
fn globally_ignored_matches_case_insensitively() {
    assert!(is_globally_ignored("/parent/.DS_Store"));
    assert!(is_globally_ignored("/parent/.ds_store"));
    assert!(is_globally_ignored(".DS_STORE"));
    assert!(!is_globally_ignored("/parent/notes.txt"));
    assert!(!is_globally_ignored("/parent/DS_Store"));
    assert!(!is_globally_ignored("/"));
}

#[test]
fn file_name_takes_the_last_component() {
    assert_eq!(file_name_of("/a/b/c"), "c");
    assert_eq!(file_name_of("/a/b/"), "b");
    assert_eq!(file_name_of("plain"), "plain");
    assert_eq!(file_name_of("/"), "");
}

#[test]
fn parent_takes_everything_before_the_last_component() {
    assert_eq!(parent_of("/a/b/c"), "/a/b".to_string());
    assert_eq!(parent_of("/a/b/"), "/a".to_string());
    assert_eq!(parent_of("plain"), "".to_string());
    assert_eq!(parent_of("/"), "/".to_string());
}

#[test]
fn format_command_joins_with_spaces() {
    let args = vec!["push".to_string(), "origin".to_string(), "main".to_string()];
    assert_eq!(format_command("git", &args), "git push origin main".to_string());
    assert_eq!(format_command("tig", &Vec::new()), "tig".to_string());
}

#[test]
fn text_helpers_behave_like_their_models() {
    assert_eq!(trim("  x y \t\n"), "x y");
    assert_eq!(trim("   "), "");
    assert_eq!(trim_end("  x  "), "  x");
    assert!(str_eq("abc", "abc"));
    assert!(!str_eq("abc", "abd"));
    assert!(eq_ignore_ascii_case("AbC", "aBc"));
    assert!(!eq_ignore_ascii_case("ab", "abc"));
    assert_eq!(strip_prefix("refs/heads/main", "refs/heads/"), Some("main"));
    assert_eq!(strip_prefix("origin/main", "refs/heads/"), None);
    assert_eq!(
        split_lines("a\nb\n\nc"),
        vec!["a".to_string(), "b".to_string(), "".to_string(), "c".to_string()]
    );
    assert_eq!(split_lines("a\n"), vec!["a".to_string()]);
    assert!(split_lines("").is_empty());
}

#[test]
fn prompt_script_hands_out_selections_in_order() {
    let mut script = PromptScript::new(vec![2, 0]);
    assert_eq!(script.remaining(), 2);
    let options = vec!["a".to_string(), "b".to_string(), "c".to_string()];
    assert_eq!(script.select("pick", &options), Ok(2));
    assert_eq!(script.select("pick", &options), Ok(0));
    assert_eq!(
        script.select("pick", &options),
        Err(GitError::NoSelectionsRemaining)
    );
    assert_eq!(script.remaining(), 0);
}

#[test]
fn choices_keep_identifier_and_label() {
    let choice: Choice<u32> = Choice::new(7, "seventh".to_string());
    assert_eq!(*choice.identifier(), 7);
    assert_eq!(choice.label(), &"seventh".to_string());
    let _ui = UserInterface::new();
}

#[test]
fn task_result_distinguishes_proceed() {
    assert!(TaskResult::Proceed.is_proceed());
    assert!(!TaskResult::ShellActionRequired("/p".to_string()).is_proceed());
}

#[test]
fn environment_hands_back_the_injected_hint_path() {
    let env = ProcessEnvironment::new(Some("~/.config/hint".to_string()));
    assert_eq!(
        env.suggested_cd_file(),
        &Some("~/.config/hint".to_string())
    );
    let unset = ProcessEnvironment::new(None);
    assert_eq!(unset.suggested_cd_file(), &None);
}

#[test]
fn suggested_directory_target_expands_the_hint_path() {
    let repository = Repository::new();
    let env = ProcessEnvironment::new(Some("~/.config/hint".to_string()));
    let home = Some("/home/user".to_string());
    assert_eq!(
        repository.suggested_directory_target(&env, &home),
        Some("/home/user/.config/hint".to_string())
    );
    let unset = ProcessEnvironment::new(None);
    assert_eq!(repository.suggested_directory_target(&unset, &home), None);
    assert_eq!(
        suggested_directory_to_string("/suggested/dir"),
        "/suggested/dir".to_string()
    );
}

#[test]
fn error_messages_describe_the_failure() {
    let failed = GitError::CommandFailed {
        command: "git push origin main".to_string(),
        detail: "remote hung up".to_string(),
    };
    assert_eq!(
        failed.message(),
        "git push origin main failed: remote hung up".to_string()
    );
    assert_eq!(
        GitError::NoSelectionsRemaining.message(),
        "no selections remaining".to_string()
    );
    assert_eq!(
        GitError::NoUpstreamToRebase.message(),
        "branch has no upstream to rebase onto".to_string()
    );
    assert_eq!(
        GitError::MissingWorktreePath.message(),
        "git worktree entry missing path".to_string()
    );
}
