use gogit::git::{
    branch_summary_args, commit_args, commits_since_args, is_ignored, merge_tree_args,
    merged_branches_args, needs_upstream, parse_branches, parse_current_branch, parse_last_tag,
    parse_merge_tree, parse_merged_branches, parse_name_list, parse_remote_url, pr_log_args,
    staged_diff_args, staged_paths, upstream_push_args, GitError,
};

fn strings(v: &[&str]) -> Vec<String> {
    v.iter().map(|s| s.to_string()).collect()
}

#[test]
fn merge_tree_clean_merge() {
    let r = parse_merge_tree(Some(0), "deadbeef\n", "").unwrap();
    assert!(!r.has_conflicts);
    assert!(r.conflicted_files.is_empty());
}

#[test]
fn merge_tree_lists_each_conflicted_file_once() {
    let out = "deadbeef\n100644 1111 1\tsrc/a.rs\n100644 2222 2\tsrc/a.rs\n100644 3333 3\tsrc/a.rs\n100644 4444 2\tREADME.md\n\nAuto-merging src/a.rs\nCONFLICT (content): Merge conflict in src/a.rs\n";
    let r = parse_merge_tree(Some(1), out, "").unwrap();
    assert!(r.has_conflicts);
    assert_eq!(r.conflicted_files, strings(&["src/a.rs", "README.md"]));
}

#[test]
fn merge_tree_other_status_is_an_error() {
    match parse_merge_tree(Some(128), "", "fatal: bad revision") {
        Err(GitError::Cmd(m)) => assert_eq!(m, "fatal: bad revision"),
        _ => panic!("expected a command error"),
    }
    assert!(matches!(parse_merge_tree(None, "", "killed"), Err(GitError::Cmd(_))));
}

#[test]
fn remote_url_https_and_ssh() {
    assert_eq!(
        parse_remote_url("https://github.com/owner/repo.git\n").unwrap(),
        ("owner".to_string(), "repo".to_string())
    );
    assert_eq!(
        parse_remote_url("git@github.com:owner/repo.git").unwrap(),
        ("owner".to_string(), "repo".to_string())
    );
    assert_eq!(
        parse_remote_url("https://github.com/owner/repo").unwrap(),
        ("owner".to_string(), "repo".to_string())
    );
}

#[test]
fn remote_url_that_cannot_be_parsed() {
    match parse_remote_url("git@github.com") {
        Err(GitError::Cmd(m)) => assert_eq!(m, "Could not parse remote url"),
        _ => panic!("expected an error"),
    }
    assert!(parse_remote_url("https://github.com/owner").is_err());
}

#[test]
fn ignored_files_are_lock_files_maps_and_images() {
    assert!(is_ignored("Cargo.lock"));
    assert!(is_ignored("web/package-lock.json"));
    assert!(is_ignored("go.sum"));
    assert!(is_ignored("dist/app.js.map"));
    assert!(is_ignored("assets/logo.png"));
    assert!(is_ignored("a/b.svg"));
    assert!(!is_ignored("src/main.rs"));
    assert!(!is_ignored("Cargo.toml"));
}

#[test]
fn staged_paths_drop_ignored_files_in_order() {
    let ps = strings(&["src/lib.rs", "Cargo.lock", "img/x.jpg", "README.md"]);
    assert_eq!(staged_paths(&ps), strings(&["src/lib.rs", "README.md"]));
}

#[test]
fn branch_lists() {
    let out = "  main\nfeature/x \n\norigin/main\n";
    assert_eq!(parse_branches(out), strings(&["main", "feature/x", "origin/main"]));
    assert_eq!(parse_merged_branches(out, "main"), strings(&["feature/x", "origin/main"]));
}

#[test]
fn name_list_keeps_lines_as_printed() {
    assert_eq!(parse_name_list("a.rs\n  \nb/c.rs\n"), strings(&["a.rs", "b/c.rs"]));
}

#[test]
fn current_branch_and_tags() {
    assert_eq!(parse_current_branch("feature/x\n"), "feature/x");
    assert_eq!(parse_last_tag(true, "v1.2.0\n"), Some("v1.2.0".to_string()));
    assert_eq!(parse_last_tag(false, "fatal: No names found"), None);
}

#[test]
fn command_arguments() {
    assert_eq!(staged_diff_args(&strings(&["a.rs"])), strings(&["diff", "--cached", "--", "a.rs"]));
    assert_eq!(commit_args("fix: x"), strings(&["commit", "-m", "fix: x"]));
    assert_eq!(upstream_push_args("dev"), strings(&["push", "--set-upstream", "origin", "dev"]));
    assert_eq!(
        pr_log_args("main", true),
        strings(&["log", "origin/main..HEAD", "--no-merges", "--pretty=format:Commit: %h%nMessage: %s%nBody: %b%n---"])
    );
    assert_eq!(pr_log_args("main", false)[1], "main..HEAD");
    assert_eq!(
        commits_since_args(Some("v1.0")),
        strings(&["log", "v1.0..HEAD", "--pretty=format:- %s (%h)", "--no-merges"])
    );
    assert_eq!(commits_since_args(None), strings(&["log", "--pretty=format:- %s (%h)", "--no-merges"]));
    assert_eq!(merge_tree_args("main", "dev"), strings(&["merge-tree", "--write-tree", "main", "dev"]));
    assert_eq!(
        merged_branches_args("main"),
        strings(&["branch", "--merged", "main", "--format=%(refname:short)"])
    );
    assert_eq!(branch_summary_args("dev", "main"), strings(&["log", "main..dev", "--oneline", "-n", "5"]));
}

#[test]
fn push_without_upstream_is_recognised() {
    assert!(needs_upstream("fatal: The current branch dev has no upstream branch."));
    assert!(!needs_upstream("rejected"));
}

#[test]
fn git_error_messages() {
    assert_eq!(GitError::Cmd("boom".to_string()).message(), "Git command failed: boom");
    assert_eq!(GitError::Io("x".to_string()).message(), "IO error: x");
    assert_eq!(GitError::Discovery("x".to_string()).message(), "Git discovery error: x");
    assert_eq!(GitError::Utf8("x".to_string()).message(), "Utf8 error: x");
    assert_eq!(GitError::Utf8Str("x".to_string()).message(), "Utf8 slice error: x");
}
