use git_pilot::commit::{CommitMessage, ValidationError};
use git_pilot::domain::BranchName;
use git_pilot::git::{command_failure_message, git_args, parse_branches, parse_current_branch, GitOp};

#[test]
fn current_branch_is_the_trimmed_output() {
    assert_eq!(parse_current_branch(b"main\n"), Some("main".to_string()));
    assert_eq!(parse_current_branch(b"  \n"), None);
}

#[test]
fn branches_are_sorted_and_the_current_one_marked() {
    let branches = parse_branches(b"zeta\n\nalpha\n  main  \n", Some("main".to_string())).unwrap();
    let names: Vec<&str> = branches.iter().map(|b| b.name.as_str()).collect();
    assert_eq!(names, vec!["alpha", "main", "zeta"]);
    assert!(branches[1].is_current);
    assert!(!branches[0].is_current && !branches[2].is_current);
}

#[test]
fn an_unlisted_current_branch_is_added() {
    let branches = parse_branches(b"b\na\n", Some("new".to_string())).unwrap();
    let names: Vec<&str> = branches.iter().map(|b| b.name.as_str()).collect();
    assert_eq!(names, vec!["a", "b", "new"]);
    assert!(branches[2].is_current);
    let r = parse_branches(b"a\n", Some("  ".to_string()));
    assert_eq!(r.unwrap_err(), ValidationError::EmptyBranchName);
    let none = parse_branches(b"", None).unwrap();
    assert!(none.is_empty());
}

#[test]
fn failure_message_prefers_error_output() {
    assert_eq!(command_failure_message(b" fatal: no\n", b"out", "1"), "fatal: no");
    assert_eq!(command_failure_message(b"  ", b" out \n", "1"), "out");
    assert_eq!(
        command_failure_message(b"", b"", "exit status: 128"),
        "command failed with status exit status: 128"
    );
}

#[test]
fn git_arguments_of_each_operation() {
    assert_eq!(git_args(&GitOp::StageFile("a b.rs".to_string())), vec!["add", "--", "a b.rs"]);
    assert_eq!(git_args(&GitOp::UnstageFile("x".to_string())), vec!["reset", "HEAD", "--", "x"]);
    assert_eq!(git_args(&GitOp::StageAll), vec!["add", "--all"]);
    assert_eq!(git_args(&GitOp::UnstageAll), vec!["reset", "HEAD", "--", "."]);
    let b = BranchName::parse("feature/x".to_string()).unwrap();
    assert_eq!(git_args(&GitOp::SwitchBranch(b.clone())), vec!["switch", "feature/x"]);
    assert_eq!(git_args(&GitOp::CreateBranch(b)), vec!["switch", "-c", "feature/x"]);
    let m = CommitMessage::parse("Subject\n\nBody".to_string()).unwrap();
    assert_eq!(git_args(&GitOp::Commit(m.clone())), vec!["commit", "-m", "Subject", "-m", "Body"]);
    assert_eq!(
        git_args(&GitOp::Amend(m)),
        vec!["commit", "--amend", "-m", "Subject", "-m", "Body"]
    );
    let f = BranchName::parse("old".to_string()).unwrap();
    assert_eq!(git_args(&GitOp::DeleteBranch(f.clone())), vec!["branch", "-d", "old"]);
    assert_eq!(git_args(&GitOp::MergeBranch(f)), vec!["merge", "old"]);
    assert_eq!(git_args(&GitOp::Fetch), vec!["fetch"]);
}
