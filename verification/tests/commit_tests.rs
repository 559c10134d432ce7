use git_pilot::commit::{CommitMessage, ValidationError};

#[test]
fn builds_git_message_args_from_subject_and_body() {
    let message = CommitMessage::try_from("Subject\n\nBody one\n\nBody two".to_string())
        .expect("valid commit message");

    assert_eq!(
        message.git_message_args(),
        vec![
            "Subject".to_string(),
            "Body one".to_string(),
            "Body two".to_string()
        ]
    );
}

#[test]
fn blank_message_is_refused() {
    let r = CommitMessage::try_from("  \n\t\n".to_string());
    assert_eq!(r.unwrap_err(), ValidationError::EmptyCommitMessage);
    assert_eq!(
        ValidationError::EmptyCommitMessage.message(),
        "commit message must include a non-empty subject line"
    );
    assert_eq!(ValidationError::EmptyBranchName.message(), "branch name cannot be empty");
}

#[test]
fn subject_is_first_non_blank_line_trimmed() {
    let m = CommitMessage::parse("\n   Fix the thing  \nmore detail\n".to_string()).unwrap();
    assert_eq!(m.subject(), "Fix the thing");
    assert_eq!(m.body(), Some("more detail".to_string()));
    let only = CommitMessage::parse("Only subject".to_string()).unwrap();
    assert_eq!(only.body(), None);
    assert_eq!(only.git_message_args(), vec!["Only subject".to_string()]);
}

#[test]
fn accepted_message_starts_its_arguments_with_a_non_empty_subject() {
    for text in ["x", "\n\n   \t\n  Fix it  \n", " \n a\n\n b "] {
        let message = CommitMessage::try_from(text.to_string()).expect("has a non-blank line");
        let args = message.git_message_args();
        assert!(!message.subject().is_empty());
        assert_eq!(args[0], message.subject());
    }
}
