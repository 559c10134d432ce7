use git_pilot::copilot::{
    chat_messages, commit_message_system_prompt, first_choice_content, is_noise_file,
    parse_commit_message_response, parse_pr_description_response, pr_description_request,
    pr_description_system_prompt, prepare_diff_context, truncate_pr_diff, truncate_with_marker,
    ChatChoice, ChatCompletionResponse, ChatResponseMessage, DiffContextBuilder, StagedDiff,
};

#[test]
fn identifies_noise_files() {
    assert!(is_noise_file("Cargo.lock"));
    assert!(is_noise_file("path/to/package-lock.json"));
    assert!(is_noise_file("deep/nested/yarn.lock"));
    assert!(!is_noise_file("src/main.rs"));
    assert!(!is_noise_file("Cargo.toml"));
}

#[test]
fn truncates_long_text() {
    let text = "line1\nline2\nline3\nline4\n";
    let result = truncate_with_marker(text, 12);
    assert!(result.ends_with("[...truncated]"));
    assert!(result.len() < text.len() + 20);
}

#[test]
fn short_text_not_truncated() {
    let text = "short";
    assert_eq!(truncate_with_marker(text, 100), "short");
}

#[test]
fn truncation_cuts_at_the_last_line_break() {
    assert_eq!(
        truncate_with_marker("line1\nline2\nline3\nline4\n", 12),
        "line1\nline2\n[...truncated]"
    );
    // no line break within the limit: cut at the limit
    assert_eq!(truncate_with_marker("abcdefgh", 3), "abc\n[...truncated]");
    // exactly at the limit: kept whole
    assert_eq!(truncate_with_marker("abc", 3), "abc");
}

#[test]
fn pr_diff_is_cut_at_a_line_break() {
    let line = "x".repeat(99);
    let mut diff = String::new();
    for _ in 0..130 {
        diff.push_str(&line);
        diff.push('\n');
    }
    let cut = truncate_pr_diff(&diff);
    assert_eq!(cut.len(), 11999);
    assert!(cut.ends_with('x'));
    assert_eq!(truncate_pr_diff("small\n"), "small\n");
}

#[test]
fn diff_context_skips_noise_unread_and_blank_files() {
    let files = vec![
        StagedDiff { path: "Cargo.lock".to_string(), diff: Some("lock diff".to_string()) },
        StagedDiff { path: "gone.rs".to_string(), diff: None },
        StagedDiff { path: "blank.rs".to_string(), diff: Some("  \n".to_string()) },
        StagedDiff { path: "src/lib.rs".to_string(), diff: Some("+fn a() {}".to_string()) },
    ];
    let context = prepare_diff_context(" 4 files changed", &files);
    assert_eq!(
        context,
        "## Overview (git diff --stat)\n 4 files changed\n## File: src/lib.rs\n+fn a() {}\n\n"
    );
}

#[test]
fn diff_context_stops_at_the_first_section_that_does_not_fit() {
    let big = "y".repeat(3990);
    let mut files = Vec::new();
    for i in 0..20 {
        files.push(StagedDiff { path: format!("f{i}.txt"), diff: Some(big.clone()) });
    }
    let context = prepare_diff_context("stat", &files);
    assert!(context.len() <= 64000);
    assert!(context.contains("## File: f0.txt"));
    assert!(!context.contains("## File: f19.txt"));
}

#[test]
fn commit_reply_is_split_at_the_first_blank_line() {
    let m = parse_commit_message_response("  Add parser\n\n  Explains why.\n\nMore.  \n");
    assert_eq!(m.subject, "Add parser");
    assert_eq!(m.body, Some("Explains why.\n\nMore.".to_string()));
    let single = parse_commit_message_response("Fix typo\n");
    assert_eq!(single.subject, "Fix typo");
    assert_eq!(single.body, None);
}

#[test]
fn pr_reply_reads_title_and_body() {
    let d = parse_pr_description_response("TITLE: Add login\nBODY:\n- adds login\n");
    assert_eq!(d.title, "Add login");
    assert_eq!(d.body, "- adds login");
    let repeated = parse_pr_description_response("intro\nTITLE:TITLE: Twice \nno body");
    assert_eq!(repeated.title, "Twice");
    assert_eq!(repeated.body, "intro\nTITLE:TITLE: Twice \nno body");
    let none = parse_pr_description_response("just text");
    assert_eq!(none.title, "Update");
}

#[test]
fn pr_request_holds_commits_then_diff() {
    assert_eq!(
        pr_description_request("abc123 Fix", "+a\n"),
        "## Commits\nabc123 Fix\n\n## Diff\n+a\n"
    );
}

#[test]
fn prompts_state_the_expected_format() {
    assert!(commit_message_system_prompt().starts_with("You are an expert at writing concise"));
    assert!(commit_message_system_prompt().ends_with("no code fences."));
    assert!(pr_description_system_prompt().contains("TITLE: <short PR title, under 70 characters>\nBODY:\n"));
}

#[test]
fn chat_request_has_system_then_user_message() {
    let m = chat_messages("sys", "usr");
    assert_eq!(m.len(), 2);
    assert_eq!(m[0].role, "system");
    assert_eq!(m[0].content, "sys");
    assert_eq!(m[1].role, "user");
    assert_eq!(m[1].content, "usr");
}

#[test]
fn reply_content_comes_from_the_first_choice() {
    let reply = ChatCompletionResponse {
        choices: vec![
            ChatChoice { message: ChatResponseMessage { content: Some("first".to_string()) } },
            ChatChoice { message: ChatResponseMessage { content: Some("second".to_string()) } },
        ],
    };
    assert_eq!(first_choice_content(reply), Ok("first".to_string()));
    let empty = ChatCompletionResponse { choices: vec![] };
    assert_eq!(
        first_choice_content(empty),
        Err("no response content from Copilot".to_string())
    );
    let no_text = ChatCompletionResponse {
        choices: vec![ChatChoice { message: ChatResponseMessage { content: None } }],
    };
    assert!(first_choice_content(no_text).is_err());
}

#[test]
fn diff_context_builder_reads_only_the_diffs_it_needs() {
    let mut b = DiffContextBuilder::new("stat");
    assert!(!b.wants("Cargo.lock"));
    assert!(!b.wants("web/package-lock.json"));
    assert!(b.wants("src/main.rs"));
    b.add("src/main.rs", &Some("+x".to_string()));
    b.add("missing.rs", &None);
    let big = "y".repeat(3990);
    for i in 0..20 {
        let name = format!("f{i}.txt");
        if b.wants(&name) {
            b.add(&name, &Some(big.clone()));
        }
    }
    // Once a section did not fit, no diff is wanted any more.
    assert!(!b.wants("late.rs"));
    let context = b.finish();
    assert!(context.starts_with("## Overview (git diff --stat)\nstat\n## File: src/main.rs\n+x\n\n"));
    assert!(context.len() <= 64000);
    assert!(!context.contains("late.rs"));
}

#[test]
fn diff_context_does_not_cut_noise_or_late_files() {
    // Byte 4000 falls inside a two-byte character, but this diff is never cut.
    let awkward = format!("{}é{}", "a".repeat(3999), "b".repeat(2000));
    let files = vec![
        StagedDiff { path: "Cargo.lock".to_string(), diff: Some(awkward.clone()) },
        StagedDiff { path: "src/lib.rs".to_string(), diff: Some("+fn a() {}".to_string()) },
    ];
    let context = prepare_diff_context("s", &files);
    assert_eq!(context, "## Overview (git diff --stat)\ns\n## File: src/lib.rs\n+fn a() {}\n\n");
}
