use git_pilot::actions::{AppAction, KeyCode, KeyEvent, KeyModifiers};
use git_pilot::controller::{
    amend_message_loaded, background_result, commit_context_ready, create_repo_dialog_opened,
    diff_loaded, diff_target, dispatch, handle_key_event, pr_checks_loaded, pull_request_opened,
    pull_requests_loaded, refreshes_due, repositories_loaded, repository_changed,
    repository_created, tick_spinner, Command,
};
use git_pilot::domain::{
    CheckRun, GeneratedCommitMessage, PrInfo, PrState, RepoVisibility, RepositoryId,
    RepositorySummary,
};
use git_pilot::git::GitOp;
use git_pilot::jobs::{BackgroundResult, DeviceCodeInfo, JobKind};
use git_pilot::settings::AutoRefreshSettings;
use git_pilot::state::{AppState, CreateRepoStep, MessageLevel, Modal, RepositoryState, View};
use git_pilot::status::ChangedFile;

fn repo_state(name: &str) -> RepositoryState {
    let path = format!("/tmp/{name}");
    RepositoryState {
        summary: RepositorySummary {
            id: RepositoryId(path.clone()),
            name: name.to_string(),
            path: path.clone(),
            relative_path: name.to_string(),
        },
        current_branch: Some("main".to_string()),
        branches: vec!["feature".to_string(), "main".to_string()],
        status_files: vec![
            ChangedFile {
                path: "staged.rs".to_string(),
                staged: true,
                unstaged: false,
                untracked: false,
                status_code: "M ".to_string(),
            },
            ChangedFile {
                path: "edited.rs".to_string(),
                staged: false,
                unstaged: true,
                untracked: false,
                status_code: " M".to_string(),
            },
        ],
        log_entries: Vec::new(),
        remotes: Vec::new(),
        pull_requests: vec![pr(7), pr(9)],
        has_origin_remote: false,
        load_error: None,
    }
}

fn pr(number: u32) -> PrInfo {
    PrInfo {
        number,
        title: format!("PR {number}"),
        state: PrState::Open,
        url: format!("https://example.test/{number}"),
        head_branch: "feature".to_string(),
        checks_passed: None,
    }
}

fn loaded_state() -> AppState {
    let mut state = AppState::default();
    state.set_repositories(vec![repo_state("demo")], None);
    state
}

fn error_text(state: &AppState) -> String {
    let m = state.message.as_ref().expect("a message");
    assert_eq!(m.level, MessageLevel::Error);
    m.text.clone()
}

fn info_text(state: &AppState) -> String {
    let m = state.message.as_ref().expect("a message");
    assert_eq!(m.level, MessageLevel::Info);
    m.text.clone()
}

fn change_of(cmd: &Command) -> (String, String, bool) {
    match cmd {
        Command::ChangeRepository { repo_path, done, close_modal, .. } => {
            (repo_path.clone(), done.clone(), *close_modal)
        }
        _ => panic!("expected a repository change"),
    }
}

#[test]
fn failures_change_nothing_and_carry_their_message() {
    let mut state = AppState::default();
    let r = dispatch(&mut state, AppAction::StageAll);
    assert_eq!(r.err(), Some("no repository selected".to_string()));
    let r = dispatch(&mut state, AppAction::StageSelected);
    assert_eq!(r.err(), Some("no file selected".to_string()));
    let r = dispatch(&mut state, AppAction::DeleteBranch);
    assert_eq!(r.err(), Some("no repository selected".to_string()));
    let r = dispatch(&mut state, AppAction::GenerateCommitMessage);
    assert_eq!(
        r.err(),
        Some("not logged in to Copilot — press Ctrl+l to login".to_string())
    );
    assert!(state.message.is_none());
}

#[test]
fn staging_the_selected_file() {
    let mut state = loaded_state();
    // first row: the staged file
    let r = dispatch(&mut state, AppAction::StageSelected).unwrap();
    assert!(matches!(r, Command::Nothing));
    let r = dispatch(&mut state, AppAction::UnstageSelected).unwrap();
    assert_eq!(change_of(&r), ("/tmp/demo".to_string(), "Unstaged selected file".to_string(), false));
    match r {
        Command::ChangeRepository { change: GitOp::UnstageFile(p), .. } => {
            assert_eq!(p, "staged.rs")
        }
        _ => panic!("expected unstaging"),
    }
    dispatch(&mut state, AppAction::SelectNextFile).unwrap();
    let r = dispatch(&mut state, AppAction::ToggleStage).unwrap();
    assert_eq!(change_of(&r).1, "Staged selected file");
}

#[test]
fn deleting_the_checked_out_branch_is_refused() {
    let mut state = loaded_state();
    state.open_branch_switch();
    state.close_modal();
    // selected branch: the checked-out one
    state.selected_branch = 1;
    let r = dispatch(&mut state, AppAction::DeleteBranch);
    assert_eq!(r.err(), Some("cannot delete the current branch".to_string()));
    state.selected_branch = 0;
    let r = dispatch(&mut state, AppAction::DeleteBranch).unwrap();
    assert_eq!(change_of(&r).1, "Deleted branch feature");
    let r = dispatch(&mut state, AppAction::MergeBranch).unwrap();
    assert_eq!(change_of(&r).1, "Merged feature");
}

#[test]
fn confirming_dialogs() {
    let mut state = loaded_state();
    dispatch(&mut state, AppAction::OpenBranchSwitch).unwrap();
    let r = dispatch(&mut state, AppAction::ConfirmModal).unwrap();
    assert_eq!(change_of(&r), ("/tmp/demo".to_string(), "Switched to main".to_string(), true));

    dispatch(&mut state, AppAction::OpenBranchCreate).unwrap();
    let r = dispatch(&mut state, AppAction::ConfirmModal);
    assert_eq!(r.err(), Some("branch name cannot be empty".to_string()));
    for c in "topic".chars() {
        dispatch(&mut state, AppAction::InsertChar(c)).unwrap();
    }
    dispatch(&mut state, AppAction::Backspace).unwrap();
    assert_eq!(state.branch_name_input, "topi");
    let r = dispatch(&mut state, AppAction::ConfirmModal).unwrap();
    assert_eq!(change_of(&r).1, "Created and switched to topi");

    dispatch(&mut state, AppAction::OpenCommitPanel).unwrap();
    for c in "Add tests".chars() {
        dispatch(&mut state, AppAction::InsertChar(c)).unwrap();
    }
    dispatch(&mut state, AppAction::InsertNewline).unwrap();
    dispatch(&mut state, AppAction::InsertChar('b')).unwrap();
    assert_eq!(state.commit_message_input, "Add tests\nb");
    let r = dispatch(&mut state, AppAction::ConfirmModal).unwrap();
    assert_eq!(change_of(&r).1, "Committed Add tests");
    match r {
        Command::ChangeRepository { change, .. } => {
            assert!(matches!(change, GitOp::Commit(_)))
        }
        _ => panic!("expected a commit"),
    }
}

#[test]
fn committing_needs_staged_changes_unless_amending() {
    let mut repo = repo_state("clean");
    repo.status_files.retain(|f| !f.staged);
    let mut state = AppState::default();
    state.set_repositories(vec![repo], None);
    dispatch(&mut state, AppAction::OpenCommitPanel).unwrap();
    dispatch(&mut state, AppAction::InsertChar('x')).unwrap();
    let r = dispatch(&mut state, AppAction::ConfirmModal);
    assert_eq!(r.err(), Some("no staged changes to commit".to_string()));
    assert!(amend_message_loaded(&mut state, String::new()).is_err());
    amend_message_loaded(&mut state, "Old subject\n".to_string()).unwrap();
    assert!(state.amend_mode);
    assert_eq!(state.modal, Modal::Commit);
    let r = dispatch(&mut state, AppAction::ConfirmModal).unwrap();
    assert_eq!(change_of(&r).1, "Amended Old subject");
}

#[test]
fn create_repository_dialog_walks_its_steps() {
    let mut state = loaded_state();
    let r = dispatch(&mut state, AppAction::OpenCreateRepo).unwrap();
    assert!(matches!(r, Command::CheckGitHubAuth));
    create_repo_dialog_opened(&mut state);
    assert_eq!(state.modal, Modal::CreateRepo(CreateRepoStep::Owner));
    assert_eq!(state.create_repo_state.as_ref().unwrap().repo_name_input, "demo");
    let r = dispatch(&mut state, AppAction::CreateRepoNextStep);
    assert_eq!(r.err(), Some("owner cannot be empty".to_string()));
    for c in " me ".chars() {
        dispatch(&mut state, AppAction::InsertChar(c)).unwrap();
    }
    dispatch(&mut state, AppAction::CreateRepoNextStep).unwrap();
    assert_eq!(state.modal, Modal::CreateRepo(CreateRepoStep::RepoName));
    dispatch(&mut state, AppAction::CreateRepoNextStep).unwrap();
    dispatch(&mut state, AppAction::ToggleVisibility).unwrap();
    dispatch(&mut state, AppAction::CreateRepoNextStep).unwrap();
    assert_eq!(state.modal, Modal::CreateRepo(CreateRepoStep::Confirm));
    dispatch(&mut state, AppAction::CreateRepoPrevStep).unwrap();
    assert_eq!(state.modal, Modal::CreateRepo(CreateRepoStep::Visibility));
    dispatch(&mut state, AppAction::CreateRepoNextStep).unwrap();
    let r = dispatch(&mut state, AppAction::CreateRepoNextStep).unwrap();
    match r {
        Command::CreateRepository(p) => {
            assert_eq!(p.owner, "me");
            assert_eq!(p.name, "demo");
            assert_eq!(p.visibility, RepoVisibility::Private);
            assert_eq!(p.source_dir, "/tmp/demo");
            assert_eq!(p.remote_name, "origin");
        }
        _ => panic!("expected repository creation"),
    }
    repository_created(&mut state, "https://example.test/me/demo", Ok(repo_state("demo"))).unwrap();
    assert_eq!(state.modal, Modal::Closed);
    assert_eq!(info_text(&state), "Created repository: https://example.test/me/demo");
}

#[test]
fn origin_remote_blocks_repository_creation() {
    let mut repo = repo_state("r");
    repo.has_origin_remote = true;
    let mut state = AppState::default();
    state.set_repositories(vec![repo], None);
    let r = dispatch(&mut state, AppAction::OpenCreateRepo);
    assert_eq!(r.err(), Some("origin remote already exists".to_string()));
}

#[test]
fn pull_request_selection_loads_checks() {
    let mut state = loaded_state();
    let r = dispatch(&mut state, AppAction::SelectNextPr).unwrap();
    match r {
        Command::LoadPrChecks { repo_path, number } => {
            assert_eq!(repo_path, "/tmp/demo");
            assert_eq!(number, 9);
        }
        _ => panic!("expected checks to load"),
    }
    state.pr_detail_scroll = 10;
    pr_checks_loaded(
        &mut state,
        vec![CheckRun { name: "ci".to_string(), status: "done".to_string(), conclusion: None }],
    );
    assert_eq!(state.pr_checks_cache.len(), 1);
    assert_eq!(state.pr_detail_scroll, 0);
    let r = dispatch(&mut state, AppAction::OpenPrInBrowser).unwrap();
    assert!(matches!(r, Command::OpenPullRequest { number: 9, .. }));
    pull_request_opened(&mut state, 9);
    assert_eq!(info_text(&state), "Opened PR #9 in browser");
    let cmd = pull_requests_loaded(&mut state, vec![pr(1)]);
    assert!(matches!(cmd, Command::Nothing));
    assert!(state.pr_checks_cache.is_empty());
    assert_eq!(state.selected_pr, 0);
    assert_eq!(info_text(&state), "Loaded 1 pull requests");
}

#[test]
fn scrolling_saturates() {
    let mut state = AppState::default();
    dispatch(&mut state, AppAction::ScrollDiffUp).unwrap();
    assert_eq!(state.diff_scroll, 0);
    state.diff_scroll = u16::MAX - 2;
    dispatch(&mut state, AppAction::ScrollDiffDown).unwrap();
    assert_eq!(state.diff_scroll, u16::MAX);
    dispatch(&mut state, AppAction::ScrollLogDown).unwrap();
    assert_eq!(state.log_scroll, 5);
}

#[test]
fn keys_are_handled_and_failures_shown() {
    let mut state = AppState::default();
    let cmd = handle_key_event(&mut state, KeyEvent::new(KeyCode::Char('S'), KeyModifiers::shift()));
    assert!(matches!(cmd, Command::Nothing));
    assert_eq!(error_text(&state), "no repository selected");
    handle_key_event(&mut state, KeyEvent::new(KeyCode::Char('q'), KeyModifiers::none()));
    assert!(state.should_quit);
    handle_key_event(&mut state, KeyEvent::new(KeyCode::Tab, KeyModifiers::none()));
    assert_eq!(state.active_view, View::Branches);
}

#[test]
fn repository_list_reports_its_size() {
    let mut state = AppState::default();
    repositories_loaded(&mut state, vec![], None);
    assert_eq!(
        info_text(&state),
        "No Git repositories found in the current directory or descendants"
    );
    repositories_loaded(&mut state, vec![repo_state("a"), repo_state("b")], None);
    assert_eq!(info_text(&state), "Loaded 2 repositories");
    assert_eq!(state.repos.len(), 2);
}

#[test]
fn repository_change_reloads_closes_and_reports() {
    let mut state = loaded_state();
    dispatch(&mut state, AppAction::OpenCommitPanel).unwrap();
    let mut reloaded = repo_state("demo");
    reloaded.status_files.clear();
    repository_changed(&mut state, reloaded, true, "Committed x".to_string());
    assert_eq!(state.modal, Modal::Closed);
    assert_eq!(info_text(&state), "Committed x");
    assert!(state.repos[0].status_files.is_empty());
    assert!(state.grouped_files.entries.is_empty());
}

#[test]
fn commit_generation_starts_a_job_and_fills_the_editor() {
    let mut state = loaded_state();
    state.copilot_authenticated = true;
    let r = dispatch(&mut state, AppAction::GenerateCommitMessage).unwrap();
    assert!(matches!(r, Command::PrepareCommitContext { .. }));
    assert!(commit_context_ready(&mut state, "   ").is_err());
    let id = commit_context_ready(&mut state, "## Overview").unwrap();
    assert!(state.ai_loading());
    let signed_in = background_result(
        &mut state,
        BackgroundResult::CommitMessageGenerated(
            id,
            Ok(GeneratedCommitMessage {
                subject: "Add x".to_string(),
                body: Some("Because.".to_string()),
            }),
        ),
    );
    assert!(!signed_in);
    assert!(!state.ai_loading());
    assert_eq!(state.commit_message_input, "Add x\nBecause.");
}

#[test]
fn copilot_sign_in_flow() {
    let mut state = AppState::default();
    let cmd = dispatch(&mut state, AppAction::CopilotLogin).unwrap();
    let id = match cmd {
        Command::StartCopilotLogin(id) => id,
        _ => panic!("expected the sign-in to start"),
    };
    assert!(state.is_job_running(JobKind::CopilotLogin));
    background_result(
        &mut state,
        BackgroundResult::DeviceCodeReceived(
            id,
            Ok(DeviceCodeInfo {
                user_code: "ABCD-1234".to_string(),
                verification_uri: "https://example.test/device".to_string(),
            }),
        ),
    );
    assert_eq!(state.modal, Modal::CopilotLogin);
    assert!(state.is_job_running(JobKind::CopilotLogin));
    let signed_in = background_result(&mut state, BackgroundResult::LoginCompleted(id, Ok(())));
    assert!(signed_in);
    assert_eq!(state.modal, Modal::Closed);
    assert!(state.device_code.is_none());
    assert!(!state.has_active_jobs());
    assert_eq!(info_text(&state), "Logged in to GitHub Copilot");
    background_result(
        &mut state,
        BackgroundResult::LoginCompleted(id, Err("denied".to_string())),
    );
    assert_eq!(error_text(&state), "Copilot login failed: denied");
}

#[test]
fn diff_follows_the_selected_file() {
    let mut state = loaded_state();
    let t = diff_target(&mut state).expect("a file is selected");
    assert_eq!(t.repo_path, "/tmp/demo");
    assert_eq!(t.file_path, "staged.rs");
    diff_loaded(&mut state, Ok("+x".to_string()));
    assert_eq!(state.diff_content, Some("+x".to_string()));
    diff_loaded(&mut state, Ok(String::new()));
    assert_eq!(state.diff_content, None);
    let mut empty = AppState::default();
    empty.diff_content = Some("old".to_string());
    assert!(diff_target(&mut empty).is_none());
    assert_eq!(empty.diff_content, None);
}

#[test]
fn auto_refresh_is_due_after_its_interval() {
    let mut settings = AutoRefreshSettings::default();
    settings.fetch_enabled = true;
    settings.fetch_interval_secs = 30;
    let due = refreshes_due(&settings, 29_999, 0, 0, 0);
    assert!(!due.fetch);
    let due = refreshes_due(&settings, 30_000, 999_999, 0, 0);
    assert!(due.fetch);
    assert!(!due.status); // disabled
    let mut state = AppState::default();
    state.spinner_tick = 255;
    tick_spinner(&mut state);
    assert_eq!(state.spinner_tick, 0);
}

#[test]
fn remaining_failure_messages() {
    let mut state = loaded_state();
    state.selected_pr = 5;
    let r = dispatch(&mut state, AppAction::OpenPrInBrowser);
    assert_eq!(r.err(), Some("no PR selected".to_string()));
    state.selected_pr = 0;

    state.modal = Modal::CreateRepo(CreateRepoStep::Confirm);
    let r = dispatch(&mut state, AppAction::ConfirmModal);
    assert_eq!(r.err(), Some("no create repo state".to_string()));
    state.modal = Modal::Closed;

    create_repo_dialog_opened(&mut state);
    dispatch(&mut state, AppAction::InsertChar('o')).unwrap();
    dispatch(&mut state, AppAction::CreateRepoNextStep).unwrap();
    for _ in 0..4 {
        dispatch(&mut state, AppAction::Backspace).unwrap();
    }
    assert_eq!(state.create_repo_state.as_ref().unwrap().repo_name_input, "");
    let r = dispatch(&mut state, AppAction::CreateRepoNextStep);
    assert_eq!(r.err(), Some("repository name cannot be empty".to_string()));
    dispatch(&mut state, AppAction::CreateRepoPrevStep).unwrap();
    dispatch(&mut state, AppAction::CreateRepoPrevStep).unwrap();
    assert_eq!(state.modal, Modal::Closed);
    assert!(state.create_repo_state.is_none());

    let err = amend_message_loaded(&mut state, String::new()).unwrap_err();
    assert_eq!(err, "no previous commit to amend");
    let err = commit_context_ready(&mut state, " \n").unwrap_err();
    assert_eq!(err, "no staged changes to generate a message for");

    let mut empty_repo = repo_state("bare");
    empty_repo.branches.clear();
    let mut bare = AppState::default();
    bare.set_repositories(vec![empty_repo], None);
    let r = dispatch(&mut bare, AppAction::MergeBranch);
    assert_eq!(r.err(), Some("no branch selected".to_string()));
}

#[test]
fn diff_shown_after_an_action_is_never_empty_text() {
    let mut state = loaded_state();
    state.diff_content = Some("old".to_string());
    dispatch(&mut state, AppAction::ScrollDiffDown).expect("scrolling succeeds");
    assert_eq!(state.diff_scroll, 5);
    if diff_target(&mut state).is_some() {
        diff_loaded(&mut state, Ok(String::new()));
    }
    assert_eq!(state.diff_content, None);
    assert_eq!(state.diff_scroll, 5);
    if diff_target(&mut state).is_some() {
        diff_loaded(&mut state, Err("git failed".to_string()));
    }
    assert_eq!(state.diff_content, None);
}
