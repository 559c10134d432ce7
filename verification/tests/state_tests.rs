use git_pilot::commit::LogEntry;
use git_pilot::domain::{RepositoryId, RepositorySummary};
use git_pilot::jobs::JobKind;
use git_pilot::state::{AppState, Modal, RepositoryState, View};
use git_pilot::status::{ChangedFile, FileSection};

fn repo_state(name: &str) -> RepositoryState {
    let path = format!("/tmp/{name}");
    RepositoryState {
        summary: RepositorySummary {
            id: RepositoryId(path.clone()),
            name: name.to_string(),
            path: path.clone(),
            relative_path: name.to_string(),
        },
        current_branch: Some("main".to_string()),
        branches: vec!["main".to_string()],
        status_files: Vec::new(),
        log_entries: Vec::new(),
        remotes: Vec::new(),
        pull_requests: Vec::new(),
        has_origin_remote: false,
        load_error: None,
    }
}

fn file(path: &str, staged: bool, unstaged: bool, untracked: bool) -> ChangedFile {
    ChangedFile {
        path: path.to_string(),
        staged,
        unstaged,
        untracked,
        status_code: "M ".to_string(),
    }
}

fn log_at(timestamp: i64) -> LogEntry {
    LogEntry {
        hash: "abc".to_string(),
        subject: "s".to_string(),
        author: "a".to_string(),
        date: "d".to_string(),
        full_message: "s".to_string(),
        timestamp,
    }
}

#[test]
fn preserves_selected_repo_when_repository_list_refreshes() {
    let first = repo_state("alpha");
    let second = repo_state("beta");
    let mut state = AppState::default();
    state.set_repositories(vec![first.clone(), second.clone()], None);
    state.selected_repo = 1;

    state.set_repositories(
        vec![first, second.clone()],
        Some(second.summary.path.clone()),
    );

    assert_eq!(state.selected_repo, 1);
}

#[test]
fn repositories_are_listed_newest_commit_first() {
    let mut old = repo_state("old");
    old.log_entries = vec![log_at(100)];
    let mut new = repo_state("new");
    new.log_entries = vec![log_at(200), log_at(50)];
    let mut state = AppState::default();
    state.set_repositories(vec![old, new], None);
    assert_eq!(state.repos[0].summary.name, "new");
    assert_eq!(state.repos[1].summary.name, "old");
    assert_eq!(state.repos[0].latest_commit_timestamp(), 200);
}

#[test]
fn next_then_previous_repo_returns_to_the_same_repo() {
    let mut state = AppState::default();
    state.set_repositories(vec![repo_state("a"), repo_state("b"), repo_state("c")], None);
    state.select_next_repo();
    state.select_next_repo();
    state.select_next_repo();
    assert_eq!(state.selected_repo, 0); // wraps
    state.select_previous_repo();
    assert_eq!(state.selected_repo, 2);
    state.select_next_repo();
    assert_eq!(state.selected_repo, 0);
}

#[test]
fn file_list_groups_staged_unstaged_untracked() {
    let mut repo = repo_state("r");
    repo.status_files = vec![
        file("a.rs", false, true, false),
        file("b.rs", true, false, false),
        file("c.rs", false, true, true),
        file("d.rs", true, true, false),
    ];
    let mut state = AppState::default();
    state.set_repositories(vec![repo], None);
    assert_eq!(state.grouped_files.section_count(FileSection::Staged), 2);
    assert_eq!(state.grouped_files.section_count(FileSection::Unstaged), 2);
    assert_eq!(state.grouped_files.section_count(FileSection::Untracked), 1);
    assert_eq!(state.selected_file_section(), Some(FileSection::Staged));
    assert_eq!(state.selected_file_path(), Some("b.rs".to_string()));
    state.select_previous_file();
    assert_eq!(state.selected_file_section(), Some(FileSection::Untracked));
    assert_eq!(state.selected_file_path(), Some("c.rs".to_string()));
}

#[test]
fn views_cycle_in_tab_order() {
    let mut state = AppState::default();
    assert_eq!(state.active_view, View::Changes);
    state.diff_scroll = 7;
    state.next_view();
    assert_eq!(state.active_view, View::Branches);
    assert_eq!(state.diff_scroll, 0);
    state.previous_view();
    state.previous_view();
    assert_eq!(state.active_view, View::Settings);
    state.switch_view(View::Settings);
    assert_eq!(state.active_view, View::Settings);
    assert_eq!(View::from_index(3), View::Pr);
    assert_eq!(View::Pr.index(), 3);
    assert_eq!(View::Commits.label(), "Commits");
}

#[test]
fn branch_switcher_filters_and_selects_current_branch() {
    let mut repo = repo_state("r");
    repo.branches = vec!["develop".to_string(), "feature/Login".to_string(), "main".to_string()];
    repo.current_branch = Some("main".to_string());
    let mut state = AppState::default();
    state.set_repositories(vec![repo], None);
    state.open_branch_switch();
    assert_eq!(state.modal, Modal::BranchSwitch);
    assert_eq!(state.filtered_branches, vec![0, 1, 2]);
    assert_eq!(state.selected_branch, 2);
    assert_eq!(state.selected_branch_name(), Some("main".to_string()));
    state.branch_filter = "LOG".to_string();
    state.recompute_branch_filter();
    assert_eq!(state.filtered_branches, vec![1]);
    assert_eq!(state.selected_branch, 0);
    assert_eq!(state.selected_branch_name(), Some("feature/Login".to_string()));
    state.close_modal();
    assert_eq!(state.modal, Modal::Closed);
    assert_eq!(state.filtered_branches, vec![0, 1, 2]);
}

#[test]
fn jobs_are_tracked_until_finished() {
    let mut state = AppState::default();
    assert!(!state.has_active_jobs());
    let a = state.start_job(JobKind::AiCommitMessage);
    let b = state.start_job(JobKind::Fetch);
    assert_ne!(a, b);
    assert!(state.ai_loading());
    assert!(!state.ai_branch_loading());
    assert!(state.is_job_running(JobKind::Fetch));
    state.finish_job(a);
    assert!(!state.ai_loading());
    assert!(state.has_active_jobs());
    state.finish_job(b);
    assert!(!state.has_active_jobs());
    assert_eq!(JobKind::Fetch.label(), "Fetching");
}

#[test]
fn messages_and_spinner() {
    let mut state = AppState::default();
    state.set_info("done".to_string());
    assert_eq!(state.message.as_ref().unwrap().text, "done");
    state.set_error("bad".to_string());
    assert_eq!(state.message.as_ref().unwrap().text, "bad");
    assert_eq!(state.spinner_char(), '⠋');
    state.spinner_tick = 13;
    assert_eq!(state.spinner_char(), '⠸');
}

#[test]
fn repository_state_from_error_keeps_summary() {
    let summary = repo_state("x").summary;
    let r = RepositoryState::from_error(summary, "boom".to_string());
    assert_eq!(r.load_error, Some("boom".to_string()));
    assert!(r.branches.is_empty());
    assert!(!r.has_origin_remote);
    assert_eq!(r.latest_commit_timestamp(), 0);
}

#[test]
fn selections_stay_inside_their_lists_after_a_reload() {
    let mut repo = repo_state("r");
    repo.status_files = vec![
        file("a.rs", false, true, false),
        file("b.rs", false, true, false),
        file("c.rs", false, true, false),
    ];
    let mut state = AppState::default();
    state.set_repositories(vec![repo], None);
    state.select_previous_file();
    assert_eq!(state.selected_file, 2);
    let mut smaller = repo_state("r");
    smaller.status_files = vec![file("a.rs", false, true, false)];
    state.replace_selected_repository(smaller);
    assert_eq!(state.selected_file, 0);
    assert_eq!(state.grouped_files.entries.len(), 1);
}

#[test]
fn equal_repositories_keep_their_order() {
    let mut state = AppState::default();
    state.set_repositories(vec![repo_state("b"), repo_state("a"), repo_state("c")], None);
    let names: Vec<&str> = state.repos.iter().map(|r| r.summary.name.as_str()).collect();
    assert_eq!(names, vec!["b", "a", "c"]);
}

#[test]
fn starting_then_finishing_a_job_restores_the_running_jobs() {
    let mut state = AppState::default();
    state.start_job(JobKind::Fetch);
    state.start_job(JobKind::Push);
    let before: Vec<_> = state.active_jobs.iter().map(|j| (j.id, j.kind)).collect();
    let next_before = state.next_job_id;
    let id = state.start_job(JobKind::AiCommitMessage);
    assert_eq!(id, next_before);
    state.finish_job(id);
    let after: Vec<_> = state.active_jobs.iter().map(|j| (j.id, j.kind)).collect();
    assert_eq!(after, before);
    assert!(!state.is_job_running(JobKind::AiCommitMessage));
    assert!(state.has_active_jobs());
}

#[test]
fn default_state_starts_empty() {
    let state = AppState::default();
    assert_eq!(state.diff_content, None);
    assert_eq!(state.diff_scroll, 0);
    assert!(state.branch_name_input.is_empty());
    assert!(state.commit_message_input.is_empty());
    assert!(state.branch_filter.is_empty());
    assert!(!state.amend_mode);
    assert!(state.create_repo_state.is_none());
    assert!(state.device_code.is_none());
    assert!(!state.copilot_authenticated);
    assert_eq!(state.selected_settings_item, 0);
    assert_eq!(state.settings.commit.subject_max_length, 72);
    assert_eq!(state.settings.ui.default_view, "changes");
}

#[test]
fn job_ids_are_never_handed_out_twice() {
    let mut state = AppState::default();
    let mut seen = Vec::new();
    for round in 0..6 {
        let id = state.start_job(JobKind::Fetch);
        assert!(!seen.contains(&id));
        seen.push(id);
        if round % 2 == 0 {
            state.finish_job(id);
        }
        state.select_next_repo();
    }
}
