use git_pilot::jobs::JobKind;
use git_pilot::presentation::{
    settings_detail, settings_visual_row, split_subject_body, status_summary, tracking_text, DetailValue,
    SettingsItem, ShortcutEntry, StatusSummary, SETTINGS_ITEM_COUNT,
};
use git_pilot::domain::{RepositoryId, RepositorySummary, TrackingStatus};
use git_pilot::state::{AppState, RepositoryState};

#[test]
fn settings_entries_show_their_values() {
    let mut state = AppState::default();
    assert_eq!(SettingsItem::FetchEnabled.label(&state), "Fetch: OFF");
    assert_eq!(SettingsItem::FetchInterval.label(&state), "Fetch interval: 300s");
    assert_eq!(SettingsItem::SubjectMaxLength.label(&state), "Subject max length: 72");
    assert_eq!(SettingsItem::DefaultView.label(&state), "Default view: changes");
    state.settings.auto_refresh.prs_enabled = true;
    assert_eq!(SettingsItem::PrsEnabled.label(&state), "PRs: ON");
    assert_eq!(SettingsItem::AiPrTitleInstructions.label(&state), "PR title instructions");
    assert_eq!(SettingsItem::DraftByDefault.section(), "Pull Requests");
    assert_eq!(SettingsItem::from_index(14), SettingsItem::DefaultView);
    assert_eq!(SettingsItem::from_index(99), SettingsItem::FetchEnabled);
    assert_eq!(SETTINGS_ITEM_COUNT, 15);
}

#[test]
fn settings_rows_count_group_headers() {
    assert_eq!(settings_visual_row(0), 1);
    assert_eq!(settings_visual_row(7), 8);
    // blank row and "AI Instructions" header before it
    assert_eq!(settings_visual_row(8), 11);
    assert_eq!(settings_visual_row(14), 23);
    assert_eq!(settings_visual_row(15), 0);
}

#[test]
fn commit_editor_splits_at_first_line_break() {
    assert_eq!(split_subject_body("a\nb\nc"), ("a".to_string(), Some("b\nc".to_string())));
    assert_eq!(split_subject_body("only"), ("only".to_string(), None));
    assert_eq!(split_subject_body("x\n"), ("x".to_string(), Some(String::new())));
}

#[test]
fn footer_summary() {
    let mut state = AppState::default();
    assert!(matches!(status_summary(&state), StatusSummary::NoRepository));
    let repo = RepositoryState {
        summary: RepositorySummary {
            id: RepositoryId("/p".to_string()),
            name: "p".to_string(),
            path: "/p".to_string(),
            relative_path: ".".to_string(),
        },
        current_branch: None,
        branches: Vec::new(),
        status_files: Vec::new(),
        log_entries: Vec::new(),
        remotes: Vec::new(),
        pull_requests: Vec::new(),
        has_origin_remote: false,
        load_error: None,
    };
    state.set_repositories(vec![repo], None);
    match status_summary(&state) {
        StatusSummary::Idle { branch, staged, unstaged, prs } => {
            assert_eq!(branch, "(detached)");
            assert_eq!((staged, unstaged, prs), (0, 0, 0));
        }
        _ => panic!("expected an idle summary"),
    }
    state.start_job(JobKind::Fetch);
    state.start_job(JobKind::Push);
    match status_summary(&state) {
        StatusSummary::Busy { spinner, labels } => {
            assert_eq!(spinner, '⠋');
            assert_eq!(labels, "Fetching, Pushing");
        }
        _ => panic!("expected a busy summary"),
    }
    let e = ShortcutEntry { keys: "q", description: "quit the TUI" };
    assert_eq!(e.keys, "q");
}

#[test]
fn settings_detail_describes_the_selected_entry() {
    let mut state = AppState::default();
    state.selected_settings_item = 1;
    let detail = settings_detail(&state);
    assert_eq!(detail.title, "Fetch Interval");
    assert_eq!(detail.description, "How often to automatically fetch (in seconds).");
    match detail.value {
        DetailValue::Number { value, suffix, range, step } => {
            assert_eq!(value, 300);
            assert_eq!(suffix, "s");
            assert_eq!(range, "30s - 600s");
            assert_eq!(step, "30s");
        }
        other => panic!("unexpected value {other:?}"),
    }

    state.selected_settings_item = 12;
    state.settings.pull_requests.draft_by_default = true;
    let detail = settings_detail(&state);
    assert_eq!(detail.title, "Draft by Default");
    assert!(matches!(detail.value, DetailValue::Toggle(true)));

    state.selected_settings_item = 9;
    state.settings.ai.commit_message_instructions = Some(String::new());
    assert!(matches!(settings_detail(&state).value, DetailValue::Instructions(None)));
    state.settings.ai.commit_message_instructions = Some("Use imperative mood".to_string());
    match settings_detail(&state).value {
        DetailValue::Instructions(Some(text)) => assert_eq!(text, "Use imperative mood"),
        other => panic!("unexpected value {other:?}"),
    }

    state.selected_settings_item = 13;
    match settings_detail(&state).value {
        DetailValue::Number { value, suffix, range, step } => {
            assert_eq!((value, suffix, range, step), (72, "", "50 - 120", "1"));
        }
        other => panic!("unexpected value {other:?}"),
    }

    state.selected_settings_item = 14;
    match settings_detail(&state).value {
        DetailValue::ViewName(name) => assert_eq!(name, "changes"),
        other => panic!("unexpected value {other:?}"),
    }

    state.selected_settings_item = 40;
    assert_eq!(settings_detail(&state).title, "Auto-fetch");
}

#[test]
fn tracking_text_counts_commits_ahead_and_behind() {
    let t = |ahead, behind| TrackingStatus { ahead, behind, remote_name: None };
    assert_eq!(tracking_text(&t(0, 0)), "Up to date with remote");
    assert_eq!(tracking_text(&t(3, 0)), "3  ahead");
    assert_eq!(tracking_text(&t(0, 12)), "12  behind");
    assert_eq!(tracking_text(&t(3, 12)), "3  ahead, 12  behind");
}
