use git_pilot::actions::AppAction;
use git_pilot::domain::{RepositoryId, RepositorySummary};
use git_pilot::mouse::{map_mouse_event, MouseInput, MouseKind, Rect, ScreenAreas};
use git_pilot::state::{AppState, Modal, RepositoryState, View};
use git_pilot::status::ChangedFile;

fn rect(x: u16, y: u16, width: u16, height: u16) -> Rect {
    Rect { x, y, width, height }
}

// An 80x24 screen: tabs on rows 1 and 2, the view from row 4 to 20, its
// list on the left and its detail on the right.
fn screen() -> ScreenAreas {
    ScreenAreas {
        header_row1: rect(1, 1, 78, 1),
        header_row2: rect(1, 2, 78, 1),
        view_area: rect(1, 4, 78, 16),
        changes_list: rect(1, 4, 31, 16),
        changes_detail: rect(33, 4, 46, 16),
        pr_list: rect(1, 4, 31, 16),
        pr_detail: rect(33, 4, 46, 16),
    }
}

fn click(column: u16, row: u16) -> MouseInput {
    MouseInput { kind: MouseKind::LeftDown, column, row }
}

fn repo(name: &str, files: Vec<ChangedFile>) -> RepositoryState {
    RepositoryState {
        summary: RepositorySummary {
            id: RepositoryId(format!("/r/{name}")),
            name: name.to_string(),
            path: format!("/r/{name}"),
            relative_path: name.to_string(),
        },
        current_branch: None,
        branches: Vec::new(),
        status_files: files,
        log_entries: Vec::new(),
        remotes: Vec::new(),
        pull_requests: Vec::new(),
        has_origin_remote: false,
        load_error: None,
    }
}

fn changed(path: &str, staged: bool) -> ChangedFile {
    ChangedFile {
        path: path.to_string(),
        staged,
        unstaged: !staged,
        untracked: false,
        status_code: "M ".to_string(),
    }
}

#[test]
fn click_on_view_tab_switches_view() {
    let state = AppState::default();
    let s = screen();
    // " Changes " = 9 columns, " │ " = 3 columns, then " PR " starts
    let pr_x = s.header_row2.x + 9 + 3;
    let action = map_mouse_event(click(pr_x + 1, s.header_row2.y), &s, &state);
    assert_eq!(action, AppAction::SwitchView(View::Pr));
    let back = map_mouse_event(click(s.header_row2.x, s.header_row2.y), &s, &state);
    assert_eq!(back, AppAction::SwitchView(View::Changes));
}

#[test]
fn click_outside_tabs_is_noop() {
    let state = AppState::default();
    let action = map_mouse_event(click(79, 3), &screen(), &state);
    assert_eq!(action, AppAction::Noop);
    let between = map_mouse_event(click(11, 2), &screen(), &state);
    assert_eq!(between, AppAction::Noop);
}

#[test]
fn scroll_in_view_area_navigates() {
    let state = AppState::default();
    let scroll = MouseInput { kind: MouseKind::ScrollDown, column: 10, row: 10 };
    let action = map_mouse_event(scroll, &screen(), &state);
    // Default view is Changes, left panel: next file
    assert_eq!(action, AppAction::SelectNextFile);
    let up_right = MouseInput { kind: MouseKind::ScrollUp, column: 50, row: 10 };
    assert_eq!(map_mouse_event(up_right, &screen(), &state), AppAction::ScrollDiffUp);
}

#[test]
fn repository_tabs_are_hit_by_width() {
    let mut state = AppState::default();
    state.set_repositories(vec![repo("ab", vec![]), repo("cde", vec![])], None);
    let s = screen();
    // " ab " covers columns 1..5, two columns gap, " cde " covers 7..12
    assert_eq!(map_mouse_event(click(4, 1), &s, &state), AppAction::SelectRepo(0));
    assert_eq!(map_mouse_event(click(5, 1), &s, &state), AppAction::Noop);
    assert_eq!(map_mouse_event(click(7, 1), &s, &state), AppAction::SelectRepo(1));
    assert_eq!(map_mouse_event(click(12, 1), &s, &state), AppAction::Noop);
}

#[test]
fn file_rows_skip_section_headers() {
    let mut state = AppState::default();
    state.set_repositories(
        vec![repo("r", vec![changed("a", true), changed("b", false), changed("c", true)])],
        None,
    );
    let s = screen();
    // row 5: inside the border; row 5 = "Staged" header, 6 = a, 7 = c, 8 = "Unstaged", 9 = b
    assert_eq!(map_mouse_event(click(3, 5), &s, &state), AppAction::Noop);
    assert_eq!(map_mouse_event(click(3, 6), &s, &state), AppAction::SelectFile(0));
    assert_eq!(map_mouse_event(click(3, 7), &s, &state), AppAction::SelectFile(1));
    assert_eq!(map_mouse_event(click(3, 8), &s, &state), AppAction::Noop);
    assert_eq!(map_mouse_event(click(3, 9), &s, &state), AppAction::SelectFile(2));
    assert_eq!(map_mouse_event(click(3, 10), &s, &state), AppAction::Noop);
}

#[test]
fn dialogs_ignore_the_mouse() {
    let mut state = AppState::default();
    state.modal = Modal::Commit;
    let scroll = MouseInput { kind: MouseKind::ScrollDown, column: 10, row: 10 };
    assert_eq!(map_mouse_event(scroll, &screen(), &state), AppAction::Noop);
}
