use git_pilot::actions::{map_key_event, AppAction, KeyCode, KeyEvent, KeyModifiers};
use git_pilot::state::{Modal, View};

#[test]
fn maps_stage_all_in_normal_mode() {
    let action = map_key_event(
        &View::Changes,
        &Modal::Closed,
        KeyEvent::new(KeyCode::Char('S'), KeyModifiers::shift()),
    );

    assert_eq!(action, AppAction::StageAll);
}

#[test]
fn maps_commit_newline_shortcut() {
    let action = map_key_event(
        &View::Changes,
        &Modal::Commit,
        KeyEvent::new(KeyCode::Char('n'), KeyModifiers::control()),
    );

    assert_eq!(action, AppAction::InsertNewline);
}

#[test]
fn maps_tab_to_next_view() {
    let action = map_key_event(
        &View::Changes,
        &Modal::Closed,
        KeyEvent::new(KeyCode::Tab, KeyModifiers::none()),
    );

    assert_eq!(action, AppAction::NextView);
}

#[test]
fn maps_space_to_toggle_stage() {
    let action = map_key_event(
        &View::Changes,
        &Modal::Closed,
        KeyEvent::new(KeyCode::Char(' '), KeyModifiers::none()),
    );

    assert_eq!(action, AppAction::ToggleStage);
}

#[test]
fn maps_branches_view_delete() {
    let action = map_key_event(
        &View::Branches,
        &Modal::Closed,
        KeyEvent::new(KeyCode::Char('d'), KeyModifiers::none()),
    );

    assert_eq!(action, AppAction::DeleteBranch);
}

#[test]
fn maps_number_key_to_switch_view() {
    let action = map_key_event(
        &View::Changes,
        &Modal::Closed,
        KeyEvent::new(KeyCode::Char('2'), KeyModifiers::none()),
    );

    assert_eq!(action, AppAction::SwitchView(View::Branches));
}

#[test]
fn open_dialog_captures_letters() {
    let action = map_key_event(
        &View::Changes,
        &Modal::Commit,
        KeyEvent::new(KeyCode::Char('q'), KeyModifiers::none()),
    );
    assert_eq!(action, AppAction::InsertChar('q'));
    let quit = map_key_event(
        &View::Changes,
        &Modal::Closed,
        KeyEvent::new(KeyCode::Char('q'), KeyModifiers::none()),
    );
    assert_eq!(quit, AppAction::Quit);
}

#[test]
fn escape_closes_dialogs() {
    let action = map_key_event(
        &View::Changes,
        &Modal::BranchCreate,
        KeyEvent::new(KeyCode::Esc, KeyModifiers::none()),
    );
    assert_eq!(action, AppAction::CloseModal);
}
