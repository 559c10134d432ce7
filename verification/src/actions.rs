//! Key events and the actions they stand for, depending on the view and on
//! the open dialog.
use vstd::prelude::*;

use crate::state::{CreateRepoStep, Modal, View};

verus! {

/// A key of the keyboard.
#[derive(Clone, Copy, Debug, PartialEq, Eq, Structural)]
pub enum KeyCode {
    Char(char),
    Enter,
    Esc,
    Backspace,
    Tab,
    BackTab,
    Left,
    Right,
    Up,
    Down,
    PageUp,
    PageDown,
    /// Any other key.
    Other,
}

/// The modifier keys held with a key.
#[derive(Clone, Copy, Debug, PartialEq, Eq, Structural)]
pub struct KeyModifiers {
    pub shift: bool,
    pub control: bool,
    pub alt: bool,
}

impl KeyModifiers {
    /// No modifier.
    pub fn none() -> (r: KeyModifiers)
        ensures
            r == (KeyModifiers { shift: false, control: false, alt: false }),
    {
        KeyModifiers { shift: false, control: false, alt: false }
    }

    /// Control alone.
    pub fn control() -> (r: KeyModifiers)
        ensures
            r == (KeyModifiers { shift: false, control: true, alt: false }),
    {
        KeyModifiers { shift: false, control: true, alt: false }
    }

    /// Shift alone.
    pub fn shift() -> (r: KeyModifiers)
        ensures
            r == (KeyModifiers { shift: true, control: false, alt: false }),
    {
        KeyModifiers { shift: true, control: false, alt: false }
    }

    /// Alt alone.
    pub fn alt() -> (r: KeyModifiers)
        ensures
            r == (KeyModifiers { shift: false, control: false, alt: true }),
    {
        KeyModifiers { shift: false, control: false, alt: true }
    }
}

/// A key press.
#[derive(Clone, Copy, Debug, PartialEq, Eq, Structural)]
pub struct KeyEvent {
    pub code: KeyCode,
    pub modifiers: KeyModifiers,
}

impl KeyEvent {
    /// A key press with the given modifiers.
    pub fn new(code: KeyCode, modifiers: KeyModifiers) -> (r: KeyEvent)
        ensures
            r == (KeyEvent { code, modifiers }),
    {
        KeyEvent { code, modifiers }
    }
}

/// What the user asked for.
#[derive(Clone, Copy, Debug, PartialEq, Eq, Structural)]
pub enum AppAction {
    Noop,
    Quit,
    RefreshRepos,
    SelectNextRepo,
    SelectPreviousRepo,
    SelectRepo(usize),
    SelectNextFile,
    SelectPreviousFile,
    SelectFile(usize),
    SelectNextBranch,
    SelectPreviousBranch,
    SelectNextLogEntry,
    SelectPreviousLogEntry,
    SelectNextRemote,
    SelectPreviousRemote,
    SelectNextPr,
    SelectPreviousPr,
    SelectPr(usize),
    ScrollLogDown,
    ScrollLogUp,
    ScrollPrDetailDown,
    ScrollPrDetailUp,
    StageSelected,
    UnstageSelected,
    StageAll,
    UnstageAll,
    ToggleStage,
    OpenBranchSwitch,
    OpenBranchCreate,
    OpenCommitPanel,
    OpenCommitAmend,
    OpenCreateRepo,
    OpenPrInBrowser,
    RefreshPrs,
    ConfirmModal,
    CloseModal,
    ToggleHelp,
    InsertChar(char),
    Backspace,
    InsertNewline,
    ScrollDiffDown,
    ScrollDiffUp,
    SwitchView(View),
    NextView,
    PreviousView,
    DeleteBranch,
    MergeBranch,
    GenerateCommitMessage,
    CopilotLogin,
    ToggleVisibility,
    CreateRepoNextStep,
    CreateRepoPrevStep,
}

// ───────────────────────── the key map ─────────────────────────

/// Control held alone.
pub open spec fn control_only(m: KeyModifiers) -> bool {
    m == (KeyModifiers { shift: false, control: true, alt: false })
}

/// Keys that act in every view when no dialog is open: `q` quit, `?` help,
/// `r` refresh, Left/`h` and Right/`l` repository, Tab/BackTab view,
/// `1`..`4` jump to a view, `,` settings, Alt+`1`..`9` jump to a repository.
pub open spec fn global_action(k: KeyEvent) -> Option<AppAction> {
    match k.code {
        KeyCode::Char(c) => if k.modifiers.alt && '1' <= c && c <= '9' {
            Some(AppAction::SelectRepo(((c as u32) - ('1' as u32)) as usize))
        } else if c == 'q' {
            Some(AppAction::Quit)
        } else if c == '?' {
            Some(AppAction::ToggleHelp)
        } else if c == 'r' {
            Some(AppAction::RefreshRepos)
        } else if c == 'h' {
            Some(AppAction::SelectPreviousRepo)
        } else if c == 'l' {
            Some(AppAction::SelectNextRepo)
        } else if c == '1' {
            Some(AppAction::SwitchView(View::Changes))
        } else if c == '2' {
            Some(AppAction::SwitchView(View::Branches))
        } else if c == '3' {
            Some(AppAction::SwitchView(View::Commits))
        } else if c == '4' {
            Some(AppAction::SwitchView(View::Settings))
        } else if c == ',' {
            Some(AppAction::SwitchView(View::Settings))
        } else {
            None
        },
        KeyCode::Left => Some(AppAction::SelectPreviousRepo),
        KeyCode::Right => Some(AppAction::SelectNextRepo),
        KeyCode::Tab => Some(AppAction::NextView),
        KeyCode::BackTab => Some(AppAction::PreviousView),
        _ => None,
    }
}

/// Keys of the Changes view.
pub open spec fn changes_action(k: KeyEvent) -> AppAction {
    if k.modifiers.control {
        match k.code {
            KeyCode::Char('d') => AppAction::ScrollDiffDown,
            KeyCode::Char('u') => AppAction::ScrollDiffUp,
            _ => AppAction::Noop,
        }
    } else {
        match k.code {
            KeyCode::Down | KeyCode::Char('j') => AppAction::SelectNextFile,
            KeyCode::Up | KeyCode::Char('k') => AppAction::SelectPreviousFile,
            KeyCode::Char(' ') => AppAction::ToggleStage,
            KeyCode::Char('s') => AppAction::StageSelected,
            KeyCode::Char('u') => AppAction::UnstageSelected,
            KeyCode::Char('S') => AppAction::StageAll,
            KeyCode::Char('U') => AppAction::UnstageAll,
            KeyCode::Char('c') => AppAction::OpenCommitPanel,
            KeyCode::Char('a') => AppAction::OpenCommitAmend,
            KeyCode::Char('b') => AppAction::OpenBranchSwitch,
            KeyCode::Char('n') => AppAction::OpenBranchCreate,
            KeyCode::Char('L') => AppAction::SwitchView(View::Commits),
            KeyCode::Char('R') => AppAction::OpenCreateRepo,
            KeyCode::PageDown => AppAction::ScrollDiffDown,
            KeyCode::PageUp => AppAction::ScrollDiffUp,
            _ => AppAction::Noop,
        }
    }
}

/// Keys of the Branches view.
pub open spec fn branches_action(k: KeyEvent) -> AppAction {
    match k.code {
        KeyCode::Down | KeyCode::Char('j') => AppAction::SelectNextBranch,
        KeyCode::Up | KeyCode::Char('k') => AppAction::SelectPreviousBranch,
        KeyCode::Enter => AppAction::ConfirmModal,
        KeyCode::Char('n') => AppAction::OpenBranchCreate,
        KeyCode::Char('d') => AppAction::DeleteBranch,
        KeyCode::Char('m') => AppAction::MergeBranch,
        KeyCode::Char('R') => AppAction::OpenCreateRepo,
        _ => AppAction::Noop,
    }
}

/// Keys of the commit log view.
pub open spec fn log_action(k: KeyEvent) -> AppAction {
    if k.modifiers.control {
        match k.code {
            KeyCode::Char('d') => AppAction::ScrollLogDown,
            KeyCode::Char('u') => AppAction::ScrollLogUp,
            _ => AppAction::Noop,
        }
    } else {
        match k.code {
            KeyCode::Down | KeyCode::Char('j') => AppAction::SelectNextLogEntry,
            KeyCode::Up | KeyCode::Char('k') => AppAction::SelectPreviousLogEntry,
            KeyCode::PageDown => AppAction::ScrollLogDown,
            KeyCode::PageUp => AppAction::ScrollLogUp,
            _ => AppAction::Noop,
        }
    }
}

/// Keys of the pull request view.
pub open spec fn pr_action(k: KeyEvent) -> AppAction {
    if k.modifiers.control {
        match k.code {
            KeyCode::Char('d') => AppAction::ScrollPrDetailDown,
            KeyCode::Char('u') => AppAction::ScrollPrDetailUp,
            _ => AppAction::Noop,
        }
    } else {
        match k.code {
            KeyCode::Down | KeyCode::Char('j') => AppAction::SelectNextPr,
            KeyCode::Up | KeyCode::Char('k') => AppAction::SelectPreviousPr,
            KeyCode::Enter => AppAction::OpenPrInBrowser,
            KeyCode::PageDown => AppAction::ScrollPrDetailDown,
            KeyCode::PageUp => AppAction::ScrollPrDetailUp,
            _ => AppAction::Noop,
        }
    }
}

/// Keys of the remotes (settings) view.
pub open spec fn remotes_action(k: KeyEvent) -> AppAction {
    match k.code {
        KeyCode::Down | KeyCode::Char('j') => AppAction::SelectNextRemote,
        KeyCode::Up | KeyCode::Char('k') => AppAction::SelectPreviousRemote,
        KeyCode::Char('R') => AppAction::OpenCreateRepo,
        _ => AppAction::Noop,
    }
}

/// Keys of the "create GitHub repository" dialog at each step.
pub open spec fn create_repo_action(step: CreateRepoStep, k: KeyEvent) -> AppAction {
    match step {
        CreateRepoStep::Owner | CreateRepoStep::RepoName => match k.code {
            KeyCode::Esc => AppAction::CreateRepoPrevStep,
            KeyCode::Enter => AppAction::CreateRepoNextStep,
            KeyCode::Backspace => AppAction::Backspace,
            KeyCode::Char(ch) => if !k.modifiers.control {
                AppAction::InsertChar(ch)
            } else {
                AppAction::Noop
            },
            _ => AppAction::Noop,
        },
        CreateRepoStep::Visibility => match k.code {
            KeyCode::Esc => AppAction::CreateRepoPrevStep,
            KeyCode::Enter => AppAction::CreateRepoNextStep,
            KeyCode::Char(' ') | KeyCode::Char('j') | KeyCode::Char('k') => AppAction::ToggleVisibility,
            _ => AppAction::Noop,
        },
        CreateRepoStep::Confirm => match k.code {
            KeyCode::Esc => AppAction::CreateRepoPrevStep,
            KeyCode::Enter => AppAction::ConfirmModal,
            _ => AppAction::Noop,
        },
    }
}

/// Keys of the branch switcher.
pub open spec fn branch_switch_action(k: KeyEvent) -> AppAction {
    match k.code {
        KeyCode::Esc => AppAction::CloseModal,
        KeyCode::Enter => AppAction::ConfirmModal,
        KeyCode::Down | KeyCode::Char('j') => AppAction::SelectNextBranch,
        KeyCode::Up | KeyCode::Char('k') => AppAction::SelectPreviousBranch,
        _ => AppAction::Noop,
    }
}

/// Keys of the commit editor.
pub open spec fn commit_input_action(k: KeyEvent) -> AppAction {
    if control_only(k.modifiers) {
        match k.code {
            KeyCode::Char('n') => AppAction::InsertNewline,
            KeyCode::Char('g') => AppAction::GenerateCommitMessage,
            KeyCode::Char('l') => AppAction::CopilotLogin,
            _ => AppAction::Noop,
        }
    } else {
        match k.code {
            KeyCode::Esc => AppAction::CloseModal,
            KeyCode::Enter => AppAction::ConfirmModal,
            KeyCode::Backspace => AppAction::Backspace,
            KeyCode::Char(ch) => AppAction::InsertChar(ch),
            _ => AppAction::Noop,
        }
    }
}

/// Keys of a one-line text input (with Ctrl+n as newline when allowed).
pub open spec fn text_input_action(k: KeyEvent, allow_newline: bool) -> AppAction {
    if allow_newline && control_only(k.modifiers) && k.code == KeyCode::Char('n') {
        AppAction::InsertNewline
    } else {
        match k.code {
            KeyCode::Esc => AppAction::CloseModal,
            KeyCode::Enter => AppAction::ConfirmModal,
            KeyCode::Backspace => AppAction::Backspace,
            KeyCode::Char(ch) => if !k.modifiers.control {
                AppAction::InsertChar(ch)
            } else {
                AppAction::Noop
            },
            _ => AppAction::Noop,
        }
    }
}

/// Keys while a dialog is open.
pub open spec fn modal_action(m: Modal, k: KeyEvent) -> AppAction {
    match m {
        Modal::Closed => AppAction::Noop,
        Modal::BranchSwitch => branch_switch_action(k),
        Modal::BranchCreate => text_input_action(k, false),
        Modal::Commit => commit_input_action(k),
        Modal::CopilotLogin => if k.code == KeyCode::Esc {
            AppAction::CloseModal
        } else {
            AppAction::Noop
        },
        Modal::CreateRepo(step) => create_repo_action(step, k),
    }
}

/// The action a key stands for: the open dialog decides first, then the
/// global keys, then the active view.
pub open spec fn key_action(v: View, m: Modal, k: KeyEvent) -> AppAction {
    if m != Modal::Closed {
        modal_action(m, k)
    } else {
        match global_action(k) {
            Some(a) => a,
            None => match v {
                View::Changes => changes_action(k),
                View::Branches => branches_action(k),
                View::Commits => log_action(k),
                View::Pr => pr_action(k),
                View::Settings => remotes_action(k),
            },
        }
    }
}

// ───────────────────────── executable key map ─────────────────────────

/// The action a key stands for (`key_action`).
pub fn map_key_event(view: &View, modal: &Modal, key_event: KeyEvent) -> (r: AppAction)
    ensures
        r == key_action(*view, *modal, key_event),
{
    if *modal != Modal::Closed {
        return map_modal_key(modal, key_event);
    }
    match map_global_key(key_event) {
        Some(action) => action,
        None => match view {
            View::Changes => map_changes_key(key_event),
            View::Branches => map_branches_key(key_event),
            View::Commits => map_log_key(key_event),
            View::Pr => map_pr_key(key_event),
            View::Settings => map_remotes_key(key_event),
        },
    }
}

fn map_modal_key(modal: &Modal, key_event: KeyEvent) -> (r: AppAction)
    ensures
        r == modal_action(*modal, key_event),
{
    match modal {
        Modal::Closed => AppAction::Noop,
        Modal::BranchSwitch => map_branch_switch_key(key_event),
        Modal::BranchCreate => map_text_input_key(key_event, false),
        Modal::Commit => map_commit_input_key(key_event),
        Modal::CopilotLogin => match key_event.code {
            KeyCode::Esc => AppAction::CloseModal,
            _ => AppAction::Noop,
        },
        Modal::CreateRepo(step) => map_create_repo_key(step, key_event),
    }
}

fn map_global_key(key_event: KeyEvent) -> (r: Option<AppAction>)
    ensures
        r == global_action(key_event),
{
    match key_event.code {
        KeyCode::Char(c) => {
            if key_event.modifiers.alt && '1' <= c && c <= '9' {
                let index = (c as u32) - ('1' as u32);
                Some(AppAction::SelectRepo(index as usize))
            } else if c == 'q' {
                Some(AppAction::Quit)
            } else if c == '?' {
                Some(AppAction::ToggleHelp)
            } else if c == 'r' {
                Some(AppAction::RefreshRepos)
            } else if c == 'h' {
                Some(AppAction::SelectPreviousRepo)
            } else if c == 'l' {
                Some(AppAction::SelectNextRepo)
            } else if c == '1' {
                Some(AppAction::SwitchView(View::Changes))
            } else if c == '2' {
                Some(AppAction::SwitchView(View::Branches))
            } else if c == '3' {
                Some(AppAction::SwitchView(View::Commits))
            } else if c == '4' {
                Some(AppAction::SwitchView(View::Settings))
            } else if c == ',' {
                Some(AppAction::SwitchView(View::Settings))
            } else {
                None
            }
        },
        KeyCode::Left => Some(AppAction::SelectPreviousRepo),
        KeyCode::Right => Some(AppAction::SelectNextRepo),
        KeyCode::Tab => Some(AppAction::NextView),
        KeyCode::BackTab => Some(AppAction::PreviousView),
        _ => None,
    }
}

fn map_changes_key(key_event: KeyEvent) -> (r: AppAction)
    ensures
        r == changes_action(key_event),
{
    if key_event.modifiers.control {
        return match key_event.code {
            KeyCode::Char('d') => AppAction::ScrollDiffDown,
            KeyCode::Char('u') => AppAction::ScrollDiffUp,
            _ => AppAction::Noop,
        };
    }
    match key_event.code {
        KeyCode::Down | KeyCode::Char('j') => AppAction::SelectNextFile,
        KeyCode::Up | KeyCode::Char('k') => AppAction::SelectPreviousFile,
        KeyCode::Char(' ') => AppAction::ToggleStage,
        KeyCode::Char('s') => AppAction::StageSelected,
        KeyCode::Char('u') => AppAction::UnstageSelected,
        KeyCode::Char('S') => AppAction::StageAll,
        KeyCode::Char('U') => AppAction::UnstageAll,
        KeyCode::Char('c') => AppAction::OpenCommitPanel,
        KeyCode::Char('a') => AppAction::OpenCommitAmend,
        KeyCode::Char('b') => AppAction::OpenBranchSwitch,
        KeyCode::Char('n') => AppAction::OpenBranchCreate,
        KeyCode::Char('L') => AppAction::SwitchView(View::Commits),
        KeyCode::Char('R') => AppAction::OpenCreateRepo,
        KeyCode::PageDown => AppAction::ScrollDiffDown,
        KeyCode::PageUp => AppAction::ScrollDiffUp,
        _ => AppAction::Noop,
    }
}

fn map_branches_key(key_event: KeyEvent) -> (r: AppAction)
    ensures
        r == branches_action(key_event),
{
    match key_event.code {
        KeyCode::Down | KeyCode::Char('j') => AppAction::SelectNextBranch,
        KeyCode::Up | KeyCode::Char('k') => AppAction::SelectPreviousBranch,
        KeyCode::Enter => AppAction::ConfirmModal,
        KeyCode::Char('n') => AppAction::OpenBranchCreate,
        KeyCode::Char('d') => AppAction::DeleteBranch,
        KeyCode::Char('m') => AppAction::MergeBranch,
        KeyCode::Char('R') => AppAction::OpenCreateRepo,
        _ => AppAction::Noop,
    }
}

fn map_log_key(key_event: KeyEvent) -> (r: AppAction)
    ensures
        r == log_action(key_event),
{
    if key_event.modifiers.control {
        return match key_event.code {
            KeyCode::Char('d') => AppAction::ScrollLogDown,
            KeyCode::Char('u') => AppAction::ScrollLogUp,
            _ => AppAction::Noop,
        };
    }
    match key_event.code {
        KeyCode::Down | KeyCode::Char('j') => AppAction::SelectNextLogEntry,
        KeyCode::Up | KeyCode::Char('k') => AppAction::SelectPreviousLogEntry,
        KeyCode::PageDown => AppAction::ScrollLogDown,
        KeyCode::PageUp => AppAction::ScrollLogUp,
        _ => AppAction::Noop,
    }
}

fn map_pr_key(key_event: KeyEvent) -> (r: AppAction)
    ensures
        r == pr_action(key_event),
{
    if key_event.modifiers.control {
        return match key_event.code {
            KeyCode::Char('d') => AppAction::ScrollPrDetailDown,
            KeyCode::Char('u') => AppAction::ScrollPrDetailUp,
            _ => AppAction::Noop,
        };
    }
    match key_event.code {
        KeyCode::Down | KeyCode::Char('j') => AppAction::SelectNextPr,
        KeyCode::Up | KeyCode::Char('k') => AppAction::SelectPreviousPr,
        KeyCode::Enter => AppAction::OpenPrInBrowser,
        KeyCode::PageDown => AppAction::ScrollPrDetailDown,
        KeyCode::PageUp => AppAction::ScrollPrDetailUp,
        _ => AppAction::Noop,
    }
}

fn map_remotes_key(key_event: KeyEvent) -> (r: AppAction)
    ensures
        r == remotes_action(key_event),
{
    match key_event.code {
        KeyCode::Down | KeyCode::Char('j') => AppAction::SelectNextRemote,
        KeyCode::Up | KeyCode::Char('k') => AppAction::SelectPreviousRemote,
        KeyCode::Char('R') => AppAction::OpenCreateRepo,
        _ => AppAction::Noop,
    }
}

fn map_create_repo_key(step: &CreateRepoStep, key_event: KeyEvent) -> (r: AppAction)
    ensures
        r == create_repo_action(*step, key_event),
{
    match step {
        CreateRepoStep::Owner | CreateRepoStep::RepoName => match key_event.code {
            KeyCode::Esc => AppAction::CreateRepoPrevStep,
            KeyCode::Enter => AppAction::CreateRepoNextStep,
            KeyCode::Backspace => AppAction::Backspace,
            KeyCode::Char(ch) => {
                if !key_event.modifiers.control {
                    AppAction::InsertChar(ch)
                } else {
                    AppAction::Noop
                }
            },
            _ => AppAction::Noop,
        },
        CreateRepoStep::Visibility => match key_event.code {
            KeyCode::Esc => AppAction::CreateRepoPrevStep,
            KeyCode::Enter => AppAction::CreateRepoNextStep,
            KeyCode::Char(' ') | KeyCode::Char('j') | KeyCode::Char('k') => AppAction::ToggleVisibility,
            _ => AppAction::Noop,
        },
        CreateRepoStep::Confirm => match key_event.code {
            KeyCode::Esc => AppAction::CreateRepoPrevStep,
            KeyCode::Enter => AppAction::ConfirmModal,
            _ => AppAction::Noop,
        },
    }
}

fn map_branch_switch_key(key_event: KeyEvent) -> (r: AppAction)
    ensures
        r == branch_switch_action(key_event),
{
    match key_event.code {
        KeyCode::Esc => AppAction::CloseModal,
        KeyCode::Enter => AppAction::ConfirmModal,
        KeyCode::Down | KeyCode::Char('j') => AppAction::SelectNextBranch,
        KeyCode::Up | KeyCode::Char('k') => AppAction::SelectPreviousBranch,
        _ => AppAction::Noop,
    }
}

fn map_commit_input_key(key_event: KeyEvent) -> (r: AppAction)
    ensures
        r == commit_input_action(key_event),
{
    if key_event.modifiers == KeyModifiers::control() {
        return match key_event.code {
            KeyCode::Char('n') => AppAction::InsertNewline,
            KeyCode::Char('g') => AppAction::GenerateCommitMessage,
            KeyCode::Char('l') => AppAction::CopilotLogin,
            _ => AppAction::Noop,
        };
    }
    match key_event.code {
        KeyCode::Esc => AppAction::CloseModal,
        KeyCode::Enter => AppAction::ConfirmModal,
        KeyCode::Backspace => AppAction::Backspace,
        KeyCode::Char(ch) => AppAction::InsertChar(ch),
        _ => AppAction::Noop,
    }
}

fn map_text_input_key(key_event: KeyEvent, allow_newline: bool) -> (r: AppAction)
    ensures
        r == text_input_action(key_event, allow_newline),
{
    if allow_newline && key_event.modifiers == KeyModifiers::control() && key_event.code
        == KeyCode::Char('n') {
        return AppAction::InsertNewline;
    }
    match key_event.code {
        KeyCode::Esc => AppAction::CloseModal,
        KeyCode::Enter => AppAction::ConfirmModal,
        KeyCode::Backspace => AppAction::Backspace,
        KeyCode::Char(ch) => {
            if !key_event.modifiers.control {
                AppAction::InsertChar(ch)
            } else {
                AppAction::Noop
            }
        },
        _ => AppAction::Noop,
    }
}

/// In the Changes view with no dialog open, the staging keys are exactly:
/// `S` stages everything, `U` unstages everything, `s` stages and `u`
/// unstages the selected file, and Space toggles it; each without Control.
/// No other key does any of these, so `S` and `U` never do the same thing.
pub proof fn lemma_changes_staging_keys(k: KeyEvent)
    ensures
        key_action(View::Changes, Modal::Closed, k) == AppAction::StageAll <==> (k.code
            == KeyCode::Char('S') && !k.modifiers.control),
        key_action(View::Changes, Modal::Closed, k) == AppAction::UnstageAll <==> (k.code
            == KeyCode::Char('U') && !k.modifiers.control),
        key_action(View::Changes, Modal::Closed, k) == AppAction::StageSelected <==> (k.code
            == KeyCode::Char('s') && !k.modifiers.control),
        key_action(View::Changes, Modal::Closed, k) == AppAction::UnstageSelected <==> (k.code
            == KeyCode::Char('u') && !k.modifiers.control),
        key_action(View::Changes, Modal::Closed, k) == AppAction::ToggleStage <==> (k.code
            == KeyCode::Char(' ') && !k.modifiers.control),
{
}

/// While a dialog is open only the dialog's keys act: no key quits, switches
/// view or changes repository.
pub proof fn lemma_modal_captures_keys(v: View, m: Modal, k: KeyEvent)
    requires
        m != Modal::Closed,
    ensures
        key_action(v, m, k) == modal_action(m, k),
        key_action(v, m, k) != AppAction::Quit,
        key_action(v, m, k) != AppAction::NextView,
        key_action(v, m, k) != AppAction::SelectNextRepo,
{
}

} // verus!
