//! What each user action does to the application state, and which outside
//! work (`git`, GitHub, Copilot, the file system) it asks for. The outside
//! work is done by the caller, who reports its outcome to the functions at
//! the end of this module.
use vstd::prelude::*;

use crate::actions::{key_action, map_key_event, AppAction, KeyEvent};
use crate::commit::{has_nonblank_line, subject_of, CommitMessage, ValidationError};
use crate::domain::{BranchName, CreateRepoParams, RepoVisibility};
use crate::git::GitOp;
use crate::mouse::{map_mouse_event, mouse_action, MouseInput, ScreenAreas};
use crate::jobs::{JobId, JobKind};
use crate::domain::{CheckRun, GeneratedCommitMessage, PrInfo};
use crate::settings::AutoRefreshSettings;
use crate::jobs::{result_job, BackgroundResult};
use crate::state::{
    branch_create_opened, job_ids_kept, branch_switch_opened, commit_panel_opened, job_started, modal_closed,
    next_view_of, previous_view_of, repositories_replaced, repository_replaced, sync_result,
    without_job, AppState, CreateRepoState, CreateRepoStep, FlashMessage, MessageLevel, Modal,
    RepositoryState,
};
use crate::status::FileSection;
use crate::text::{
    append_chars, blank, chars_eq, chars_of, decimal, is_blank, push_char, string_of, trim, trim_chars,
    with_number,
};

verus! {

// ───────────────────────── outside work ─────────────────────────

/// A repository change as plain values.
pub enum ChangeModel {
    Stage(Seq<char>),
    Unstage(Seq<char>),
    StageAll,
    UnstageAll,
    Switch(Seq<char>),
    Create(Seq<char>),
    Commit(Seq<char>),
    Delete(Seq<char>),
    Merge(Seq<char>),
    Amend(Seq<char>),
    Fetch,
}

/// The plain values of a repository change.
pub open spec fn change_model(op: GitOp) -> ChangeModel {
    match op {
        GitOp::StageFile(p) => ChangeModel::Stage(p@),
        GitOp::UnstageFile(p) => ChangeModel::Unstage(p@),
        GitOp::StageAll => ChangeModel::StageAll,
        GitOp::UnstageAll => ChangeModel::UnstageAll,
        GitOp::SwitchBranch(b) => ChangeModel::Switch(b@),
        GitOp::CreateBranch(b) => ChangeModel::Create(b@),
        GitOp::Commit(m) => ChangeModel::Commit(m@),
        GitOp::Amend(m) => ChangeModel::Amend(m@),
        GitOp::DeleteBranch(b) => ChangeModel::Delete(b@),
        GitOp::MergeBranch(b) => ChangeModel::Merge(b@),
        GitOp::Fetch => ChangeModel::Fetch,
    }
}

/// Outside work an action asks for.
pub enum Command {
    /// Nothing.
    Nothing,
    /// Search the repositories again (`repositories_loaded` takes the result).
    RefreshRepositories,
    /// Make `change` in the repository at `repo_path`, reload it, then
    /// `repository_changed` (closing the dialog when `close_modal`, reporting `done`).
    ChangeRepository { repo_path: String, change: GitOp, done: String, close_modal: bool },
    /// Read the last commit's message (`amend_message_loaded` takes it).
    LoadAmendMessage { repo_path: String },
    /// Build the staged diff context (`commit_context_ready` takes it).
    PrepareCommitContext { repo_path: String },
    /// Run the Copilot sign-in in the background, reporting under this job.
    StartCopilotLogin(JobId),
    /// Check that the GitHub command line is signed in (`create_repo_dialog_opened` follows).
    CheckGitHubAuth,
    /// Create a GitHub repository (`repository_created` takes its URL).
    CreateRepository(CreateRepoParams),
    /// Open a pull request in the browser (`pull_request_opened` follows).
    OpenPullRequest { repo_path: String, number: u32 },
    /// List the pull requests again (`pull_requests_loaded` takes them).
    RefreshPullRequests { repo_path: String },
    /// Load the checks of a pull request (`pr_checks_loaded` takes them).
    LoadPrChecks { repo_path: String, number: u32 },
}

// ───────────────────────── messages ─────────────────────────

pub open spec fn no_repo_msg() -> Seq<char> {
    "no repository selected"@
}

pub open spec fn no_file_msg() -> Seq<char> {
    "no file selected"@
}

pub open spec fn no_branch_msg() -> Seq<char> {
    "no branch selected"@
}

pub open spec fn empty_branch_msg() -> Seq<char> {
    "branch name cannot be empty"@
}

pub open spec fn empty_commit_msg() -> Seq<char> {
    "commit message must include a non-empty subject line"@
}

fn message_of(e: ValidationError) -> (r: String)
    ensures
        e == ValidationError::EmptyBranchName ==> r@ == empty_branch_msg(),
        e == ValidationError::EmptyCommitMessage ==> r@ == empty_commit_msg(),
{
    string_of(&chars_of(e.message()))
}

fn text(s: &str) -> (r: String)
    ensures
        r@ == s@,
{
    string_of(&chars_of(s))
}

/// `a` followed by `b`.
fn joined(a: &str, b: &str) -> (r: String)
    ensures
        r@ == a@ + b@,
{
    let mut v = chars_of(a);
    append_chars(&mut v, &chars_of(b));
    string_of(&v)
}

// ───────────────────────── what the state shows ─────────────────────────

/// The path of the selected repository.
pub open spec fn repo_path_of(s: AppState) -> Option<Seq<char>> {
    match s.current_repo() {
        Some(r) => Some(r.summary.path@),
        None => None,
    }
}

/// The section of the selected row of the file list.
pub open spec fn file_section_of(s: AppState) -> Option<FileSection> {
    if (s.selected_file as nat) < s.grouped_files.entries@.len() {
        Some(s.grouped_files.entries@[s.selected_file as int].section)
    } else {
        None
    }
}

/// The path of the file on the selected row of the file list.
pub open spec fn file_path_of(s: AppState) -> Option<Seq<char>> {
    if (s.selected_file as nat) < s.grouped_files.entries@.len() && s.current_repo() is Some {
        let e = s.grouped_files.entries@[s.selected_file as int];
        let repo = s.current_repo()->0;
        if (e.file_index as nat) < repo.status_files@.len() {
            Some(repo.status_files@[e.file_index as int].path@)
        } else {
            None
        }
    } else {
        None
    }
}

/// The name of the selected branch.
pub open spec fn branch_of(s: AppState) -> Option<Seq<char>> {
    if s.current_repo() is Some && (s.selected_branch as nat) < s.filtered_branches@.len() {
        let i = s.filtered_branches@[s.selected_branch as int];
        let repo = s.current_repo()->0;
        if (i as nat) < repo.branches@.len() {
            Some(repo.branches@[i as int]@)
        } else {
            None
        }
    } else {
        None
    }
}

/// Some file of the selected repository is staged.
pub open spec fn has_staged(s: AppState) -> bool {
    exists|i: int|
        0 <= i < s.current_repo()->0.status_files@.len()
            && (#[trigger] s.current_repo()->0.status_files@[i]).staged
}

/// `x + 5`, at most `u16::MAX`.
pub open spec fn up5(x: u16) -> u16 {
    if x + 5 > u16::MAX {
        u16::MAX
    } else {
        (x + 5) as u16
    }
}

/// `x - 5`, at least 0.
pub open spec fn down5(x: u16) -> u16 {
    if x < 5 {
        0
    } else {
        (x - 5) as u16
    }
}

// ───────────────────────── the contract of an action ─────────────────────────

/// `cmd` changes the repository at `path` as `change` describes, then reports `done`.
pub open spec fn changes_repo(cmd: Command, path: Seq<char>, change: ChangeModel, done: Seq<char>, close: bool) -> bool {
    cmd matches Command::ChangeRepository { repo_path, change: c, done: d, close_modal }
        && repo_path@ == path && change_model(c) == change && d@ == done && close_modal == close
}

/// Why staging (or unstaging, when `!stage`) the selected file fails.
pub open spec fn stage_failure(s: AppState, stage: bool) -> Option<Seq<char>> {
    match file_section_of(s) {
        None => Some(no_file_msg()),
        Some(sec) => if (sec == FileSection::Staged) == stage {
            None
        } else if repo_path_of(s) is None {
            Some(no_repo_msg())
        } else if file_path_of(s) is None {
            Some(no_file_msg())
        } else {
            None
        },
    }
}

/// Staging (or unstaging) the selected file: nothing to do when it already
/// is; else the change, reported as `Staged selected file` (`Unstaged ...`).
pub open spec fn stage_command(s: AppState, stage: bool, cmd: Command) -> bool {
    if (file_section_of(s)->0 == FileSection::Staged) == stage {
        cmd is Nothing
    } else if stage {
        changes_repo(cmd, repo_path_of(s)->0, ChangeModel::Stage(file_path_of(s)->0), "Staged selected file"@, false)
    } else {
        changes_repo(cmd, repo_path_of(s)->0, ChangeModel::Unstage(file_path_of(s)->0), "Unstaged selected file"@, false)
    }
}

/// Why acting on the selected branch fails: no repository, no branch, or a blank name.
pub open spec fn branch_failure(s: AppState) -> Option<Seq<char>> {
    if repo_path_of(s) is None {
        Some(no_repo_msg())
    } else if branch_of(s) is None {
        Some(no_branch_msg())
    } else if is_blank(branch_of(s)->0) {
        Some(empty_branch_msg())
    } else {
        None
    }
}

/// Why committing fails: no repository, nothing staged (unless amending), or
/// no subject.
pub open spec fn commit_failure(s: AppState) -> Option<Seq<char>> {
    if repo_path_of(s) is None {
        Some(no_repo_msg())
    } else if !s.amend_mode && !has_staged(s) {
        Some("no staged changes to commit"@)
    } else if !has_nonblank_line(s.commit_message_input@) {
        Some(empty_commit_msg())
    } else {
        None
    }
}

/// Committing the staged changes (amending the last commit in amend mode),
/// reported as `Committed <subject>` (`Amended <subject>`), closing the editor.
pub open spec fn commit_command(s: AppState, cmd: Command) -> bool {
    let m = s.commit_message_input@;
    if s.amend_mode {
        changes_repo(cmd, repo_path_of(s)->0, ChangeModel::Amend(m), "Amended "@ + subject_of(m), true)
    } else {
        changes_repo(cmd, repo_path_of(s)->0, ChangeModel::Commit(m), "Committed "@ + subject_of(m), true)
    }
}

/// Why creating the GitHub repository fails.
pub open spec fn create_failure(s: AppState) -> Option<Seq<char>> {
    if s.create_repo_state is None {
        Some("no create repo state"@)
    } else if repo_path_of(s) is None {
        Some(no_repo_msg())
    } else {
        None
    }
}

/// Creating the GitHub repository described by the dialog from the selected one.
pub open spec fn create_command(s: AppState, cmd: Command) -> bool {
    let rs = s.create_repo_state->0;
    cmd matches Command::CreateRepository(p) && p.owner@ == trim(rs.owner_input@) && p.name@ == trim(
        rs.repo_name_input@,
    ) && p.visibility == (if rs.is_public {
        RepoVisibility::Public
    } else {
        RepoVisibility::Private
    }) && p.source_dir@ == repo_path_of(s)->0 && p.remote_name@ == "origin"@
}

/// Why confirming the open dialog fails.
pub open spec fn confirm_failure(s: AppState) -> Option<Seq<char>> {
    match s.modal {
        Modal::Closed => branch_failure(s),
        Modal::BranchSwitch => branch_failure(s),
        Modal::BranchCreate => if repo_path_of(s) is None {
            Some(no_repo_msg())
        } else if is_blank(s.branch_name_input@) {
            Some(empty_branch_msg())
        } else {
            None
        },
        Modal::Commit => commit_failure(s),
        Modal::CopilotLogin => None,
        Modal::CreateRepo(_) => create_failure(s),
    }
}

/// Confirming the open dialog: with none, check out the selected branch; in
/// the branch switcher, the same and close it; create and check out the typed
/// branch; commit; create the GitHub repository.
pub open spec fn confirm_command(s: AppState, cmd: Command) -> bool {
    match s.modal {
        Modal::Closed => changes_repo(cmd, repo_path_of(s)->0, ChangeModel::Switch(branch_of(s)->0), "Switched to "@ + branch_of(s)->0, false),
        Modal::BranchSwitch => changes_repo(cmd, repo_path_of(s)->0, ChangeModel::Switch(branch_of(s)->0), "Switched to "@ + branch_of(s)->0, true),
        Modal::BranchCreate => changes_repo(cmd, repo_path_of(s)->0, ChangeModel::Create(s.branch_name_input@), "Created and switched to "@ + s.branch_name_input@, true),
        Modal::Commit => commit_command(s, cmd),
        Modal::CopilotLogin => cmd is Nothing,
        Modal::CreateRepo(_) => create_command(s, cmd),
    }
}

/// Why the create-repository dialog cannot go to its next step.
pub open spec fn advance_failure(s: AppState) -> Option<Seq<char>> {
    match s.create_repo_state {
        None => None,
        Some(rs) => match rs.step {
            CreateRepoStep::Owner => if is_blank(rs.owner_input@) {
                Some("owner cannot be empty"@)
            } else {
                None
            },
            CreateRepoStep::RepoName => if is_blank(rs.repo_name_input@) {
                Some("repository name cannot be empty"@)
            } else {
                None
            },
            CreateRepoStep::Visibility => None,
            CreateRepoStep::Confirm => create_failure(s),
        },
    }
}

/// The dialog at `step`.
pub open spec fn at_step(s: AppState, step: CreateRepoStep) -> AppState {
    AppState {
        create_repo_state: Some(CreateRepoState { step, ..s.create_repo_state->0 }),
        modal: Modal::CreateRepo(step),
        ..s
    }
}

/// The step after `step` (the last is confirmed instead).
pub open spec fn step_after(step: CreateRepoStep) -> CreateRepoStep {
    match step {
        CreateRepoStep::Owner => CreateRepoStep::RepoName,
        CreateRepoStep::RepoName => CreateRepoStep::Visibility,
        _ => CreateRepoStep::Confirm,
    }
}

/// The step before `step` (the first closes the dialog instead).
pub open spec fn step_before(step: CreateRepoStep) -> CreateRepoStep {
    match step {
        CreateRepoStep::Confirm => CreateRepoStep::Visibility,
        CreateRepoStep::Visibility => CreateRepoStep::RepoName,
        _ => CreateRepoStep::Owner,
    }
}

/// After showing another pull request, its checks are loaded; with no pull
/// request there the cached checks are cleared.
pub open spec fn pr_checks_step(s: AppState, mid: AppState, cmd: Command) -> bool {
    match s.current_repo() {
        Some(r) => if (s.selected_pr as nat) < r.pull_requests@.len() {
            &&& mid == s
            &&& cmd matches Command::LoadPrChecks { repo_path, number }
            &&& repo_path@ == r.summary.path@
            &&& number == r.pull_requests@[s.selected_pr as int].number
        } else {
            &&& mid.pr_checks_cache@.len() == 0
            &&& mid == (AppState { pr_checks_cache: mid.pr_checks_cache, ..s })
            &&& cmd is Nothing
        },
        None => {
            &&& mid.pr_checks_cache@.len() == 0
            &&& mid == (AppState { pr_checks_cache: mid.pr_checks_cache, ..s })
            &&& cmd is Nothing
        },
    }
}

/// The text field a typed character goes to: the branch name, the commit
/// message, or the owner or name of the repository to create.
pub open spec fn edited(pre: AppState, post: AppState, f: spec_fn(Seq<char>) -> Seq<char>) -> bool {
    match pre.modal {
        Modal::BranchCreate => post.branch_name_input@ == f(pre.branch_name_input@) && post == (AppState {
            branch_name_input: post.branch_name_input,
            ..pre
        }),
        Modal::Commit => post.commit_message_input@ == f(pre.commit_message_input@) && post == (AppState {
            commit_message_input: post.commit_message_input,
            ..pre
        }),
        Modal::CreateRepo(CreateRepoStep::Owner) => match pre.create_repo_state {
            Some(rs) => post.create_repo_state matches Some(ps) && ps.owner_input@ == f(rs.owner_input@)
                && ps == (CreateRepoState { owner_input: ps.owner_input, ..rs }) && post == (AppState {
                create_repo_state: post.create_repo_state,
                ..pre
            }),
            None => post == pre,
        },
        Modal::CreateRepo(CreateRepoStep::RepoName) => match pre.create_repo_state {
            Some(rs) => post.create_repo_state matches Some(ps) && ps.repo_name_input@ == f(
                rs.repo_name_input@,
            ) && ps == (CreateRepoState { repo_name_input: ps.repo_name_input, ..rs }) && post == (
            AppState { create_repo_state: post.create_repo_state, ..pre }),
            None => post == pre,
        },
        _ => post == pre,
    }
}

/// A text without its last character (unchanged when empty).
pub open spec fn without_last(t: Seq<char>) -> Seq<char> {
    if t.len() > 0 {
        t.drop_last()
    } else {
        t
    }
}

/// Why an action fails, with its message; `None` when it succeeds.
pub open spec fn action_failure(pre: AppState, a: AppAction) -> Option<Seq<char>> {
    match a {
        AppAction::StageSelected => stage_failure(pre, true),
        AppAction::UnstageSelected => stage_failure(pre, false),
        AppAction::ToggleStage => match file_section_of(pre) {
            None => Some(no_file_msg()),
            Some(sec) => stage_failure(pre, sec != FileSection::Staged),
        },
        AppAction::StageAll | AppAction::UnstageAll | AppAction::OpenCommitAmend
        | AppAction::RefreshPrs => if repo_path_of(pre) is None {
            Some(no_repo_msg())
        } else {
            None
        },
        AppAction::OpenCreateRepo => if pre.current_repo() matches Some(r) && r.has_origin_remote {
            Some("origin remote already exists"@)
        } else {
            None
        },
        AppAction::OpenPrInBrowser => match pre.current_repo() {
            None => Some(no_repo_msg()),
            Some(r) => if (pre.selected_pr as nat) < r.pull_requests@.len() {
                None
            } else {
                Some("no PR selected"@)
            },
        },
        AppAction::ConfirmModal => confirm_failure(pre),
        AppAction::DeleteBranch => if repo_path_of(pre) is None {
            Some(no_repo_msg())
        } else if branch_of(pre) is None {
            Some(no_branch_msg())
        } else if pre.current_repo()->0.current_branch matches Some(c) && c@ == branch_of(pre)->0 {
            Some("cannot delete the current branch"@)
        } else {
            branch_failure(pre)
        },
        AppAction::MergeBranch => branch_failure(pre),
        AppAction::GenerateCommitMessage => if !pre.copilot_authenticated {
            Some("not logged in to Copilot — press Ctrl+l to login"@)
        } else if repo_path_of(pre) is None {
            Some(no_repo_msg())
        } else {
            None
        },
        AppAction::CreateRepoNextStep => advance_failure(pre),
        _ => None,
    }
}

/// What a successful action does: `mid` is the state before the selections
/// are synchronized, `cmd` the outside work asked for.
pub open spec fn action_step(pre: AppState, a: AppAction, mid: AppState, cmd: Command) -> bool {
    match a {
        AppAction::Noop => mid == pre && cmd is Nothing,
        AppAction::Quit => mid == (AppState { should_quit: true, ..pre }) && cmd is Nothing,
        AppAction::RefreshRepos => mid == pre && cmd is RefreshRepositories,
        AppAction::SelectNextRepo => mid == pre.after_next_repo() && cmd is Nothing,
        AppAction::SelectPreviousRepo => mid == pre.after_previous_repo() && cmd is Nothing,
        AppAction::SelectRepo(i) => (if (i as nat) < pre.repos@.len() {
            mid == pre.with_repo_selected(i)
        } else {
            mid == pre
        }) && cmd is Nothing,
        AppAction::SelectNextFile => mid == pre.after_next_file() && cmd is Nothing,
        AppAction::SelectPreviousFile => mid == pre.after_previous_file() && cmd is Nothing,
        AppAction::SelectFile(i) => mid == (AppState { selected_file: i, ..pre }) && cmd is Nothing,
        AppAction::SelectNextBranch => mid == pre.after_next_branch() && cmd is Nothing,
        AppAction::SelectPreviousBranch => mid == pre.after_previous_branch() && cmd is Nothing,
        AppAction::SelectNextLogEntry => mid == pre.after_next_log_entry() && cmd is Nothing,
        AppAction::SelectPreviousLogEntry => mid == pre.after_previous_log_entry() && cmd is Nothing,
        AppAction::SelectNextRemote => mid == pre.after_next_remote() && cmd is Nothing,
        AppAction::SelectPreviousRemote => mid == pre.after_previous_remote() && cmd is Nothing,
        AppAction::SelectNextPr => pr_checks_step(pre.after_next_pr(), mid, cmd),
        AppAction::SelectPreviousPr => pr_checks_step(pre.after_previous_pr(), mid, cmd),
        AppAction::SelectPr(i) => pr_checks_step(AppState { selected_pr: i, ..pre }, mid, cmd),
        AppAction::ScrollLogDown => mid == (AppState { log_scroll: up5(pre.log_scroll), ..pre }) && cmd is Nothing,
        AppAction::ScrollLogUp => mid == (AppState { log_scroll: down5(pre.log_scroll), ..pre }) && cmd is Nothing,
        AppAction::ScrollPrDetailDown => mid == (AppState { pr_detail_scroll: up5(pre.pr_detail_scroll), ..pre })
            && cmd is Nothing,
        AppAction::ScrollPrDetailUp => mid == (AppState { pr_detail_scroll: down5(pre.pr_detail_scroll), ..pre })
            && cmd is Nothing,
        AppAction::ScrollDiffDown => mid == (AppState { diff_scroll: up5(pre.diff_scroll), ..pre }) && cmd is Nothing,
        AppAction::ScrollDiffUp => mid == (AppState { diff_scroll: down5(pre.diff_scroll), ..pre }) && cmd is Nothing,
        AppAction::StageSelected => mid == pre && stage_command(pre, true, cmd),
        AppAction::UnstageSelected => mid == pre && stage_command(pre, false, cmd),
        AppAction::ToggleStage => mid == pre && stage_command(pre, file_section_of(pre)->0 != FileSection::Staged, cmd),
        AppAction::StageAll => mid == pre && changes_repo(cmd, repo_path_of(pre)->0, ChangeModel::StageAll, "Staged all changes"@, false),
        AppAction::UnstageAll => mid == pre && changes_repo(cmd, repo_path_of(pre)->0, ChangeModel::UnstageAll, "Unstaged all changes"@, false),
        AppAction::OpenBranchSwitch => branch_switch_opened(pre, mid) && cmd is Nothing,
        AppAction::OpenBranchCreate => branch_create_opened(pre, mid) && cmd is Nothing,
        AppAction::OpenCommitPanel => commit_panel_opened(pre, mid) && cmd is Nothing,
        AppAction::OpenCommitAmend => mid == pre && (cmd matches Command::LoadAmendMessage { repo_path }
            && repo_path@ == repo_path_of(pre)->0),
        AppAction::OpenCreateRepo => mid == pre && cmd is CheckGitHubAuth,
        AppAction::OpenPrInBrowser => mid == pre && (cmd matches Command::OpenPullRequest { repo_path, number }
            && repo_path@ == pre.current_repo()->0.summary.path@
            && number == pre.current_repo()->0.pull_requests@[pre.selected_pr as int].number),
        AppAction::RefreshPrs => mid == pre && (cmd matches Command::RefreshPullRequests { repo_path }
            && repo_path@ == repo_path_of(pre)->0),
        AppAction::ConfirmModal => mid == pre && confirm_command(pre, cmd),
        AppAction::CloseModal => modal_closed(pre, mid) && cmd is Nothing,
        AppAction::ToggleHelp => mid == (AppState { show_help: !pre.show_help, ..pre }) && cmd is Nothing,
        AppAction::InsertChar(c) => edited(pre, mid, |t: Seq<char>| t.push(c)) && cmd is Nothing,
        AppAction::Backspace => edited(pre, mid, |t: Seq<char>| without_last(t)) && cmd is Nothing,
        AppAction::InsertNewline => (if pre.modal == Modal::Commit {
            edited(pre, mid, |t: Seq<char>| t.push('\n'))
        } else {
            mid == pre
        }) && cmd is Nothing,
        AppAction::SwitchView(v) => mid == pre.after_switch_view(v) && cmd is Nothing,
        AppAction::NextView => mid == pre.after_switch_view(next_view_of(pre.active_view)) && cmd is Nothing,
        AppAction::PreviousView => mid == pre.after_switch_view(previous_view_of(pre.active_view)) && cmd is Nothing,
        AppAction::DeleteBranch => mid == pre && changes_repo(cmd, repo_path_of(pre)->0, ChangeModel::Delete(branch_of(pre)->0), "Deleted branch "@ + branch_of(pre)->0, false),
        AppAction::MergeBranch => mid == pre && changes_repo(cmd, repo_path_of(pre)->0, ChangeModel::Merge(branch_of(pre)->0), "Merged "@ + branch_of(pre)->0, false),
        AppAction::GenerateCommitMessage => mid == pre && (cmd matches Command::PrepareCommitContext { repo_path }
            && repo_path@ == repo_path_of(pre)->0),
        AppAction::CopilotLogin => cmd matches Command::StartCopilotLogin(id) && job_started(pre, mid, JobKind::CopilotLogin, id),
        AppAction::ToggleVisibility => (match pre.create_repo_state {
            Some(rs) => mid == (AppState {
                create_repo_state: Some(CreateRepoState { is_public: !rs.is_public, ..rs }),
                ..pre
            }),
            None => mid == pre,
        }) && cmd is Nothing,
        AppAction::CreateRepoNextStep => match pre.create_repo_state {
            None => mid == pre && cmd is Nothing,
            Some(rs) => if rs.step == CreateRepoStep::Confirm {
                mid == pre && create_command(pre, cmd)
            } else {
                mid == at_step(pre, step_after(rs.step)) && cmd is Nothing
            },
        },
        AppAction::CreateRepoPrevStep => (match pre.create_repo_state {
            None => modal_closed(pre, mid),
            Some(rs) => if rs.step == CreateRepoStep::Owner {
                modal_closed(pre, mid)
            } else {
                mid == at_step(pre, step_before(rs.step))
            },
        }) && cmd is Nothing,
    }
}

/// An action's outcome before synchronizing: on success the step it makes;
/// on failure its message, with nothing changed.
pub open spec fn action_outcome(pre: AppState, a: AppAction, mid: AppState, r: Result<Command, String>) -> bool {
    match r {
        Ok(cmd) => action_failure(pre, a) is None && action_step(pre, a, mid, cmd),
        Err(e) => action_failure(pre, a) == Some(e@) && mid == pre,
    }
}

/// No selection is at the largest index (stepping forward cannot overflow).
pub open spec fn steppable(s: AppState) -> bool {
    &&& s.selected_repo < usize::MAX
    &&& s.selected_file < usize::MAX
    &&& s.selected_branch < usize::MAX
    &&& s.selected_log_entry < usize::MAX
    &&& s.selected_remote < usize::MAX
    &&& s.selected_pr < usize::MAX
}

// ───────────────────────── carrying out an action ─────────────────────────

/// Actions that only move a selection (or ask to search the repositories again).
pub open spec fn is_selection(a: AppAction) -> bool {
    match a {
        AppAction::Noop | AppAction::Quit | AppAction::RefreshRepos | AppAction::SelectNextRepo
        | AppAction::SelectPreviousRepo | AppAction::SelectRepo(_) | AppAction::SelectNextFile
        | AppAction::SelectPreviousFile | AppAction::SelectFile(_) | AppAction::SelectNextBranch
        | AppAction::SelectPreviousBranch | AppAction::SelectNextLogEntry
        | AppAction::SelectPreviousLogEntry | AppAction::SelectNextRemote
        | AppAction::SelectPreviousRemote => true,
        _ => false,
    }
}

/// Actions that scroll, switch views, or open and close dialogs.
pub open spec fn is_view_change(a: AppAction) -> bool {
    match a {
        AppAction::ScrollLogDown | AppAction::ScrollLogUp | AppAction::ScrollPrDetailDown
        | AppAction::ScrollPrDetailUp | AppAction::ScrollDiffDown | AppAction::ScrollDiffUp
        | AppAction::OpenBranchSwitch | AppAction::OpenBranchCreate | AppAction::OpenCommitPanel
        | AppAction::CloseModal | AppAction::ToggleHelp | AppAction::SwitchView(_)
        | AppAction::NextView | AppAction::PreviousView => true,
        _ => false,
    }
}

/// Loads the checks of the shown pull request, or clears them (`pr_checks_step`).
fn pr_checks_after(state: &mut AppState) -> (cmd: Command)
    ensures
        pr_checks_step(*old(state), *final(state), cmd),
{
    if state.selected_repo < state.repos.len() {
        let repo = &state.repos[state.selected_repo];
        if state.selected_pr < repo.pull_requests.len() {
            let number = repo.pull_requests[state.selected_pr].number;
            return Command::LoadPrChecks { repo_path: repo.summary.path.clone(), number };
        }
    }
    state.pr_checks_cache = Vec::new();
    Command::Nothing
}

/// Moves the pull request selection, then loads the checks of the one shown.
fn select_pr(state: &mut AppState, a: AppAction) -> (r: Result<Command, String>)
    requires
        steppable(*old(state)),
        a is SelectNextPr || a is SelectPreviousPr || a is SelectPr,
    ensures
        job_ids_kept(*old(state), *final(state)),
        action_outcome(*old(state), a, *final(state), r),
{
    match a {
        AppAction::SelectNextPr => state.select_next_pr(),
        AppAction::SelectPreviousPr => state.select_previous_pr(),
        AppAction::SelectPr(i) => {
            state.selected_pr = i;
        },
        _ => {},
    }
    Ok(pr_checks_after(state))
}

fn select(state: &mut AppState, a: AppAction) -> (r: Result<Command, String>)
    requires
        steppable(*old(state)),
        is_selection(a),
    ensures
        job_ids_kept(*old(state), *final(state)),
        action_outcome(*old(state), a, *final(state), r),
{
    match a {
        AppAction::Quit => {
            state.should_quit = true;
        },
        AppAction::RefreshRepos => {
            return Ok(Command::RefreshRepositories);
        },
        AppAction::SelectNextRepo => state.select_next_repo(),
        AppAction::SelectPreviousRepo => state.select_previous_repo(),
        AppAction::SelectRepo(i) => {
            if i < state.repos.len() {
                state.selected_repo = i;
                state.selected_file = 0;
                state.selected_branch = match state.current_branch_index() {
                    Some(b) => b,
                    None => 0,
                };
                state.diff_content = None;
                state.diff_scroll = 0;
            }
        },
        AppAction::SelectNextFile => state.select_next_file(),
        AppAction::SelectPreviousFile => state.select_previous_file(),
        AppAction::SelectFile(i) => {
            state.selected_file = i;
        },
        AppAction::SelectNextBranch => state.select_next_branch(),
        AppAction::SelectPreviousBranch => state.select_previous_branch(),
        AppAction::SelectNextLogEntry => state.select_next_log_entry(),
        AppAction::SelectPreviousLogEntry => state.select_previous_log_entry(),
        AppAction::SelectNextRemote => state.select_next_remote(),
        AppAction::SelectPreviousRemote => state.select_previous_remote(),
        _ => {},
    }
    Ok(Command::Nothing)
}

fn change_view(state: &mut AppState, a: AppAction) -> (r: Result<Command, String>)
    requires
        is_view_change(a),
    ensures
        job_ids_kept(*old(state), *final(state)),
        action_outcome(*old(state), a, *final(state), r),
{
    match a {
        AppAction::ScrollLogDown => {
            state.log_scroll = state.log_scroll.saturating_add(5);
        },
        AppAction::ScrollLogUp => {
            state.log_scroll = state.log_scroll.saturating_sub(5);
        },
        AppAction::ScrollPrDetailDown => {
            state.pr_detail_scroll = state.pr_detail_scroll.saturating_add(5);
        },
        AppAction::ScrollPrDetailUp => {
            state.pr_detail_scroll = state.pr_detail_scroll.saturating_sub(5);
        },
        AppAction::ScrollDiffDown => {
            state.diff_scroll = state.diff_scroll.saturating_add(5);
        },
        AppAction::ScrollDiffUp => {
            state.diff_scroll = state.diff_scroll.saturating_sub(5);
        },
        AppAction::OpenBranchSwitch => state.open_branch_switch(),
        AppAction::OpenBranchCreate => state.open_branch_create(),
        AppAction::OpenCommitPanel => state.open_commit_panel(),
        AppAction::CloseModal => state.close_modal(),
        AppAction::ToggleHelp => {
            state.show_help = !state.show_help;
        },
        AppAction::SwitchView(v) => state.switch_view(v),
        AppAction::NextView => state.next_view(),
        AppAction::PreviousView => state.previous_view(),
        _ => {},
    }
    Ok(Command::Nothing)
}

/// A text without its last character.
fn drop_last_char(t: &String) -> (r: String)
    ensures
        r@ == without_last(t@),
{
    let v = chars_of(t.as_str());
    if v.len() == 0 {
        return string_of(&v);
    }
    let n = v.len();
    let w = crate::text::sub_chars(&v, 0, n - 1);
    proof {
        assert(w@ =~= v@.drop_last());
    }
    string_of(&w)
}

/// The edited text field: `c` appended, or the last character removed when `c` is none.
fn edit_field(t: &mut String, c: Option<char>)
    ensures
        match c {
            Some(ch) => final(t)@ == old(t)@.push(ch),
            None => final(t)@ == without_last(old(t)@),
        },
{
    match c {
        Some(ch) => push_char(t, ch),
        None => {
            let r = drop_last_char(t);
            *t = r;
        },
    }
}

/// Edits the text field of the open dialog.
fn edit_text(state: &mut AppState, c: Option<char>)
    ensures
        edited(
            *old(state),
            *final(state),
            match c {
                Some(ch) => |t: Seq<char>| t.push(ch),
                None => |t: Seq<char>| without_last(t),
            },
        ),
{
    match state.modal {
        Modal::BranchCreate => edit_field(&mut state.branch_name_input, c),
        Modal::Commit => edit_field(&mut state.commit_message_input, c),
        Modal::CreateRepo(CreateRepoStep::Owner) => {
            match state.create_repo_state.take() {
                Some(rs) => {
                    let mut rs = rs;
                    edit_field(&mut rs.owner_input, c);
                    state.create_repo_state = Some(rs);
                },
                None => {},
            }
        },
        Modal::CreateRepo(CreateRepoStep::RepoName) => {
            match state.create_repo_state.take() {
                Some(rs) => {
                    let mut rs = rs;
                    edit_field(&mut rs.repo_name_input, c);
                    state.create_repo_state = Some(rs);
                },
                None => {},
            }
        },
        _ => {},
    }
}

/// The path of the selected repository (`repo_path_of`), or the error.
fn repo_path_or_err(state: &AppState) -> (r: Result<String, String>)
    ensures
        match r {
            Ok(p) => repo_path_of(*state) == Some(p@),
            Err(e) => repo_path_of(*state) is None && e@ == no_repo_msg(),
        },
{
    match state.selected_repo_path() {
        Some(p) => Ok(p),
        None => Err(text("no repository selected")),
    }
}

/// The selected branch's name (`branch_of`), when a branch is selected.
fn branch_name_or_err(state: &AppState) -> (r: Result<String, String>)
    ensures
        match r {
            Ok(n) => branch_of(*state) == Some(n@),
            Err(e) => branch_of(*state) is None && e@ == no_branch_msg(),
        },
{
    match state.selected_branch_name() {
        Some(n) => Ok(n),
        None => Err(text("no branch selected")),
    }
}

/// The selected repository and the name of its selected branch, or why they
/// cannot be acted on (`branch_failure`).
fn selected_branch(state: &AppState) -> (r: Result<(String, BranchName), String>)
    ensures
        match r {
            Ok((p, b)) => branch_failure(*state) is None && repo_path_of(*state) == Some(p@) && branch_of(
                *state,
            ) == Some(b@),
            Err(e) => branch_failure(*state) == Some(e@),
        },
{
    let repo_path = repo_path_or_err(state)?;
    let name = branch_name_or_err(state)?;
    match BranchName::parse(name) {
        Ok(b) => Ok((repo_path, b)),
        Err(e) => Err(message_of(e)),
    }
}

/// Stages (or unstages) the selected file (`stage_command`).
fn stage_selected(state: &AppState, stage: bool) -> (r: Result<Command, String>)
    ensures
        match r {
            Ok(cmd) => stage_failure(*state, stage) is None && stage_command(*state, stage, cmd),
            Err(e) => stage_failure(*state, stage) == Some(e@),
        },
{
    let section = match state.selected_file_section() {
        Some(sec) => sec,
        None => {
            return Err(text("no file selected"));
        },
    };
    if (section == FileSection::Staged) == stage {
        return Ok(Command::Nothing);
    }
    let repo_path = repo_path_or_err(state)?;
    let file_path = match state.selected_file_path() {
        Some(f) => f,
        None => {
            return Err(text("no file selected"));
        },
    };
    if stage {
        Ok(
            Command::ChangeRepository {
                repo_path,
                change: GitOp::StageFile(file_path),
                done: text("Staged selected file"),
                close_modal: false,
            },
        )
    } else {
        Ok(
            Command::ChangeRepository {
                repo_path,
                change: GitOp::UnstageFile(file_path),
                done: text("Unstaged selected file"),
                close_modal: false,
            },
        )
    }
}

/// Deletes the selected branch, unless it is checked out.
fn delete_branch(state: &AppState) -> (r: Result<Command, String>)
    ensures
        action_outcome(*state, AppAction::DeleteBranch, *state, r),
{
    let repo_path = repo_path_or_err(state)?;
    let name = branch_name_or_err(state)?;
    let repo = &state.repos[state.selected_repo];
    match &repo.current_branch {
        Some(c) => {
            if crate::text::str_eq(c, &name) {
                return Err(text("cannot delete the current branch"));
            }
        },
        None => {},
    }
    let branch = match BranchName::parse(name) {
        Ok(b) => b,
        Err(e) => {
            return Err(message_of(e));
        },
    };
    let done = joined("Deleted branch ", branch.as_str());
    Ok(
        Command::ChangeRepository {
            repo_path,
            change: GitOp::DeleteBranch(branch),
            done,
            close_modal: false,
        },
    )
}

/// Merges the selected branch into the checked-out one.
fn merge_branch(state: &AppState) -> (r: Result<Command, String>)
    ensures
        action_outcome(*state, AppAction::MergeBranch, *state, r),
{
    let (repo_path, branch) = selected_branch(state)?;
    let done = joined("Merged ", branch.as_str());
    Ok(
        Command::ChangeRepository {
            repo_path,
            change: GitOp::MergeBranch(branch),
            done,
            close_modal: false,
        },
    )
}

/// Whether a file of the selected repository is staged (`has_staged`).
fn any_staged(state: &AppState) -> (r: bool)
    requires
        state.current_repo() is Some,
    ensures
        r == has_staged(*state),
{
    let files = &state.repos[state.selected_repo].status_files;
    let mut i: usize = 0;
    while i < files.len()
        invariant
            i <= files@.len(),
            files@ == state.current_repo()->0.status_files@,
            forall|j: int| 0 <= j < i ==> !(#[trigger] files@[j]).staged,
        decreases files@.len() - i,
    {
        if files[i].staged {
            return true;
        }
        i = i + 1;
    }
    false
}

/// Commits the staged changes with the typed message (`commit_command`).
fn confirm_commit(state: &AppState) -> (r: Result<Command, String>)
    ensures
        match r {
            Ok(cmd) => commit_failure(*state) is None && commit_command(*state, cmd),
            Err(e) => commit_failure(*state) == Some(e@),
        },
{
    let repo_path = repo_path_or_err(state)?;
    let amend = state.amend_mode;
    if !amend && !any_staged(state) {
        return Err(text("no staged changes to commit"));
    }
    let message = match CommitMessage::parse(state.commit_message_input.clone()) {
        Ok(m) => m,
        Err(e) => {
            return Err(message_of(e));
        },
    };
    proof {
        crate::commit::lemma_commit_message_of_view(state.commit_message_input);
    }
    let subject = message.subject();
    if amend {
        let done = joined("Amended ", subject.as_str());
        Ok(
            Command::ChangeRepository {
                repo_path,
                change: GitOp::Amend(message),
                done,
                close_modal: true,
            },
        )
    } else {
        let done = joined("Committed ", subject.as_str());
        Ok(
            Command::ChangeRepository {
                repo_path,
                change: GitOp::Commit(message),
                done,
                close_modal: true,
            },
        )
    }
}

/// Creates the GitHub repository described by the dialog (`create_command`).
fn confirm_create_repo(state: &AppState) -> (r: Result<Command, String>)
    ensures
        match r {
            Ok(cmd) => create_failure(*state) is None && create_command(*state, cmd),
            Err(e) => create_failure(*state) == Some(e@),
        },
{
    let rs = match &state.create_repo_state {
        Some(rs) => rs,
        None => {
            return Err(text("no create repo state"));
        },
    };
    let repo_path = repo_path_or_err(state)?;
    let params = CreateRepoParams {
        owner: string_of(&trim_chars(&chars_of(rs.owner_input.as_str()))),
        name: string_of(&trim_chars(&chars_of(rs.repo_name_input.as_str()))),
        visibility: if rs.is_public {
            RepoVisibility::Public
        } else {
            RepoVisibility::Private
        },
        source_dir: repo_path,
        remote_name: text("origin"),
    };
    Ok(Command::CreateRepository(params))
}

/// Confirms the open dialog (`confirm_command`).
fn confirm_modal(state: &AppState) -> (r: Result<Command, String>)
    ensures
        action_outcome(*state, AppAction::ConfirmModal, *state, r),
{
    match state.modal {
        Modal::Closed | Modal::BranchSwitch => {
            let (repo_path, branch) = selected_branch(state)?;
            let done = joined("Switched to ", branch.as_str());
            Ok(
                Command::ChangeRepository {
                    repo_path,
                    change: GitOp::SwitchBranch(branch),
                    done,
                    close_modal: state.modal == Modal::BranchSwitch,
                },
            )
        },
        Modal::BranchCreate => {
            let repo_path = repo_path_or_err(state)?;
            let branch = match BranchName::parse(state.branch_name_input.clone()) {
                Ok(b) => b,
                Err(e) => {
                    return Err(message_of(e));
                },
            };
            let done = joined("Created and switched to ", branch.as_str());
            Ok(
                Command::ChangeRepository {
                    repo_path,
                    change: GitOp::CreateBranch(branch),
                    done,
                    close_modal: true,
                },
            )
        },
        Modal::Commit => confirm_commit(state),
        Modal::CopilotLogin => Ok(Command::Nothing),
        Modal::CreateRepo(_) => confirm_create_repo(state),
    }
}

/// Actions that ask for outside work on the selected repository and change
/// nothing themselves.
pub open spec fn is_repository_action(a: AppAction) -> bool {
    match a {
        AppAction::StageSelected | AppAction::UnstageSelected | AppAction::ToggleStage
        | AppAction::StageAll | AppAction::UnstageAll | AppAction::OpenCommitAmend
        | AppAction::OpenCreateRepo | AppAction::OpenPrInBrowser | AppAction::RefreshPrs
        | AppAction::ConfirmModal | AppAction::DeleteBranch | AppAction::MergeBranch
        | AppAction::GenerateCommitMessage => true,
        _ => false,
    }
}

fn repository_action(state: &AppState, a: AppAction) -> (r: Result<Command, String>)
    requires
        is_repository_action(a),
    ensures
        action_outcome(*state, a, *state, r),
{
    match a {
        AppAction::StageSelected => stage_selected(state, true),
        AppAction::UnstageSelected => stage_selected(state, false),
        AppAction::ToggleStage => {
            match state.selected_file_section() {
                Some(sec) => stage_selected(state, sec != FileSection::Staged),
                None => Err(text("no file selected")),
            }
        },
        AppAction::StageAll => {
            let repo_path = repo_path_or_err(state)?;
            Ok(
                Command::ChangeRepository {
                    repo_path,
                    change: GitOp::StageAll,
                    done: text("Staged all changes"),
                    close_modal: false,
                },
            )
        },
        AppAction::UnstageAll => {
            let repo_path = repo_path_or_err(state)?;
            Ok(
                Command::ChangeRepository {
                    repo_path,
                    change: GitOp::UnstageAll,
                    done: text("Unstaged all changes"),
                    close_modal: false,
                },
            )
        },
        AppAction::OpenCommitAmend => {
            let repo_path = repo_path_or_err(state)?;
            Ok(Command::LoadAmendMessage { repo_path })
        },
        AppAction::OpenCreateRepo => {
            if state.selected_repo < state.repos.len() && state.repos[state.selected_repo].has_origin_remote {
                Err(text("origin remote already exists"))
            } else {
                Ok(Command::CheckGitHubAuth)
            }
        },
        AppAction::OpenPrInBrowser => {
            if state.selected_repo >= state.repos.len() {
                return Err(text("no repository selected"));
            }
            let repo = &state.repos[state.selected_repo];
            if state.selected_pr >= repo.pull_requests.len() {
                return Err(text("no PR selected"));
            }
            Ok(
                Command::OpenPullRequest {
                    repo_path: repo.summary.path.clone(),
                    number: repo.pull_requests[state.selected_pr].number,
                },
            )
        },
        AppAction::RefreshPrs => {
            let repo_path = repo_path_or_err(state)?;
            Ok(Command::RefreshPullRequests { repo_path })
        },
        AppAction::ConfirmModal => confirm_modal(state),
        AppAction::DeleteBranch => delete_branch(state),
        AppAction::MergeBranch => merge_branch(state),
        AppAction::GenerateCommitMessage => {
            if !state.copilot_authenticated {
                return Err(text("not logged in to Copilot — press Ctrl+l to login"));
            }
            let repo_path = repo_path_or_err(state)?;
            Ok(Command::PrepareCommitContext { repo_path })
        },
        _ => Ok(Command::Nothing),
    }
}

/// Moves the create-repository dialog to `step`.
fn go_to_step(state: &mut AppState, step: CreateRepoStep)
    requires
        old(state).create_repo_state is Some,
    ensures
        *final(state) == at_step(*old(state), step),
{
    match state.create_repo_state.take() {
        Some(rs) => {
            let mut rs = rs;
            rs.step = step;
            state.create_repo_state = Some(rs);
        },
        None => {},
    }
    state.modal = Modal::CreateRepo(step);
}

/// Goes to the next step of the create-repository dialog once the current one
/// is filled in; at the last step, creates the repository.
fn create_repo_advance(state: &mut AppState) -> (r: Result<Command, String>)
    ensures
        action_outcome(*old(state), AppAction::CreateRepoNextStep, *final(state), r),
{
    let (step, owner_blank, name_blank) = match &state.create_repo_state {
        None => {
            return Ok(Command::Nothing);
        },
        Some(rs) => (
            rs.step,
            blank(&chars_of(rs.owner_input.as_str())),
            blank(&chars_of(rs.repo_name_input.as_str())),
        ),
    };
    match step {
        CreateRepoStep::Owner => {
            if owner_blank {
                return Err(text("owner cannot be empty"));
            }
            go_to_step(state, CreateRepoStep::RepoName);
        },
        CreateRepoStep::RepoName => {
            if name_blank {
                return Err(text("repository name cannot be empty"));
            }
            go_to_step(state, CreateRepoStep::Visibility);
        },
        CreateRepoStep::Visibility => {
            go_to_step(state, CreateRepoStep::Confirm);
        },
        CreateRepoStep::Confirm => {
            return confirm_create_repo(state);
        },
    }
    Ok(Command::Nothing)
}

/// Goes back one step of the create-repository dialog; from the first, closes it.
fn create_repo_go_back(state: &mut AppState) -> (r: Result<Command, String>)
    ensures
        action_outcome(*old(state), AppAction::CreateRepoPrevStep, *final(state), r),
{
    let step = match &state.create_repo_state {
        None => {
            state.close_modal();
            return Ok(Command::Nothing);
        },
        Some(rs) => rs.step,
    };
    match step {
        CreateRepoStep::Owner => state.close_modal(),
        CreateRepoStep::RepoName => go_to_step(state, CreateRepoStep::Owner),
        CreateRepoStep::Visibility => go_to_step(state, CreateRepoStep::RepoName),
        CreateRepoStep::Confirm => go_to_step(state, CreateRepoStep::Visibility),
    }
    Ok(Command::Nothing)
}

/// Actions that edit the open dialog or start background work.
pub open spec fn is_dialog_action(a: AppAction) -> bool {
    match a {
        AppAction::InsertChar(_) | AppAction::Backspace | AppAction::InsertNewline
        | AppAction::ToggleVisibility | AppAction::CreateRepoNextStep | AppAction::CreateRepoPrevStep
        | AppAction::CopilotLogin => true,
        _ => false,
    }
}

fn dialog_action(state: &mut AppState, a: AppAction) -> (r: Result<Command, String>)
    requires
        is_dialog_action(a),
    ensures
        job_ids_kept(*old(state), *final(state)),
        action_outcome(*old(state), a, *final(state), r),
{
    match a {
        AppAction::InsertChar(c) => edit_text(state, Some(c)),
        AppAction::Backspace => edit_text(state, None),
        AppAction::InsertNewline => {
            if state.modal == Modal::Commit {
                edit_text(state, Some('\n'));
            }
        },
        AppAction::ToggleVisibility => {
            match state.create_repo_state.take() {
                Some(rs) => {
                    let mut rs = rs;
                    rs.is_public = !rs.is_public;
                    state.create_repo_state = Some(rs);
                },
                None => {},
            }
        },
        AppAction::CreateRepoNextStep => {
            return create_repo_advance(state);
        },
        AppAction::CreateRepoPrevStep => {
            return create_repo_go_back(state);
        },
        AppAction::CopilotLogin => {
            let id = state.start_job(JobKind::CopilotLogin);
            return Ok(Command::StartCopilotLogin(id));
        },
        _ => {},
    }
    Ok(Command::Nothing)
}

/// Carries out a user action (`action_outcome`): on success the selections
/// are then synchronized with the lists they point into and the outside work
/// asked for is returned; on failure nothing changes and the message is
/// returned.
#[verifier::rlimit(30)]
pub fn dispatch(state: &mut AppState, action: AppAction) -> (r: Result<Command, String>)
    requires
        steppable(*old(state)),
    ensures
        job_ids_kept(*old(state), *final(state)),
        r is Err <==> action_failure(*old(state), action) is Some,
        r is Err ==> action_outcome(*old(state), action, *final(state), r),
        r is Ok ==> exists|mid: AppState|
            action_outcome(*old(state), action, mid, r) && sync_result(mid, *final(state)),
        old(state).selection_valid() ==> final(state).selection_valid(),
{
    let r = if is_selection_exec(&action) {
        select(state, action)
    } else if is_pr_selection_exec(&action) {
        select_pr(state, action)
    } else if is_view_change_exec(&action) {
        change_view(state, action)
    } else if is_dialog_action_exec(&action) {
        dialog_action(state, action)
    } else {
        repository_action(state, action)
    };
    if r.is_ok() {
        let ghost mid = *state;
        state.sync_selection();
        assert(action_outcome(*old(state), action, mid, r) && sync_result(mid, *state));
        assert(state.active_jobs == mid.active_jobs && state.next_job_id == mid.next_job_id);
        proof {
            if old(state).selection_valid() {
                assert(mid.repos == old(state).repos);
                crate::state::lemma_sync_establishes_selection(mid, *state);
            }
        }
    }
    r
}

fn is_selection_exec(a: &AppAction) -> (r: bool)
    ensures
        r == is_selection(*a),
{
    match a {
        AppAction::Noop | AppAction::Quit | AppAction::RefreshRepos | AppAction::SelectNextRepo
        | AppAction::SelectPreviousRepo | AppAction::SelectRepo(_) | AppAction::SelectNextFile
        | AppAction::SelectPreviousFile | AppAction::SelectFile(_) | AppAction::SelectNextBranch
        | AppAction::SelectPreviousBranch | AppAction::SelectNextLogEntry
        | AppAction::SelectPreviousLogEntry | AppAction::SelectNextRemote
        | AppAction::SelectPreviousRemote => true,
        _ => false,
    }
}

fn is_pr_selection_exec(a: &AppAction) -> (r: bool)
    ensures
        r == (*a is SelectNextPr || *a is SelectPreviousPr || *a is SelectPr),
{
    match a {
        AppAction::SelectNextPr | AppAction::SelectPreviousPr | AppAction::SelectPr(_) => true,
        _ => false,
    }
}

fn is_view_change_exec(a: &AppAction) -> (r: bool)
    ensures
        r == is_view_change(*a),
{
    match a {
        AppAction::ScrollLogDown | AppAction::ScrollLogUp | AppAction::ScrollPrDetailDown
        | AppAction::ScrollPrDetailUp | AppAction::ScrollDiffDown | AppAction::ScrollDiffUp
        | AppAction::OpenBranchSwitch | AppAction::OpenBranchCreate | AppAction::OpenCommitPanel
        | AppAction::CloseModal | AppAction::ToggleHelp | AppAction::SwitchView(_)
        | AppAction::NextView | AppAction::PreviousView => true,
        _ => false,
    }
}

fn is_dialog_action_exec(a: &AppAction) -> (r: bool)
    ensures
        r == is_dialog_action(*a),
{
    match a {
        AppAction::InsertChar(_) | AppAction::Backspace | AppAction::InsertNewline
        | AppAction::ToggleVisibility | AppAction::CreateRepoNextStep | AppAction::CreateRepoPrevStep
        | AppAction::CopilotLogin => true,
        _ => false,
    }
}

// ───────────────────────── after the outside work ─────────────────────────

/// `post` is `pre` showing the informational message `text`.
pub open spec fn informed(pre: AppState, post: AppState, text: Seq<char>) -> bool {
    &&& post.message matches Some(f) && f.level == MessageLevel::Info && f.text@ == text
    &&& post == (AppState { message: post.message, ..pre })
}

/// The message after the repositories were searched again.
pub open spec fn loaded_message(n: nat) -> Seq<char> {
    if n == 0 {
        "No Git repositories found in the current directory or descendants"@
    } else {
        "Loaded "@ + decimal(n) + " repositories"@
    }
}

/// Takes the repositories found by a new search (`repositories_replaced`),
/// keeping the one at `selected_path` selected, and reports how many there are.
pub fn repositories_loaded(
    state: &mut AppState,
    repos: Vec<RepositoryState>,
    selected_path: Option<String>,
)
    ensures
        job_ids_kept(*old(state), *final(state)),
        exists|m1: AppState, m2: AppState|
            repositories_replaced(*old(state), m1, repos@, selected_path) && informed(
                m1,
                m2,
                loaded_message(repos@.len()),
            ) && sync_result(m2, *final(state)),
{
    let n = repos.len();
    let ghost rs = repos@;
    state.set_repositories(repos, selected_path);
    let ghost m1 = *state;
    let text = if n == 0 {
        text("No Git repositories found in the current directory or descendants")
    } else {
        with_number("Loaded ", n as u64, " repositories")
    };
    state.set_info(text);
    let ghost m2 = *state;
    state.sync_selection();
    assert(repositories_replaced(*old(state), m1, rs, selected_path) && informed(m1, m2, loaded_message(rs.len())) && sync_result(m2, *state));
}

/// After a repository change succeeded and the repository was reloaded: the
/// reloaded repository replaces the selected one, the dialog closes when
/// `close_modal`, and `done` is reported.
pub fn repository_changed(state: &mut AppState, repo: RepositoryState, close_modal: bool, done: String)
    ensures
        job_ids_kept(*old(state), *final(state)),
        exists|m1: AppState, m2: AppState, m3: AppState|
            repository_replaced(*old(state), m1, repo) && (if close_modal {
                modal_closed(m1, m2)
            } else {
                m2 == m1
            }) && informed(m2, m3, done@) && sync_result(m3, *final(state)),
{
    let ghost d = done@;
    state.replace_selected_repository(repo);
    let ghost m1 = *state;
    if close_modal {
        state.close_modal();
    }
    let ghost m2 = *state;
    state.set_info(done);
    let ghost m3 = *state;
    state.sync_selection();
    assert(repository_replaced(*old(state), m1, repo) && (if close_modal {
        modal_closed(m1, m2)
    } else {
        m2 == m1
    }) && informed(m2, m3, d) && sync_result(m3, *state));
}

/// After the last commit's message was read for amending: the commit editor
/// opens on it in amend mode; with no previous commit (an empty message), the
/// error `no previous commit to amend` and nothing changes.
pub fn amend_message_loaded(state: &mut AppState, message: String) -> (r: Result<(), String>)
    ensures
        job_ids_kept(*old(state), *final(state)),
        message@.len() == 0 ==> *final(state) == *old(state) && (r matches Err(e) && e@
            == "no previous commit to amend"@),
        message@.len() > 0 ==> r is Ok && sync_result(
            AppState {
                amend_mode: true,
                commit_message_input: message,
                modal: Modal::Commit,
                ..*old(state)
            },
            *final(state),
        ),
{
    if chars_of(message.as_str()).len() == 0 {
        return Err(text("no previous commit to amend"));
    }
    state.amend_mode = true;
    state.commit_message_input = message;
    state.modal = Modal::Commit;
    state.sync_selection();
    Ok(())
}

/// After the staged diff context was built: a blank context is the error
/// `no staged changes to generate a message for`; otherwise a commit message
/// job starts, to be run in the background with the context.
pub fn commit_context_ready(state: &mut AppState, context: &str) -> (r: Result<JobId, String>)
    ensures
        job_ids_kept(*old(state), *final(state)),
        is_blank(context@) ==> *final(state) == *old(state) && (r matches Err(e) && e@
            == "no staged changes to generate a message for"@),
        !is_blank(context@) ==> (r matches Ok(id) && exists|m: AppState|
            job_started(*old(state), m, JobKind::AiCommitMessage, id) && sync_result(m, *final(state))),
{
    if blank(&chars_of(context)) {
        return Err(text("no staged changes to generate a message for"));
    }
    let id = state.start_job(JobKind::AiCommitMessage);
    let ghost m = *state;
    state.sync_selection();
    assert(job_started(*old(state), m, JobKind::AiCommitMessage, id) && sync_result(m, *state));
    Ok(id)
}

/// After the GitHub command line was found signed in: the create-repository
/// dialog opens at its first step, the name proposed being the selected
/// repository's, the repository public.
pub fn create_repo_dialog_opened(state: &mut AppState)
    ensures
        job_ids_kept(*old(state), *final(state)),
        exists|m: AppState|
            (m.create_repo_state matches Some(rs) && rs.step == CreateRepoStep::Owner
                && rs.owner_input@.len() == 0 && rs.repo_name_input@ == (match old(state).current_repo() {
                Some(repo) => repo.summary.name@,
                None => Seq::<char>::empty(),
            }) && rs.is_public) && m == (AppState {
                create_repo_state: m.create_repo_state,
                modal: Modal::CreateRepo(CreateRepoStep::Owner),
                ..*old(state)
            }) && sync_result(m, *final(state)),
{
    let default_name = if state.selected_repo < state.repos.len() {
        state.repos[state.selected_repo].summary.name.clone()
    } else {
        String::new()
    };
    state.create_repo_state = Some(
        CreateRepoState {
            step: CreateRepoStep::Owner,
            owner_input: String::new(),
            repo_name_input: default_name,
            is_public: true,
        },
    );
    state.modal = Modal::CreateRepo(CreateRepoStep::Owner);
    let ghost m = *state;
    state.sync_selection();
    assert(sync_result(m, *state));
}

/// After the GitHub repository was created: the dialog closes; with the
/// selected repository reloaded it replaces the old one and
/// `Created repository: <url>` is reported, else the reload's error is returned.
pub fn repository_created(state: &mut AppState, url: &str, reloaded: Result<RepositoryState, String>) -> (r: Result<(), String>)
    ensures
        job_ids_kept(*old(state), *final(state)),
        match reloaded {
            Ok(repo) => r is Ok && exists|m1: AppState, m2: AppState, m3: AppState|
                modal_closed(*old(state), m1) && repository_replaced(m1, m2, repo) && informed(
                    m2,
                    m3,
                    "Created repository: "@ + url@,
                ) && sync_result(m3, *final(state)),
            Err(e) => r == Err::<(), String>(e) && modal_closed(*old(state), *final(state)),
        },
{
    state.close_modal();
    let ghost m1 = *state;
    match reloaded {
        Ok(repo) => {
            state.replace_selected_repository(repo);
            let ghost m2 = *state;
            state.set_info(joined("Created repository: ", url));
            let ghost m3 = *state;
            state.sync_selection();
            assert(modal_closed(*old(state), m1) && repository_replaced(m1, m2, repo) && informed(
                m2,
                m3,
                "Created repository: "@ + url@,
            ) && sync_result(m3, *state));
            Ok(())
        },
        Err(e) => Err(e),
    }
}

/// After a pull request was opened in the browser.
pub fn pull_request_opened(state: &mut AppState, number: u32)
    ensures
        job_ids_kept(*old(state), *final(state)),
        exists|m: AppState|
            informed(*old(state), m, "Opened PR #"@ + decimal(number as nat) + " in browser"@)
                && sync_result(m, *final(state)),
{
    state.set_info(with_number("Opened PR #", number as u64, " in browser"));
    let ghost m = *state;
    state.sync_selection();
    assert(informed(*old(state), m, "Opened PR #"@ + decimal(number as nat) + " in browser"@));
}

/// The selected repository showing `prs` as its pull requests (unchanged
/// when none is selected).
pub open spec fn with_pull_requests(s: AppState, prs: Seq<PrInfo>, post: AppState) -> bool {
    match s.current_repo() {
        Some(repo) => post.repos@[s.selected_repo as int].pull_requests@ == prs && post.repos@ == s.repos@.update(
            s.selected_repo as int,
            RepositoryState { pull_requests: post.repos@[s.selected_repo as int].pull_requests, ..repo },
        ) && post == (AppState { repos: post.repos, ..s }),
        None => post == s,
    }
}

/// After the pull requests were listed again: the selected repository shows
/// them, the checks of the one shown are loaded (`pr_checks_step`), and
/// `Loaded <n> pull requests` is reported.
pub fn pull_requests_loaded(state: &mut AppState, prs: Vec<PrInfo>) -> (cmd: Command)
    ensures
        job_ids_kept(*old(state), *final(state)),
        exists|m1: AppState, m2: AppState, m3: AppState|
            with_pull_requests(*old(state), prs@, m1) && pr_checks_step(m1, m2, cmd) && informed(
                m2,
                m3,
                "Loaded "@ + decimal(prs@.len()) + " pull requests"@,
            ) && sync_result(m3, *final(state)),
{
    let count = prs.len();
    let ghost ps = prs@;
    if state.selected_repo < state.repos.len() {
        let i = state.selected_repo;
        let mut repos: Vec<RepositoryState> = Vec::new();
        std::mem::swap(&mut repos, &mut state.repos);
        let ghost before = repos@;
        let mut repo = repos.remove(i);
        repo.pull_requests = prs;
        let ghost updated = repo;
        repos.insert(i, repo);
        proof {
            assert(repos@ =~= before.update(i as int, updated));
        }
        state.repos = repos;
    }
    let ghost m1 = *state;
    let cmd = pr_checks_after(state);
    let ghost m2 = *state;
    state.set_info(with_number("Loaded ", count as u64, " pull requests"));
    let ghost m3 = *state;
    state.sync_selection();
    assert(with_pull_requests(*old(state), ps, m1) && pr_checks_step(m1, m2, cmd) && informed(
        m2,
        m3,
        "Loaded "@ + decimal(ps.len()) + " pull requests"@,
    ) && sync_result(m3, *state));
    cmd
}

/// After the checks of the shown pull request were loaded (empty when they
/// could not be): they are cached and the detail scroll resets.
pub fn pr_checks_loaded(state: &mut AppState, checks: Vec<CheckRun>)
    ensures
        job_ids_kept(*old(state), *final(state)),
        *final(state) == (AppState { pr_checks_cache: checks, pr_detail_scroll: 0, ..*old(state) }),
{
    state.pr_checks_cache = checks;
    state.pr_detail_scroll = 0;
}

/// The file whose diff is shown: its repository, its path and its section.
pub struct DiffTarget {
    pub repo_path: String,
    pub file_path: String,
    pub section: FileSection,
}

/// What choosing the diff to show does: with a selected file, it names that
/// file and changes nothing; with none, it clears the shown diff.
pub open spec fn diff_target_chosen(pre: AppState, post: AppState, r: Option<DiffTarget>) -> bool {
    match r {
        Some(t) => post == pre && repo_path_of(pre) == Some(t.repo_path@) && file_path_of(pre) == Some(
            t.file_path@,
        ) && file_section_of(pre) == Some(t.section),
        None => (repo_path_of(pre) is None || file_path_of(pre) is None) && post == (AppState {
            diff_content: None,
            ..pre
        }),
    }
}

/// What showing a diff that was read does: none when it is empty or could
/// not be read.
pub open spec fn diff_shown(pre: AppState, diff: Result<String, String>, post: AppState) -> bool {
    post == (AppState {
        diff_content: match diff {
            Ok(d) => if d@.len() == 0 {
                None
            } else {
                Some(d)
            },
            Err(_) => None,
        },
        ..pre
    })
}

/// The file whose diff to show (the selected one); with none, the shown diff
/// is cleared (`diff_target_chosen`).
pub fn diff_target(state: &mut AppState) -> (r: Option<DiffTarget>)
    ensures
        job_ids_kept(*old(state), *final(state)),
        diff_target_chosen(*old(state), *final(state), r),
{
    let repo_path = match state.selected_repo_path() {
        Some(p) => p,
        None => {
            state.diff_content = None;
            return None;
        },
    };
    let section = match state.selected_file_section() {
        Some(sec) => sec,
        None => {
            state.diff_content = None;
            return None;
        },
    };
    let file_path = match state.selected_file_path() {
        Some(f) => f,
        None => {
            state.diff_content = None;
            return None;
        },
    };
    Some(DiffTarget { repo_path, file_path, section })
}

/// Shows the diff that was read: none when it is empty or could not be read
/// (`diff_shown`).
pub fn diff_loaded(state: &mut AppState, diff: Result<String, String>)
    ensures
        job_ids_kept(*old(state), *final(state)),
        diff_shown(*old(state), diff, *final(state)),
{
    match diff {
        Ok(d) => {
            if chars_of(d.as_str()).len() == 0 {
                state.diff_content = None;
            } else {
                state.diff_content = Some(d);
            }
        },
        Err(_) => {
            state.diff_content = None;
        },
    }
}

// ───────────────────────── background results ─────────────────────────

/// `post` is `pre` without the job `id`.
pub open spec fn job_finished(pre: AppState, post: AppState, id: JobId) -> bool {
    &&& post.active_jobs@ == without_job(pre.active_jobs@, id)
    &&& post == (AppState { active_jobs: post.active_jobs, ..pre })
}

/// `post` is `pre` showing the error message `text`.
pub open spec fn errored(pre: AppState, post: AppState, text: Seq<char>) -> bool {
    &&& post.message matches Some(f) && f.level == MessageLevel::Error && f.text@ == text
    &&& post == (AppState { message: post.message, ..pre })
}

/// The editor text of a generated commit message: the subject, then a line
/// break and the body when there is one.
pub open spec fn message_text(m: GeneratedCommitMessage) -> Seq<char> {
    match m.body {
        Some(b) => m.subject@ + "\n"@ + b@,
        None => m.subject@,
    }
}

/// What a background result does once its job is accounted for (`m` the
/// state then): a generated commit message fills the commit editor, a
/// generated branch name the branch name; a device code opens the sign-in
/// dialog; a completed sign-in closes it with a message (`signed_in` tells the
/// caller to set up the Copilot service); each failure is reported with its
/// context. Results of other kinds only report their failures.
pub open spec fn result_applied(m: AppState, r: BackgroundResult, post: AppState, signed_in: bool) -> bool {
    match r {
        BackgroundResult::CommitMessageGenerated(_, Ok(msg)) => !signed_in
            && post.commit_message_input@ == message_text(msg) && post == (AppState {
            commit_message_input: post.commit_message_input,
            ..m
        }),
        BackgroundResult::CommitMessageGenerated(_, Err(e)) => !signed_in && errored(
            m,
            post,
            "AI generation failed: "@ + e@,
        ),
        BackgroundResult::BranchNameGenerated(_, Ok(name)) => !signed_in && post == (AppState {
            branch_name_input: name,
            ..m
        }),
        BackgroundResult::BranchNameGenerated(_, Err(e)) => !signed_in && errored(
            m,
            post,
            "AI generation failed: "@ + e@,
        ),
        BackgroundResult::DeviceCodeReceived(_, Ok(info)) => !signed_in && post == (AppState {
            device_code: Some(info),
            modal: Modal::CopilotLogin,
            ..m
        }),
        BackgroundResult::DeviceCodeReceived(_, Err(e)) => !signed_in && errored(
            m,
            post,
            "Device flow failed: "@ + e@,
        ),
        BackgroundResult::LoginCompleted(_, Ok(_)) => signed_in && informed(
            AppState { device_code: None, modal: Modal::Closed, ..m },
            post,
            "Logged in to GitHub Copilot"@,
        ),
        BackgroundResult::LoginCompleted(_, Err(e)) => !signed_in && errored(
            AppState { device_code: None, modal: Modal::Closed, ..m },
            post,
            "Copilot login failed: "@ + e@,
        ),
        BackgroundResult::FetchCompleted(_, Err(e)) | BackgroundResult::PushCompleted(_, Err(e))
        | BackgroundResult::PullCompleted(_, Err(e)) | BackgroundResult::PrsLoaded(_, Err(e))
        | BackgroundResult::PrChecksLoaded(_, Err(e)) | BackgroundResult::ReposRefreshed(_, Err(e))
        | BackgroundResult::RepoCreated(_, Err(e)) | BackgroundResult::PrDescriptionGenerated(_, Err(e))
        | BackgroundResult::PrCreated(_, Err(e)) => !signed_in && errored(m, post, e@),
        _ => !signed_in && post == m,
    }
}

/// Whether a result ends its job: every result but a received device code,
/// after which the sign-in goes on.
pub open spec fn ends_job(r: BackgroundResult) -> bool {
    !(r matches BackgroundResult::DeviceCodeReceived(_, Ok(_)))
}

/// Takes the result of a background job (`result_applied`), which first stops
/// being tracked (`ends_job`); returns whether the user just signed in to Copilot.
pub fn background_result(state: &mut AppState, result: BackgroundResult) -> (signed_in: bool)
    ensures
        job_ids_kept(*old(state), *final(state)),
        exists|m: AppState|
            (if ends_job(result) {
                job_finished(*old(state), m, result_job(result))
            } else {
                m == *old(state)
            }) && result_applied(m, result, *final(state), signed_in),
{
    let ghost r0 = result;
    let id = result.job_id();
    let ends = match &result {
        BackgroundResult::DeviceCodeReceived(_, Ok(_)) => false,
        _ => true,
    };
    if ends {
        state.finish_job(id);
    }
    let ghost m = *state;
    let signed_in = match result {
        BackgroundResult::CommitMessageGenerated(_, Ok(msg)) => {
            let mut t = chars_of(msg.subject.as_str());
            match &msg.body {
                Some(b) => {
                    append_chars(&mut t, &chars_of("\n"));
                    append_chars(&mut t, &chars_of(b.as_str()));
                },
                None => {},
            }
            state.commit_message_input = string_of(&t);
            false
        },
        BackgroundResult::CommitMessageGenerated(_, Err(e)) => {
            state.set_error(joined("AI generation failed: ", e.as_str()));
            false
        },
        BackgroundResult::BranchNameGenerated(_, Ok(name)) => {
            state.branch_name_input = name;
            false
        },
        BackgroundResult::BranchNameGenerated(_, Err(e)) => {
            state.set_error(joined("AI generation failed: ", e.as_str()));
            false
        },
        BackgroundResult::DeviceCodeReceived(_, Ok(info)) => {
            state.device_code = Some(info);
            state.modal = Modal::CopilotLogin;
            false
        },
        BackgroundResult::DeviceCodeReceived(_, Err(e)) => {
            state.set_error(joined("Device flow failed: ", e.as_str()));
            false
        },
        BackgroundResult::LoginCompleted(_, Ok(_)) => {
            state.device_code = None;
            state.modal = Modal::Closed;
            state.set_info(text("Logged in to GitHub Copilot"));
            true
        },
        BackgroundResult::LoginCompleted(_, Err(e)) => {
            state.device_code = None;
            state.modal = Modal::Closed;
            state.set_error(joined("Copilot login failed: ", e.as_str()));
            false
        },
        BackgroundResult::FetchCompleted(_, Err(e)) | BackgroundResult::PushCompleted(_, Err(e))
        | BackgroundResult::PullCompleted(_, Err(e)) | BackgroundResult::PrsLoaded(_, Err(e))
        | BackgroundResult::PrChecksLoaded(_, Err(e)) | BackgroundResult::ReposRefreshed(_, Err(e))
        | BackgroundResult::RepoCreated(_, Err(e)) | BackgroundResult::PrDescriptionGenerated(_, Err(e))
        | BackgroundResult::PrCreated(_, Err(e)) => {
            state.set_error(e);
            false
        },
        _ => false,
    };
    assert((if ends_job(r0) {
        job_finished(*old(state), m, result_job(r0))
    } else {
        m == *old(state)
    }) && result_applied(m, r0, *state, signed_in));
    signed_in
}

// ───────────────────────── the event loop's decisions ─────────────────────────

/// Handles a key: its action (`key_action`) is carried out; a failure is
/// shown as an error message, and then there is no outside work.
pub fn handle_key_event(state: &mut AppState, key_event: KeyEvent) -> (r: Command)
    requires
        steppable(*old(state)),
    ensures
        job_ids_kept(*old(state), *final(state)),
        ({
            let a = key_action(old(state).active_view, old(state).modal, key_event);
            match action_failure(*old(state), a) {
                Some(e) => errored(*old(state), *final(state), e) && r is Nothing,
                None => exists|mid: AppState|
                    action_outcome(*old(state), a, mid, Ok(r)) && sync_result(mid, *final(state)),
            }
        }),
        old(state).selection_valid() ==> final(state).selection_valid(),
{
    let action = map_key_event(&state.active_view, &state.modal, key_event);
    match dispatch(state, action) {
        Ok(cmd) => cmd,
        Err(e) => {
            state.set_error(e);
            Command::Nothing
        },
    }
}

/// Handles a mouse event: its action (`mouse_action`) is carried out like a
/// key's; a failure is shown as an error message.
pub fn handle_mouse_event(state: &mut AppState, mouse: MouseInput, screen: &ScreenAreas) -> (r: Command)
    requires
        steppable(*old(state)),
    ensures
        job_ids_kept(*old(state), *final(state)),
        ({
            let a = mouse_action(mouse, *screen, *old(state));
            match action_failure(*old(state), a) {
                Some(e) => errored(*old(state), *final(state), e) && r is Nothing,
                None => exists|mid: AppState|
                    action_outcome(*old(state), a, mid, Ok(r)) && sync_result(mid, *final(state)),
            }
        }),
        old(state).selection_valid() ==> final(state).selection_valid(),
{
    let action = map_mouse_event(mouse, screen, state);
    match dispatch(state, action) {
        Ok(cmd) => cmd,
        Err(e) => {
            state.set_error(e);
            Command::Nothing
        },
    }
}

/// Which automatic refreshes are due.
#[derive(Clone, Copy, Debug)]
pub struct RefreshDue {
    pub fetch: bool,
    pub status: bool,
    pub branches: bool,
    pub prs: bool,
}

/// A refresh is due when it is enabled and at least its interval has passed
/// since it last ran.
pub open spec fn due(enabled: bool, interval_secs: u64, elapsed_ms: u64) -> bool {
    enabled && elapsed_ms >= interval_secs * 1000
}

fn due_exec(enabled: bool, interval_secs: u64, elapsed_ms: u64) -> (r: bool)
    ensures
        r == due(enabled, interval_secs, elapsed_ms),
{
    enabled && elapsed_ms as u128 >= interval_secs as u128 * 1000
}

/// Which automatic refreshes are due, given the milliseconds since each last ran.
pub fn refreshes_due(
    settings: &AutoRefreshSettings,
    since_fetch_ms: u64,
    since_status_ms: u64,
    since_branches_ms: u64,
    since_prs_ms: u64,
) -> (r: RefreshDue)
    ensures
        r.fetch == due(settings.fetch_enabled, settings.fetch_interval_secs, since_fetch_ms),
        r.status == due(settings.status_enabled, settings.status_interval_secs, since_status_ms),
        r.branches == due(
            settings.branches_enabled,
            settings.branches_interval_secs,
            since_branches_ms,
        ),
        r.prs == due(settings.prs_enabled, settings.prs_interval_secs, since_prs_ms),
{
    RefreshDue {
        fetch: due_exec(settings.fetch_enabled, settings.fetch_interval_secs, since_fetch_ms),
        status: due_exec(settings.status_enabled, settings.status_interval_secs, since_status_ms),
        branches: due_exec(
            settings.branches_enabled,
            settings.branches_interval_secs,
            since_branches_ms,
        ),
        prs: due_exec(settings.prs_enabled, settings.prs_interval_secs, since_prs_ms),
    }
}

/// Advances the spinner by one frame (the tick wraps after 255).
pub fn tick_spinner(state: &mut AppState)
    ensures
        job_ids_kept(*old(state), *final(state)),
        *final(state) == (AppState {
            spinner_tick: (if old(state).spinner_tick == 255 {
                0
            } else {
                old(state).spinner_tick + 1
            }) as u8,
            ..*old(state)
        }),
{
    state.spinner_tick = state.spinner_tick.wrapping_add(1);
}

/// After a successful action and the diff step that follows it (choose the
/// selected file's diff, read it, show it), the diff shown is never an empty
/// text, everything else is as the action left it, and the selections stay
/// inside their lists.
pub proof fn lemma_action_then_diff(
    pre: AppState,
    action: AppAction,
    cmd: Command,
    mid: AppState,
    chosen: AppState,
    target: Option<DiffTarget>,
    diff: Result<String, String>,
    post: AppState,
)
    requires
        steppable(pre),
        action_failure(pre, action) is None,
        exists|m: AppState|
            action_outcome(pre, action, m, Ok::<Command, String>(cmd)) && sync_result(m, mid),
        pre.selection_valid() ==> mid.selection_valid(),
        diff_target_chosen(mid, chosen, target),
        target is Some ==> diff_shown(chosen, diff, post),
        target is None ==> post == chosen,
    ensures
        post.diff_content matches Some(d) ==> d@.len() > 0,
        post == (AppState { diff_content: post.diff_content, ..mid }),
        pre.selection_valid() ==> post.selection_valid(),
{
}

} // verus!
