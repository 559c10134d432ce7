//! The application state: repositories, selections, modal dialogs, inputs
//! and background jobs, with the operations that keep selections in range.
use vstd::prelude::*;
use vstd::view::View as _;
use vstd::relations::sorted_by;
use vstd::string::StringExecFns;

use crate::commit::LogEntry;
use crate::domain::{
    CheckRun, PrInfo, RemoteInfo, RepositoryDetails, RepositorySummary, TrackingStatus,
};
use crate::jobs::{instant_now, ActiveJob, DeviceCodeInfo, JobId, JobKind};
use crate::search::{first_where, lemma_first_where, lemma_first_where_shape};
use crate::settings::{default_ai, default_auto_refresh, default_pr, AppSettings};
use crate::sort::{insertion_sorted, sort_by_le, total_preorder, views};
use crate::status::{ChangedFile, FileModel, FileSection};
use crate::text::{chars_of, contains_chars, contains_text, lowercase, str_eq, to_lowercase};

verus! {

// ───────────────────────── views and dialogs ─────────────────────────

/// The main views, in tab order.
#[derive(Clone, Copy, Debug, PartialEq, Eq, Structural)]
pub enum View {
    Changes,
    Branches,
    Commits,
    Pr,
    Settings,
}

/// Number of views.
pub open spec fn view_count() -> nat {
    5
}

/// Position of a view in tab order.
pub open spec fn view_index(v: View) -> nat {
    match v {
        View::Changes => 0,
        View::Branches => 1,
        View::Commits => 2,
        View::Pr => 3,
        View::Settings => 4,
    }
}

/// The view at a position in tab order (positions past the end give `Changes`).
pub open spec fn view_at(i: nat) -> View {
    if i == 0 {
        View::Changes
    } else if i == 1 {
        View::Branches
    } else if i == 2 {
        View::Commits
    } else if i == 3 {
        View::Pr
    } else if i == 4 {
        View::Settings
    } else {
        View::Changes
    }
}

impl View {
    /// Position in tab order.
    pub fn index(&self) -> (r: usize)
        ensures
            r == view_index(*self),
    {
        match self {
            View::Changes => 0,
            View::Branches => 1,
            View::Commits => 2,
            View::Pr => 3,
            View::Settings => 4,
        }
    }

    /// The view at a position in tab order.
    pub fn from_index(i: usize) -> (r: View)
        ensures
            r == view_at(i as nat),
    {
        if i == 0 {
            View::Changes
        } else if i == 1 {
            View::Branches
        } else if i == 2 {
            View::Commits
        } else if i == 3 {
            View::Pr
        } else if i == 4 {
            View::Settings
        } else {
            View::Changes
        }
    }

    /// The tab title.
    pub fn label(&self) -> (r: &'static str)
        ensures
            *self == View::Changes ==> r@ == "Changes"@,
            *self == View::Branches ==> r@ == "Branches"@,
            *self == View::Commits ==> r@ == "Commits"@,
            *self == View::Pr ==> r@ == "PR"@,
            *self == View::Settings ==> r@ == "Settings"@,
    {
        match self {
            View::Changes => "Changes",
            View::Branches => "Branches",
            View::Commits => "Commits",
            View::Pr => "PR",
            View::Settings => "Settings",
        }
    }
}

impl Default for View {
    fn default() -> (r: View)
        ensures
            r == View::Changes,
    {
        View::Changes
    }
}

/// Position in tab order and view are inverse.
pub proof fn lemma_view_index_roundtrip(v: View)
    ensures
        view_index(v) < view_count(),
        view_at(view_index(v)) == v,
{
}

/// Steps of the "create GitHub repository" dialog.
#[derive(Clone, Copy, Debug, PartialEq, Eq, Structural)]
pub enum CreateRepoStep {
    Owner,
    RepoName,
    Visibility,
    Confirm,
}

/// What has been entered so far in the "create GitHub repository" dialog.
#[derive(Clone, Debug)]
pub struct CreateRepoState {
    pub step: CreateRepoStep,
    pub owner_input: String,
    pub repo_name_input: String,
    pub is_public: bool,
}

/// The dialog on top of the views, if any.
#[derive(Clone, Copy, Debug, PartialEq, Eq, Structural)]
pub enum Modal {
    /// No dialog is open.
    Closed,
    BranchSwitch,
    BranchCreate,
    Commit,
    CopilotLogin,
    CreateRepo(CreateRepoStep),
}

/// Severity of a flash message.
#[derive(Clone, Copy, Debug, PartialEq, Eq, Structural)]
pub enum MessageLevel {
    Info,
    Error,
}

/// A one-line message shown to the user.
#[derive(Clone, Debug)]
pub struct FlashMessage {
    pub level: MessageLevel,
    pub text: String,
}

// ───────────────────────── repositories ─────────────────────────

/// One repository as shown by the application.
#[derive(Clone, Debug)]
pub struct RepositoryState {
    pub summary: RepositorySummary,
    pub current_branch: Option<String>,
    pub branches: Vec<String>,
    pub status_files: Vec<ChangedFile>,
    pub log_entries: Vec<LogEntry>,
    pub remotes: Vec<RemoteInfo>,
    pub pull_requests: Vec<PrInfo>,
    pub has_origin_remote: bool,
    pub load_error: Option<String>,
}

impl vstd::view::View for RepositoryState {
    type V = RepositoryState;

    open spec fn view(&self) -> RepositoryState {
        *self
    }
}

/// The texts of a vector of strings.
pub open spec fn strings(v: Seq<String>) -> Seq<Seq<char>> {
    v.map_values(|s: String| s@)
}

/// Time of the newest commit of a repository (its first log entry), 0 when it has none.
pub open spec fn latest_timestamp(r: RepositoryState) -> i64 {
    if r.log_entries@.len() > 0 {
        r.log_entries@[0].timestamp
    } else {
        0
    }
}

/// Whether some remote is named `origin`.
pub open spec fn has_origin(remotes: Seq<RemoteInfo>) -> bool {
    exists|i: int| 0 <= i < remotes.len() && (#[trigger] remotes[i]).name@ == "origin"@
}

impl RepositoryState {
    /// The state of a repository whose details were loaded.
    pub fn from_details(details: RepositoryDetails) -> (r: RepositoryState)
        ensures
            r.summary == details.summary,
            r.current_branch == details.current_branch,
            strings(r.branches@) == details.branches@.map_values(
                |b: crate::domain::BranchInfo| b.name@,
            ),
            r.status_files == details.status.files,
            r.log_entries == details.log_entries,
            r.remotes == details.remotes,
            r.pull_requests@.len() == 0,
            r.has_origin_remote == has_origin(details.remotes@),
            r.load_error.is_none(),
    {
        let mut has_origin_remote = false;
        let mut i: usize = 0;
        let origin = String::from_str("origin");
        while i < details.remotes.len()
            invariant
                i <= details.remotes@.len(),
                origin@ == "origin"@,
                has_origin_remote == exists|j: int|
                    0 <= j < i && (#[trigger] details.remotes@[j]).name@ == "origin"@,
            decreases details.remotes@.len() - i,
        {
            if str_eq(&details.remotes[i].name, &origin) {
                has_origin_remote = true;
            }
            i = i + 1;
        }
        let mut branches: Vec<String> = Vec::new();
        let mut k: usize = 0;
        while k < details.branches.len()
            invariant
                k <= details.branches@.len(),
                strings(branches@) =~= details.branches@.take(k as int).map_values(
                    |b: crate::domain::BranchInfo| b.name@,
                ),
            decreases details.branches@.len() - k,
        {
            let name = String::from_str(details.branches[k].name.as_str());
            let ghost before = branches@;
            branches.push(name);
            proof {
                assert(strings(branches@) =~= strings(before).push(name@));
                assert(details.branches@.take(k + 1) =~= details.branches@.take(k as int).push(
                    details.branches@[k as int],
                ));
            }
            k = k + 1;
        }
        proof {
            assert(details.branches@.take(k as int) =~= details.branches@);
        }
        RepositoryState {
            summary: details.summary,
            current_branch: details.current_branch,
            branches,
            status_files: details.status.files,
            log_entries: details.log_entries,
            remotes: details.remotes,
            pull_requests: Vec::new(),
            has_origin_remote,
            load_error: None,
        }
    }

    /// The state of a repository whose details could not be loaded.
    pub fn from_error(summary: RepositorySummary, error: String) -> (r: RepositoryState)
        ensures
            r.summary == summary,
            r.current_branch.is_none(),
            r.branches@.len() == 0,
            r.status_files@.len() == 0,
            r.log_entries@.len() == 0,
            r.remotes@.len() == 0,
            r.pull_requests@.len() == 0,
            !r.has_origin_remote,
            r.load_error == Some(error),
    {
        RepositoryState {
            summary,
            current_branch: None,
            branches: Vec::new(),
            status_files: Vec::new(),
            log_entries: Vec::new(),
            remotes: Vec::new(),
            pull_requests: Vec::new(),
            has_origin_remote: false,
            load_error: Some(error),
        }
    }

    /// Time of the newest commit, 0 when there is none.
    pub fn latest_commit_timestamp(&self) -> (r: i64)
        ensures
            r == latest_timestamp(*self),
    {
        if self.log_entries.len() > 0 {
            self.log_entries[0].timestamp
        } else {
            0
        }
    }
}

// ───────────────────────── grouped file list ─────────────────────────

/// A row of the grouped file list: a file and the group it is listed under.
#[derive(Clone, Copy, Debug, PartialEq, Eq, Structural)]
pub struct FileEntry {
    pub file_index: usize,
    pub section: FileSection,
}

/// Whether a file is listed under a group.
pub open spec fn in_section(f: FileModel, sec: FileSection) -> bool {
    match sec {
        FileSection::Staged => f.staged,
        FileSection::Unstaged => f.unstaged && !f.untracked,
        FileSection::Untracked => f.untracked,
    }
}

/// The rows of one group for the first `n` files, in file order.
pub open spec fn section_entries(fs: Seq<FileModel>, sec: FileSection, n: nat) -> Seq<FileEntry>
    decreases n,
{
    if n == 0 {
        Seq::empty()
    } else {
        let r = section_entries(fs, sec, (n - 1) as nat);
        if in_section(fs[n - 1], sec) {
            r.push(FileEntry { file_index: (n - 1) as usize, section: sec })
        } else {
            r
        }
    }
}

/// The rows of the grouped file list: staged files, then tracked files with
/// unstaged changes, then untracked files.
pub open spec fn grouped_entries(fs: Seq<FileModel>) -> Seq<FileEntry> {
    section_entries(fs, FileSection::Staged, fs.len()) + section_entries(
        fs,
        FileSection::Unstaged,
        fs.len(),
    ) + section_entries(fs, FileSection::Untracked, fs.len())
}

/// Number of rows of a group.
pub open spec fn count_section(es: Seq<FileEntry>, sec: FileSection) -> nat
    decreases es.len(),
{
    if es.len() == 0 {
        0
    } else {
        count_section(es.drop_last(), sec) + if es.last().section == sec {
            1nat
        } else {
            0nat
        }
    }
}

/// Every row of a group points at a file of that group.
pub proof fn lemma_section_entries_valid(fs: Seq<FileModel>, sec: FileSection, n: nat)
    requires
        n <= fs.len(),
        fs.len() <= usize::MAX,
    ensures
        section_entries(fs, sec, n).len() <= n,
        forall|i: int|
            0 <= i < section_entries(fs, sec, n).len() ==> {
                let e = #[trigger] section_entries(fs, sec, n)[i];
                &&& e.file_index < n
                &&& e.section == sec
                &&& in_section(fs[e.file_index as int], sec)
            },
    decreases n,
{
    if n > 0 {
        lemma_section_entries_valid(fs, sec, (n - 1) as nat);
    }
}

/// The files listed under their groups.
#[derive(Clone, Debug)]
pub struct GroupedFileList {
    pub entries: Vec<FileEntry>,
}

impl Default for GroupedFileList {
    fn default() -> (r: GroupedFileList)
        ensures
            r.entries@.len() == 0,
    {
        GroupedFileList { entries: Vec::new() }
    }
}

fn push_section(entries: &mut Vec<FileEntry>, files: &[ChangedFile], sec: FileSection)
    ensures
        final(entries)@ == old(entries)@ + section_entries(views(files@), sec, files@.len()),
{
    let mut i: usize = 0;
    let ghost start = entries@;
    while i < files.len()
        invariant
            i <= files@.len(),
            entries@ == start + section_entries(views(files@), sec, i as nat),
        decreases files@.len() - i,
    {
        let f = &files[i];
        let member = match sec {
            FileSection::Staged => f.staged,
            FileSection::Unstaged => f.unstaged && !f.untracked,
            FileSection::Untracked => f.untracked,
        };
        proof {
            assert(views(files@)[i as int] == files@[i as int]@);
        }
        if member {
            entries.push(FileEntry { file_index: i, section: sec });
        }
        i = i + 1;
    }
}

impl GroupedFileList {
    /// Lists the files under their groups (`grouped_entries`).
    pub fn build(files: &[ChangedFile]) -> (r: GroupedFileList)
        ensures
            r.entries@ == grouped_entries(views(files@)),
    {
        let mut entries: Vec<FileEntry> = Vec::new();
        push_section(&mut entries, files, FileSection::Staged);
        push_section(&mut entries, files, FileSection::Unstaged);
        push_section(&mut entries, files, FileSection::Untracked);
        proof {
            assert(views(files@).len() == files@.len());
            assert(entries@ =~= grouped_entries(views(files@)));
        }
        GroupedFileList { entries }
    }

    /// Number of rows of a group.
    pub fn section_count(&self, section: FileSection) -> (r: usize)
        ensures
            r == count_section(self.entries@, section),
    {
        let mut n: usize = 0;
        let mut i: usize = 0;
        while i < self.entries.len()
            invariant
                i <= self.entries@.len(),
                n == count_section(self.entries@.take(i as int), section),
                n <= i,
            decreases self.entries@.len() - i,
        {
            proof {
                assert(self.entries@.take(i + 1).drop_last() =~= self.entries@.take(i as int));
            }
            if self.entries[i].section == section {
                n = n + 1;
            }
            i = i + 1;
        }
        proof {
            assert(self.entries@.take(i as int) =~= self.entries@);
        }
        n
    }

    /// Whether a group has rows.
    pub fn has_section(&self, section: FileSection) -> (r: bool)
        ensures
            r == exists|i: int|
                0 <= i < self.entries@.len() && (#[trigger] self.entries@[i]).section == section,
    {
        let mut i: usize = 0;
        while i < self.entries.len()
            invariant
                i <= self.entries@.len(),
                forall|j: int| 0 <= j < i ==> (#[trigger] self.entries@[j]).section != section,
            decreases self.entries@.len() - i,
        {
            if self.entries[i].section == section {
                return true;
            }
            i = i + 1;
        }
        false
    }
}

// ───────────────────────── the application state ─────────────────────────

/// Everything the application shows and edits.
#[derive(Clone, Debug)]
pub struct AppState {
    pub repos: Vec<RepositoryState>,
    pub selected_repo: usize,
    pub selected_file: usize,
    pub selected_branch: usize,
    pub selected_log_entry: usize,
    pub selected_remote: usize,
    pub selected_pr: usize,
    pub pr_detail_scroll: u16,
    pub log_scroll: u16,
    pub active_view: View,
    pub modal: Modal,
    pub branch_name_input: String,
    pub commit_message_input: String,
    pub message: Option<FlashMessage>,
    pub show_help: bool,
    pub should_quit: bool,
    pub grouped_files: GroupedFileList,
    pub diff_content: Option<String>,
    pub diff_scroll: u16,
    pub active_jobs: Vec<ActiveJob>,
    /// Identity the next started job receives.
    pub next_job_id: JobId,
    pub spinner_tick: u8,
    pub device_code: Option<DeviceCodeInfo>,
    pub copilot_authenticated: bool,
    pub create_repo_state: Option<CreateRepoState>,
    pub pr_checks_cache: Vec<CheckRun>,
    pub amend_mode: bool,
    pub branch_tracking: Option<TrackingStatus>,
    pub branch_filter: String,
    pub filtered_branches: Vec<usize>,
    pub settings: AppSettings,
    pub selected_settings_item: usize,
}

/// `i` limited to the last index of a list of `n` items (0 when empty).
pub open spec fn clamp(i: usize, n: nat) -> usize {
    if n == 0 {
        0
    } else if (i as nat) < n {
        i
    } else {
        (n - 1) as usize
    }
}

/// `i` selects an item of a list of `n` items, or is 0 when the list is empty.
pub open spec fn idx_ok(i: usize, n: nat) -> bool {
    if n == 0 {
        i == 0
    } else {
        (i as nat) < n
    }
}

/// The next index, wrapping to the first.
pub open spec fn next_index(i: usize, n: nat) -> usize {
    if n == 0 {
        i
    } else {
        ((i + 1) % (n as int)) as usize
    }
}

/// The previous index, wrapping to the last.
pub open spec fn previous_index(i: usize, n: nat) -> usize {
    if n == 0 {
        i
    } else if i == 0 {
        (n - 1) as usize
    } else {
        (i - 1) as usize
    }
}

/// Indices of the branches whose lowercase name contains the lowercase
/// filter (all of them when the filter is empty), among the first `n`.
pub open spec fn matching_branches(names: Seq<Seq<char>>, filter: Seq<char>, n: nat) -> Seq<usize>
    decreases n,
{
    if n == 0 {
        Seq::empty()
    } else {
        let r = matching_branches(names, filter, (n - 1) as nat);
        if filter.len() == 0 || contains_text(lowercase(names[n - 1]), lowercase(filter)) {
            r.push((n - 1) as usize)
        } else {
            r
        }
    }
}

/// The spinner frames.
pub open spec fn spinner_frames() -> Seq<char> {
    seq!['⠋', '⠙', '⠹', '⠸', '⠼', '⠴', '⠦', '⠧', '⠇', '⠏']
}

impl AppState {
    /// The selected repository, when the selection points at one.
    pub open spec fn current_repo(self) -> Option<RepositoryState> {
        if (self.selected_repo as nat) < self.repos@.len() {
            Some(self.repos@[self.selected_repo as int])
        } else {
            None
        }
    }

    /// Index of the checked-out branch in the selected repository's branch list.
    pub open spec fn branch_index(self) -> Option<usize> {
        match self.current_repo() {
            Some(r) => match r.current_branch {
                Some(c) => {
                    let k = first_where(strings(r.branches@), |b: Seq<char>| b == c@);
                    if k < r.branches@.len() {
                        Some(k as usize)
                    } else {
                        None
                    }
                },
                None => None,
            },
            None => None,
        }
    }

    /// Every selection points at an item of its list, or is 0 when the list is empty.
    pub open spec fn selection_valid(self) -> bool {
        &&& idx_ok(self.selected_repo, self.repos@.len())
        &&& idx_ok(self.selected_file, self.grouped_files.entries@.len())
        &&& idx_ok(self.selected_branch, self.filtered_branches@.len())
        &&& match self.current_repo() {
            Some(r) => {
                &&& idx_ok(self.selected_log_entry, r.log_entries@.len())
                &&& idx_ok(self.selected_remote, r.remotes@.len())
                &&& idx_ok(self.selected_pr, r.pull_requests@.len())
            },
            None => {
                &&& self.selected_log_entry == 0
                &&& self.selected_remote == 0
                &&& self.selected_pr == 0
            },
        }
    }
}

impl AppState {
    /// The state after selecting repository `i`: the file selection reset,
    /// its checked-out branch selected, the diff cleared.
    pub open spec fn with_repo_selected(self, i: usize) -> AppState {
        let mid = AppState { selected_repo: i, ..self };
        AppState {
            selected_file: 0,
            selected_branch: match mid.branch_index() {
                Some(b) => b,
                None => 0,
            },
            diff_content: None,
            diff_scroll: 0,
            ..mid
        }
    }

    /// `select_next_repo`: the next repository (wrapping); nothing when there is none.
    pub open spec fn after_next_repo(self) -> AppState {
        if self.repos@.len() == 0 {
            self
        } else {
            self.with_repo_selected(next_index(self.selected_repo, self.repos@.len()))
        }
    }

    /// `select_previous_repo`: the previous repository (wrapping).
    pub open spec fn after_previous_repo(self) -> AppState {
        if self.repos@.len() == 0 {
            self
        } else {
            self.with_repo_selected(previous_index(self.selected_repo, self.repos@.len()))
        }
    }

    /// `select_next_file`: the next one, wrapping.
    pub open spec fn after_next_file(self) -> AppState {
        AppState { selected_file: next_index(self.selected_file, self.grouped_files.entries@.len()), ..self }
    }

    /// `select_previous_file`: the previous one, wrapping.
    pub open spec fn after_previous_file(self) -> AppState {
        AppState { selected_file: previous_index(self.selected_file, self.grouped_files.entries@.len()), ..self }
    }

    /// `select_next_branch`: the next one, wrapping.
    pub open spec fn after_next_branch(self) -> AppState {
        AppState { selected_branch: next_index(self.selected_branch, self.filtered_branches@.len()), ..self }
    }

    /// `select_previous_branch`: the previous one, wrapping.
    pub open spec fn after_previous_branch(self) -> AppState {
        AppState { selected_branch: previous_index(self.selected_branch, self.filtered_branches@.len()), ..self }
    }

    /// `select_next_log_entry`: the next one, wrapping.
    pub open spec fn after_next_log_entry(self) -> AppState {
        AppState { selected_log_entry: next_index(self.selected_log_entry, self.log_len()), ..self }
    }

    /// `select_previous_log_entry`: the previous one, wrapping.
    pub open spec fn after_previous_log_entry(self) -> AppState {
        AppState { selected_log_entry: previous_index(self.selected_log_entry, self.log_len()), ..self }
    }

    /// `select_next_remote`: the next one, wrapping.
    pub open spec fn after_next_remote(self) -> AppState {
        AppState { selected_remote: next_index(self.selected_remote, self.remote_len()), ..self }
    }

    /// `select_previous_remote`: the previous one, wrapping.
    pub open spec fn after_previous_remote(self) -> AppState {
        AppState { selected_remote: previous_index(self.selected_remote, self.remote_len()), ..self }
    }

    /// `select_next_pr`: the next one, wrapping.
    pub open spec fn after_next_pr(self) -> AppState {
        AppState { selected_pr: next_index(self.selected_pr, self.pr_len()), ..self }
    }

    /// `select_previous_pr`: the previous one, wrapping.
    pub open spec fn after_previous_pr(self) -> AppState {
        AppState { selected_pr: previous_index(self.selected_pr, self.pr_len()), ..self }
    }

    /// `switch_view`: the view shown, the diff scroll reset when it changes.
    pub open spec fn after_switch_view(self, view: View) -> AppState {
        if self.active_view == view {
            self
        } else {
            AppState { active_view: view, diff_scroll: 0, ..self }
        }
    }
}

/// The view after `v` in tab order (after the last comes the first).
pub open spec fn next_view_of(v: View) -> View {
    view_at(((view_index(v) + 1) % 5) as nat)
}

/// The view before `v` in tab order (before the first comes the last).
pub open spec fn previous_view_of(v: View) -> View {
    view_at(
        if view_index(v) == 0 {
            4
        } else {
            (view_index(v) - 1) as nat
        },
    )
}

/// `post` is `pre` with the branch filter recomputed: the branches of the
/// selected repository that match the filter, and the branch selection kept
/// inside them.
pub open spec fn branch_filter_result(pre: AppState, post: AppState) -> bool {
    &&& post == (AppState {
        filtered_branches: post.filtered_branches,
        selected_branch: post.selected_branch,
        ..pre
    })
    &&& match pre.current_repo() {
        Some(repo) => {
            &&& post.filtered_branches@ == matching_branches(
                strings(repo.branches@),
                pre.branch_filter@,
                repo.branches@.len(),
            )
            &&& post.selected_branch == clamp(pre.selected_branch, post.filtered_branches@.len())
        },
        None => {
            &&& post.filtered_branches@.len() == 0
            &&& post.selected_branch == pre.selected_branch
        },
    }
}

/// `post` is `pre` with the file list rebuilt from the selected repository and
/// every selection kept inside its list (all reset when no repository is selected).
pub open spec fn sync_result(pre: AppState, post: AppState) -> bool {
    match pre.current_repo() {
        Some(repo) => {
            let entries = grouped_entries(views(repo.status_files@));
            let mid = AppState {
                grouped_files: post.grouped_files,
                selected_file: clamp(pre.selected_file, entries.len()),
                selected_log_entry: clamp(pre.selected_log_entry, repo.log_entries@.len()),
                selected_remote: clamp(pre.selected_remote, repo.remotes@.len()),
                selected_pr: clamp(pre.selected_pr, repo.pull_requests@.len()),
                ..pre
            };
            &&& post.grouped_files.entries@ == entries
            &&& branch_filter_result(mid, post)
        },
        None => {
            let mid = AppState {
                grouped_files: post.grouped_files,
                selected_file: 0,
                selected_branch: 0,
                selected_log_entry: 0,
                selected_remote: 0,
                selected_pr: 0,
                ..pre
            };
            &&& post.grouped_files.entries@.len() == 0
            &&& branch_filter_result(mid, post)
        },
    }
}

/// After synchronizing, every selection is inside its list.
pub proof fn lemma_sync_establishes_selection(pre: AppState, post: AppState)
    requires
        sync_result(pre, post),
        idx_ok(pre.selected_repo, pre.repos@.len()),
    ensures
        post.selection_valid(),
{
}

/// The repository order: newest latest commit first.
pub open spec fn newer_first(a: RepositoryState, b: RepositoryState) -> bool {
    latest_timestamp(b) <= latest_timestamp(a)
}

/// Which repository is selected after the list is replaced by `repos`: the
/// one at `path` when it is listed, else the previous selection kept in range.
pub open spec fn reselected(repos: Seq<RepositoryState>, path: Option<String>, previous: usize) -> usize {
    match path {
        Some(p) => {
            let k = first_where(repos, |r: RepositoryState| r.summary.path@ == p@);
            if k < repos.len() {
                k as usize
            } else {
                clamp(previous, repos.len())
            }
        },
        None => clamp(previous, repos.len()),
    }
}

/// `set_repositories`: the list replaced by `repos` ordered newest commit
/// first; the repository at `path` selected when listed (else the selection
/// kept in range), and the selections synchronized; with no repository, every
/// selection reset.
pub open spec fn repositories_replaced(
    pre: AppState,
    post: AppState,
    repos: Seq<RepositoryState>,
    path: Option<String>,
) -> bool {
    &&& views(post.repos@) == insertion_sorted(
        views(repos),
        |a: RepositoryState, b: RepositoryState| newer_first(a, b),
    )
    &&& views(post.repos@).to_multiset() == views(repos).to_multiset()
    &&& sorted_by(views(post.repos@), |a: RepositoryState, b: RepositoryState| newer_first(a, b))
    &&& repos.len() == 0 ==> post == (AppState {
        repos: post.repos,
        selected_repo: 0,
        selected_file: 0,
        selected_branch: 0,
        ..pre
    })
    &&& repos.len() > 0 ==> sync_result(
        AppState {
            repos: post.repos,
            selected_repo: reselected(post.repos@, path, pre.selected_repo),
            ..pre
        },
        post,
    )
}

/// `replace_selected_repository`: the selected repository replaced by `repo`
/// (or `repo` appended and selected when none is selected), then the
/// selections synchronized.
pub open spec fn repository_replaced(pre: AppState, post: AppState, repo: RepositoryState) -> bool {
    if (pre.selected_repo as nat) < pre.repos@.len() {
        &&& post.repos@ == pre.repos@.update(pre.selected_repo as int, repo)
        &&& sync_result(AppState { repos: post.repos, ..pre }, post)
    } else {
        &&& post.repos@ == pre.repos@.push(repo)
        &&& sync_result(
            AppState { repos: post.repos, selected_repo: pre.repos@.len() as usize, ..pre },
            post,
        )
    }
}

fn clamp_index(i: usize, n: usize) -> (r: usize)
    ensures
        r == clamp(i, n as nat),
{
    if n == 0 {
        0
    } else if i < n {
        i
    } else {
        n - 1
    }
}

fn repo_newer_or_same(a: &RepositoryState, b: &RepositoryState) -> (r: bool)
    ensures
        r == newer_first(*a, *b),
{
    b.latest_commit_timestamp() <= a.latest_commit_timestamp()
}

impl AppState {
    /// Recomputes which branches match the filter (`branch_filter_result`).
    pub fn recompute_branch_filter(&mut self)
        ensures
            job_ids_kept(*old(self), *final(self)),
            branch_filter_result(*old(self), *final(self)),
    {
        if self.selected_repo >= self.repos.len() {
            self.filtered_branches = Vec::new();
            return;
        }
        let filter_empty = self.branch_filter.as_str().is_empty();
        let filter_lower = chars_of(to_lowercase(self.branch_filter.as_str()).as_str());
        let mut out: Vec<usize> = Vec::new();
        {
            let repo = &self.repos[self.selected_repo];
            let ghost names = strings(repo.branches@);
            let mut i: usize = 0;
            while i < repo.branches.len()
                invariant
                    i <= repo.branches@.len(),
                    names == strings(repo.branches@),
                    filter_empty == (self.branch_filter@.len() == 0),
                    filter_lower@ == lowercase(self.branch_filter@),
                    out@ == matching_branches(names, self.branch_filter@, i as nat),
                decreases repo.branches@.len() - i,
            {
                let name_lower = chars_of(to_lowercase(repo.branches[i].as_str()).as_str());
                proof {
                    assert(names[i as int] == repo.branches@[i as int]@);
                }
                if filter_empty || contains_chars(&name_lower, &filter_lower) {
                    out.push(i);
                }
                i = i + 1;
            }
        }
        let n = out.len();
        self.filtered_branches = out;
        self.selected_branch = clamp_index(self.selected_branch, n);
    }

    /// Rebuilds the file list of the selected repository and keeps every
    /// selection inside its list (`sync_result`).
    pub fn sync_selection(&mut self)
        ensures
            job_ids_kept(*old(self), *final(self)),
            sync_result(*old(self), *final(self)),
    {
        if self.selected_repo < self.repos.len() {
            let grouped = GroupedFileList::build(
                self.repos[self.selected_repo].status_files.as_slice(),
            );
            let entry_len = grouped.entries.len();
            let log_len = self.repos[self.selected_repo].log_entries.len();
            let remote_len = self.repos[self.selected_repo].remotes.len();
            let pr_len = self.repos[self.selected_repo].pull_requests.len();
            self.grouped_files = grouped;
            self.selected_file = clamp_index(self.selected_file, entry_len);
            self.selected_log_entry = clamp_index(self.selected_log_entry, log_len);
            self.selected_remote = clamp_index(self.selected_remote, remote_len);
            self.selected_pr = clamp_index(self.selected_pr, pr_len);
        } else {
            self.grouped_files = GroupedFileList { entries: Vec::new() };
            self.selected_file = 0;
            self.selected_branch = 0;
            self.selected_log_entry = 0;
            self.selected_remote = 0;
            self.selected_pr = 0;
        }
        self.recompute_branch_filter();
    }
}

impl AppState {
    /// Replaces the repository list, newest commit first, keeping the
    /// repository at `selected_path` selected when it is still listed.
    pub fn set_repositories(&mut self, repos: Vec<RepositoryState>, selected_path: Option<String>)
        ensures
            job_ids_kept(*old(self), *final(self)),
            repositories_replaced(*old(self), *final(self), repos@, selected_path),
    {
        proof {
            assert(total_preorder(|a: RepositoryState, b: RepositoryState| newer_first(a, b)));
        }
        let sorted = sort_by_le(
            repos,
            repo_newer_or_same,
            Ghost(|a: RepositoryState, b: RepositoryState| newer_first(a, b)),
        );
        proof {
            assert(views(sorted@) =~= sorted@);
        }
        self.repos = sorted;
        if self.repos.len() == 0 {
            self.selected_repo = 0;
            self.selected_file = 0;
            self.selected_branch = 0;
            return;
        }
        let n = self.repos.len();
        let mut chosen = clamp_index(self.selected_repo, n);
        match &selected_path {
            Some(path) => {
                let ghost pred = |r: RepositoryState| r.summary.path@ == path@;
                let mut k: usize = 0;
                while k < n && !str_eq(&self.repos[k].summary.path, path)
                    invariant
                        k <= n == self.repos@.len(),
                        pred == (|r: RepositoryState| r.summary.path@ == path@),
                        forall|j: int| 0 <= j < k ==> !pred(#[trigger] self.repos@[j]),
                    decreases n - k,
                {
                    k = k + 1;
                }
                proof {
                    lemma_first_where(self.repos@, pred, k as int);
                }
                if k < n {
                    chosen = k;
                }
            },
            None => {},
        }
        self.selected_repo = chosen;
        self.sync_selection();
    }

    /// Replaces the selected repository (or appends it and selects it when
    /// nothing is selected), then synchronizes the selections.
    pub fn replace_selected_repository(&mut self, repo: RepositoryState)
        ensures
            job_ids_kept(*old(self), *final(self)),
            repository_replaced(*old(self), *final(self), repo),

    {
        if self.selected_repo < self.repos.len() {
            let i = self.selected_repo;
            self.repos.set(i, repo);
        } else {
            self.repos.push(repo);
            self.selected_repo = self.repos.len() - 1;
        }
        self.sync_selection();
    }

    /// Shows a view; the diff scroll resets when the view changes.
    pub fn switch_view(&mut self, view: View)
        ensures
            job_ids_kept(*old(self), *final(self)),
            *final(self) == old(self).after_switch_view(view),

    {
        if self.active_view != view {
            self.active_view = view;
            self.diff_scroll = 0;
        }
    }

    /// Shows the next view in tab order (after the last comes the first).
    pub fn next_view(&mut self)
        ensures
            job_ids_kept(*old(self), *final(self)),
            final(self).active_view != old(self).active_view,
            *final(self) == old(self).after_switch_view(next_view_of(old(self).active_view)),

    {
        let current = self.active_view.index();
        let next = (current + 1) % 5;
        self.switch_view(View::from_index(next));
    }

    /// Shows the previous view in tab order (before the first comes the last).
    pub fn previous_view(&mut self)
        ensures
            job_ids_kept(*old(self), *final(self)),
            final(self).active_view != old(self).active_view,
            *final(self) == old(self).after_switch_view(previous_view_of(old(self).active_view)),

    {
        let current = self.active_view.index();
        let prev = if current == 0 {
            4
        } else {
            current - 1
        };
        self.switch_view(View::from_index(prev));
    }

    /// Index of the checked-out branch in the selected repository's branch list.
    pub fn current_branch_index(&self) -> (r: Option<usize>)
        ensures
            r == self.branch_index(),
    {
        if self.selected_repo >= self.repos.len() {
            return None;
        }
        let repo = &self.repos[self.selected_repo];
        match &repo.current_branch {
            None => None,
            Some(current) => {
                let ghost pred = |b: Seq<char>| b == current@;
                let mut k: usize = 0;
                while k < repo.branches.len() && !str_eq(&repo.branches[k], current)
                    invariant
                        k <= repo.branches@.len(),
                        pred == (|b: Seq<char>| b == current@),
                        forall|j: int|
                            0 <= j < k ==> !pred(#[trigger] strings(repo.branches@)[j]),
                    decreases repo.branches@.len() - k,
                {
                    proof {
                        assert(strings(repo.branches@)[k as int] == repo.branches@[k as int]@);
                    }
                    k = k + 1;
                }
                proof {
                    if k < repo.branches@.len() {
                        assert(strings(repo.branches@)[k as int] == repo.branches@[k as int]@);
                    }
                    lemma_first_where(strings(repo.branches@), pred, k as int);
                }
                if k < repo.branches.len() {
                    Some(k)
                } else {
                    None
                }
            },
        }
    }

    /// Selects the next repository (wrapping), resetting the file selection,
    /// selecting its checked-out branch, and clearing the diff.
    pub fn select_next_repo(&mut self)
        requires
            old(self).repos@.len() > 0 ==> old(self).selected_repo < usize::MAX,
        ensures
            job_ids_kept(*old(self), *final(self)),
            *final(self) == old(self).after_next_repo(),

    {
        if self.repos.len() > 0 {
            self.selected_repo = (self.selected_repo + 1) % self.repos.len();
            self.selected_file = 0;
            self.selected_branch = match self.current_branch_index() {
                Some(i) => i,
                None => 0,
            };
            self.diff_content = None;
            self.diff_scroll = 0;
        }
    }

    /// Selects the previous repository (wrapping), like `select_next_repo`.
    pub fn select_previous_repo(&mut self)
        ensures
            job_ids_kept(*old(self), *final(self)),
            *final(self) == old(self).after_previous_repo(),

    {
        if self.repos.len() > 0 {
            self.selected_repo = if self.selected_repo == 0 {
                self.repos.len() - 1
            } else {
                self.selected_repo - 1
            };
            self.selected_file = 0;
            self.selected_branch = match self.current_branch_index() {
                Some(i) => i,
                None => 0,
            };
            self.diff_content = None;
            self.diff_scroll = 0;
        }
    }

    /// Selects the next row of the file list (wrapping).
    pub fn select_next_file(&mut self)
        requires
            old(self).grouped_files.entries@.len() > 0 ==> old(self).selected_file < usize::MAX,
        ensures
            job_ids_kept(*old(self), *final(self)),
            *final(self) == old(self).after_next_file(),

    {
        let len = self.grouped_files.entries.len();
        if len > 0 {
            self.selected_file = (self.selected_file + 1) % len;
        }
    }

    /// Selects the previous row of the file list (wrapping).
    pub fn select_previous_file(&mut self)
        ensures
            job_ids_kept(*old(self), *final(self)),
            *final(self) == old(self).after_previous_file(),

    {
        let len = self.grouped_files.entries.len();
        if len > 0 {
            self.selected_file = if self.selected_file == 0 {
                len - 1
            } else {
                self.selected_file - 1
            };
        }
    }

    /// Selects the next matching branch (wrapping).
    pub fn select_next_branch(&mut self)
        requires
            old(self).filtered_branches@.len() > 0 ==> old(self).selected_branch < usize::MAX,
        ensures
            job_ids_kept(*old(self), *final(self)),
            *final(self) == old(self).after_next_branch(),

    {
        let len = self.filtered_branches.len();
        if len > 0 {
            self.selected_branch = (self.selected_branch + 1) % len;
        }
    }

    /// Selects the previous matching branch (wrapping).
    pub fn select_previous_branch(&mut self)
        ensures
            job_ids_kept(*old(self), *final(self)),
            *final(self) == old(self).after_previous_branch(),

    {
        let len = self.filtered_branches.len();
        if len > 0 {
            self.selected_branch = if self.selected_branch == 0 {
                len - 1
            } else {
                self.selected_branch - 1
            };
        }
    }

    /// Number of log entries of the selected repository (0 when none is selected).
    pub open spec fn log_len(self) -> nat {
        match self.current_repo() {
            Some(r) => r.log_entries@.len(),
            None => 0,
        }
    }

    /// Number of remotes of the selected repository (0 when none is selected).
    pub open spec fn remote_len(self) -> nat {
        match self.current_repo() {
            Some(r) => r.remotes@.len(),
            None => 0,
        }
    }

    /// Number of pull requests of the selected repository (0 when none is selected).
    pub open spec fn pr_len(self) -> nat {
        match self.current_repo() {
            Some(r) => r.pull_requests@.len(),
            None => 0,
        }
    }

    fn selected_log_len(&self) -> (r: usize)
        ensures
            r == self.log_len(),
    {
        if self.selected_repo < self.repos.len() {
            self.repos[self.selected_repo].log_entries.len()
        } else {
            0
        }
    }

    fn selected_remote_len(&self) -> (r: usize)
        ensures
            r == self.remote_len(),
    {
        if self.selected_repo < self.repos.len() {
            self.repos[self.selected_repo].remotes.len()
        } else {
            0
        }
    }

    fn selected_pr_len(&self) -> (r: usize)
        ensures
            r == self.pr_len(),
    {
        if self.selected_repo < self.repos.len() {
            self.repos[self.selected_repo].pull_requests.len()
        } else {
            0
        }
    }

    /// Selects the next log entry of the selected repository (wrapping).
    pub fn select_next_log_entry(&mut self)
        requires
            old(self).log_len() > 0 ==> old(self).selected_log_entry < usize::MAX,
        ensures
            job_ids_kept(*old(self), *final(self)),
            *final(self) == old(self).after_next_log_entry(),

    {
        let len = self.selected_log_len();
        if len > 0 {
            self.selected_log_entry = (self.selected_log_entry + 1) % len;
        }
    }

    /// Selects the previous log entry of the selected repository (wrapping).
    pub fn select_previous_log_entry(&mut self)
        ensures
            job_ids_kept(*old(self), *final(self)),
            *final(self) == old(self).after_previous_log_entry(),

    {
        let len = self.selected_log_len();
        if len > 0 {
            self.selected_log_entry = if self.selected_log_entry == 0 {
                len - 1
            } else {
                self.selected_log_entry - 1
            };
        }
    }

    /// Selects the next remote of the selected repository (wrapping).
    pub fn select_next_remote(&mut self)
        requires
            old(self).remote_len() > 0 ==> old(self).selected_remote < usize::MAX,
        ensures
            job_ids_kept(*old(self), *final(self)),
            *final(self) == old(self).after_next_remote(),

    {
        let len = self.selected_remote_len();
        if len > 0 {
            self.selected_remote = (self.selected_remote + 1) % len;
        }
    }

    /// Selects the previous remote of the selected repository (wrapping).
    pub fn select_previous_remote(&mut self)
        ensures
            job_ids_kept(*old(self), *final(self)),
            *final(self) == old(self).after_previous_remote(),

    {
        let len = self.selected_remote_len();
        if len > 0 {
            self.selected_remote = if self.selected_remote == 0 {
                len - 1
            } else {
                self.selected_remote - 1
            };
        }
    }

    /// Selects the next pull request of the selected repository (wrapping).
    pub fn select_next_pr(&mut self)
        requires
            old(self).pr_len() > 0 ==> old(self).selected_pr < usize::MAX,
        ensures
            job_ids_kept(*old(self), *final(self)),
            *final(self) == old(self).after_next_pr(),

    {
        let len = self.selected_pr_len();
        if len > 0 {
            self.selected_pr = (self.selected_pr + 1) % len;
        }
    }

    /// Selects the previous pull request of the selected repository (wrapping).
    pub fn select_previous_pr(&mut self)
        ensures
            job_ids_kept(*old(self), *final(self)),
            *final(self) == old(self).after_previous_pr(),

    {
        let len = self.selected_pr_len();
        if len > 0 {
            self.selected_pr = if self.selected_pr == 0 {
                len - 1
            } else {
                self.selected_pr - 1
            };
        }
    }
}

/// Cyclic navigation: stepping forward then back returns to the same item.
pub proof fn lemma_next_then_previous(i: usize, n: nat)
    requires
        idx_ok(i, n),
        n <= usize::MAX,
    ensures
        previous_index(next_index(i, n), n) == i,
        next_index(previous_index(i, n), n) == i,
        idx_ok(next_index(i, n), n),
        idx_ok(previous_index(i, n), n),
{
    if n > 0 {
        if i + 1 < n {
            assert((i + 1) % (n as int) == i + 1) by (nonlinear_arith)
                requires
                    0 <= i + 1 < n,
            ;
        } else {
            assert((i + 1) % (n as int) == 0) by (nonlinear_arith)
                requires
                    i + 1 == n,
                    n > 0,
            ;
        }
        if i == 0 {
            assert(((n - 1) + 1) % (n as int) == 0) by (nonlinear_arith)
                requires
                    n > 0,
            ;
        } else {
            assert(((i - 1) + 1) % (n as int) == i) by (nonlinear_arith)
                requires
                    0 < i < n,
            ;
        }
    }
}

/// Tab order: the next view then the previous view returns to the same view.
pub proof fn lemma_next_then_previous_view(v: View)
    ensures
        ({
            let n = view_at(((view_index(v) + 1) % 5) as nat);
            view_at(
                if view_index(n) == 0 {
                    4
                } else {
                    (view_index(n) - 1) as nat
                },
            ) == v
        }),
{
}

/// The property of being the index `x`.
pub open spec fn equals_index(x: usize) -> spec_fn(usize) -> bool {
    |v: usize| v == x
}

/// Position of `x` among `s` when it occurs, else 0.
pub open spec fn position_or_zero(s: Seq<usize>, x: usize) -> usize {
    let k = first_where(s, equals_index(x));
    if k < s.len() {
        k as usize
    } else {
        0
    }
}

/// `open_branch_switch`: the branch switcher open with an empty filter, every
/// branch listed and the checked-out one (or the first) selected.
pub open spec fn branch_switch_opened(pre: AppState, post: AppState) -> bool {
    &&& post.branch_filter@.len() == 0
    &&& branch_filter_result(
        AppState {
            modal: Modal::BranchSwitch,
            branch_filter: post.branch_filter,
            ..pre
        },
        AppState {
            selected_branch: match pre.current_repo() {
                Some(r) => clamp(pre.selected_branch, post.filtered_branches@.len()),
                None => pre.selected_branch,
            },
            ..post
        },
    )
    &&& post.selected_branch == position_or_zero(
        post.filtered_branches@,
        match pre.branch_index() {
            Some(i) => i,
            None => 0,
        },
    )
}

/// `open_branch_create`: the "create branch" dialog open with an empty name.
pub open spec fn branch_create_opened(pre: AppState, post: AppState) -> bool {
    &&& post.branch_name_input@.len() == 0
    &&& post == (AppState {
        modal: Modal::BranchCreate,
        branch_name_input: post.branch_name_input,
        ..pre
    })
}

/// `open_commit_panel`: the commit editor open with an empty message.
pub open spec fn commit_panel_opened(pre: AppState, post: AppState) -> bool {
    &&& post.commit_message_input@.len() == 0
    &&& post == (AppState {
        modal: Modal::Commit,
        commit_message_input: post.commit_message_input,
        ..pre
    })
}

/// `close_modal`: no dialog, every input cleared, no repository draft, amend
/// mode off, the branch filter recomputed.
pub open spec fn modal_closed(pre: AppState, post: AppState) -> bool {
    &&& post.branch_name_input@.len() == 0
    &&& post.branch_filter@.len() == 0
    &&& post.commit_message_input@.len() == 0
    &&& branch_filter_result(
        AppState {
            modal: Modal::Closed,
            branch_name_input: post.branch_name_input,
            branch_filter: post.branch_filter,
            commit_message_input: post.commit_message_input,
            create_repo_state: None,
            amend_mode: false,
            ..pre
        },
        post,
    )
}

/// `start_job`: a job of `kind` tracked last under the identity `id` that was
/// next, the next identity advanced, nothing else changed.
pub open spec fn job_started(pre: AppState, post: AppState, kind: JobKind, id: JobId) -> bool {
    &&& id == pre.next_job_id
    &&& post.next_job_id == id.next_spec()
    &&& post.active_jobs@.len() == pre.active_jobs@.len() + 1
    &&& post.active_jobs@.drop_last() == pre.active_jobs@
    &&& post.active_jobs@.last().id == id
    &&& post.active_jobs@.last().kind == kind
    &&& post == (AppState { active_jobs: post.active_jobs, next_job_id: post.next_job_id, ..pre })
}

/// What every step of the application keeps of the job identities: while
/// the counter has room, the running jobs' identities stay below it and it
/// never goes back.
pub open spec fn job_ids_kept(pre: AppState, post: AppState) -> bool {
    pre.job_ids_fresh() && pre.next_job_id.0 < u64::MAX ==> post.job_ids_fresh()
        && pre.next_job_id.0 <= post.next_job_id.0
}

/// Whether a job of the given kind is running.
pub open spec fn job_running(jobs: Seq<ActiveJob>, kind: JobKind) -> bool {
    exists|i: int| 0 <= i < jobs.len() && (#[trigger] jobs[i]).kind == kind
}

/// The jobs that remain after the job `id` finished, in order.
pub open spec fn without_job(jobs: Seq<ActiveJob>, id: JobId) -> Seq<ActiveJob> {
    jobs.filter(|j: ActiveJob| j.id != id)
}

impl AppState {
    /// Opens the branch switcher: clears the filter, lists every branch and
    /// selects the checked-out one (or the first).
    pub fn open_branch_switch(&mut self)
        ensures
            job_ids_kept(*old(self), *final(self)),
            branch_switch_opened(*old(self), *final(self)),

    {
        self.modal = Modal::BranchSwitch;
        self.branch_filter = String::new();
        self.recompute_branch_filter();
        let real_idx = match self.current_branch_index() {
            Some(i) => i,
            None => 0,
        };
        proof {
            assert(self.repos == old(self).repos);
            assert(self.selected_repo == old(self).selected_repo);
            assert(self.branch_index() == old(self).branch_index());
        }
        let ghost pred = equals_index(real_idx);
        let mut k: usize = 0;
        while k < self.filtered_branches.len() && self.filtered_branches[k] != real_idx
            invariant
                k <= self.filtered_branches@.len(),
                pred == equals_index(real_idx),
                forall|j: int| 0 <= j < k ==> !pred(#[trigger] self.filtered_branches@[j]),
            decreases self.filtered_branches@.len() - k,
        {
            k = k + 1;
        }
        proof {
            lemma_first_where(self.filtered_branches@, pred, k as int);
        }
        self.selected_branch = if k < self.filtered_branches.len() {
            k
        } else {
            0
        };

    }

    /// Opens the "create branch" dialog with an empty name.
    pub fn open_branch_create(&mut self)
        ensures
            job_ids_kept(*old(self), *final(self)),
            branch_create_opened(*old(self), *final(self)),

    {
        self.modal = Modal::BranchCreate;
        self.branch_name_input = String::new();
    }

    /// Opens the commit editor with an empty message.
    pub fn open_commit_panel(&mut self)
        ensures
            job_ids_kept(*old(self), *final(self)),
            commit_panel_opened(*old(self), *final(self)),

    {
        self.modal = Modal::Commit;
        self.commit_message_input = String::new();
    }

    /// Closes the dialog, clearing every input, the repository draft and amend mode.
    pub fn close_modal(&mut self)
        ensures
            job_ids_kept(*old(self), *final(self)),
            modal_closed(*old(self), *final(self)),

    {
        self.modal = Modal::Closed;
        self.branch_name_input = String::new();
        self.branch_filter = String::new();
        self.commit_message_input = String::new();
        self.create_repo_state = None;
        self.amend_mode = false;
        self.recompute_branch_filter();
    }

    /// The selected repository, if the selection points at one.
    pub fn selected_repo_ref(&self) -> (r: Option<&RepositoryState>)
        ensures
            match r {
                Some(x) => self.current_repo() == Some(*x),
                None => self.current_repo().is_none(),
            },
    {
        if self.selected_repo < self.repos.len() {
            Some(&self.repos[self.selected_repo])
        } else {
            None
        }
    }

    /// Path of the selected repository.
    pub fn selected_repo_path(&self) -> (r: Option<String>)
        ensures
            match r {
                Some(p) => self.current_repo() is Some && p@ == self.current_repo()->0.summary.path@,
                None => self.current_repo().is_none(),
            },
    {
        if self.selected_repo < self.repos.len() {
            Some(self.repos[self.selected_repo].summary.path.clone())
        } else {
            None
        }
    }

    /// The selected row of the file list.
    pub fn selected_file_entry(&self) -> (r: Option<FileEntry>)
        ensures
            (self.selected_file as nat) < self.grouped_files.entries@.len() ==> r == Some(
                self.grouped_files.entries@[self.selected_file as int],
            ),
            (self.selected_file as nat) >= self.grouped_files.entries@.len() ==> r.is_none(),
    {
        if self.selected_file < self.grouped_files.entries.len() {
            Some(self.grouped_files.entries[self.selected_file])
        } else {
            None
        }
    }

    /// Path of the file of the selected row, when both the row and the file exist.
    pub fn selected_file_path(&self) -> (r: Option<String>)
        ensures
            match r {
                Some(p) => {
                    &&& (self.selected_file as nat) < self.grouped_files.entries@.len()
                    &&& self.current_repo() is Some
                    &&& ({
                        let e = self.grouped_files.entries@[self.selected_file as int];
                        let repo = self.current_repo()->0;
                        &&& (e.file_index as nat) < repo.status_files@.len()
                        &&& p@ == repo.status_files@[e.file_index as int].path@
                    })
                },
                None => {
                    ||| (self.selected_file as nat) >= self.grouped_files.entries@.len()
                    ||| self.current_repo().is_none()
                    ||| self.grouped_files.entries@[self.selected_file as int].file_index as nat
                        >= self.current_repo()->0.status_files@.len()
                },
            },
    {
        let entry = match self.selected_file_entry() {
            Some(e) => e,
            None => return None,
        };
        if self.selected_repo >= self.repos.len() {
            return None;
        }
        let repo = &self.repos[self.selected_repo];
        if entry.file_index < repo.status_files.len() {
            Some(repo.status_files[entry.file_index].path.clone())
        } else {
            None
        }
    }

    /// Group of the selected row.
    pub fn selected_file_section(&self) -> (r: Option<FileSection>)
        ensures
            (self.selected_file as nat) < self.grouped_files.entries@.len() ==> r == Some(
                self.grouped_files.entries@[self.selected_file as int].section,
            ),
            (self.selected_file as nat) >= self.grouped_files.entries@.len() ==> r.is_none(),
    {
        match self.selected_file_entry() {
            Some(e) => Some(e.section),
            None => None,
        }
    }

    /// Name of the selected matching branch.
    pub fn selected_branch_name(&self) -> (r: Option<String>)
        ensures
            match r {
                Some(n) => {
                    &&& self.current_repo() is Some
                    &&& (self.selected_branch as nat) < self.filtered_branches@.len()
                    &&& ({
                        let i = self.filtered_branches@[self.selected_branch as int];
                        let repo = self.current_repo()->0;
                        &&& (i as nat) < repo.branches@.len()
                        &&& n@ == repo.branches@[i as int]@
                    })
                },
                None => {
                    ||| self.current_repo().is_none()
                    ||| (self.selected_branch as nat) >= self.filtered_branches@.len()
                    ||| self.filtered_branches@[self.selected_branch as int] as nat
                        >= self.current_repo()->0.branches@.len()
                },
            },
    {
        if self.selected_repo >= self.repos.len() {
            return None;
        }
        let repo = &self.repos[self.selected_repo];
        if self.selected_branch >= self.filtered_branches.len() {
            return None;
        }
        let real_idx = self.filtered_branches[self.selected_branch];
        if real_idx < repo.branches.len() {
            Some(repo.branches[real_idx].clone())
        } else {
            None
        }
    }

    /// Shows an informational message.
    pub fn set_info(&mut self, message: String)
        ensures
            job_ids_kept(*old(self), *final(self)),
            *final(self) == (AppState {
                message: Some(FlashMessage { level: MessageLevel::Info, text: message }),
                ..*old(self)
            }),
    {
        self.message = Some(FlashMessage { level: MessageLevel::Info, text: message });
    }

    /// Shows an error message.
    pub fn set_error(&mut self, message: String)
        ensures
            job_ids_kept(*old(self), *final(self)),
            *final(self) == (AppState {
                message: Some(FlashMessage { level: MessageLevel::Error, text: message }),
                ..*old(self)
            }),
    {
        self.message = Some(FlashMessage { level: MessageLevel::Error, text: message });
    }

    /// Every running job has an identity below the next one handed out.
    pub open spec fn job_ids_fresh(self) -> bool {
        forall|i: int|
            0 <= i < self.active_jobs@.len() ==> (#[trigger] self.active_jobs@[i]).id.0
                < self.next_job_id.0
    }

    /// Starts tracking a job of `kind` and returns its new identity.
    pub fn start_job(&mut self, kind: JobKind) -> (id: JobId)
        ensures
            job_ids_kept(*old(self), *final(self)),
            job_started(*old(self), *final(self), kind, id),
            old(self).job_ids_fresh() && old(self).next_job_id.0 < u64::MAX
                ==> final(self).job_ids_fresh(),
    {
        let id = self.next_job_id;
        self.next_job_id = id.next();
        self.active_jobs.push(ActiveJob { id, kind, started_at: instant_now() });
        proof {
            assert(self.active_jobs@.drop_last() =~= old(self).active_jobs@);
            if old(self).job_ids_fresh() && old(self).next_job_id.0 < u64::MAX {
                lemma_start_job_fresh(*old(self), *self, kind, id);
            }
        }
        id
    }

    /// Stops tracking the job `id`.
    pub fn finish_job(&mut self, id: JobId)
        ensures
            job_ids_kept(*old(self), *final(self)),
            final(self).active_jobs@ == without_job(old(self).active_jobs@, id),
            *final(self) == (AppState { active_jobs: final(self).active_jobs, ..*old(self) }),
    {
        let mut kept: Vec<ActiveJob> = Vec::new();
        let ghost pred = |j: ActiveJob| j.id != id;
        let mut i: usize = 0;
        while i < self.active_jobs.len()
            invariant
                i <= self.active_jobs@.len(),
                pred == (|j: ActiveJob| j.id != id),
                kept@ == self.active_jobs@.take(i as int).filter(pred),
            decreases self.active_jobs@.len() - i,
        {
            proof {
                let t = self.active_jobs@.take(i + 1);
                assert(t.drop_last() =~= self.active_jobs@.take(i as int));
                reveal_with_fuel(Seq::filter, 1);
            }
            if self.active_jobs[i].id != id {
                let j = self.active_jobs[i];
                kept.push(j);
            }
            i = i + 1;
        }
        proof {
            assert(self.active_jobs@.take(i as int) =~= self.active_jobs@);
            if old(self).job_ids_fresh() {
                lemma_kept_jobs_below(self.active_jobs@, id, self.next_job_id.0);
            }
        }
        self.active_jobs = kept;
    }

    /// Whether a job of `kind` is running.
    pub fn is_job_running(&self, kind: JobKind) -> (r: bool)
        ensures
            r == job_running(self.active_jobs@, kind),
    {
        let mut i: usize = 0;
        while i < self.active_jobs.len()
            invariant
                i <= self.active_jobs@.len(),
                forall|j: int| 0 <= j < i ==> (#[trigger] self.active_jobs@[j]).kind != kind,
            decreases self.active_jobs@.len() - i,
        {
            if self.active_jobs[i].kind == kind {
                return true;
            }
            i = i + 1;
        }
        false
    }

    /// Whether any job is running.
    pub fn has_active_jobs(&self) -> (r: bool)
        ensures
            r == (self.active_jobs@.len() > 0),
    {
        self.active_jobs.len() > 0
    }

    /// Whether a commit message is being generated.
    pub fn ai_loading(&self) -> (r: bool)
        ensures
            r == job_running(self.active_jobs@, JobKind::AiCommitMessage),
    {
        self.is_job_running(JobKind::AiCommitMessage)
    }

    /// Whether a branch name is being generated.
    pub fn ai_branch_loading(&self) -> (r: bool)
        ensures
            r == job_running(self.active_jobs@, JobKind::AiBranchName),
    {
        self.is_job_running(JobKind::AiBranchName)
    }

    /// The spinner frame for the current tick.
    pub fn spinner_char(&self) -> (r: char)
        ensures
            r == spinner_frames()[(self.spinner_tick % 10) as int],
    {
        match self.spinner_tick % 10 {
            0 => '⠋',
            1 => '⠙',
            2 => '⠹',
            3 => '⠸',
            4 => '⠼',
            5 => '⠴',
            6 => '⠦',
            7 => '⠧',
            8 => '⠇',
            _ => '⠏',
        }
    }
}

/// A started job gets an identity no running job has, when identities are fresh.
pub proof fn lemma_start_job_fresh(pre: AppState, post: AppState, kind: JobKind, id: JobId)
    requires
        pre.job_ids_fresh(),
        pre.next_job_id.0 < u64::MAX,
        job_started(pre, post, kind, id),
    ensures
        forall|i: int| 0 <= i < pre.active_jobs@.len() ==> (#[trigger] pre.active_jobs@[i]).id != id,
        post.job_ids_fresh(),
{
    assert forall|i: int| 0 <= i < post.active_jobs@.len() implies (
    #[trigger] post.active_jobs@[i]).id.0 < post.next_job_id.0 by {
        if i < pre.active_jobs@.len() {
            assert(post.active_jobs@[i] == post.active_jobs@.drop_last()[i]);
        }
    }
}

/// A finished job no longer runs, and every other job is kept.
pub proof fn lemma_finish_job(jobs: Seq<ActiveJob>, id: JobId)
    ensures
        forall|i: int|
            0 <= i < without_job(jobs, id).len() ==> (#[trigger] without_job(jobs, id)[i]).id
                != id,
        forall|i: int|
            0 <= i < jobs.len() && (#[trigger] jobs[i]).id != id ==> without_job(
                jobs,
                id,
            ).contains(jobs[i]),
{
    broadcast use vstd::seq_lib::group_filter_ensures;

}

/// Keeping some of the jobs keeps every identity below a bound that all were below.
proof fn lemma_kept_jobs_below(jobs: Seq<ActiveJob>, id: JobId, bound: u64)
    requires
        forall|i: int| 0 <= i < jobs.len() ==> (#[trigger] jobs[i]).id.0 < bound,
    ensures
        forall|i: int|
            0 <= i < without_job(jobs, id).len() ==> (#[trigger] without_job(jobs, id)[i]).id.0 < bound,
    decreases jobs.len(),
{
    reveal_with_fuel(Seq::filter, 1);
    if jobs.len() > 0 {
        assert forall|i: int| 0 <= i < jobs.drop_last().len() implies (
        #[trigger] jobs.drop_last()[i]).id.0 < bound by {
            assert(jobs.drop_last()[i] == jobs[i]);
        }
        lemma_kept_jobs_below(jobs.drop_last(), id, bound);
        assert(jobs.last() == jobs[jobs.len() - 1]);
    }
}

/// Keeping the jobs whose identity differs from `id` keeps them all when
/// none has that identity.
proof fn lemma_without_absent_job(jobs: Seq<ActiveJob>, id: JobId)
    requires
        forall|i: int| 0 <= i < jobs.len() ==> (#[trigger] jobs[i]).id != id,
    ensures
        without_job(jobs, id) == jobs,
    decreases jobs.len(),
{
    reveal_with_fuel(Seq::filter, 1);
    if jobs.len() > 0 {
        assert forall|i: int| 0 <= i < jobs.drop_last().len() implies (
        #[trigger] jobs.drop_last()[i]).id != id by {
            assert(jobs.drop_last()[i] == jobs[i]);
        }
        lemma_without_absent_job(jobs.drop_last(), id);
        assert(jobs.drop_last().push(jobs.last()) =~= jobs);
    }
}

/// Starting a job and then finishing it gives back the jobs running before,
/// in the same order, when identities are fresh; the rest of the state is
/// unchanged but for the next identity to hand out.
pub proof fn lemma_start_then_finish(pre: AppState, mid: AppState, post: AppState, kind: JobKind, id: JobId)
    requires
        pre.job_ids_fresh(),
        job_started(pre, mid, kind, id),
        post.active_jobs@ == without_job(mid.active_jobs@, id),
        post == (AppState { active_jobs: post.active_jobs, ..mid }),
    ensures
        post.active_jobs@ == pre.active_jobs@,
        forall|k: JobKind| job_running(post.active_jobs@, k) == job_running(pre.active_jobs@, k),
        post == (AppState { active_jobs: post.active_jobs, next_job_id: post.next_job_id, ..pre }),
{
    reveal_with_fuel(Seq::filter, 1);
    assert(mid.active_jobs@.drop_last() == pre.active_jobs@);
    assert(without_job(mid.active_jobs@, id) == without_job(pre.active_jobs@, id));
    assert forall|i: int| 0 <= i < pre.active_jobs@.len() implies (#[trigger] pre.active_jobs@[i]).id
        != id by {
        assert(pre.active_jobs@[i].id.0 < pre.next_job_id.0);
    }
    lemma_without_absent_job(pre.active_jobs@, id);
}

/// The identities handed out before the `n`-th start are all below the
/// counter at that start, and the running jobs' identities are too.
proof fn lemma_handed_out_below(
    before: Seq<AppState>,
    after: Seq<AppState>,
    kinds: Seq<JobKind>,
    ids: Seq<JobId>,
    n: int,
)
    requires
        before.len() == ids.len(),
        after.len() == ids.len(),
        kinds.len() == ids.len(),
        0 <= n < ids.len(),
        before[0].job_ids_fresh(),
        forall|i: int| 0 <= i < ids.len() ==> job_started(before[i], after[i], kinds[i], #[trigger] ids[i]),
        forall|i: int| 0 <= i < ids.len() ==> (#[trigger] before[i]).next_job_id.0 < u64::MAX,
        forall|i: int| 0 <= i < ids.len() - 1 ==> (#[trigger] after[i]).next_job_id.0 < u64::MAX,
        forall|i: int| 0 <= i < ids.len() - 1 ==> job_ids_kept(#[trigger] after[i], before[i + 1]),
    ensures
        before[n].job_ids_fresh(),
        forall|i: int| 0 <= i < n ==> (#[trigger] ids[i]).0 < before[n].next_job_id.0,
    decreases n,
{
    if n > 0 {
        lemma_handed_out_below(before, after, kinds, ids, n - 1);
        let k = n - 1;
        assert(job_started(before[k], after[k], kinds[k], ids[k]));
        assert(before[k].next_job_id.0 < u64::MAX);
        lemma_start_job_fresh(before[k], after[k], kinds[k], ids[k]);
        assert(after[k].next_job_id.0 < u64::MAX);
        assert(job_ids_kept(after[k], before[k + 1]));
    }
}

/// Job identities are never handed out twice: over successive starts, with
/// whatever steps of the application in between (each keeps `job_ids_kept`)
/// and the counter below `u64::MAX`, the identities are pairwise distinct and
/// none belongs to a job still running when it is handed out.
pub proof fn lemma_handed_out_ids_distinct(
    before: Seq<AppState>,
    after: Seq<AppState>,
    kinds: Seq<JobKind>,
    ids: Seq<JobId>,
)
    requires
        before.len() == ids.len(),
        after.len() == ids.len(),
        kinds.len() == ids.len(),
        ids.len() > 0 ==> before[0].job_ids_fresh(),
        forall|i: int| 0 <= i < ids.len() ==> job_started(before[i], after[i], kinds[i], #[trigger] ids[i]),
        forall|i: int| 0 <= i < ids.len() ==> (#[trigger] before[i]).next_job_id.0 < u64::MAX,
        forall|i: int| 0 <= i < ids.len() - 1 ==> (#[trigger] after[i]).next_job_id.0 < u64::MAX,
        forall|i: int| 0 <= i < ids.len() - 1 ==> job_ids_kept(#[trigger] after[i], before[i + 1]),
    ensures
        forall|i: int, j: int| 0 <= i < j < ids.len() ==> ids[i] != ids[j],
        forall|i: int, k: int|
            0 <= i < ids.len() && 0 <= k < before[i].active_jobs@.len() ==> (
            #[trigger] before[i].active_jobs@[k]).id != #[trigger] ids[i],
{
    assert forall|i: int, j: int| 0 <= i < j < ids.len() implies ids[i] != ids[j] by {
        lemma_handed_out_below(before, after, kinds, ids, j);
        assert(job_started(before[j], after[j], kinds[j], ids[j]));
    }
    assert forall|i: int, k: int|
        0 <= i < ids.len() && 0 <= k < before[i].active_jobs@.len() implies (
        #[trigger] before[i].active_jobs@[k]).id != #[trigger] ids[i] by {
        lemma_handed_out_below(before, after, kinds, ids, i);
        assert(job_started(before[i], after[i], kinds[i], ids[i]));
    }
}

impl Default for AppState {
    fn default() -> (r: AppState)
        ensures
            r.repos@.len() == 0,
            r.selected_repo == 0,
            r.selected_file == 0,
            r.selected_branch == 0,
            r.selected_log_entry == 0,
            r.selected_remote == 0,
            r.selected_pr == 0,
            r.active_view == View::Changes,
            r.modal == Modal::Closed,
            r.message.is_none(),
            !r.show_help,
            !r.should_quit,
            r.grouped_files.entries@.len() == 0,
            r.filtered_branches@.len() == 0,
            r.active_jobs@.len() == 0,
            r.next_job_id.0 == 1,
            r.job_ids_fresh(),
            r.selection_valid(),
            r.pr_detail_scroll == 0,
            r.log_scroll == 0,
            r.branch_name_input@.len() == 0,
            r.commit_message_input@.len() == 0,
            r.diff_content.is_none(),
            r.diff_scroll == 0,
            r.spinner_tick == 0,
            r.device_code.is_none(),
            !r.copilot_authenticated,
            r.create_repo_state.is_none(),
            r.pr_checks_cache@.len() == 0,
            !r.amend_mode,
            r.branch_tracking.is_none(),
            r.branch_filter@.len() == 0,
            r.settings.auto_refresh == default_auto_refresh(),
            r.settings.ai == default_ai(),
            r.settings.pull_requests == default_pr(),
            r.settings.commit.subject_max_length == 72,
            r.settings.ui.default_view@ == "changes"@,
            r.selected_settings_item == 0,
    {
        AppState {
            repos: Vec::new(),
            selected_repo: 0,
            selected_file: 0,
            selected_branch: 0,
            selected_log_entry: 0,
            selected_remote: 0,
            selected_pr: 0,
            pr_detail_scroll: 0,
            log_scroll: 0,
            active_view: View::Changes,
            modal: Modal::Closed,
            branch_name_input: String::new(),
            commit_message_input: String::new(),
            message: None,
            show_help: false,
            should_quit: false,
            grouped_files: GroupedFileList { entries: Vec::new() },
            diff_content: None,
            diff_scroll: 0,
            active_jobs: Vec::new(),
            next_job_id: JobId::first(),
            spinner_tick: 0,
            device_code: None,
            copilot_authenticated: false,
            create_repo_state: None,
            pr_checks_cache: Vec::new(),
            amend_mode: false,
            branch_tracking: None,
            branch_filter: String::new(),
            filtered_branches: Vec::new(),
            settings: AppSettings::default(),
            selected_settings_item: 0,
        }
    }
}

} // verus!
