//! What the screen says, as plain text and numbers: the settings list, the
//! status summary in the footer, the commit editor's parts, the branch
//! tracking line, and the keyboard shortcut entries.
use vstd::prelude::*;

use crate::domain::TrackingStatus;
use crate::jobs::job_label;
use crate::state::{spinner_frames, AppState};
use crate::text::{append_chars, chars_of, decimal, find, find_text, join, string_of, sub_chars, with_number};

verus! {

// ───────────────────────── settings list ─────────────────────────

/// An entry of the settings dialog.
#[derive(Clone, Copy, Debug, PartialEq, Eq, Structural)]
pub enum SettingsItem {
    FetchEnabled,
    FetchInterval,
    StatusEnabled,
    StatusInterval,
    BranchesEnabled,
    BranchesInterval,
    PrsEnabled,
    PrsInterval,
    AiBranchInstructions,
    AiCommitInstructions,
    AiPrTitleInstructions,
    AiPrDescriptionInstructions,
    DraftByDefault,
    SubjectMaxLength,
    DefaultView,
}

/// Number of entries of the settings dialog.
pub const SETTINGS_ITEM_COUNT: usize = 15;

/// The entries in the order they are listed.
pub open spec fn settings_items() -> Seq<SettingsItem> {
    seq![
        SettingsItem::FetchEnabled,
        SettingsItem::FetchInterval,
        SettingsItem::StatusEnabled,
        SettingsItem::StatusInterval,
        SettingsItem::BranchesEnabled,
        SettingsItem::BranchesInterval,
        SettingsItem::PrsEnabled,
        SettingsItem::PrsInterval,
        SettingsItem::AiBranchInstructions,
        SettingsItem::AiCommitInstructions,
        SettingsItem::AiPrTitleInstructions,
        SettingsItem::AiPrDescriptionInstructions,
        SettingsItem::DraftByDefault,
        SettingsItem::SubjectMaxLength,
        SettingsItem::DefaultView,
    ]
}

/// `ON` or `OFF`.
pub open spec fn on_off(b: bool) -> Seq<char> {
    if b {
        "ON"@
    } else {
        "OFF"@
    }
}

/// The group an entry is listed under.
pub open spec fn section_of(item: SettingsItem) -> Seq<char> {
    match item {
        SettingsItem::FetchEnabled | SettingsItem::FetchInterval | SettingsItem::StatusEnabled
        | SettingsItem::StatusInterval | SettingsItem::BranchesEnabled
        | SettingsItem::BranchesInterval | SettingsItem::PrsEnabled | SettingsItem::PrsInterval =>
            "Auto-refresh"@,
        SettingsItem::AiBranchInstructions | SettingsItem::AiCommitInstructions
        | SettingsItem::AiPrTitleInstructions | SettingsItem::AiPrDescriptionInstructions =>
            "AI Instructions"@,
        SettingsItem::DraftByDefault => "Pull Requests"@,
        SettingsItem::SubjectMaxLength => "Commit"@,
        SettingsItem::DefaultView => "UI"@,
    }
}

/// The line an entry shows for the current settings.
pub open spec fn label_of(item: SettingsItem, s: AppState) -> Seq<char> {
    let ar = s.settings.auto_refresh;
    match item {
        SettingsItem::FetchEnabled => "Fetch: "@ + on_off(ar.fetch_enabled),
        SettingsItem::FetchInterval => "Fetch interval: "@ + decimal(ar.fetch_interval_secs as nat) + "s"@,
        SettingsItem::StatusEnabled => "Status: "@ + on_off(ar.status_enabled),
        SettingsItem::StatusInterval => "Status interval: "@ + decimal(ar.status_interval_secs as nat) + "s"@,
        SettingsItem::BranchesEnabled => "Branches: "@ + on_off(ar.branches_enabled),
        SettingsItem::BranchesInterval => "Branches interval: "@ + decimal(ar.branches_interval_secs as nat)
            + "s"@,
        SettingsItem::PrsEnabled => "PRs: "@ + on_off(ar.prs_enabled),
        SettingsItem::PrsInterval => "PRs interval: "@ + decimal(ar.prs_interval_secs as nat) + "s"@,
        SettingsItem::AiBranchInstructions => "Branch name instructions"@,
        SettingsItem::AiCommitInstructions => "Commit message instructions"@,
        SettingsItem::AiPrTitleInstructions => "PR title instructions"@,
        SettingsItem::AiPrDescriptionInstructions => "PR description instructions"@,
        SettingsItem::DraftByDefault => "Draft by default: "@ + on_off(s.settings.pull_requests.draft_by_default),
        SettingsItem::SubjectMaxLength => "Subject max length: "@ + decimal(
            s.settings.commit.subject_max_length as nat,
        ),
        SettingsItem::DefaultView => "Default view: "@ + s.settings.ui.default_view@,
    }
}

fn on_off_text(b: bool) -> (r: &'static str)
    ensures
        r@ == on_off(b),
{
    if b {
        "ON"
    } else {
        "OFF"
    }
}

fn joined(a: &str, b: &str) -> (r: String)
    ensures
        r@ == a@ + b@,
{
    let mut v = chars_of(a);
    append_chars(&mut v, &chars_of(b));
    string_of(&v)
}

impl SettingsItem {
    /// The entry at `index` in listing order; the first one past the end.
    pub fn from_index(index: usize) -> (r: SettingsItem)
        ensures
            index < 15 ==> r == settings_items()[index as int],
            index >= 15 ==> r == SettingsItem::FetchEnabled,
    {
        match index {
            0 => SettingsItem::FetchEnabled,
            1 => SettingsItem::FetchInterval,
            2 => SettingsItem::StatusEnabled,
            3 => SettingsItem::StatusInterval,
            4 => SettingsItem::BranchesEnabled,
            5 => SettingsItem::BranchesInterval,
            6 => SettingsItem::PrsEnabled,
            7 => SettingsItem::PrsInterval,
            8 => SettingsItem::AiBranchInstructions,
            9 => SettingsItem::AiCommitInstructions,
            10 => SettingsItem::AiPrTitleInstructions,
            11 => SettingsItem::AiPrDescriptionInstructions,
            12 => SettingsItem::DraftByDefault,
            13 => SettingsItem::SubjectMaxLength,
            14 => SettingsItem::DefaultView,
            _ => SettingsItem::FetchEnabled,
        }
    }

    /// The group the entry is listed under (`section_of`).
    pub fn section(&self) -> (r: &'static str)
        ensures
            r@ == section_of(*self),
    {
        match self {
            SettingsItem::FetchEnabled | SettingsItem::FetchInterval | SettingsItem::StatusEnabled
            | SettingsItem::StatusInterval | SettingsItem::BranchesEnabled
            | SettingsItem::BranchesInterval | SettingsItem::PrsEnabled
            | SettingsItem::PrsInterval => "Auto-refresh",
            SettingsItem::AiBranchInstructions | SettingsItem::AiCommitInstructions
            | SettingsItem::AiPrTitleInstructions | SettingsItem::AiPrDescriptionInstructions =>
                "AI Instructions",
            SettingsItem::DraftByDefault => "Pull Requests",
            SettingsItem::SubjectMaxLength => "Commit",
            SettingsItem::DefaultView => "UI",
        }
    }

    /// The line the entry shows (`label_of`).
    pub fn label(&self, state: &AppState) -> (r: String)
        ensures
            r@ == label_of(*self, *state),
    {
        let ar = &state.settings.auto_refresh;
        match self {
            SettingsItem::FetchEnabled => joined("Fetch: ", on_off_text(ar.fetch_enabled)),
            SettingsItem::FetchInterval => with_number("Fetch interval: ", ar.fetch_interval_secs, "s"),
            SettingsItem::StatusEnabled => joined("Status: ", on_off_text(ar.status_enabled)),
            SettingsItem::StatusInterval => with_number(
                "Status interval: ",
                ar.status_interval_secs,
                "s",
            ),
            SettingsItem::BranchesEnabled => joined("Branches: ", on_off_text(ar.branches_enabled)),
            SettingsItem::BranchesInterval => with_number(
                "Branches interval: ",
                ar.branches_interval_secs,
                "s",
            ),
            SettingsItem::PrsEnabled => joined("PRs: ", on_off_text(ar.prs_enabled)),
            SettingsItem::PrsInterval => with_number("PRs interval: ", ar.prs_interval_secs, "s"),
            SettingsItem::AiBranchInstructions => string_of(&chars_of("Branch name instructions")),
            SettingsItem::AiCommitInstructions => string_of(&chars_of("Commit message instructions")),
            SettingsItem::AiPrTitleInstructions => string_of(&chars_of("PR title instructions")),
            SettingsItem::AiPrDescriptionInstructions => string_of(
                &chars_of("PR description instructions"),
            ),
            SettingsItem::DraftByDefault => joined(
                "Draft by default: ",
                on_off_text(state.settings.pull_requests.draft_by_default),
            ),
            SettingsItem::SubjectMaxLength => {
                proof {
                    reveal_strlit("");
                }
                let r = with_number(
                    "Subject max length: ",
                    state.settings.commit.subject_max_length as u64,
                    "",
                );
                assert(r@ =~= "Subject max length: "@ + decimal(
                    state.settings.commit.subject_max_length as nat,
                ));
                r
            },
            SettingsItem::DefaultView => joined(
                "Default view: ",
                state.settings.ui.default_view.as_str(),
            ),
        }
    }
}

/// What the detail pane of a settings entry shows as its value.
#[derive(Clone, Debug)]
pub enum DetailValue {
    /// On or off, changed with space or enter.
    Toggle(bool),
    /// A number with its unit, its range and the step it is adjusted by.
    Number { value: u64, suffix: &'static str, range: &'static str, step: &'static str },
    /// Extra instructions from the settings files; none when not configured.
    Instructions(Option<String>),
    /// The view shown on startup, set in the settings files.
    ViewName(String),
}

/// The detail pane of a settings entry.
#[derive(Clone, Debug)]
pub struct SettingsDetail {
    pub title: &'static str,
    pub description: &'static str,
    pub value: DetailValue,
}

/// The title of an entry's detail pane.
pub open spec fn detail_title(item: SettingsItem) -> Seq<char> {
    match item {
        SettingsItem::FetchEnabled => "Auto-fetch"@,
        SettingsItem::FetchInterval => "Fetch Interval"@,
        SettingsItem::StatusEnabled => "Auto-refresh Status"@,
        SettingsItem::StatusInterval => "Status Refresh Interval"@,
        SettingsItem::BranchesEnabled => "Auto-refresh Branches"@,
        SettingsItem::BranchesInterval => "Branches Refresh Interval"@,
        SettingsItem::PrsEnabled => "Auto-refresh PRs"@,
        SettingsItem::PrsInterval => "PRs Refresh Interval"@,
        SettingsItem::AiBranchInstructions => "Branch Name Instructions"@,
        SettingsItem::AiCommitInstructions => "Commit Message Instructions"@,
        SettingsItem::AiPrTitleInstructions => "PR Title Instructions"@,
        SettingsItem::AiPrDescriptionInstructions => "PR Description Instructions"@,
        SettingsItem::DraftByDefault => "Draft by Default"@,
        SettingsItem::SubjectMaxLength => "Subject Max Length"@,
        SettingsItem::DefaultView => "Default View"@,
    }
}

/// The description of an entry's detail pane.
pub open spec fn detail_description(item: SettingsItem) -> Seq<char> {
    match item {
        SettingsItem::FetchEnabled => "Automatically fetch from remote at a regular interval."@,
        SettingsItem::FetchInterval => "How often to automatically fetch (in seconds)."@,
        SettingsItem::StatusEnabled => "Automatically refresh staged/unstaged changes."@,
        SettingsItem::StatusInterval => "How often to refresh file status (in seconds)."@,
        SettingsItem::BranchesEnabled => "Automatically refresh branch list and remote statuses."@,
        SettingsItem::BranchesInterval => "How often to refresh branches (in seconds)."@,
        SettingsItem::PrsEnabled => "Automatically refresh the pull request list."@,
        SettingsItem::PrsInterval => "How often to refresh pull requests (in seconds)."@,
        SettingsItem::AiBranchInstructions => "Extra instructions for AI branch name generation."@,
        SettingsItem::AiCommitInstructions => "Extra instructions for AI commit message generation."@,
        SettingsItem::AiPrTitleInstructions => "Extra instructions for AI PR title generation."@,
        SettingsItem::AiPrDescriptionInstructions => "Extra instructions for AI PR description generation."@,
        SettingsItem::DraftByDefault => "Create pull requests as drafts by default."@,
        SettingsItem::SubjectMaxLength => "Maximum characters for commit message subject line."@,
        SettingsItem::DefaultView => "Which view to show on startup (changes or pr)."@,
    }
}

/// Instructions count as configured when set and not empty.
pub open spec fn configured(v: Option<String>) -> Option<String> {
    match v {
        Some(t) => if t@.len() > 0 {
            Some(t)
        } else {
            None
        },
        None => None,
    }
}

/// A numeric value with its unit, range and step.
pub open spec fn is_number(v: DetailValue, value: u64, suffix: Seq<char>, range: Seq<char>, step: Seq<char>) -> bool {
    v matches DetailValue::Number { value: n, suffix: u, range: g, step: p } && n == value && u@
        == suffix && g@ == range && p@ == step
}

/// The value an entry's detail pane shows for the current settings.
pub open spec fn detail_value_matches(item: SettingsItem, s: AppState, v: DetailValue) -> bool {
    let ar = s.settings.auto_refresh;
    let ai = s.settings.ai;
    match item {
        SettingsItem::FetchEnabled => v == DetailValue::Toggle(ar.fetch_enabled),
        SettingsItem::FetchInterval => is_number(v, ar.fetch_interval_secs, "s"@, "30s - 600s"@, "30s"@),
        SettingsItem::StatusEnabled => v == DetailValue::Toggle(ar.status_enabled),
        SettingsItem::StatusInterval => is_number(v, ar.status_interval_secs, "s"@, "10s - 300s"@, "10s"@),
        SettingsItem::BranchesEnabled => v == DetailValue::Toggle(ar.branches_enabled),
        SettingsItem::BranchesInterval => is_number(v, ar.branches_interval_secs, "s"@, "30s - 600s"@, "30s"@),
        SettingsItem::PrsEnabled => v == DetailValue::Toggle(ar.prs_enabled),
        SettingsItem::PrsInterval => is_number(v, ar.prs_interval_secs, "s"@, "30s - 600s"@, "30s"@),
        SettingsItem::AiBranchInstructions => v == DetailValue::Instructions(configured(ai.branch_name_instructions)),
        SettingsItem::AiCommitInstructions => v == DetailValue::Instructions(configured(ai.commit_message_instructions)),
        SettingsItem::AiPrTitleInstructions => v == DetailValue::Instructions(configured(ai.pr_title_instructions)),
        SettingsItem::AiPrDescriptionInstructions => v == DetailValue::Instructions(configured(ai.pr_description_instructions)),
        SettingsItem::DraftByDefault => v == DetailValue::Toggle(s.settings.pull_requests.draft_by_default),
        SettingsItem::SubjectMaxLength => is_number(v, s.settings.commit.subject_max_length as u64, ""@, "50 - 120"@, "1"@),
        SettingsItem::DefaultView => v matches DetailValue::ViewName(n) && n@ == s.settings.ui.default_view@,
    }
}

fn configured_exec(v: &Option<String>) -> (r: Option<String>)
    ensures
        r == configured(*v),
{
    match v {
        Some(t) => if chars_of(t.as_str()).len() > 0 {
            Some(t.clone())
        } else {
            None
        },
        None => None,
    }
}

/// The detail pane of the selected settings entry (`detail_title`,
/// `detail_description`, `detail_value_matches`).
pub fn settings_detail(state: &AppState) -> (r: SettingsDetail)
    ensures
        ({
            let item = if state.selected_settings_item < 15 {
                settings_items()[state.selected_settings_item as int]
            } else {
                SettingsItem::FetchEnabled
            };
            &&& r.title@ == detail_title(item)
            &&& r.description@ == detail_description(item)
            &&& detail_value_matches(item, *state, r.value)
        }),
{
    let item = SettingsItem::from_index(state.selected_settings_item);
    let ar = &state.settings.auto_refresh;
    let ai = &state.settings.ai;
    match item {
        SettingsItem::FetchEnabled => SettingsDetail {
            title: "Auto-fetch",
            description: "Automatically fetch from remote at a regular interval.",
            value: DetailValue::Toggle(ar.fetch_enabled),
        },
        SettingsItem::FetchInterval => SettingsDetail {
            title: "Fetch Interval",
            description: "How often to automatically fetch (in seconds).",
            value: DetailValue::Number { value: ar.fetch_interval_secs, suffix: "s", range: "30s - 600s", step: "30s" },
        },
        SettingsItem::StatusEnabled => SettingsDetail {
            title: "Auto-refresh Status",
            description: "Automatically refresh staged/unstaged changes.",
            value: DetailValue::Toggle(ar.status_enabled),
        },
        SettingsItem::StatusInterval => SettingsDetail {
            title: "Status Refresh Interval",
            description: "How often to refresh file status (in seconds).",
            value: DetailValue::Number { value: ar.status_interval_secs, suffix: "s", range: "10s - 300s", step: "10s" },
        },
        SettingsItem::BranchesEnabled => SettingsDetail {
            title: "Auto-refresh Branches",
            description: "Automatically refresh branch list and remote statuses.",
            value: DetailValue::Toggle(ar.branches_enabled),
        },
        SettingsItem::BranchesInterval => SettingsDetail {
            title: "Branches Refresh Interval",
            description: "How often to refresh branches (in seconds).",
            value: DetailValue::Number { value: ar.branches_interval_secs, suffix: "s", range: "30s - 600s", step: "30s" },
        },
        SettingsItem::PrsEnabled => SettingsDetail {
            title: "Auto-refresh PRs",
            description: "Automatically refresh the pull request list.",
            value: DetailValue::Toggle(ar.prs_enabled),
        },
        SettingsItem::PrsInterval => SettingsDetail {
            title: "PRs Refresh Interval",
            description: "How often to refresh pull requests (in seconds).",
            value: DetailValue::Number { value: ar.prs_interval_secs, suffix: "s", range: "30s - 600s", step: "30s" },
        },
        SettingsItem::AiBranchInstructions => SettingsDetail {
            title: "Branch Name Instructions",
            description: "Extra instructions for AI branch name generation.",
            value: DetailValue::Instructions(configured_exec(&ai.branch_name_instructions)),
        },
        SettingsItem::AiCommitInstructions => SettingsDetail {
            title: "Commit Message Instructions",
            description: "Extra instructions for AI commit message generation.",
            value: DetailValue::Instructions(configured_exec(&ai.commit_message_instructions)),
        },
        SettingsItem::AiPrTitleInstructions => SettingsDetail {
            title: "PR Title Instructions",
            description: "Extra instructions for AI PR title generation.",
            value: DetailValue::Instructions(configured_exec(&ai.pr_title_instructions)),
        },
        SettingsItem::AiPrDescriptionInstructions => SettingsDetail {
            title: "PR Description Instructions",
            description: "Extra instructions for AI PR description generation.",
            value: DetailValue::Instructions(configured_exec(&ai.pr_description_instructions)),
        },
        SettingsItem::DraftByDefault => SettingsDetail {
            title: "Draft by Default",
            description: "Create pull requests as drafts by default.",
            value: DetailValue::Toggle(state.settings.pull_requests.draft_by_default),
        },
        SettingsItem::SubjectMaxLength => SettingsDetail {
            title: "Subject Max Length",
            description: "Maximum characters for commit message subject line.",
            value: DetailValue::Number {
                value: state.settings.commit.subject_max_length as u64,
                suffix: "",
                range: "50 - 120",
                step: "1",
            },
        },
        SettingsItem::DefaultView => SettingsDetail {
            title: "Default View",
            description: "Which view to show on startup (changes or pr).",
            value: DetailValue::ViewName(state.settings.ui.default_view.clone()),
        },
    }
}

/// The row of entry `k` in the settings list, where each group starts with
/// its name, and every group but the first with a blank row before it.
pub open spec fn item_row(k: int) -> int
    decreases k,
{
    if k <= 0 {
        1
    } else if section_of(settings_items()[k]) != section_of(settings_items()[k - 1]) {
        item_row(k - 1) + 3
    } else {
        item_row(k - 1) + 1
    }
}

/// The row of the selected entry in the settings list (the first row when
/// the selection is past the end).
pub fn settings_visual_row(selected: usize) -> (r: usize)
    ensures
        selected < 15 ==> r == item_row(selected as int),
        selected >= 15 ==> r == 0,
{
    if selected >= 15 {
        return 0;
    }
    let mut row: usize = 1;
    let mut k: usize = 0;
    while k < selected
        invariant
            k <= selected < 15,
            row == item_row(k as int),
            row <= 3 * k + 1,
        decreases selected - k,
    {
        let a = SettingsItem::from_index(k).section();
        let b = SettingsItem::from_index(k + 1).section();
        let same = crate::text::chars_eq(&chars_of(a), &chars_of(b));
        row = if same {
            row + 1
        } else {
            row + 3
        };
        k = k + 1;
    }
    row
}

// ───────────────────────── footer summary ─────────────────────────

/// What the footer summarizes about the selected repository.
#[derive(Clone, Debug)]
pub enum StatusSummary {
    /// No repository is selected.
    NoRepository,
    /// Background jobs run: the spinner frame and their labels.
    Busy { spinner: char, labels: String },
    /// The checked-out branch (`(detached)` when none) and the numbers of
    /// staged files, unstaged files and pull requests.
    Idle { branch: String, staged: usize, unstaged: usize, prs: usize },
}

/// How many files satisfy `p`.
pub open spec fn count_files(fs: Seq<crate::status::ChangedFile>, p: spec_fn(crate::status::ChangedFile) -> bool) -> nat
    decreases fs.len(),
{
    if fs.len() == 0 {
        0
    } else {
        count_files(fs.drop_last(), p) + if p(fs.last()) {
            1nat
        } else {
            0nat
        }
    }
}

/// The labels of the running jobs, joined by `, `.
pub open spec fn job_labels(s: AppState) -> Seq<char> {
    join(s.active_jobs@.map_values(|j: crate::jobs::ActiveJob| job_label(j.kind)), ", "@)
}

/// The footer summary of a state.
pub open spec fn summary_matches(s: AppState, r: StatusSummary) -> bool {
    match s.current_repo() {
        None => r is NoRepository,
        Some(repo) => if s.active_jobs@.len() > 0 {
            r matches StatusSummary::Busy { spinner, labels } && spinner == spinner_frames()[(
            s.spinner_tick % 10) as int] && labels@ == job_labels(s)
        } else {
            r matches StatusSummary::Idle { branch, staged, unstaged, prs } && branch@ == (match repo.current_branch {
                Some(b) => b@,
                None => "(detached)"@,
            }) && staged == count_files(repo.status_files@, |f: crate::status::ChangedFile| f.staged)
                && unstaged == count_files(repo.status_files@, |f: crate::status::ChangedFile| f.unstaged)
                && prs == repo.pull_requests@.len()
        },
    }
}

/// The footer summary (`summary_matches`).
pub fn status_summary(state: &AppState) -> (r: StatusSummary)
    ensures
        summary_matches(*state, r),
{
    if state.selected_repo >= state.repos.len() {
        return StatusSummary::NoRepository;
    }
    if state.has_active_jobs() {
        let mut labels: Vec<char> = Vec::new();
        let ghost ls = state.active_jobs@.map_values(|j: crate::jobs::ActiveJob| job_label(j.kind));
        let mut i: usize = 0;
        while i < state.active_jobs.len()
            invariant
                i <= state.active_jobs@.len(),
                ls == state.active_jobs@.map_values(|j: crate::jobs::ActiveJob| job_label(j.kind)),
                labels@ == join(ls.take(i as int), ", "@),
            decreases state.active_jobs@.len() - i,
        {
            let ghost before = labels@;
            if i > 0 {
                append_chars(&mut labels, &chars_of(", "));
            }
            append_chars(&mut labels, &chars_of(state.active_jobs[i].kind.label()));
            proof {
                let t = ls.take(i + 1);
                assert(t.drop_last() =~= ls.take(i as int));
                assert(t.last() == ls[i as int]);
                if i == 0 {
                    assert(t.len() == 1);
                }
            }
            i = i + 1;
        }
        proof {
            assert(ls.take(i as int) =~= ls);
        }
        return StatusSummary::Busy { spinner: state.spinner_char(), labels: string_of(&labels) };
    }
    let repo = &state.repos[state.selected_repo];
    let branch = match &repo.current_branch {
        Some(b) => b.clone(),
        None => string_of(&chars_of("(detached)")),
    };
    let files = &repo.status_files;
    let mut staged: usize = 0;
    let mut unstaged: usize = 0;
    let mut i: usize = 0;
    while i < files.len()
        invariant
            i <= files@.len(),
            staged == count_files(files@.take(i as int), |f: crate::status::ChangedFile| f.staged),
            unstaged == count_files(files@.take(i as int), |f: crate::status::ChangedFile| f.unstaged),
            staged <= i,
            unstaged <= i,
        decreases files@.len() - i,
    {
        proof {
            let t = files@.take(i + 1);
            assert(t.drop_last() =~= files@.take(i as int));
        }
        if files[i].staged {
            staged = staged + 1;
        }
        if files[i].unstaged {
            unstaged = unstaged + 1;
        }
        i = i + 1;
    }
    proof {
        assert(files@.take(i as int) =~= files@);
    }
    StatusSummary::Idle { branch, staged, unstaged, prs: repo.pull_requests.len() }
}

// ───────────────────────── commit editor ─────────────────────────

/// The subject (up to the first line break) and the body (after it, when
/// there is a line break) of the commit editor's text.
pub open spec fn subject_body(input: Seq<char>) -> (Seq<char>, Option<Seq<char>>) {
    let p = find(input, seq!['\n']);
    if p >= 0 {
        (input.take(p), Some(input.skip(p + 1)))
    } else {
        (input, None)
    }
}

/// Splits the commit editor's text (`subject_body`).
pub fn split_subject_body(input: &str) -> (r: (String, Option<String>))
    ensures
        r.0@ == subject_body(input@).0,
        match r.1 {
            Some(b) => subject_body(input@).1 == Some(b@),
            None => subject_body(input@).1 is None,
        },
{
    let t = chars_of(input);
    let nl = vec!['\n'];
    proof {
        assert(nl@ =~= seq!['\n']);
    }
    match find_text(&t, &nl) {
        Some(p) => {
            let n = t.len();
            let head = sub_chars(&t, 0, p);
            let tail = sub_chars(&t, p + 1, n);
            proof {
                assert(head@ =~= t@.take(p as int));
                assert(tail@ =~= t@.skip(p + 1));
            }
            (string_of(&head), Some(string_of(&tail)))
        },
        None => (string_of(&t), None),
    }
}

// ───────────────────────── shortcuts ─────────────────────────

/// A keyboard shortcut as the help overlay lists it.
#[derive(Clone, Copy, Debug)]
pub struct ShortcutEntry {
    pub keys: &'static str,
    pub description: &'static str,
}


// ───────────────────────── branch details ─────────────────────────

/// What the branch details say of the checked-out branch's upstream: up to
/// date, or how many commits it is ahead and behind (the zero counts left out).
pub open spec fn tracking_text_of(ahead: nat, behind: nat) -> Seq<char> {
    if ahead == 0 && behind == 0 {
        "Up to date with remote"@
    } else if behind == 0 {
        decimal(ahead) + "  ahead"@
    } else if ahead == 0 {
        decimal(behind) + "  behind"@
    } else {
        decimal(ahead) + "  ahead, "@ + decimal(behind) + "  behind"@
    }
}

/// The tracking line of the branch details (`tracking_text_of`).
pub fn tracking_text(t: &TrackingStatus) -> (r: String)
    ensures
        r@ == tracking_text_of(t.ahead as nat, t.behind as nat),
{
    proof {
        reveal_strlit("");
    }
    if t.ahead == 0 && t.behind == 0 {
        String::from_str("Up to date with remote")
    } else if t.behind == 0 {
        let r = with_number("", t.ahead as u64, "  ahead");
        assert(r@ =~= decimal(t.ahead as nat) + "  ahead"@);
        r
    } else if t.ahead == 0 {
        let r = with_number("", t.behind as u64, "  behind");
        assert(r@ =~= decimal(t.behind as nat) + "  behind"@);
        r
    } else {
        let mut v = chars_of(with_number("", t.ahead as u64, "  ahead, ").as_str());
        append_chars(&mut v, &chars_of(with_number("", t.behind as u64, "  behind").as_str()));
        let r = string_of(&v);
        assert(r@ =~= decimal(t.ahead as nat) + "  ahead, "@ + decimal(t.behind as nat) + "  behind"@);
        r
    }
}

} // verus!
