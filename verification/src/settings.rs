//! Application settings: the resolved settings, the partial overlays read
//! from the team and personal configuration files, and how an overlay is
//! applied on top of resolved settings.
use vstd::prelude::*;
use vstd::string::StringExecFns;

verus! {

// ───────────────────────── resolved settings ─────────────────────────

/// All settings, every field concrete.
#[derive(Clone, Debug)]
pub struct AppSettings {
    pub auto_refresh: AutoRefreshSettings,
    pub ai: AiSettings,
    pub pull_requests: PrSettings,
    pub commit: CommitSettings,
    pub ui: UiSettings,
}

/// Which background refreshes run, and how often (in seconds).
#[derive(Clone, Debug)]
pub struct AutoRefreshSettings {
    pub fetch_enabled: bool,
    pub fetch_interval_secs: u64,
    pub status_enabled: bool,
    pub status_interval_secs: u64,
    pub branches_enabled: bool,
    pub branches_interval_secs: u64,
    pub prs_enabled: bool,
    pub prs_interval_secs: u64,
}

/// Extra instructions given to the AI for each kind of generated text.
#[derive(Clone, Debug)]
pub struct AiSettings {
    pub branch_name_instructions: Option<String>,
    pub commit_message_instructions: Option<String>,
    pub pr_title_instructions: Option<String>,
    pub pr_description_instructions: Option<String>,
}

/// Pull request defaults.
#[derive(Clone, Debug)]
pub struct PrSettings {
    pub default_base_branch: Option<String>,
    pub draft_by_default: bool,
}

/// Commit editor settings.
#[derive(Clone, Debug)]
pub struct CommitSettings {
    pub subject_max_length: usize,
}

/// User interface settings.
#[derive(Clone, Debug)]
pub struct UiSettings {
    pub default_view: String,
}

/// Default interval between background fetches.
pub fn default_fetch_interval() -> (r: u64)
    ensures
        r == 300,
{
    300
}

/// Default interval between status refreshes.
pub fn default_status_interval() -> (r: u64)
    ensures
        r == 60,
{
    60
}

/// Default interval between branch refreshes.
pub fn default_branches_interval() -> (r: u64)
    ensures
        r == 300,
{
    300
}

/// Default interval between pull request refreshes.
pub fn default_prs_interval() -> (r: u64)
    ensures
        r == 300,
{
    300
}

/// Default maximum length of a commit subject.
pub fn default_subject_max_length() -> (r: usize)
    ensures
        r == 72,
{
    72
}

/// Default view shown at start.
pub fn default_view() -> (r: String)
    ensures
        r@ == "changes"@,
{
    String::from_str("changes")
}

/// Auto-refresh defaults: everything off; fetch, branches and pull requests
/// every 300 seconds, status every 60.
pub open spec fn default_auto_refresh() -> AutoRefreshSettings {
    AutoRefreshSettings {
        fetch_enabled: false,
        fetch_interval_secs: 300,
        status_enabled: false,
        status_interval_secs: 60,
        branches_enabled: false,
        branches_interval_secs: 300,
        prs_enabled: false,
        prs_interval_secs: 300,
    }
}

/// AI defaults: no extra instructions.
pub open spec fn default_ai() -> AiSettings {
    AiSettings {
        branch_name_instructions: None,
        commit_message_instructions: None,
        pr_title_instructions: None,
        pr_description_instructions: None,
    }
}

/// Pull request defaults: no base branch, not drafts.
pub open spec fn default_pr() -> PrSettings {
    PrSettings { default_base_branch: None, draft_by_default: false }
}

impl Default for AutoRefreshSettings {
    fn default() -> (r: AutoRefreshSettings)
        ensures
            r == default_auto_refresh(),
    {
        AutoRefreshSettings {
            fetch_enabled: false,
            fetch_interval_secs: default_fetch_interval(),
            status_enabled: false,
            status_interval_secs: default_status_interval(),
            branches_enabled: false,
            branches_interval_secs: default_branches_interval(),
            prs_enabled: false,
            prs_interval_secs: default_prs_interval(),
        }
    }
}

impl Default for AiSettings {
    fn default() -> (r: AiSettings)
        ensures
            r == default_ai(),
    {
        AiSettings {
            branch_name_instructions: None,
            commit_message_instructions: None,
            pr_title_instructions: None,
            pr_description_instructions: None,
        }
    }
}

impl Default for PrSettings {
    fn default() -> (r: PrSettings)
        ensures
            r == default_pr(),
    {
        PrSettings { default_base_branch: None, draft_by_default: false }
    }
}

impl Default for CommitSettings {
    fn default() -> (r: CommitSettings)
        ensures
            r.subject_max_length == 72,
    {
        CommitSettings { subject_max_length: default_subject_max_length() }
    }
}

impl Default for UiSettings {
    fn default() -> (r: UiSettings)
        ensures
            r.default_view@ == "changes"@,
    {
        UiSettings { default_view: default_view() }
    }
}

impl Default for AppSettings {
    fn default() -> (r: AppSettings)
        ensures
            r.auto_refresh == default_auto_refresh(),
            r.ai == default_ai(),
            r.pull_requests == default_pr(),
            r.commit.subject_max_length == 72,
            r.ui.default_view@ == "changes"@,
    {
        AppSettings {
            auto_refresh: AutoRefreshSettings::default(),
            ai: AiSettings::default(),
            pull_requests: PrSettings::default(),
            commit: CommitSettings::default(),
            ui: UiSettings::default(),
        }
    }
}

// ───────────────────────── partial settings ─────────────────────────

/// An overlay of settings: each field that is present replaces the resolved one.
#[derive(Clone, Debug)]
pub struct PartialSettings {
    pub auto_refresh: Option<PartialAutoRefresh>,
    pub ai: Option<PartialAiSettings>,
    pub pull_requests: Option<PartialPrSettings>,
    pub commit: Option<PartialCommitSettings>,
    pub ui: Option<PartialUiSettings>,
}

/// Overlay of the auto-refresh settings.
#[derive(Clone, Debug)]
pub struct PartialAutoRefresh {
    pub fetch_enabled: Option<bool>,
    pub fetch_interval_secs: Option<u64>,
    pub status_enabled: Option<bool>,
    pub status_interval_secs: Option<u64>,
    pub branches_enabled: Option<bool>,
    pub branches_interval_secs: Option<u64>,
    pub prs_enabled: Option<bool>,
    pub prs_interval_secs: Option<u64>,
}

/// Overlay of the AI settings.
#[derive(Clone, Debug)]
pub struct PartialAiSettings {
    pub branch_name_instructions: Option<String>,
    pub commit_message_instructions: Option<String>,
    pub pr_title_instructions: Option<String>,
    pub pr_description_instructions: Option<String>,
}

/// Overlay of the pull request settings.
#[derive(Clone, Debug)]
pub struct PartialPrSettings {
    pub default_base_branch: Option<String>,
    pub draft_by_default: Option<bool>,
}

/// Overlay of the commit settings.
#[derive(Clone, Debug)]
pub struct PartialCommitSettings {
    pub subject_max_length: Option<usize>,
}

/// Overlay of the user interface settings.
#[derive(Clone, Debug)]
pub struct PartialUiSettings {
    pub default_view: Option<String>,
}

impl Default for PartialSettings {
    fn default() -> (r: PartialSettings)
        ensures
            r == empty_partial(),
    {
        PartialSettings { auto_refresh: None, ai: None, pull_requests: None, commit: None, ui: None }
    }
}

impl Default for PartialAutoRefresh {
    fn default() -> (r: PartialAutoRefresh)
        ensures
            r == (PartialAutoRefresh {
                fetch_enabled: None,
                fetch_interval_secs: None,
                status_enabled: None,
                status_interval_secs: None,
                branches_enabled: None,
                branches_interval_secs: None,
                prs_enabled: None,
                prs_interval_secs: None,
            }),
    {
        PartialAutoRefresh {
            fetch_enabled: None,
            fetch_interval_secs: None,
            status_enabled: None,
            status_interval_secs: None,
            branches_enabled: None,
            branches_interval_secs: None,
            prs_enabled: None,
            prs_interval_secs: None,
        }
    }
}

impl Default for PartialAiSettings {
    fn default() -> (r: PartialAiSettings)
        ensures
            r == (PartialAiSettings {
                branch_name_instructions: None,
                commit_message_instructions: None,
                pr_title_instructions: None,
                pr_description_instructions: None,
            }),
    {
        PartialAiSettings {
            branch_name_instructions: None,
            commit_message_instructions: None,
            pr_title_instructions: None,
            pr_description_instructions: None,
        }
    }
}

impl Default for PartialPrSettings {
    fn default() -> (r: PartialPrSettings)
        ensures
            r == (PartialPrSettings { default_base_branch: None, draft_by_default: None }),
    {
        PartialPrSettings { default_base_branch: None, draft_by_default: None }
    }
}

impl Default for PartialCommitSettings {
    fn default() -> (r: PartialCommitSettings)
        ensures
            r == (PartialCommitSettings { subject_max_length: None }),
    {
        PartialCommitSettings { subject_max_length: None }
    }
}

impl Default for PartialUiSettings {
    fn default() -> (r: PartialUiSettings)
        ensures
            r == (PartialUiSettings { default_view: None }),
    {
        PartialUiSettings { default_view: None }
    }
}

// ───────────────────────── the overlay model ─────────────────────────

/// The value of an override when it is present, else the current value.
pub open spec fn pick<T>(o: Option<T>, current: T) -> T {
    match o {
        Some(v) => v,
        None => current,
    }
}

/// The later override when it is present, else the earlier one.
pub open spec fn later<T>(earlier: Option<T>, latest: Option<T>) -> Option<T> {
    if latest is Some {
        latest
    } else {
        earlier
    }
}

/// An overlay that overrides nothing.
pub open spec fn empty_partial() -> PartialSettings {
    PartialSettings { auto_refresh: None, ai: None, pull_requests: None, commit: None, ui: None }
}

/// Auto-refresh settings with an overlay applied.
pub open spec fn applied_auto_refresh(t: AutoRefreshSettings, p: PartialAutoRefresh) -> AutoRefreshSettings {
    AutoRefreshSettings {
        fetch_enabled: pick(p.fetch_enabled, t.fetch_enabled),
        fetch_interval_secs: pick(p.fetch_interval_secs, t.fetch_interval_secs),
        status_enabled: pick(p.status_enabled, t.status_enabled),
        status_interval_secs: pick(p.status_interval_secs, t.status_interval_secs),
        branches_enabled: pick(p.branches_enabled, t.branches_enabled),
        branches_interval_secs: pick(p.branches_interval_secs, t.branches_interval_secs),
        prs_enabled: pick(p.prs_enabled, t.prs_enabled),
        prs_interval_secs: pick(p.prs_interval_secs, t.prs_interval_secs),
    }
}

/// AI settings with an overlay applied.
pub open spec fn applied_ai(t: AiSettings, p: PartialAiSettings) -> AiSettings {
    AiSettings {
        branch_name_instructions: later(t.branch_name_instructions, p.branch_name_instructions),
        commit_message_instructions: later(
            t.commit_message_instructions,
            p.commit_message_instructions,
        ),
        pr_title_instructions: later(t.pr_title_instructions, p.pr_title_instructions),
        pr_description_instructions: later(
            t.pr_description_instructions,
            p.pr_description_instructions,
        ),
    }
}

/// Pull request settings with an overlay applied.
pub open spec fn applied_pr(t: PrSettings, p: PartialPrSettings) -> PrSettings {
    PrSettings {
        default_base_branch: later(t.default_base_branch, p.default_base_branch),
        draft_by_default: pick(p.draft_by_default, t.draft_by_default),
    }
}

/// Commit settings with an overlay applied.
pub open spec fn applied_commit(t: CommitSettings, p: PartialCommitSettings) -> CommitSettings {
    CommitSettings { subject_max_length: pick(p.subject_max_length, t.subject_max_length) }
}

/// UI settings with an overlay applied.
pub open spec fn applied_ui(t: UiSettings, p: PartialUiSettings) -> UiSettings {
    UiSettings { default_view: pick(p.default_view, t.default_view) }
}

/// Settings with an overlay applied: each present field replaces the current one.
pub open spec fn applied(s: AppSettings, p: PartialSettings) -> AppSettings {
    AppSettings {
        auto_refresh: match p.auto_refresh {
            Some(a) => applied_auto_refresh(s.auto_refresh, a),
            None => s.auto_refresh,
        },
        ai: match p.ai {
            Some(a) => applied_ai(s.ai, a),
            None => s.ai,
        },
        pull_requests: match p.pull_requests {
            Some(a) => applied_pr(s.pull_requests, a),
            None => s.pull_requests,
        },
        commit: match p.commit {
            Some(a) => applied_commit(s.commit, a),
            None => s.commit,
        },
        ui: match p.ui {
            Some(a) => applied_ui(s.ui, a),
            None => s.ui,
        },
    }
}

/// Two auto-refresh overlays combined, the second winning where both are present.
pub open spec fn merged_auto_refresh(a: PartialAutoRefresh, b: PartialAutoRefresh) -> PartialAutoRefresh {
    PartialAutoRefresh {
        fetch_enabled: later(a.fetch_enabled, b.fetch_enabled),
        fetch_interval_secs: later(a.fetch_interval_secs, b.fetch_interval_secs),
        status_enabled: later(a.status_enabled, b.status_enabled),
        status_interval_secs: later(a.status_interval_secs, b.status_interval_secs),
        branches_enabled: later(a.branches_enabled, b.branches_enabled),
        branches_interval_secs: later(a.branches_interval_secs, b.branches_interval_secs),
        prs_enabled: later(a.prs_enabled, b.prs_enabled),
        prs_interval_secs: later(a.prs_interval_secs, b.prs_interval_secs),
    }
}

/// Two AI overlays combined.
pub open spec fn merged_ai(a: PartialAiSettings, b: PartialAiSettings) -> PartialAiSettings {
    PartialAiSettings {
        branch_name_instructions: later(a.branch_name_instructions, b.branch_name_instructions),
        commit_message_instructions: later(
            a.commit_message_instructions,
            b.commit_message_instructions,
        ),
        pr_title_instructions: later(a.pr_title_instructions, b.pr_title_instructions),
        pr_description_instructions: later(
            a.pr_description_instructions,
            b.pr_description_instructions,
        ),
    }
}

/// Two pull request overlays combined.
pub open spec fn merged_pr(a: PartialPrSettings, b: PartialPrSettings) -> PartialPrSettings {
    PartialPrSettings {
        default_base_branch: later(a.default_base_branch, b.default_base_branch),
        draft_by_default: later(a.draft_by_default, b.draft_by_default),
    }
}

/// Combines two optional sections with `f` when both are present.
pub open spec fn merged_section<T>(a: Option<T>, b: Option<T>, f: spec_fn(T, T) -> T) -> Option<T> {
    match (a, b) {
        (Some(x), Some(y)) => Some(f(x, y)),
        (Some(x), None) => Some(x),
        (None, y) => y,
    }
}

/// Two overlays combined into one, the second winning field by field.
pub open spec fn merged(a: PartialSettings, b: PartialSettings) -> PartialSettings {
    PartialSettings {
        auto_refresh: merged_section(
            a.auto_refresh,
            b.auto_refresh,
            |x: PartialAutoRefresh, y: PartialAutoRefresh| merged_auto_refresh(x, y),
        ),
        ai: merged_section(
            a.ai,
            b.ai,
            |x: PartialAiSettings, y: PartialAiSettings| merged_ai(x, y),
        ),
        pull_requests: merged_section(
            a.pull_requests,
            b.pull_requests,
            |x: PartialPrSettings, y: PartialPrSettings| merged_pr(x, y),
        ),
        commit: merged_section(
            a.commit,
            b.commit,
            |x: PartialCommitSettings, y: PartialCommitSettings|
                PartialCommitSettings {
                    subject_max_length: later(x.subject_max_length, y.subject_max_length),
                },
        ),
        ui: merged_section(
            a.ui,
            b.ui,
            |x: PartialUiSettings, y: PartialUiSettings|
                PartialUiSettings { default_view: later(x.default_view, y.default_view) },
        ),
    }
}

// ───────────────────────── laws ─────────────────────────

/// Each auto-refresh override that is present replaces its field, and each
/// absent one leaves its field as it was.
pub proof fn lemma_auto_refresh_overrides(t: AutoRefreshSettings, p: PartialAutoRefresh)
    ensures
        p.fetch_enabled matches Some(v) ==> applied_auto_refresh(t, p).fetch_enabled == v,
        p.fetch_enabled is None ==> applied_auto_refresh(t, p).fetch_enabled == t.fetch_enabled,
        p.status_enabled matches Some(v) ==> applied_auto_refresh(t, p).status_enabled == v,
        p.status_enabled is None ==> applied_auto_refresh(t, p).status_enabled == t.status_enabled,
        p.branches_enabled matches Some(v) ==> applied_auto_refresh(t, p).branches_enabled == v,
        p.branches_enabled is None ==> applied_auto_refresh(t, p).branches_enabled == t.branches_enabled,
        p.prs_enabled matches Some(v) ==> applied_auto_refresh(t, p).prs_enabled == v,
        p.prs_enabled is None ==> applied_auto_refresh(t, p).prs_enabled == t.prs_enabled,
        p.fetch_interval_secs matches Some(v) ==> applied_auto_refresh(t, p).fetch_interval_secs == v,
        p.fetch_interval_secs is None ==> applied_auto_refresh(t, p).fetch_interval_secs == t.fetch_interval_secs,
        p.status_interval_secs matches Some(v) ==> applied_auto_refresh(t, p).status_interval_secs == v,
        p.status_interval_secs is None ==> applied_auto_refresh(t, p).status_interval_secs == t.status_interval_secs,
        p.branches_interval_secs matches Some(v) ==> applied_auto_refresh(t, p).branches_interval_secs == v,
        p.branches_interval_secs is None ==> applied_auto_refresh(t, p).branches_interval_secs == t.branches_interval_secs,
        p.prs_interval_secs matches Some(v) ==> applied_auto_refresh(t, p).prs_interval_secs == v,
        p.prs_interval_secs is None ==> applied_auto_refresh(t, p).prs_interval_secs == t.prs_interval_secs,
{
}

/// Applying an overlay: each field that the overlay sets takes the overlay's
/// value, and each field it leaves out keeps its value.
pub proof fn lemma_overlay_fields(s: AppSettings, p: PartialSettings)
    ensures
        p.auto_refresh is None ==> applied(s, p).auto_refresh == s.auto_refresh,
        p.auto_refresh matches Some(a) ==> applied(s, p).auto_refresh == applied_auto_refresh(s.auto_refresh, a),
        p.ai is None ==> applied(s, p).ai == s.ai,
        p.pull_requests is None ==> applied(s, p).pull_requests == s.pull_requests,
        p.commit is None ==> applied(s, p).commit == s.commit,
        p.ui is None ==> applied(s, p).ui == s.ui,
        p.ai matches Some(a) ==> (a.branch_name_instructions is Some ==> applied(s, p).ai.branch_name_instructions == a.branch_name_instructions),
        p.ai matches Some(a) ==> (a.branch_name_instructions is None ==> applied(s, p).ai.branch_name_instructions == s.ai.branch_name_instructions),
        p.ai matches Some(a) ==> (a.commit_message_instructions is Some ==> applied(s, p).ai.commit_message_instructions == a.commit_message_instructions),
        p.ai matches Some(a) ==> (a.commit_message_instructions is None ==> applied(s, p).ai.commit_message_instructions == s.ai.commit_message_instructions),
        p.ai matches Some(a) ==> (a.pr_title_instructions is Some ==> applied(s, p).ai.pr_title_instructions == a.pr_title_instructions),
        p.ai matches Some(a) ==> (a.pr_title_instructions is None ==> applied(s, p).ai.pr_title_instructions == s.ai.pr_title_instructions),
        p.ai matches Some(a) ==> (a.pr_description_instructions is Some ==> applied(s, p).ai.pr_description_instructions == a.pr_description_instructions),
        p.ai matches Some(a) ==> (a.pr_description_instructions is None ==> applied(s, p).ai.pr_description_instructions == s.ai.pr_description_instructions),
        p.pull_requests matches Some(a) ==> (a.default_base_branch is Some ==> applied(s, p).pull_requests.default_base_branch == a.default_base_branch),
        p.pull_requests matches Some(a) ==> (a.default_base_branch is None ==> applied(s, p).pull_requests.default_base_branch == s.pull_requests.default_base_branch),
        p.pull_requests matches Some(a) ==> (a.draft_by_default matches Some(v) ==> applied(s, p).pull_requests.draft_by_default == v),
        p.pull_requests matches Some(a) ==> (a.draft_by_default is None ==> applied(s, p).pull_requests.draft_by_default == s.pull_requests.draft_by_default),
        p.commit matches Some(a) ==> (a.subject_max_length matches Some(v) ==> applied(s, p).commit.subject_max_length == v),
        p.commit matches Some(a) ==> (a.subject_max_length is None ==> applied(s, p).commit.subject_max_length == s.commit.subject_max_length),
        p.ui matches Some(a) ==> (a.default_view matches Some(v) ==> applied(s, p).ui.default_view == v),
        p.ui matches Some(a) ==> (a.default_view is None ==> applied(s, p).ui.default_view == s.ui.default_view),
{
}

/// Applying an overlay that overrides nothing leaves the settings unchanged.
pub proof fn lemma_apply_empty(s: AppSettings)
    ensures
        applied(s, empty_partial()) == s,
{
}

/// Applying the same overlay twice is the same as applying it once.
pub proof fn lemma_apply_idempotent(s: AppSettings, p: PartialSettings)
    ensures
        applied(applied(s, p), p) == applied(s, p),
{
}

/// Applying two overlays in turn is the same as applying their combination,
/// in which the later overlay wins field by field.
pub proof fn lemma_apply_chain(s: AppSettings, p1: PartialSettings, p2: PartialSettings)
    ensures
        applied(applied(s, p1), p2) == applied(s, merged(p1, p2)),
{
}

// ───────────────────────── applying overlays ─────────────────────────

fn clone_opt_string(o: &Option<String>) -> (r: Option<String>)
    ensures
        r == *o,
{
    match o {
        Some(s) => Some(s.clone()),
        None => None,
    }
}

impl PartialAutoRefresh {
    /// Applies this overlay to auto-refresh settings.
    pub fn apply_to(&self, target: &mut AutoRefreshSettings)
        ensures
            *final(target) == applied_auto_refresh(*old(target), *self),
    {
        if let Some(v) = self.fetch_enabled {
            target.fetch_enabled = v;
        }
        if let Some(v) = self.fetch_interval_secs {
            target.fetch_interval_secs = v;
        }
        if let Some(v) = self.status_enabled {
            target.status_enabled = v;
        }
        if let Some(v) = self.status_interval_secs {
            target.status_interval_secs = v;
        }
        if let Some(v) = self.branches_enabled {
            target.branches_enabled = v;
        }
        if let Some(v) = self.branches_interval_secs {
            target.branches_interval_secs = v;
        }
        if let Some(v) = self.prs_enabled {
            target.prs_enabled = v;
        }
        if let Some(v) = self.prs_interval_secs {
            target.prs_interval_secs = v;
        }
    }
}

impl PartialAiSettings {
    /// Applies this overlay to AI settings.
    pub fn apply_to(&self, target: &mut AiSettings)
        ensures
            *final(target) == applied_ai(*old(target), *self),
    {
        if self.branch_name_instructions.is_some() {
            target.branch_name_instructions = clone_opt_string(&self.branch_name_instructions);
        }
        if self.commit_message_instructions.is_some() {
            target.commit_message_instructions = clone_opt_string(
                &self.commit_message_instructions,
            );
        }
        if self.pr_title_instructions.is_some() {
            target.pr_title_instructions = clone_opt_string(&self.pr_title_instructions);
        }
        if self.pr_description_instructions.is_some() {
            target.pr_description_instructions = clone_opt_string(
                &self.pr_description_instructions,
            );
        }
    }
}

impl PartialPrSettings {
    /// Applies this overlay to pull request settings.
    pub fn apply_to(&self, target: &mut PrSettings)
        ensures
            *final(target) == applied_pr(*old(target), *self),
    {
        if self.default_base_branch.is_some() {
            target.default_base_branch = clone_opt_string(&self.default_base_branch);
        }
        if let Some(v) = self.draft_by_default {
            target.draft_by_default = v;
        }
    }
}

impl PartialCommitSettings {
    /// Applies this overlay to commit settings.
    pub fn apply_to(&self, target: &mut CommitSettings)
        ensures
            *final(target) == applied_commit(*old(target), *self),
    {
        if let Some(v) = self.subject_max_length {
            target.subject_max_length = v;
        }
    }
}

impl PartialUiSettings {
    /// Applies this overlay to UI settings.
    pub fn apply_to(&self, target: &mut UiSettings)
        ensures
            *final(target) == applied_ui(*old(target), *self),
    {
        if let Some(v) = &self.default_view {
            target.default_view = v.clone();
        }
    }
}

impl AppSettings {
    /// Applies an overlay: every field it holds replaces the current value.
    pub fn apply_overrides(&mut self, partial: &PartialSettings)
        ensures
            *final(self) == applied(*old(self), *partial),
    {
        if let Some(ar) = &partial.auto_refresh {
            ar.apply_to(&mut self.auto_refresh);
        }
        if let Some(ai) = &partial.ai {
            ai.apply_to(&mut self.ai);
        }
        if let Some(pr) = &partial.pull_requests {
            pr.apply_to(&mut self.pull_requests);
        }
        if let Some(c) = &partial.commit {
            c.apply_to(&mut self.commit);
        }
        if let Some(u) = &partial.ui {
            u.apply_to(&mut self.ui);
        }
    }
}

/// Resolves settings from the user settings and the optional team and
/// personal overlays of a repository, applied in that order.
pub fn resolve_settings(
    user: AppSettings,
    team: Option<PartialSettings>,
    personal: Option<PartialSettings>,
) -> (r: AppSettings)
    ensures
        r == applied(
            applied(user, pick(team, empty_partial())),
            pick(personal, empty_partial()),
        ),
{
    let mut settings = user;
    if let Some(t) = &team {
        settings.apply_overrides(t);
    }
    if let Some(p) = &personal {
        settings.apply_overrides(p);
    }
    settings
}

} // verus!
