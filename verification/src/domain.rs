//! Plain domain records: repositories, branches, remotes, pull requests and
//! the AI configuration.
use vstd::prelude::*;
use vstd::std_specs::convert::TryFromSpecImpl;
use vstd::string::StringExecFns;

use crate::commit::{LogEntry, ValidationError};
use crate::status::RepositoryStatus;
use crate::text::{blank, chars_of, is_blank};

verus! {

// ───────────────────────── repositories ─────────────────────────

/// Identity of a repository: its canonical path.
#[derive(Clone, Debug, PartialEq, Eq, Hash)]
pub struct RepositoryId(pub String);

/// Where a repository lives and what it is called.
#[derive(Clone, Debug, PartialEq, Eq)]
pub struct RepositorySummary {
    pub id: RepositoryId,
    pub name: String,
    /// Canonical absolute path.
    pub path: String,
    /// Path relative to the directory that was searched (`.` for that directory).
    pub relative_path: String,
}

impl View for RepositorySummary {
    type V = RepositorySummary;

    open spec fn view(&self) -> RepositorySummary {
        *self
    }
}

/// Everything loaded about one repository.
#[derive(Clone, Debug)]
pub struct RepositoryDetails {
    pub summary: RepositorySummary,
    pub current_branch: Option<String>,
    pub branches: Vec<BranchInfo>,
    pub status: RepositoryStatus,
    pub log_entries: Vec<LogEntry>,
    pub remotes: Vec<RemoteInfo>,
}

// ───────────────────────── branches ─────────────────────────

/// A branch name that is not blank.
#[derive(Clone, Debug, PartialEq, Eq, Hash)]
pub struct BranchName {
    name: String,
}

impl View for BranchName {
    type V = Seq<char>;

    closed spec fn view(&self) -> Seq<char> {
        self.name@
    }
}

impl BranchName {
    /// Accepts a name that is not blank; refuses a blank one with `EmptyBranchName`.
    pub fn parse(value: String) -> (r: Result<BranchName, ValidationError>)
        ensures
            r == (if is_blank(value@) {
                Err::<BranchName, ValidationError>(ValidationError::EmptyBranchName)
            } else {
                Ok::<BranchName, ValidationError>(branch_name_of(value))
            }),
            r is Ok ==> r->Ok_0@ == value@,
    {
        let chars = chars_of(value.as_str());
        if blank(&chars) {
            Err(ValidationError::EmptyBranchName)
        } else {
            Ok(BranchName { name: value })
        }
    }

    /// The name.
    pub fn as_str(&self) -> (r: &str)
        ensures
            r@ == self@,
    {
        self.name.as_str()
    }
}

impl TryFrom<String> for BranchName {
    type Error = ValidationError;

    fn try_from(value: String) -> (r: Result<BranchName, ValidationError>) {
        BranchName::parse(value)
    }
}

/// The branch name that holds the given text (no check is made).
pub closed spec fn branch_name_of(name: String) -> BranchName {
    BranchName { name }
}

impl TryFromSpecImpl<String> for BranchName {
    open spec fn obeys_try_from_spec() -> bool {
        true
    }

    open spec fn try_from_spec(value: String) -> Result<BranchName, ValidationError> {
        if is_blank(value@) {
            Err(ValidationError::EmptyBranchName)
        } else {
            Ok(branch_name_of(value))
        }
    }
}

/// A local branch and whether it is checked out.
#[derive(Clone, Debug, PartialEq, Eq)]
pub struct BranchInfo {
    pub name: BranchName,
    pub is_current: bool,
}

impl View for BranchInfo {
    type V = (Seq<char>, bool);

    open spec fn view(&self) -> (Seq<char>, bool) {
        (self.name@, self.is_current)
    }
}

// ───────────────────────── remotes ─────────────────────────

/// How far a branch is ahead of and behind its upstream.
#[derive(Clone, Debug)]
pub struct TrackingStatus {
    pub ahead: u32,
    pub behind: u32,
    pub remote_name: Option<String>,
}

/// A configured remote.
#[derive(Clone, Debug, PartialEq, Eq)]
pub struct RemoteInfo {
    pub name: String,
    pub fetch_url: String,
    pub push_url: String,
}

/// Visibility of a repository created on GitHub.
#[derive(Clone, Copy, Debug, PartialEq, Eq, Structural)]
pub enum RepoVisibility {
    Public,
    Private,
}

/// What is needed to create a GitHub repository from a local one.
#[derive(Clone, Debug)]
pub struct CreateRepoParams {
    pub owner: String,
    pub name: String,
    pub visibility: RepoVisibility,
    pub source_dir: String,
    pub remote_name: String,
}

// ───────────────────────── pull requests ─────────────────────────

/// State of a pull request.
#[derive(Clone, Copy, Debug, PartialEq, Eq, Structural)]
pub enum PrState {
    Open,
    Closed,
    Merged,
}

/// A pull request as listed by GitHub.
#[derive(Clone, Debug, PartialEq, Eq)]
pub struct PrInfo {
    pub number: u32,
    pub title: String,
    pub state: PrState,
    pub url: String,
    pub head_branch: String,
    pub checks_passed: Option<bool>,
}

/// What is needed to open a pull request.
#[derive(Clone, Debug)]
pub struct CreatePrParams {
    pub title: String,
    pub body: String,
    pub base: String,
    pub head: String,
    pub draft: bool,
}

/// How a pull request is merged.
#[derive(Clone, Copy, Debug, PartialEq, Eq, Structural)]
pub enum MergeStrategy {
    Merge,
    Squash,
    Rebase,
}

/// One CI check run of a pull request.
#[derive(Clone, Debug, PartialEq, Eq)]
pub struct CheckRun {
    pub name: String,
    pub status: String,
    pub conclusion: Option<String>,
}

// ───────────────────────── AI configuration ─────────────────────────

/// The service that generates texts.
#[derive(Clone, Copy, Debug, PartialEq, Eq, Structural)]
pub enum AiProvider {
    Copilot,
}

/// Which AI provider and model to use.
#[derive(Clone, Debug)]
pub struct AiConfig {
    pub provider: AiProvider,
    pub model: String,
}

impl Default for AiConfig {
    fn default() -> (r: AiConfig)
        ensures
            r.provider == AiProvider::Copilot,
            r.model@ == "gpt-4o"@,
    {
        AiConfig { provider: AiProvider::Copilot, model: String::from_str("gpt-4o") }
    }
}

/// A commit message proposed by the AI.
#[derive(Clone, Debug)]
pub struct GeneratedCommitMessage {
    pub subject: String,
    pub body: Option<String>,
}

/// A pull request title and description proposed by the AI.
#[derive(Clone, Debug)]
pub struct GeneratedPrDescription {
    pub title: String,
    pub body: String,
}

} // verus!
