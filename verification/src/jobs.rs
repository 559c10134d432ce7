//! Background jobs: their identities, kinds and results.
use vstd::prelude::*;

use crate::domain::{CheckRun, GeneratedCommitMessage, GeneratedPrDescription, PrInfo};
use crate::state::RepositoryState;

verus! {

/// `std::time::Instant`, carried as an opaque value.
#[verifier::external_type_specification]
#[verifier::external_body]
pub struct ExInstant(std::time::Instant);

/// `Instant::now`: the current time of a monotonic clock. Nothing is promised
/// of the value.
#[verifier::external_body]
pub(crate) fn instant_now() -> (r: std::time::Instant) {
    std::time::Instant::now()
}

/// Identity of a background job.
#[derive(Clone, Copy, Debug, PartialEq, Eq, Structural, Hash)]
pub struct JobId(pub u64);

impl JobId {
    /// The identity handed out first.
    pub fn first() -> (r: JobId)
        ensures
            r.0 == 1,
    {
        JobId(1)
    }

    /// The identity that follows this one (wrapping after `u64::MAX`).
    pub open spec fn next_spec(self) -> JobId {
        if self.0 < u64::MAX {
            JobId((self.0 + 1) as u64)
        } else {
            JobId(0)
        }
    }

    /// The identity handed out after this one (wrapping after `u64::MAX`).
    pub fn next(&self) -> (r: JobId)
        ensures
            r == self.next_spec(),
    {
        JobId(self.0.wrapping_add(1))
    }
}

/// What a background job does.
#[derive(Clone, Copy, Debug, PartialEq, Eq, Structural)]
pub enum JobKind {
    AiBranchName,
    AiCommitMessage,
    CopilotDeviceCode,
    CopilotLogin,
    Fetch,
    Push,
    Pull,
    ListPrs,
    PrChecks,
    RefreshRepos,
    ReloadRepo,
    CreateRepo,
    AiPrDescription,
    CreatePr,
}

/// The label of each kind of job.
pub open spec fn job_label(k: JobKind) -> Seq<char> {
    match k {
        JobKind::AiBranchName => "Generating branch name"@,
        JobKind::AiCommitMessage => "Generating commit message"@,
        JobKind::CopilotDeviceCode => "Starting Copilot login"@,
        JobKind::CopilotLogin => "Completing Copilot login"@,
        JobKind::Fetch => "Fetching"@,
        JobKind::Push => "Pushing"@,
        JobKind::Pull => "Pulling"@,
        JobKind::ListPrs => "Loading PRs"@,
        JobKind::PrChecks => "Loading PR checks"@,
        JobKind::RefreshRepos => "Refreshing repositories"@,
        JobKind::ReloadRepo => "Reloading repository"@,
        JobKind::CreateRepo => "Creating repository"@,
        JobKind::AiPrDescription => "Generating PR description"@,
        JobKind::CreatePr => "Creating pull request"@,
    }
}

impl JobKind {
    /// The text shown while a job of this kind runs.
    pub fn label(&self) -> (r: &'static str)
        ensures
            r@ == job_label(*self),
    {
        match self {
            JobKind::AiBranchName => "Generating branch name",
            JobKind::AiCommitMessage => "Generating commit message",
            JobKind::CopilotDeviceCode => "Starting Copilot login",
            JobKind::CopilotLogin => "Completing Copilot login",
            JobKind::Fetch => "Fetching",
            JobKind::Push => "Pushing",
            JobKind::Pull => "Pulling",
            JobKind::ListPrs => "Loading PRs",
            JobKind::PrChecks => "Loading PR checks",
            JobKind::RefreshRepos => "Refreshing repositories",
            JobKind::ReloadRepo => "Reloading repository",
            JobKind::CreateRepo => "Creating repository",
            JobKind::AiPrDescription => "Generating PR description",
            JobKind::CreatePr => "Creating pull request",
        }
    }
}

/// A job that has been started and not yet finished.
#[derive(Clone, Copy, Debug)]
pub struct ActiveJob {
    pub id: JobId,
    pub kind: JobKind,
    pub started_at: std::time::Instant,
}

/// The code a user enters to authorize the Copilot login, and where.
#[derive(Clone, Debug)]
pub struct DeviceCodeInfo {
    pub user_code: String,
    pub verification_uri: String,
}

/// What a finished background job reports; failures carry their message.
pub enum BackgroundResult {
    BranchNameGenerated(JobId, Result<String, String>),
    CommitMessageGenerated(JobId, Result<GeneratedCommitMessage, String>),
    DeviceCodeReceived(JobId, Result<DeviceCodeInfo, String>),
    LoginCompleted(JobId, Result<(), String>),
    FetchCompleted(JobId, Result<(), String>),
    PushCompleted(JobId, Result<(), String>),
    PullCompleted(JobId, Result<(), String>),
    PrsLoaded(JobId, Result<Vec<PrInfo>, String>),
    PrChecksLoaded(JobId, Result<Vec<CheckRun>, String>),
    ReposRefreshed(JobId, Result<Vec<RepositoryState>, String>),
    RepoCreated(JobId, Result<String, String>),
    PrDescriptionGenerated(JobId, Result<GeneratedPrDescription, String>),
    PrCreated(JobId, Result<PrInfo, String>),
}

impl BackgroundResult {
    /// The job that reported this result.
    pub fn job_id(&self) -> (r: JobId)
        ensures
            r == result_job(*self),
    {
        match self {
            BackgroundResult::BranchNameGenerated(id, _) => *id,
            BackgroundResult::CommitMessageGenerated(id, _) => *id,
            BackgroundResult::DeviceCodeReceived(id, _) => *id,
            BackgroundResult::LoginCompleted(id, _) => *id,
            BackgroundResult::FetchCompleted(id, _) => *id,
            BackgroundResult::PushCompleted(id, _) => *id,
            BackgroundResult::PullCompleted(id, _) => *id,
            BackgroundResult::PrsLoaded(id, _) => *id,
            BackgroundResult::PrChecksLoaded(id, _) => *id,
            BackgroundResult::ReposRefreshed(id, _) => *id,
            BackgroundResult::RepoCreated(id, _) => *id,
            BackgroundResult::PrDescriptionGenerated(id, _) => *id,
            BackgroundResult::PrCreated(id, _) => *id,
        }
    }
}

/// The job that reported a result.
pub open spec fn result_job(r: BackgroundResult) -> JobId {
    match r {
        BackgroundResult::BranchNameGenerated(id, _) => id,
        BackgroundResult::CommitMessageGenerated(id, _) => id,
        BackgroundResult::DeviceCodeReceived(id, _) => id,
        BackgroundResult::LoginCompleted(id, _) => id,
        BackgroundResult::FetchCompleted(id, _) => id,
        BackgroundResult::PushCompleted(id, _) => id,
        BackgroundResult::PullCompleted(id, _) => id,
        BackgroundResult::PrsLoaded(id, _) => id,
        BackgroundResult::PrChecksLoaded(id, _) => id,
        BackgroundResult::ReposRefreshed(id, _) => id,
        BackgroundResult::RepoCreated(id, _) => id,
        BackgroundResult::PrDescriptionGenerated(id, _) => id,
        BackgroundResult::PrCreated(id, _) => id,
    }
}

} // verus!
