//! The four keys of software delivery performance, as far as deployments
//! tell them: deployment frequency and lead time for changes.
//!
//! Rates and medians are kept exact: a median is held doubled (always an
//! integer), and working days per week in thousandths of a day.

pub mod lead_time;
pub mod frequency;
pub mod workflow;
pub mod dto;

use vstd::prelude::*;
use crate::commit::Commit;
use crate::datetime::{DateTimeRange, DateTimeUtc};
use crate::deployments_fetcher::{DeploymentInfo, DeploymentLog, DeploymentsFetcherError};
use crate::sorting::Keyed;
use crate::two_commits_comparer::{TwoCommitsComparerError, ValidatedCommitShaPairError};

verus! {

/// The project whose metrics are computed.
pub struct RetrieveFourKeysExecutionContextProject {
    pub name: String,
    pub developer_count: u32,
    /// Working days per week, in thousandths of a day (2.5 days is 2500).
    pub working_days_per_week_milli: u32,
}

/// What the metrics are computed for: a project and a timeframe.
pub struct RetrieveFourKeysExecutionContext {
    pub project: RetrieveFourKeysExecutionContextProject,
    pub timeframe: DateTimeRange,
}

/// When a repository was created.
#[derive(Debug, PartialEq, Eq)]
pub struct RepositoryInfo {
    pub created_at: DateTimeUtc,
}

/// Where the changes of a deployment start: its first commit, or, for the
/// first deployment of a repository, the repository's creation.
#[derive(Debug, PartialEq, Eq)]
pub enum FirstCommitOrRepositoryInfo {
    FirstCommit(Commit),
    RepositoryInfo(RepositoryInfo),
}

impl Clone for FirstCommitOrRepositoryInfo {
    fn clone(&self) -> (r: Self)
        ensures
            r == *self,
    {
        match self {
            FirstCommitOrRepositoryInfo::FirstCommit(c) => FirstCommitOrRepositoryInfo::FirstCommit(
                c.clone(),
            ),
            FirstCommitOrRepositoryInfo::RepositoryInfo(i) => {
                FirstCommitOrRepositoryInfo::RepositoryInfo(RepositoryInfo { created_at: i.created_at })
            },
        }
    }
}

/// When the changes that start at `op` began: the commit time of the first
/// commit, or the creation time of the repository.
pub open spec fn first_operation_time(op: FirstCommitOrRepositoryInfo) -> DateTimeUtc {
    match op {
        FirstCommitOrRepositoryInfo::FirstCommit(c) => c.committed_at,
        FirstCommitOrRepositoryInfo::RepositoryInfo(i) => i.created_at,
    }
}

/// A deployment record with where its changes start, when known.
#[derive(Debug, PartialEq, Eq)]
pub struct DeploymentLogWithFirstOperation {
    pub deployment_log: DeploymentLog,
    pub first_operation: Option<FirstCommitOrRepositoryInfo>,
}

impl Clone for DeploymentLogWithFirstOperation {
    fn clone(&self) -> (r: Self)
        ensures
            r == *self,
    {
        DeploymentLogWithFirstOperation {
            deployment_log: self.deployment_log.clone(),
            first_operation: match &self.first_operation {
                Some(op) => Some(op.clone()),
                None => None,
            },
        }
    }
}

/// A deployment with its lead time for changes.
#[derive(Debug, PartialEq, Eq)]
pub struct Deployment {
    pub info: DeploymentInfo,
    pub head_commit: Commit,
    pub first_commit: FirstCommitOrRepositoryInfo,
    pub deployed_at: DateTimeUtc,
    /// Seconds from the start of the changes to the deployment, when known.
    pub lead_time_for_changes_seconds: Option<i64>,
}

impl Clone for Deployment {
    fn clone(&self) -> (r: Self)
        ensures
            r == *self,
    {
        Deployment {
            info: self.info.clone(),
            head_commit: self.head_commit.clone(),
            first_commit: self.first_commit.clone(),
            deployed_at: self.deployed_at,
            lead_time_for_changes_seconds: self.lead_time_for_changes_seconds,
        }
    }
}

impl Keyed for Deployment {
    open spec fn sort_key(&self) -> int {
        self.deployed_at.secs()
    }

    fn key(&self) -> (r: i64) {
        self.deployed_at.timestamp()
    }
}

/// The deployments of one calendar day.
#[derive(Debug, PartialEq, Eq)]
pub struct DailyDeploymentsSummary {
    /// The day, as days since 1970-01-01.
    pub date: i64,
    pub deploys: u32,
    pub items: Vec<Deployment>,
}

/// The median lead time for changes, split into days, hours, minutes and
/// seconds as described at `lead_time::lead_time_parts`.
#[derive(Debug, PartialEq, Eq)]
pub struct DeploymentLeadTimeForChanges {
    pub days: i64,
    pub hours: i64,
    pub minutes: i64,
    pub seconds: i64,
    /// Twice the median lead time, in seconds.
    pub total_seconds_doubled: i128,
}

/// What the metrics were computed for.
pub struct Context {
    pub timeframe: DateTimeRange,
    pub developers: u32,
    /// Working days per week, in thousandths of a day.
    pub working_days_per_week_milli: u32,
}

/// Deployment frequency level of the 2022 State of DevOps survey.
#[derive(Debug, PartialEq, Eq, Clone, Copy)]
pub enum DeploymentFrequencyPerformanceSurvey2022 {
    Elite,
    High,
    Medium,
    Low,
}

/// How often deployments happen, in words.
#[derive(Debug, PartialEq, Eq, Clone, Copy)]
pub enum DeploymentFrequencyLabel {
    Daily,
    Weekly,
    Monthly,
    Yearly,
}

/// Deployment frequency, exactly: counts and doubled medians.
///
/// Deployments per day are `deployment_days / (timeframe_days * working days
/// per week / 7)`, and per developer that divided by the developer count.
#[derive(Debug, PartialEq, Eq, Clone, Copy)]
pub struct DeploymentFrequency {
    pub total_deployments: u32,
    /// Days of the timeframe with at least one deployment.
    pub deployment_days: u64,
    /// Whole days of the timeframe.
    pub timeframe_days: i64,
    /// Twice the median number of deployments per week.
    pub weekly_deployment_count_median_doubled: i128,
    /// Twice the median of 1 (week with a deployment) and 0 (week without).
    pub week_deployed_median_doubled: i128,
    /// Twice the median of 1 (month with a deployment) and 0 (month without).
    pub month_deployed_median_doubled: i128,
}

/// Deployment frequency with its label and survey level.
pub struct DeploymentFrequencyPerformance {
    pub performance: DeploymentFrequencyPerformanceSurvey2022,
    pub label: DeploymentFrequencyLabel,
    pub value: DeploymentFrequency,
}

/// Deployment frequency and lead time for changes.
pub struct DeploymentPerformance {
    pub deployment_frequency: DeploymentFrequencyPerformance,
    pub lead_time_for_changes: DeploymentLeadTimeForChanges,
}

/// The metrics: deployments by day, what they were computed for, and performance.
pub struct FourKeysResult {
    pub deployments: Vec<DailyDeploymentsSummary>,
    pub context: Context,
    pub performance: DeploymentPerformance,
}

/// What the metrics computation produces.
pub enum RetrieveFourKeysEvent {
    RetrieveFourKeys(FourKeysResult),
}

/// Why the metrics could not be computed.
#[derive(Debug, PartialEq, Eq)]
pub enum RetrieveFourKeysEventError {
    FetchDeployments(DeploymentsFetcherError),
    TwoCommitsCompare(TwoCommitsComparerError),
    InvalidCommitShaPair(ValidatedCommitShaPairError),
}

} // verus!
