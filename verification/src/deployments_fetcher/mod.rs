//! Deployment records, as fetched from a deployment source (GitHub
//! deployments, merged pull requests, Heroku releases), and their errors.

pub mod github_deployment;
pub mod github_merged_pull;
pub mod heroku_release;

use vstd::prelude::*;
use crate::commit::Commit;
use crate::datetime::{DateTimeRange, DateTimeUtc};
use crate::sorting::Keyed;

verus! {

/// What a deployment fetch asks for.
pub struct DeploymentsFetcherParams {
    pub timeframe: DateTimeRange,
}

/// Where the changes of a deployment start: the hash of the commit deployed
/// before it, or, for the first deployment, when the repository was created.
#[derive(Debug, PartialEq, Eq)]
pub enum BaseCommitShaOrRepositoryInfo {
    BaseCommitSha(String),
    RepositoryCreatedAt(DateTimeUtc),
}

impl Clone for BaseCommitShaOrRepositoryInfo {
    fn clone(&self) -> (r: Self)
        ensures
            r == *self,
    {
        match self {
            BaseCommitShaOrRepositoryInfo::BaseCommitSha(sha) => {
                BaseCommitShaOrRepositoryInfo::BaseCommitSha(sha.clone())
            },
            BaseCommitShaOrRepositoryInfo::RepositoryCreatedAt(t) => {
                BaseCommitShaOrRepositoryInfo::RepositoryCreatedAt(*t)
            },
        }
    }
}

/// What a deployment is, by its source.
#[derive(Debug, PartialEq, Eq)]
pub enum DeploymentInfo {
    GithubDeployment { id: String },
    GithubMergedPullRequest { id: String, number: u64, title: String },
    HerokuRelease { id: String, version: u64 },
}

impl Clone for DeploymentInfo {
    fn clone(&self) -> (r: Self)
        ensures
            r == *self,
    {
        match self {
            DeploymentInfo::GithubDeployment { id } => DeploymentInfo::GithubDeployment {
                id: id.clone(),
            },
            DeploymentInfo::GithubMergedPullRequest { id, number, title } => {
                DeploymentInfo::GithubMergedPullRequest {
                    id: id.clone(),
                    number: *number,
                    title: title.clone(),
                }
            },
            DeploymentInfo::HerokuRelease { id, version } => DeploymentInfo::HerokuRelease {
                id: id.clone(),
                version: *version,
            },
        }
    }
}

/// One deployment: what it is, the commit it deployed, where its changes
/// start, who deployed it and when.
#[derive(Debug, PartialEq, Eq)]
pub struct DeploymentLog {
    pub info: DeploymentInfo,
    pub head_commit: Commit,
    pub base: BaseCommitShaOrRepositoryInfo,
    pub creator_login: String,
    pub deployed_at: DateTimeUtc,
}

impl Clone for DeploymentLog {
    fn clone(&self) -> (r: Self)
        ensures
            r == *self,
    {
        DeploymentLog {
            info: self.info.clone(),
            head_commit: self.head_commit.clone(),
            base: self.base.clone(),
            creator_login: self.creator_login.clone(),
            deployed_at: self.deployed_at,
        }
    }
}

impl Keyed for DeploymentLog {
    open spec fn sort_key(&self) -> int {
        self.deployed_at.secs()
    }

    fn key(&self) -> (r: i64) {
        self.deployed_at.timestamp()
    }
}

/// Why fetching deployments failed; each variant carries a description.
#[derive(Debug, PartialEq, Eq)]
pub enum DeploymentsFetcherError {
    CreateAPIClientError(String),
    FetchError(String),
    CommitIsNotFound(String),
    GetRepositoryCreatedAtError(String),
    DeploymentsFetcherResultIsEmptyList(String),
    InvalidResponse(String),
}

/// The message of a fetch that found no deployment records.
pub open spec fn empty_list_text() -> Seq<char> {
    "Deployments fetcher result is empty list"@
}

/// A source of deployment records.
pub trait DeploymentsFetcher {
    /// The deployments of the source that `params` asks for.
    fn fetch(&self, params: DeploymentsFetcherParams) -> Result<
        Vec<DeploymentLog>,
        DeploymentsFetcherError,
    >;
}

/// A source that always answers with the same deployments.
pub struct DeploymentsFetcherWithMock {
    pub deployment_logs: Vec<DeploymentLog>,
}

impl DeploymentsFetcherWithMock {
    /// The deployments this source answers with, whatever is asked.
    pub fn fetch_logs(&self, _params: DeploymentsFetcherParams) -> (r: Result<
        Vec<DeploymentLog>,
        DeploymentsFetcherError,
    >)
        ensures
            r matches Ok(logs) && logs@ == self.deployment_logs@,
    {
        let logs = self.deployment_logs.clone();
        proof {
            assert(logs@ =~= self.deployment_logs@);
        }
        Ok(logs)
    }
}

impl DeploymentsFetcher for DeploymentsFetcherWithMock {
    fn fetch(&self, params: DeploymentsFetcherParams) -> (r: Result<
        Vec<DeploymentLog>,
        DeploymentsFetcherError,
    >)
        ensures
            r matches Ok(logs) && logs@ == self.deployment_logs@,
    {
        self.fetch_logs(params)
    }
}

} // verus!
