//! Computation of DevOps "four keys" delivery metrics from deployment records.

pub mod datetime;
pub mod sorting;
pub mod stats;
pub mod commit;
pub mod two_commits_comparer;
pub mod calendar;
pub mod wildcard;
pub mod text;
pub mod deployments_fetcher;
pub mod metrics_retrieving;
pub mod project_config;
pub mod first_commit_getter;
pub mod first_commit_from_compare;
