use devperf::calendar::parse_datetime_utc;
use devperf::commit::Commit;
use devperf::datetime::DateTimeUtc;
use devperf::deployments_fetcher::{BaseCommitShaOrRepositoryInfo, DeploymentInfo, DeploymentLog};
use devperf::metrics_retrieving::lead_time::{
    calculate_lead_time, calculate_lead_time_for_changes_seconds, calculate_lead_time_median,
    lead_time_from_doubled, pick_first_commit,
};
use devperf::metrics_retrieving::{
    Deployment, DeploymentLogWithFirstOperation, FirstCommitOrRepositoryInfo, RepositoryInfo,
};

fn at(text: &str) -> DateTimeUtc {
    parse_datetime_utc(text).expect("Could not parse the instant")
}

fn build_commit(committed_at: &str) -> Commit {
    Commit {
        sha: "sha".to_string(),
        message: "message".to_string(),
        resource_path: "resource_path".to_string(),
        committed_at: at(committed_at),
        creator_login: "creator_login".to_string(),
    }
}

fn build_deployment_log(deployed_at: &str) -> DeploymentLog {
    DeploymentLog {
        info: DeploymentInfo::GithubDeployment { id: "id".to_string() },
        head_commit: build_commit(deployed_at),
        base: BaseCommitShaOrRepositoryInfo::BaseCommitSha("base".to_string()),
        creator_login: "creator_login".to_string(),
        deployed_at: at(deployed_at),
    }
}

fn build_repository_info(created_at: &str) -> RepositoryInfo {
    RepositoryInfo { created_at: at(created_at) }
}

#[test]
fn retrieve_four_keys_internal_tests_when_first_operation_is_none_should_none() {
    let item = DeploymentLogWithFirstOperation {
        deployment_log: build_deployment_log("2023-01-01 00:00:00"),
        first_operation: None,
    };
    assert_eq!(calculate_lead_time_for_changes_seconds(item), None);
}

#[test]
fn retrieve_four_keys_internal_tests_when_first_operation_is_first_commit_should_get_seconds() {
    let item = DeploymentLogWithFirstOperation {
        deployment_log: build_deployment_log("2023-01-05 00:00:00"),
        first_operation: Some(FirstCommitOrRepositoryInfo::FirstCommit(build_commit(
            "2023-01-01 00:00:00",
        ))),
    };
    assert_eq!(calculate_lead_time_for_changes_seconds(item), Some(4 * 24 * 60 * 60));
}

#[test]
fn retrieve_four_keys_internal_tests_when_first_operation_is_repo_info_should_get_seconds() {
    let item = DeploymentLogWithFirstOperation {
        deployment_log: build_deployment_log("2023-01-05 00:00:00"),
        first_operation: Some(FirstCommitOrRepositoryInfo::RepositoryInfo(build_repository_info(
            "2023-01-01 00:00:00",
        ))),
    };
    assert_eq!(calculate_lead_time_for_changes_seconds(item), Some(4 * 24 * 60 * 60));
}

#[test]
fn retrieve_four_keys_tests_when_first_operation_is_none_should_none() {
    let item = DeploymentLogWithFirstOperation {
        deployment_log: build_deployment_log("2023-01-01"),
        first_operation: None,
    };
    assert_eq!(calculate_lead_time_for_changes_seconds(item), None);
}

#[test]
fn retrieve_four_keys_tests_when_first_operation_is_first_commit_should_get_seconds() {
    let item = DeploymentLogWithFirstOperation {
        deployment_log: build_deployment_log("2023-01-05"),
        first_operation: Some(FirstCommitOrRepositoryInfo::FirstCommit(build_commit("2023-01-01"))),
    };
    assert_eq!(calculate_lead_time_for_changes_seconds(item), Some(4 * 24 * 60 * 60));
}

#[test]
fn retrieve_four_keys_tests_when_first_operation_is_repo_info_should_get_seconds() {
    let item = DeploymentLogWithFirstOperation {
        deployment_log: build_deployment_log("2023-01-05"),
        first_operation: Some(FirstCommitOrRepositoryInfo::RepositoryInfo(build_repository_info(
            "2023-01-01",
        ))),
    };
    assert_eq!(calculate_lead_time_for_changes_seconds(item), Some(4 * 24 * 60 * 60));
}

#[test]
fn lead_time_can_be_negative_when_the_commit_is_later() {
    let item = DeploymentLogWithFirstOperation {
        deployment_log: build_deployment_log("2023-01-01 00:00:00"),
        first_operation: Some(FirstCommitOrRepositoryInfo::FirstCommit(build_commit(
            "2023-01-01 00:00:30",
        ))),
    };
    assert_eq!(calculate_lead_time_for_changes_seconds(item), Some(-30));
}

#[test]
fn deployment_without_first_operation_starts_at_its_head_commit() {
    let log = build_deployment_log("2023-01-02 10:00:00");
    let head = log.head_commit.clone();
    let d = calculate_lead_time(DeploymentLogWithFirstOperation {
        deployment_log: log,
        first_operation: None,
    });
    assert_eq!(d.first_commit, FirstCommitOrRepositoryInfo::FirstCommit(head));
    assert_eq!(d.lead_time_for_changes_seconds, None);
    assert_eq!(d.deployed_at, at("2023-01-02 10:00:00"));
}

#[test]
fn first_commit_is_the_earliest_and_first_among_equal_times() {
    let mut a = build_commit("2023-01-03 00:00:00");
    a.sha = "a".to_string();
    let mut b = build_commit("2023-01-01 00:00:00");
    b.sha = "b".to_string();
    let mut c = build_commit("2023-01-01 00:00:00");
    c.sha = "c".to_string();
    let picked = pick_first_commit(&vec![a, b, c]).expect("a commit");
    assert_eq!(picked.sha, "b");
    assert_eq!(pick_first_commit(&vec![]), None);
}

fn deployment_with_lead_time(seconds: Option<i64>) -> Deployment {
    let log = build_deployment_log("2023-01-02 00:00:00");
    Deployment {
        info: log.info.clone(),
        head_commit: log.head_commit.clone(),
        first_commit: FirstCommitOrRepositoryInfo::FirstCommit(log.head_commit.clone()),
        deployed_at: log.deployed_at,
        lead_time_for_changes_seconds: seconds,
    }
}

#[test]
fn median_lead_time_of_odd_count_ignores_unknown() {
    let items = vec![
        deployment_with_lead_time(Some(7200)),
        deployment_with_lead_time(None),
        deployment_with_lead_time(Some(90061)),
        deployment_with_lead_time(Some(60)),
    ];
    let m = calculate_lead_time_median(&items);
    assert_eq!(m.total_seconds_doubled, 2 * 7200);
    assert_eq!(m.days, 0);
    assert_eq!(m.hours, 2);
    assert_eq!(m.minutes, 0);
    assert_eq!(m.seconds, 0);
}

#[test]
fn median_lead_time_of_even_count_is_the_mean_of_the_middle_two() {
    let items = vec![
        deployment_with_lead_time(Some(100)),
        deployment_with_lead_time(Some(3)),
    ];
    let m = calculate_lead_time_median(&items);
    assert_eq!(m.total_seconds_doubled, 103);
    assert_eq!(m.hours, 0);
    assert_eq!(m.minutes, 0);
    assert_eq!(m.seconds, 52);
}

#[test]
fn median_lead_time_of_no_deployments_is_zero() {
    let m = calculate_lead_time_median(&vec![]);
    assert_eq!(m.total_seconds_doubled, 0);
    assert_eq!((m.days, m.hours, m.minutes, m.seconds), (0, 0, 0, 0));
}

#[test]
fn lead_time_parts_of_a_day_and_more() {
    // 1 day, 1 hour, 1 minute and 1 second: 90061 seconds.
    let m = lead_time_from_doubled(2 * 90061);
    assert_eq!(m.days, 1);
    assert_eq!(m.hours, 25);
    assert_eq!(m.minutes, 1);
    assert_eq!(m.seconds, 1);
}
