use devperf::calendar::parse_datetime_utc;
use devperf::commit::Commit;
use devperf::datetime::{DateTimeRange, DateTimeUtc};
use devperf::deployments_fetcher::{
    BaseCommitShaOrRepositoryInfo, DeploymentInfo, DeploymentLog, DeploymentsFetcherWithMock,
};
use devperf::metrics_retrieving::frequency::{
    calculate_deployment_frequency, daily_summaries, get_deployment_performance2022,
    get_deployment_performance_label,
};
use devperf::metrics_retrieving::workflow::{
    comparison_requests, retrieve_four_keys_from_answers, RetrieveFourKeysWorkflow,
};
use devperf::metrics_retrieving::{
    Context, Deployment, DeploymentFrequencyLabel, DeploymentFrequencyPerformanceSurvey2022,
    FirstCommitOrRepositoryInfo, RetrieveFourKeysEvent, RetrieveFourKeysExecutionContext,
    RetrieveFourKeysExecutionContextProject,
};
use devperf::metrics_retrieving::RetrieveFourKeysEventError;
use devperf::two_commits_comparer::{
    TwoCommitsComparerError, TwoCommitsComparerWithMock, ValidatedCommitShaPairError,
};

fn at(text: &str) -> DateTimeUtc {
    parse_datetime_utc(text).expect("Could not parse the instant")
}

fn commit(sha: &str, committed_at: &str) -> Commit {
    Commit {
        sha: sha.to_string(),
        message: "message".to_string(),
        resource_path: "resource_path".to_string(),
        committed_at: at(committed_at),
        creator_login: "creator_login".to_string(),
    }
}

fn deployment(deployed_at: &str) -> Deployment {
    let head = commit("head", deployed_at);
    Deployment {
        info: DeploymentInfo::GithubDeployment { id: "id".to_string() },
        head_commit: head.clone(),
        first_commit: FirstCommitOrRepositoryInfo::FirstCommit(head),
        deployed_at: at(deployed_at),
        lead_time_for_changes_seconds: Some(0),
    }
}

fn two_weeks() -> DateTimeRange {
    DateTimeRange::new(at("2023-01-02 00:00:00"), at("2023-01-15 23:59:59"))
        .expect("Could not create timeframe")
}

fn sample() -> Vec<Deployment> {
    vec![
        deployment("2023-01-02 09:00:00"),
        deployment("2023-01-02 18:00:00"),
        deployment("2023-01-03 12:00:00"),
        deployment("2023-01-10 12:00:00"),
    ]
}

#[test]
fn daily_summaries_cover_every_day_of_the_timeframe() {
    let tf = two_weeks();
    let days = daily_summaries(&sample(), &tf);
    assert_eq!(days.len(), 14);
    assert_eq!(days[0].date, 19359);
    assert_eq!(days[13].date, 19372);
    assert_eq!(days[0].deploys, 2);
    assert_eq!(days[1].deploys, 1);
    assert_eq!(days[8].deploys, 1);
    assert_eq!(days[5].deploys, 0);
    let total: u32 = days.iter().map(|d| d.deploys).sum();
    assert_eq!(total, 4);
    assert_eq!(days[0].items[1].deployed_at, at("2023-01-02 18:00:00"));
}

#[test]
fn deployment_frequency_of_two_weeks() {
    let context = Context {
        timeframe: two_weeks(),
        developers: 2,
        working_days_per_week_milli: 5000,
    };
    let f = calculate_deployment_frequency(&sample(), &context);
    assert_eq!(f.total_deployments, 4);
    assert_eq!(f.deployment_days, 3);
    assert!(f.deployment_days <= f.total_deployments as u64);
    assert_eq!(f.timeframe_days, 13);
    assert_eq!(f.weekly_deployment_count_median_doubled, 4);
    assert_eq!(f.week_deployed_median_doubled, 2);
    assert_eq!(f.month_deployed_median_doubled, 2);
    let label = get_deployment_performance_label(&f, &context);
    assert_eq!(label, DeploymentFrequencyLabel::Weekly);
    assert_eq!(
        get_deployment_performance2022(&f, &label, &context),
        DeploymentFrequencyPerformanceSurvey2022::Medium
    );
}

#[test]
fn label_is_daily_above_three_fifths_of_the_working_days() {
    let context = Context {
        timeframe: two_weeks(),
        developers: 1,
        working_days_per_week_milli: 3000,
    };
    let f = calculate_deployment_frequency(&sample(), &context);
    let label = get_deployment_performance_label(&f, &context);
    assert_eq!(label, DeploymentFrequencyLabel::Daily);
    assert_eq!(
        get_deployment_performance2022(&f, &label, &context),
        DeploymentFrequencyPerformanceSurvey2022::High
    );
}

#[test]
fn label_of_no_deployments_is_yearly_and_low() {
    let context = Context {
        timeframe: two_weeks(),
        developers: 1,
        working_days_per_week_milli: 5000,
    };
    let f = calculate_deployment_frequency(&vec![], &context);
    assert_eq!(f.total_deployments, 0);
    assert_eq!(f.deployment_days, 0);
    assert_eq!(f.week_deployed_median_doubled, 0);
    let label = get_deployment_performance_label(&f, &context);
    assert_eq!(label, DeploymentFrequencyLabel::Yearly);
    assert_eq!(
        get_deployment_performance2022(&f, &label, &context),
        DeploymentFrequencyPerformanceSurvey2022::Low
    );
}

#[test]
fn monthly_flags_follow_calendar_months() {
    // One deployment in January, none in February, one in March.
    let tf = DateTimeRange::new(at("2023-01-01 00:00:00"), at("2023-03-31 00:00:00")).unwrap();
    let context = Context { timeframe: tf, developers: 1, working_days_per_week_milli: 5000 };
    let items = vec![deployment("2023-01-15 00:00:00"), deployment("2023-03-15 00:00:00")];
    let f = calculate_deployment_frequency(&items, &context);
    // Months flagged [1, 0, 1]: the median is 1.
    assert_eq!(f.month_deployed_median_doubled, 2);
    let label = get_deployment_performance_label(&f, &context);
    assert_eq!(label, DeploymentFrequencyLabel::Monthly);
}

fn log(id: &str, deployed_at: &str, base: BaseCommitShaOrRepositoryInfo) -> DeploymentLog {
    DeploymentLog {
        info: DeploymentInfo::GithubDeployment { id: id.to_string() },
        head_commit: commit(id, deployed_at),
        base,
        creator_login: "creator_login".to_string(),
        deployed_at: at(deployed_at),
    }
}

fn execution_context() -> RetrieveFourKeysExecutionContext {
    let since = parse_datetime_utc("2023-01-01 00:00:00").expect("Could not parse since");
    let until = parse_datetime_utc("2023-04-01 00:00:00").expect("Could not parse since");
    let timeframe = DateTimeRange::new(since, until).expect("Could not create timeframe");
    RetrieveFourKeysExecutionContext {
        timeframe,
        project: RetrieveFourKeysExecutionContextProject {
            name: "project".to_string(),
            developer_count: 2,
            working_days_per_week_milli: 2500,
        },
    }
}

#[test]
fn success() {
    let workflow = RetrieveFourKeysWorkflow {
        deployments_fetcher: DeploymentsFetcherWithMock { deployment_logs: vec![] },
        two_commits_comparer: TwoCommitsComparerWithMock { commits: vec![] },
    };
    let result = workflow.retrieve_four_keys(execution_context());
    assert!(result.is_ok());
}

#[test]
fn workflow_reports_lead_times_of_compared_commits() {
    let logs = vec![
        log(
            "first",
            "2023-01-10 00:00:00",
            BaseCommitShaOrRepositoryInfo::RepositoryCreatedAt(at("2023-01-01 00:00:00")),
        ),
        log(
            "second",
            "2023-01-20 00:00:00",
            BaseCommitShaOrRepositoryInfo::BaseCommitSha("first".to_string()),
        ),
        // Outside the timeframe: left out.
        log(
            "late",
            "2023-05-01 00:00:00",
            BaseCommitShaOrRepositoryInfo::BaseCommitSha("second".to_string()),
        ),
    ];
    let workflow = RetrieveFourKeysWorkflow {
        deployments_fetcher: DeploymentsFetcherWithMock { deployment_logs: logs },
        two_commits_comparer: TwoCommitsComparerWithMock {
            commits: vec![commit("b", "2023-01-19 00:00:00"), commit("a", "2023-01-18 00:00:00")],
        },
    };
    let events = workflow.retrieve_four_keys(execution_context()).expect("metrics");
    assert_eq!(events.len(), 1);
    let RetrieveFourKeysEvent::RetrieveFourKeys(result) = &events[0];
    let value = &result.performance.deployment_frequency.value;
    assert_eq!(value.total_deployments, 2);
    assert_eq!(value.deployment_days, 2);
    // Lead times: 9 days (from the repository's creation) and 2 days (from
    // the earliest compared commit); the median is 5.5 days.
    let lt = &result.performance.lead_time_for_changes;
    assert_eq!(lt.total_seconds_doubled, 11 * 86400);
    assert_eq!(lt.days, 5);
    assert_eq!(lt.hours, 132);
    let total: u32 = result.deployments.iter().map(|d| d.deploys).sum();
    assert_eq!(total, 2);
}

#[test]
fn workflow_refuses_a_base_equal_to_its_head() {
    let logs = vec![log(
        "same",
        "2023-01-10 00:00:00",
        BaseCommitShaOrRepositoryInfo::BaseCommitSha("same".to_string()),
    )];
    let workflow = RetrieveFourKeysWorkflow {
        deployments_fetcher: DeploymentsFetcherWithMock { deployment_logs: logs },
        two_commits_comparer: TwoCommitsComparerWithMock { commits: vec![] },
    };
    let result = workflow.retrieve_four_keys(execution_context());
    assert!(matches!(
        result,
        Err(devperf::metrics_retrieving::RetrieveFourKeysEventError::InvalidCommitShaPair(_))
    ));
}

#[test]
fn metrics_take_the_earliest_compared_commit() {
    let logs = vec![{
        let mut l = log(
            "bbb",
            "2023-02-01 00:00:00",
            BaseCommitShaOrRepositoryInfo::BaseCommitSha("aaa".to_string()),
        );
        l.head_commit.sha = "bbb".to_string();
        l
    }];
    let requests = comparison_requests(&logs, &execution_context().timeframe);
    assert_eq!(requests.len(), 1);
    assert_eq!(requests[0].get_base(), "aaa");
    assert_eq!(requests[0].get_head(), "bbb");
    let c1 = commit("c1", "2023-01-20 00:00:00");
    let c2 = commit("c2", "2023-01-10 00:00:00");
    let result = retrieve_four_keys_from_answers(
        logs,
        vec![Ok(vec![c1, c2.clone()])],
        execution_context(),
    )
    .expect("metrics");
    let lt = &result.performance.lead_time_for_changes;
    assert_eq!(lt.total_seconds_doubled, 2 * 1900800);
    assert_eq!(lt.days, 22);
    let deployed: Vec<&Deployment> = result.deployments.iter().flat_map(|d| d.items.iter()).collect();
    assert_eq!(deployed.len(), 1);
    assert_eq!(deployed[0].first_commit, FirstCommitOrRepositoryInfo::FirstCommit(c2));
    assert_eq!(deployed[0].lead_time_for_changes_seconds, Some(1900800));
}

#[test]
fn metrics_stop_at_the_first_failing_record() {
    let logs = vec![
        log("x", "2023-01-10 00:00:00", BaseCommitShaOrRepositoryInfo::BaseCommitSha("w".to_string())),
        log("y", "2023-01-11 00:00:00", BaseCommitShaOrRepositoryInfo::BaseCommitSha("y".to_string())),
        log("z", "2023-01-12 00:00:00", BaseCommitShaOrRepositoryInfo::BaseCommitSha("y".to_string())),
    ];
    // The second record's hashes are equal: only the first comparison is asked for.
    assert_eq!(comparison_requests(&logs, &execution_context().timeframe).len(), 1);
    let failed = retrieve_four_keys_from_answers(
        logs.clone(),
        vec![Err(TwoCommitsComparerError::InvalidAPIResponse("status: 500".to_string()))],
        execution_context(),
    );
    assert_eq!(
        failed.err(),
        Some(RetrieveFourKeysEventError::TwoCommitsCompare(TwoCommitsComparerError::InvalidAPIResponse(
            "status: 500".to_string()
        )))
    );
    let refused = retrieve_four_keys_from_answers(logs, vec![Ok(vec![])], execution_context());
    assert_eq!(
        refused.err(),
        Some(RetrieveFourKeysEventError::InvalidCommitShaPair(ValidatedCommitShaPairError::BaseEqualsHead(
            "base: \"y\", head: \"y\"".to_string()
        )))
    );
}

#[test]
fn metrics_without_comparisons_succeed() {
    let logs = vec![log(
        "first",
        "2023-01-10 00:00:00",
        BaseCommitShaOrRepositoryInfo::RepositoryCreatedAt(at("2023-01-01 00:00:00")),
    )];
    let result = retrieve_four_keys_from_answers(logs, vec![], execution_context()).unwrap();
    assert_eq!(result.performance.deployment_frequency.value.total_deployments, 1);
}
