use devperf::calendar::parse_datetime_utc;
use devperf::datetime::{DateTimeRange, DateTimeUtc};
use devperf::deployments_fetcher::github_deployment::{
    collect_to_logs, deployments_query, get_deployed_at, has_succeeded_status, succeeded_page,
    DeploymentsCommitGraphQLResponse, DeploymentsCreatorGraphQLResponse,
    DeploymentsDeploymentsNodeGraphQLResponse, DeploymentsDeploymentsStatusNodeGraphQLResponse,
    DeploymentsDeploymentsStatusesGraphQLResponse, DeploymentsFetcherWithGithubDeployment,
    DeploymentsPageInfoGraphQLResponse, GithubDeploymentsCollector, PageOutcome,
};
use devperf::deployments_fetcher::github_merged_pull::{
    self, is_deployment_pull_request, merged_pulls_query, DeploymentsFetcherWithGithubMergedPullRequest,
    MergedPullsBaseRef, MergedPullsCollector, MergedPullsCommit, MergedPullsPageInfo,
    MergedPullsPullsNode, MergedPullsUser,
};
use devperf::deployments_fetcher::heroku_release::{
    convert_to_items, release_slug_id, succeeded_releases, DeploymentsFetcherWithHerokuRelease,
    GitHubRepositoryInfo, HerokuRelease, HerokuReleaseApp, HerokuReleaseItem,
    HerokuReleaseOrRepositoryInfo, HerokuReleaseSlug, HerokuReleaseUser, ReleaseCommit,
};
use devperf::deployments_fetcher::{BaseCommitShaOrRepositoryInfo, DeploymentInfo, DeploymentsFetcherError};

fn at(text: &str) -> DateTimeUtc {
    parse_datetime_utc(text).expect("Could not parse the instant")
}

fn timeframe() -> DateTimeRange {
    DateTimeRange::new(at("2023-01-01 00:00:00"), at("2023-01-31 00:00:00")).unwrap()
}

fn status(state: &str, created_at: &str) -> DeploymentsDeploymentsStatusNodeGraphQLResponse {
    DeploymentsDeploymentsStatusNodeGraphQLResponse {
        id: "status".to_string(),
        state: state.to_string(),
        description: None,
        created_at: at(created_at),
        updated_at: at(created_at),
        environment_url: None,
        log_url: None,
        creator: DeploymentsCreatorGraphQLResponse { login: "bot".to_string() },
    }
}

fn node(id: &str, created_at: &str, statuses: Vec<DeploymentsDeploymentsStatusNodeGraphQLResponse>) -> DeploymentsDeploymentsNodeGraphQLResponse {
    DeploymentsDeploymentsNodeGraphQLResponse {
        id: id.to_string(),
        commit: DeploymentsCommitGraphQLResponse {
            id: format!("commit-{}", id),
            sha: format!("sha-{}", id),
            message: "message".to_string(),
            commit_resource_path: "/commit".to_string(),
            committed_date: at(created_at),
        },
        task: "deploy".to_string(),
        environment: "production".to_string(),
        description: None,
        original_environment: "production".to_string(),
        created_at: at(created_at),
        updated_at: at(created_at),
        creator: DeploymentsCreatorGraphQLResponse { login: "alice".to_string() },
        statuses: DeploymentsDeploymentsStatusesGraphQLResponse {
            nodes: statuses,
            page_info: DeploymentsPageInfoGraphQLResponse { end_cursor: None, has_next_page: false },
        },
    }
}

#[test]
fn deployments_query_names_the_repository_and_the_cursor() {
    let q = deployments_query("shwld", "devperf", "production", Some("abc".to_string()));
    assert!(q.contains("repositoryOwner(login: \"shwld\")"));
    assert!(q.contains("repository(name: \"devperf\")"));
    assert!(q.contains("environments: [\"production\"], orderBy: {field: CREATED_AT, direction: DESC}, after: \"abc\") {"));
    let first = deployments_query("shwld", "devperf", "production", None);
    assert!(first.contains("direction: DESC}) {"));
    let fetcher = DeploymentsFetcherWithGithubDeployment {
        github_personal_token: "t".to_string(),
        github_owner: "shwld".to_string(),
        github_repo: "devperf".to_string(),
        environment: "production".to_string(),
    };
    assert_eq!(fetcher.query(None), first);
}

#[test]
fn success_status_is_matched_in_any_case() {
    let n = node("1", "2023-01-05 00:00:00", vec![
        status("pending", "2023-01-05 00:01:00"),
        status("success", "2023-01-05 00:02:00"),
        status("SUCCESS", "2023-01-05 00:03:00"),
    ]);
    assert!(has_succeeded_status(&n));
    assert_eq!(get_deployed_at(&n), at("2023-01-05 00:02:00"));
    let failed = node("2", "2023-01-06 00:00:00", vec![status("failure", "2023-01-06 00:01:00")]);
    assert!(!has_succeeded_status(&failed));
    assert_eq!(get_deployed_at(&failed), at("2023-01-06 00:00:00"));
}

#[test]
fn succeeded_page_keeps_only_successful_deployments() {
    let page = succeeded_page(
        vec![
            node("1", "2023-01-05 00:00:00", vec![status("SUCCESS", "2023-01-05 00:01:00")]),
            node("2", "2023-01-04 00:00:00", vec![status("ERROR", "2023-01-04 00:01:00")]),
        ],
        DeploymentsPageInfoGraphQLResponse { end_cursor: Some("c1".to_string()), has_next_page: true },
    );
    assert_eq!(page.data.len(), 1);
    assert_eq!(page.data[0].id, "1");
    assert_eq!(page.after, Some("c1".to_string()));
    assert!(page.has_next_page);
}

#[test]
fn collected_deployments_chain_their_bases() {
    let logs = collect_to_logs(
        BaseCommitShaOrRepositoryInfo::BaseCommitSha("before".to_string()),
        vec![
            node("1", "2023-01-10 00:00:00", vec![status("SUCCESS", "2023-01-10 00:01:00")]),
            node("2", "2023-01-09 00:00:00", vec![status("SUCCESS", "2023-01-09 00:01:00")]),
        ],
    );
    assert_eq!(logs.len(), 2);
    assert_eq!(logs[0].base, BaseCommitShaOrRepositoryInfo::BaseCommitSha("before".to_string()));
    assert_eq!(logs[1].base, BaseCommitShaOrRepositoryInfo::BaseCommitSha("sha-1".to_string()));
    assert_eq!(logs[0].info, DeploymentInfo::GithubDeployment { id: "1".to_string() });
    assert_eq!(logs[0].deployed_at, at("2023-01-10 00:01:00"));
    assert_eq!(logs[0].creator_login, "alice");
}

#[test]
fn collector_stops_at_a_deployment_before_the_timeframe() {
    let mut c = GithubDeploymentsCollector::new();
    assert_eq!(c.next_request(), Some(None));
    let page = succeeded_page(
        vec![
            node("1", "2023-01-10 00:00:00", vec![status("SUCCESS", "2023-01-10 00:01:00")]),
            node("0", "2022-12-20 00:00:00", vec![status("SUCCESS", "2022-12-20 00:01:00")]),
        ],
        DeploymentsPageInfoGraphQLResponse { end_cursor: Some("c1".to_string()), has_next_page: true },
    );
    assert_eq!(c.absorb_page(page, &timeframe()), PageOutcome::Stop);
    assert_eq!(c.next_request(), None);
    assert_eq!(c.nodes.len(), 1);
    // The deployment before the timeframe is not taken as the base.
    assert_eq!(
        c.finish(),
        Err(DeploymentsFetcherError::DeploymentsFetcherResultIsEmptyList(
            "Deployments fetcher result is empty list".to_string()
        ))
    );
}

#[test]
fn collector_asks_for_the_repository_after_the_last_page() {
    let mut c = GithubDeploymentsCollector::new();
    let page = succeeded_page(
        vec![node("1", "2023-01-10 00:00:00", vec![status("SUCCESS", "2023-01-10 00:01:00")])],
        DeploymentsPageInfoGraphQLResponse { end_cursor: Some("c1".to_string()), has_next_page: true },
    );
    assert_eq!(c.absorb_page(page, &timeframe()), PageOutcome::Continue);
    assert_eq!(c.next_request(), Some(Some("c1".to_string())));
    let last = succeeded_page(
        vec![node("2", "2023-01-05 00:00:00", vec![status("SUCCESS", "2023-01-05 00:01:00")])],
        DeploymentsPageInfoGraphQLResponse { end_cursor: Some("c2".to_string()), has_next_page: false },
    );
    assert_eq!(c.absorb_page(last, &timeframe()), PageOutcome::NeedRepositoryCreatedAt);
    c.set_repository_created_at(at("2022-01-01 00:00:00"));
    let logs = c.finish().unwrap();
    assert_eq!(logs.len(), 2);
    assert_eq!(logs[0].base, BaseCommitShaOrRepositoryInfo::RepositoryCreatedAt(at("2022-01-01 00:00:00")));
    assert_eq!(logs[1].base, BaseCommitShaOrRepositoryInfo::BaseCommitSha("sha-1".to_string()));
}

fn pull(number: u64, branch: &str, merged_at: Option<&str>, with_commit: bool) -> MergedPullsPullsNode {
    MergedPullsPullsNode {
        id: format!("pr-{}", number),
        number,
        title: format!("PR {}", number),
        base_ref: Some(MergedPullsBaseRef { id: "ref".to_string(), name: branch.to_string() }),
        merged_by: Some(MergedPullsUser { login: "merger".to_string() }),
        merged_at: merged_at.map(at),
        merge_commit: if with_commit {
            Some(MergedPullsCommit {
                id: "c".to_string(),
                sha: format!("merge-{}", number),
                message: "Merge".to_string(),
                resource_path: "/c".to_string(),
                committed_date: at("2023-01-10 00:00:00"),
                author: None,
            })
        } else {
            None
        },
        base_commit_sha: format!("base-{}", number),
    }
}

#[test]
fn merged_pulls_query_names_the_repository() {
    let q = merged_pulls_query("shwld", "devperf", None);
    assert!(q.contains("repositoryOwner(login: \"shwld\")"));
    assert!(q.contains("repository(name: \"devperf\")"));
    assert!(q.contains("states: [MERGED]"));
    let fetcher = DeploymentsFetcherWithGithubMergedPullRequest {
        github_personal_token: "t".to_string(),
        github_owner: "shwld".to_string(),
        github_repo: "devperf".to_string(),
        deploy_trigger_branch: "main".to_string(),
    };
    assert_eq!(fetcher.query(Some("x".to_string())), merged_pulls_query("shwld", "devperf", Some("x".to_string())));
}

#[test]
fn deployment_pulls_match_the_branch_pattern_within_the_timeframe() {
    let tf = timeframe();
    assert!(is_deployment_pull_request(&pull(1, "release/1.0", Some("2023-01-10 00:00:00"), true), "release/*", &tf));
    assert!(!is_deployment_pull_request(&pull(2, "develop", Some("2023-01-10 00:00:00"), true), "release/*", &tf));
    assert!(is_deployment_pull_request(&pull(3, "main", Some("2023-01-10 00:00:00"), true), "ma?n", &tf));
    assert!(!is_deployment_pull_request(&pull(4, "main", Some("2022-01-10 00:00:00"), true), "main", &tf));
    assert!(!is_deployment_pull_request(&pull(5, "main", None, true), "main", &tf));
    assert!(!is_deployment_pull_request(&pull(6, "Main", Some("2023-01-10 00:00:00"), true), "main", &tf));
}

#[test]
fn merged_pulls_collector_and_logs() {
    let fetcher = DeploymentsFetcherWithGithubMergedPullRequest {
        github_personal_token: "t".to_string(),
        github_owner: "o".to_string(),
        github_repo: "r".to_string(),
        deploy_trigger_branch: "main".to_string(),
    };
    let mut c = MergedPullsCollector::new();
    fetcher.absorb_page(
        &mut c,
        vec![
            pull(1, "main", Some("2023-01-10 00:00:00"), true),
            pull(2, "feature", Some("2023-01-11 00:00:00"), true),
            pull(3, "main", Some("2023-01-12 00:00:00"), false),
        ],
        MergedPullsPageInfo { end_cursor: Some("p1".to_string()), has_next_page: false },
        &timeframe(),
    );
    assert_eq!(c.items.len(), 2);
    assert_eq!(c.next_request(), None);
    let logs = github_merged_pull::collect_to_logs(c.items);
    assert_eq!(logs.len(), 1);
    assert_eq!(logs[0].info, DeploymentInfo::GithubMergedPullRequest { id: "pr-1".to_string(), number: 1, title: "PR 1".to_string() });
    assert_eq!(logs[0].base, BaseCommitShaOrRepositoryInfo::BaseCommitSha("base-1".to_string()));
    assert_eq!(logs[0].head_commit.sha, "merge-1");
    assert_eq!(logs[0].head_commit.creator_login, "");
    assert_eq!(logs[0].creator_login, "merger");
    assert_eq!(logs[0].deployed_at, at("2023-01-10 00:00:00"));
}

fn release(version: u64, status: &str, created_at: &str, slug: bool) -> HerokuReleaseItem {
    HerokuReleaseItem {
        addon_plan_names: vec![],
        app: HerokuReleaseApp { id: "app".to_string(), name: "app".to_string() },
        created_at: at(created_at),
        description: "Deploy".to_string(),
        status: status.to_string(),
        id: format!("release-{}", version),
        slug: if slug { Some(HerokuReleaseSlug { id: format!("slug-{}", version) }) } else { None },
        updated_at: at(created_at),
        user: HerokuReleaseUser { email: "a@example.com".to_string(), id: "u".to_string() },
        version,
        current: false,
        output_stream_url: None,
    }
}

fn with_commit(item: HerokuReleaseItem, sha: &str, login: Option<&str>) -> HerokuReleaseOrRepositoryInfo {
    let created_at = item.created_at;
    HerokuReleaseOrRepositoryInfo::HerokuRelease(HerokuRelease {
        release: item,
        commit: ReleaseCommit {
            sha: sha.to_string(),
            message: "m".to_string(),
            html_url: "/c".to_string(),
            author_date: Some(created_at),
            author_login: login.map(|l| l.to_string()),
        },
    })
}

#[test]
fn succeeded_releases_need_success_and_a_slug() {
    let kept = succeeded_releases(vec![
        release(1, "succeeded", "2023-01-02 00:00:00", true),
        release(2, "failed", "2023-01-03 00:00:00", true),
        release(3, "SUCCEEDED", "2023-01-04 00:00:00", false),
        release(4, "Succeeded", "2023-01-05 00:00:00", true),
    ]);
    let versions: Vec<u64> = kept.iter().map(|r| r.version).collect();
    assert_eq!(versions, vec![1, 4]);
    assert_eq!(release_slug_id(&kept[0]), Ok("slug-1".to_string()));
    assert!(matches!(release_slug_id(&release(5, "succeeded", "2023-01-02 00:00:00", false)), Err(DeploymentsFetcherError::InvalidResponse(_))));
}

#[test]
fn heroku_addresses() {
    let f = DeploymentsFetcherWithHerokuRelease {
        heroku_app_name: "my-app".to_string(),
        heroku_auth_token: "h".to_string(),
        github_personal_token: "g".to_string(),
        github_owner: "o".to_string(),
        github_repo: "r".to_string(),
    };
    assert_eq!(f.releases_url(), "https://api.heroku.com/apps/my-app/releases");
    assert_eq!(f.slug_url("s1"), "https://api.heroku.com/apps/my-app/slugs/s1");
    assert_eq!(f.commit_path("abc"), "/repos/o/r/commits/abc");
}

#[test]
fn releases_become_logs_sorted_by_time_and_chained() {
    let entries = vec![
        with_commit(release(2, "succeeded", "2023-01-03 00:00:00", true), "c2", Some("bob")),
        with_commit(release(1, "succeeded", "2023-01-02 00:00:00", true), "c1", Some("ann")),
        HerokuReleaseOrRepositoryInfo::RepositoryInfo(GitHubRepositoryInfo { created_at: at("2022-12-01 00:00:00") }),
    ];
    let logs = convert_to_items(entries).unwrap();
    assert_eq!(logs.len(), 2);
    assert_eq!(logs[0].info, DeploymentInfo::HerokuRelease { id: "release-1".to_string(), version: 1 });
    assert_eq!(logs[0].base, BaseCommitShaOrRepositoryInfo::RepositoryCreatedAt(at("2022-12-01 00:00:00")));
    assert_eq!(logs[1].base, BaseCommitShaOrRepositoryInfo::BaseCommitSha("c1".to_string()));
    assert_eq!(logs[1].creator_login, "bob");
}

#[test]
fn release_logs_stop_at_an_unknown_author() {
    let entries = vec![
        HerokuReleaseOrRepositoryInfo::RepositoryInfo(GitHubRepositoryInfo { created_at: at("2022-12-01 00:00:00") }),
        with_commit(release(1, "succeeded", "2023-01-02 00:00:00", true), "c1", Some("ann")),
        with_commit(release(2, "succeeded", "2023-01-03 00:00:00", true), "c2", None),
        with_commit(release(3, "succeeded", "2023-01-04 00:00:00", true), "c3", Some("cid")),
    ];
    let logs = convert_to_items(entries).unwrap();
    assert_eq!(logs.len(), 1);
    assert!(matches!(convert_to_items(vec![]), Err(DeploymentsFetcherError::DeploymentsFetcherResultIsEmptyList(_))));
}
