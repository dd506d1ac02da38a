use devperf::calendar::parse_datetime_utc;
use devperf::datetime::DateTimeUtc;
use devperf::first_commit_from_compare::{
    first_commit_compare_url, first_commit_from_compare_answer, FirstCommitFromCompareParams,
    GetFirstCommitFromCompareError,
};
use devperf::first_commit_getter::{
    first_commit_from_fields, FirstCommitFields, FirstCommitGetterError, FirstCommitGetterWithGitHub,
    FirstCommitGetterWithMock, ValidatedFirstCommitGetterParams, ValidatedFirstCommitGetterParamsError,
};
use devperf::two_commits_comparer::{
    collect_compared_commits, ComparedCommitItem, TwoCommitsComparerError,
    TwoCommitsComparerWithGitHub, ValidatedCommitShaPair, ValidatedCommitShaPairError,
};

fn at(text: &str) -> DateTimeUtc {
    parse_datetime_utc(text).expect("Could not parse the instant")
}

fn fields() -> FirstCommitFields {
    FirstCommitFields {
        sha: Some("abc".to_string()),
        message: Some("first".to_string()),
        html_url: Some("https://github.com/o/r/commit/abc".to_string()),
        date: Some("2023-01-02T03:04:05Z".to_string()),
        login: Some("alice".to_string()),
    }
}

#[test]
fn sha_pair_accepts_distinct_non_empty_hashes() {
    let p = ValidatedCommitShaPair::new("a".to_string(), "b".to_string()).unwrap();
    assert_eq!(p.get_base(), "a");
    assert_eq!(p.get_head(), "b");
    assert_eq!(
        ValidatedCommitShaPair::new("".to_string(), "b".to_string()),
        Err(ValidatedCommitShaPairError::EmptyBaseOrHead("base: \"\", head: \"b\"".to_string()))
    );
    assert_eq!(
        ValidatedCommitShaPair::new("a".to_string(), "a".to_string()),
        Err(ValidatedCommitShaPairError::BaseEqualsHead("base: \"a\", head: \"a\"".to_string()))
    );
    // Emptiness is checked before equality.
    assert!(matches!(
        ValidatedCommitShaPair::new("".to_string(), "".to_string()),
        Err(ValidatedCommitShaPairError::EmptyBaseOrHead(_))
    ));
}

#[test]
fn first_commit_params_accept_distinct_non_empty_hashes() {
    let p = ValidatedFirstCommitGetterParams::new("a".to_string(), "b".to_string()).unwrap();
    assert_eq!(p.get_base(), "a");
    assert_eq!(p.get_head(), "b");
    assert!(matches!(
        ValidatedFirstCommitGetterParams::new("a".to_string(), "".to_string()),
        Err(ValidatedFirstCommitGetterParamsError::EmptyBaseOrHead(_))
    ));
    assert!(matches!(
        ValidatedFirstCommitGetterParams::new("x".to_string(), "x".to_string()),
        Err(ValidatedFirstCommitGetterParamsError::BaseEqualsHead(_))
    ));
}

#[test]
fn compare_address() {
    let comparer = TwoCommitsComparerWithGitHub {
        github_personal_token: "t".to_string(),
        github_owner: "shwld".to_string(),
        github_repo: "devperf".to_string(),
    };
    let pair = ValidatedCommitShaPair::new("a1".to_string(), "b2".to_string()).unwrap();
    assert_eq!(comparer.compare_url(&pair), "https://api.github.com/repos/shwld/devperf/compare/a1...b2");
    let getter = FirstCommitGetterWithGitHub {
        github_personal_token: "t".to_string(),
        github_owner: "shwld".to_string(),
        github_repo: "devperf".to_string(),
    };
    let params = ValidatedFirstCommitGetterParams::new("a1".to_string(), "b2".to_string()).unwrap();
    assert_eq!(getter.compare_url(&params), "https://api.github.com/repos/shwld/devperf/compare/a1...b2");
}

#[test]
fn compared_commits_without_author_date_are_left_out() {
    let commits = collect_compared_commits(vec![
        ComparedCommitItem {
            sha: "1".to_string(),
            message: "m1".to_string(),
            html_url: "u1".to_string(),
            author_date: Some(at("2023-01-01 00:00:00")),
            author_login: None,
        },
        ComparedCommitItem {
            sha: "2".to_string(),
            message: "m2".to_string(),
            html_url: "u2".to_string(),
            author_date: None,
            author_login: Some("bob".to_string()),
        },
        ComparedCommitItem {
            sha: "3".to_string(),
            message: "m3".to_string(),
            html_url: "u3".to_string(),
            author_date: Some(at("2023-01-03 00:00:00")),
            author_login: Some("carol".to_string()),
        },
    ]);
    assert_eq!(commits.len(), 2);
    assert_eq!(commits[0].sha, "1");
    assert_eq!(commits[0].creator_login, "");
    assert_eq!(commits[1].resource_path, "u3");
    assert_eq!(commits[1].creator_login, "carol");
}

#[test]
fn compare_answer_with_failed_status_is_refused() {
    let comparer = TwoCommitsComparerWithGitHub {
        github_personal_token: "t".to_string(),
        github_owner: "o".to_string(),
        github_repo: "r".to_string(),
    };
    assert!(matches!(comparer.commits_of_answer(404, vec![]), Err(TwoCommitsComparerError::InvalidAPIResponse(_))));
    assert_eq!(comparer.commits_of_answer(200, vec![]), Ok(vec![]));
}

#[test]
fn first_commit_is_read_from_complete_fields() {
    let item = first_commit_from_fields(Some(fields())).unwrap();
    assert_eq!(item.sha, "abc");
    assert_eq!(item.message, "first");
    assert_eq!(item.resource_path, "https://github.com/o/r/commit/abc");
    assert_eq!(item.committed_at, at("2023-01-02 03:04:05"));
    assert_eq!(item.creator_login, "alice");
}

#[test]
fn first_commit_offset_dates_are_read_as_utc() {
    let mut f = fields();
    f.date = Some("2023-01-02T12:04:05+09:00".to_string());
    let item = first_commit_from_fields(Some(f)).unwrap();
    assert_eq!(item.committed_at, at("2023-01-02 03:04:05"));
}

#[test]
fn first_commit_missing_fields_are_named_in_order() {
    assert_eq!(first_commit_from_fields(None), Err(FirstCommitGetterError::CannotGotFromJson("commits".to_string())));
    let mut f = fields();
    f.sha = None;
    f.login = None;
    assert_eq!(first_commit_from_fields(Some(f)), Err(FirstCommitGetterError::CannotGotFromJson("sha".to_string())));
    let mut f = fields();
    f.message = None;
    assert_eq!(first_commit_from_fields(Some(f)), Err(FirstCommitGetterError::CannotGotFromJson("message".to_string())));
    let mut f = fields();
    f.html_url = None;
    assert_eq!(first_commit_from_fields(Some(f)), Err(FirstCommitGetterError::CannotGotFromJson("html_url".to_string())));
    let mut f = fields();
    f.date = Some("yesterday".to_string());
    assert_eq!(first_commit_from_fields(Some(f)), Err(FirstCommitGetterError::CannotGotFromJson("date".to_string())));
    let mut f = fields();
    f.login = None;
    assert_eq!(first_commit_from_fields(Some(f)), Err(FirstCommitGetterError::CannotGotFromJson("login".to_string())));
}

#[test]
fn first_commit_of_answer_checks_the_status() {
    let getter = FirstCommitGetterWithGitHub {
        github_personal_token: "t".to_string(),
        github_owner: "o".to_string(),
        github_repo: "r".to_string(),
    };
    assert!(matches!(getter.first_commit_of_answer(500, Some(fields())), Err(FirstCommitGetterError::InvalidAPIResponse(_))));
    assert!(getter.first_commit_of_answer(200, Some(fields())).is_ok());
}

#[test]
fn first_commit_from_compare_checks_the_hashes_first() {
    let params = |base: &str, head: &str| FirstCommitFromCompareParams {
        owner: "o".to_string(),
        repo: "r".to_string(),
        base: base.to_string(),
        head: head.to_string(),
    };
    assert_eq!(first_commit_compare_url(&params("a", "b")), Ok("https://api.github.com/repos/o/r/compare/a...b".to_string()));
    assert!(matches!(first_commit_compare_url(&params("", "b")), Err(GetFirstCommitFromCompareError::EmptyBaseOrHead(_))));
    assert!(matches!(first_commit_compare_url(&params("a", "a")), Err(GetFirstCommitFromCompareError::BaseEqualsHead(_))));
}

#[test]
fn first_commit_from_compare_tells_an_unreadable_date_from_a_missing_one() {
    let mut f = fields();
    f.date = Some("not a date".to_string());
    assert!(matches!(first_commit_from_compare_answer(200, Some(f)), Err(GetFirstCommitFromCompareError::APIResponseParseError(_))));
    let mut f = fields();
    f.date = None;
    assert_eq!(first_commit_from_compare_answer(200, Some(f)), Err(GetFirstCommitFromCompareError::CannotGotFromJsonError("date".to_string())));
    assert_eq!(first_commit_from_compare_answer(200, None), Err(GetFirstCommitFromCompareError::CannotGotFromJsonError("commits".to_string())));
    assert!(matches!(first_commit_from_compare_answer(403, Some(fields())), Err(GetFirstCommitFromCompareError::APIResponseError(_))));
    assert_eq!(first_commit_from_compare_answer(200, Some(fields())).unwrap().sha, "abc");
}

#[test]
fn mock_first_commit_getter_answers_its_commit() {
    let mock = FirstCommitGetterWithMock { committed_at_str: "2023-01-01".to_string() };
    let params = ValidatedFirstCommitGetterParams::new("a".to_string(), "b".to_string()).unwrap();
    let item = mock.get(params).unwrap();
    assert_eq!(item.sha, "sha");
    assert_eq!(item.committed_at, at("2023-01-01 00:00:00"));
}

#[test]
fn instants_are_read_in_both_forms() {
    assert_eq!(at("2023-01-01").timestamp(), 1672531200);
    assert_eq!(at("2023-01-01 12:00:00").timestamp(), 1672574400);
    assert_eq!(parse_datetime_utc("01/01/2023"), None);
}

#[test]
fn failed_status_is_described() {
    let comparer = TwoCommitsComparerWithGitHub {
        github_personal_token: "t".to_string(),
        github_owner: "o".to_string(),
        github_repo: "r".to_string(),
    };
    assert_eq!(
        comparer.commits_of_answer(404, vec![]),
        Err(TwoCommitsComparerError::InvalidAPIResponse("status: 404".to_string()))
    );
}

#[test]
fn unreadable_date_carries_the_parse_error() {
    let mut f = fields();
    f.date = Some("2023-13-45".to_string());
    let expected = chrono::DateTime::parse_from_rfc3339("2023-13-45").unwrap_err().to_string();
    assert_eq!(
        first_commit_from_compare_answer(200, Some(f)),
        Err(GetFirstCommitFromCompareError::APIResponseParseError(expected))
    );
}
