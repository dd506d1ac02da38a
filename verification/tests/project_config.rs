use devperf::metrics_retrieving::dto::{
    RetrieveFourKeysExecutionContextDto, RetrieveFourKeysExecutionContextDtoError,
};
use devperf::project_config::{
    Config, DeploymentSource, ProjectConfig, ProjectConfigDto, ProjectConfigIOReader,
    ProjectConfigIOReaderError, ProjectConfigIOReaderWithSettingsToml, ProjectConfigIOWriter,
    ProjectConfigIOWriterWithSettingsToml,
};

fn project(source: &str) -> ProjectConfig {
    ProjectConfig {
        github_personal_token: None,
        github_owner: "owner".to_string(),
        github_repo: "repo".to_string(),
        github_deployment_environment: Some("production".to_string()),
        github_deployment_branch_name: Some("main".to_string()),
        heroku_app_name: Some("app".to_string()),
        heroku_auth_token: None,
        developer_count: 3,
        working_days_per_week_milli: 5000,
        deployment_source: source.to_string(),
    }
}

fn config() -> Config {
    Config {
        github_personal_token: "global-gh".to_string(),
        heroku_auth_token: Some("global-heroku".to_string()),
        projects: vec![
            ("deploys".to_string(), project("github_deployment")),
            ("pulls".to_string(), project("github_pull_request")),
            ("heroku".to_string(), project("heroku_release")),
            ("broken".to_string(), project("ftp")),
        ],
    }
}

fn dto(name: &str, source: &str) -> ProjectConfigDto {
    ProjectConfigDto {
        project_name: name.to_string(),
        developer_count: 4,
        working_days_per_week_milli: 4500,
        github_personal_token: "own-gh".to_string(),
        github_owner: "o".to_string(),
        github_repo: "r".to_string(),
        github_deployment_environment: None,
        github_deployment_branch_name: Some("release/*".to_string()),
        heroku_app_name: None,
        heroku_auth_token: None,
        deployment_source: source.to_string(),
    }
}

#[test]
fn deployment_source_names_round_trip() {
    for source in [
        DeploymentSource::GitHubDeployment,
        DeploymentSource::GitHubPullRequest,
        DeploymentSource::HerokuRelease,
    ] {
        assert_eq!(DeploymentSource::try_new(&source.value()), Ok(source));
    }
    assert_eq!(DeploymentSource::try_new("ftp"), Err("ftp".to_string()));
}

#[test]
fn reading_a_github_deployment_project_uses_the_global_token() {
    let d = ProjectConfigIOReaderWithSettingsToml.read(&config(), "deploys".to_string()).unwrap();
    assert_eq!(d.project_name, "deploys");
    assert_eq!(d.github_personal_token, "global-gh");
    assert_eq!(d.github_deployment_environment, Some("production".to_string()));
    assert_eq!(d.github_deployment_branch_name, None);
    assert_eq!(d.heroku_app_name, None);
    assert_eq!(d.heroku_auth_token, None);
    assert_eq!(d.developer_count, 3);
    assert_eq!(d.deployment_source, "github_deployment");
}

#[test]
fn reading_a_pull_request_project_keeps_only_the_branch() {
    let mut c = config();
    c.projects[1].1.github_personal_token = Some("own".to_string());
    let d = ProjectConfigIOReaderWithSettingsToml.read(&c, "pulls".to_string()).unwrap();
    assert_eq!(d.github_personal_token, "own");
    assert_eq!(d.github_deployment_environment, None);
    assert_eq!(d.github_deployment_branch_name, Some("main".to_string()));
}

#[test]
fn reading_a_heroku_project_falls_back_to_the_global_heroku_token() {
    let d = ProjectConfigIOReaderWithSettingsToml.read(&config(), "heroku".to_string()).unwrap();
    assert_eq!(d.heroku_app_name, Some("app".to_string()));
    assert_eq!(d.heroku_auth_token, Some("global-heroku".to_string()));
    assert_eq!(d.github_deployment_environment, None);
    assert_eq!(d.deployment_source, "heroku_release");
}

#[test]
fn reading_an_unknown_project_is_refused() {
    let r = ProjectConfigIOReaderWithSettingsToml.read(&config(), "nothing".to_string());
    assert_eq!(r, Err(ProjectConfigIOReaderError::ProjectNotFound("Project not found".to_string())));
}

#[test]
fn reading_an_unknown_source_is_refused() {
    let r = ProjectConfigIOReaderWithSettingsToml.read(&config(), "broken".to_string());
    assert_eq!(r, Err(ProjectConfigIOReaderError::DataSourceIsInvalid("ftp".to_string())));
}

#[test]
fn reading_globals() {
    let g = ProjectConfigIOReaderWithSettingsToml.read_globals(&config()).unwrap();
    assert_eq!(g.github_personal_token, "global-gh");
    assert_eq!(g.heroku_auth_token, Some("global-heroku".to_string()));
}

#[test]
fn reading_globals_refuses_empty_tokens() {
    let mut c = config();
    c.github_personal_token = String::new();
    assert_eq!(
        ProjectConfigIOReaderWithSettingsToml.read_globals(&c),
        Err(ProjectConfigIOReaderError::DataSourceIsInvalid("GitHub personal token is empty".to_string()))
    );
    c.heroku_auth_token = Some(String::new());
    assert_eq!(
        ProjectConfigIOReaderWithSettingsToml.read_globals(&c),
        Err(ProjectConfigIOReaderError::DataSourceIsInvalid("Heroku auth token is empty".to_string()))
    );
    let mut no_heroku = config();
    no_heroku.heroku_auth_token = None;
    assert!(ProjectConfigIOReaderWithSettingsToml.read_globals(&no_heroku).is_ok());
}

#[test]
fn reading_back_a_heroku_project_without_its_own_token_gives_the_global_one() {
    let mut data = dto("h", "heroku_release");
    data.heroku_app_name = Some("app".to_string());
    data.github_deployment_branch_name = Some("ignored".to_string());
    let written = ProjectConfigIOWriterWithSettingsToml.write(Some(config()), dto_clone(&data));
    let read = ProjectConfigIOReaderWithSettingsToml.read(&written, "h".to_string()).unwrap();
    assert_eq!(read.heroku_auth_token, Some("global-heroku".to_string()));
    assert_eq!(read.heroku_app_name, Some("app".to_string()));
    assert_eq!(read.github_deployment_branch_name, None);
    assert_eq!(read.github_personal_token, "own-gh");
}

fn dto_clone(d: &ProjectConfigDto) -> ProjectConfigDto {
    ProjectConfigDto {
        project_name: d.project_name.clone(),
        developer_count: d.developer_count,
        working_days_per_week_milli: d.working_days_per_week_milli,
        github_personal_token: d.github_personal_token.clone(),
        github_owner: d.github_owner.clone(),
        github_repo: d.github_repo.clone(),
        github_deployment_environment: d.github_deployment_environment.clone(),
        github_deployment_branch_name: d.github_deployment_branch_name.clone(),
        heroku_app_name: d.heroku_app_name.clone(),
        heroku_auth_token: d.heroku_auth_token.clone(),
        deployment_source: d.deployment_source.clone(),
    }
}

#[test]
fn writing_without_settings_starts_from_the_written_tokens() {
    let c = ProjectConfigIOWriterWithSettingsToml.write(None, dto("new", "github_pull_request"));
    assert_eq!(c.github_personal_token, "own-gh");
    assert_eq!(c.heroku_auth_token, None);
    assert_eq!(c.projects.len(), 1);
    assert_eq!(c.projects[0].0, "new");
    assert_eq!(c.projects[0].1.github_personal_token, None);
    assert_eq!(c.projects[0].1.github_deployment_branch_name, Some("release/*".to_string()));
}

#[test]
fn writing_replaces_a_project_in_place_and_keeps_the_others() {
    let mut data = dto("pulls", "github_pull_request");
    data.github_personal_token = "global-gh".to_string();
    let c = ProjectConfigIOWriterWithSettingsToml.write(Some(config()), data);
    assert_eq!(c.projects.len(), 4);
    assert_eq!(c.projects[1].0, "pulls");
    assert_eq!(c.projects[1].1.github_personal_token, None);
    assert_eq!(c.projects[1].1.github_owner, "o");
    // The written Heroku token (none) differs from the global one.
    assert_eq!(c.projects[1].1.heroku_auth_token, None);
    assert_eq!(c.projects[0], ("deploys".to_string(), project("github_deployment")));
    assert_eq!(c.projects[3], ("broken".to_string(), project("ftp")));
    assert_eq!(c.github_personal_token, "global-gh");
}

#[test]
fn writing_a_new_project_appends_it_with_its_own_token() {
    let c = ProjectConfigIOWriterWithSettingsToml.write(Some(config()), dto("new", "github_pull_request"));
    assert_eq!(c.projects.len(), 5);
    assert_eq!(c.projects[4].0, "new");
    assert_eq!(c.projects[4].1.github_personal_token, Some("own-gh".to_string()));
}

#[test]
fn reading_after_writing_gives_the_settings_back() {
    let data = dto("new", "github_pull_request");
    let written = ProjectConfigIOWriterWithSettingsToml.write(
        Some(Config { heroku_auth_token: None, ..config() }),
        dto("new", "github_pull_request"),
    );
    let read = ProjectConfigIOReaderWithSettingsToml.read(&written, "new".to_string()).unwrap();
    assert_eq!(read, data);
}

#[test]
fn build_context_checks_the_numbers() {
    let ok = RetrieveFourKeysExecutionContextDto::build_context(dto("p", "github_deployment"))
        .unwrap();
    assert_eq!(ok.name, "p");
    assert_eq!(ok.developer_count, 4);
    assert_eq!(ok.working_days_per_week_milli, 4500);
    let mut no_developers = dto("p", "github_deployment");
    no_developers.developer_count = 0;
    assert!(matches!(
        RetrieveFourKeysExecutionContextDto::build_context(no_developers),
        Err(RetrieveFourKeysExecutionContextDtoError::InvalidDeveloperCount(_))
    ));
    let mut eight_days = dto("p", "github_deployment");
    eight_days.working_days_per_week_milli = 8000;
    assert!(matches!(
        RetrieveFourKeysExecutionContextDto::build_context(eight_days),
        Err(RetrieveFourKeysExecutionContextDtoError::InvalidWorkingDaysPerWeek(_))
    ));
}

#[test]
fn settings_keep_the_first_entry_under_each_name() {
    let mut second = project("github_pull_request");
    second.github_owner = "other".to_string();
    let c = Config::with_unique_names(
        "gh".to_string(),
        None,
        vec![
            ("a".to_string(), project("github_deployment")),
            ("b".to_string(), project("heroku_release")),
            ("a".to_string(), second),
        ],
    );
    assert_eq!(c.projects.len(), 2);
    assert_eq!(c.projects[0], ("a".to_string(), project("github_deployment")));
    assert_eq!(c.projects[1].0, "b");
    let d = ProjectConfigIOReaderWithSettingsToml.read(&c, "a".to_string()).unwrap();
    assert_eq!(d.github_owner, "owner");
}
