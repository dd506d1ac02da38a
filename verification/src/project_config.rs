//! The settings file: global tokens and per-project settings; reading a
//! project's settings from it and writing a project's settings into it.

use vstd::prelude::*;

verus! {

broadcast use vstd::seq_lib::group_seq_properties;

/// Where a project's deployments are recorded.
#[derive(Debug, PartialEq, Eq, Clone, Copy)]
pub enum DeploymentSource {
    GitHubDeployment,
    GitHubPullRequest,
    HerokuRelease,
}

/// The name under which a deployment source is stored in the settings file.
pub open spec fn source_name(source: DeploymentSource) -> Seq<char> {
    match source {
        DeploymentSource::GitHubDeployment => "github_deployment"@,
        DeploymentSource::GitHubPullRequest => "github_pull_request"@,
        DeploymentSource::HerokuRelease => "heroku_release"@,
    }
}

/// The deployment source stored under `name`, if any.
pub open spec fn source_of_name(name: Seq<char>) -> Option<DeploymentSource> {
    if name == source_name(DeploymentSource::GitHubDeployment) {
        Some(DeploymentSource::GitHubDeployment)
    } else if name == source_name(DeploymentSource::GitHubPullRequest) {
        Some(DeploymentSource::GitHubPullRequest)
    } else if name == source_name(DeploymentSource::HerokuRelease) {
        Some(DeploymentSource::HerokuRelease)
    } else {
        None
    }
}

impl DeploymentSource {
    /// The name under which the source is stored.
    pub fn value(&self) -> (r: String)
        ensures
            r@ == source_name(*self),
    {
        match self {
            DeploymentSource::GitHubDeployment => "github_deployment".to_owned(),
            DeploymentSource::GitHubPullRequest => "github_pull_request".to_owned(),
            DeploymentSource::HerokuRelease => "heroku_release".to_owned(),
        }
    }

    /// The source stored under `name`; refused for any other text.
    pub fn try_new(name: &str) -> (r: Result<DeploymentSource, String>)
        ensures
            r is Ok <==> source_of_name(name@) is Some,
            r matches Ok(s) ==> source_of_name(name@) == Some(s),
            r matches Err(e) ==> e@ == name@,
    {
        let n = name.to_owned();
        if n == "github_deployment".to_owned() {
            Ok(DeploymentSource::GitHubDeployment)
        } else if n == "github_pull_request".to_owned() {
            Ok(DeploymentSource::GitHubPullRequest)
        } else if n == "heroku_release".to_owned() {
            Ok(DeploymentSource::HerokuRelease)
        } else {
            Err(n)
        }
    }
}

/// Names and sources correspond one to one.
pub proof fn lemma_source_names_round_trip(source: DeploymentSource)
    ensures
        source_of_name(source_name(source)) == Some(source),
{
    reveal_strlit("github_deployment");
    reveal_strlit("github_pull_request");
    reveal_strlit("heroku_release");
    assert("github_deployment"@.len() == 17);
    assert("github_pull_request"@.len() == 19);
    assert("heroku_release"@.len() == 14);
}

/// The settings of one project as the settings file stores them.
#[derive(Debug, PartialEq, Eq)]
pub struct ProjectConfig {
    /// The project's own GitHub token, when it differs from the global one.
    pub github_personal_token: Option<String>,
    pub github_owner: String,
    pub github_repo: String,
    pub github_deployment_environment: Option<String>,
    pub github_deployment_branch_name: Option<String>,
    pub heroku_app_name: Option<String>,
    /// The project's own Heroku token, when it differs from the global one.
    pub heroku_auth_token: Option<String>,
    pub developer_count: u32,
    /// Working days per week, in thousandths of a day.
    pub working_days_per_week_milli: u32,
    pub deployment_source: String,
}

fn clone_option_string(o: &Option<String>) -> (r: Option<String>)
    ensures
        r == *o,
{
    match o {
        Some(s) => Some(s.clone()),
        None => None,
    }
}

fn option_string_eq(a: &Option<String>, b: &Option<String>) -> (r: bool)
    ensures
        r == (opt_view(*a) == opt_view(*b)),
{
    match (a, b) {
        (Some(x), Some(y)) => *x == *y,
        (None, None) => true,
        _ => false,
    }
}

/// The text an optional text holds.
pub open spec fn opt_view(o: Option<String>) -> Option<Seq<char>> {
    match o {
        Some(s) => Some(s@),
        None => None,
    }
}

impl Clone for ProjectConfig {
    fn clone(&self) -> (r: Self)
        ensures
            r == *self,
    {
        ProjectConfig {
            github_personal_token: clone_option_string(&self.github_personal_token),
            github_owner: self.github_owner.clone(),
            github_repo: self.github_repo.clone(),
            github_deployment_environment: clone_option_string(&self.github_deployment_environment),
            github_deployment_branch_name: clone_option_string(&self.github_deployment_branch_name),
            heroku_app_name: clone_option_string(&self.heroku_app_name),
            heroku_auth_token: clone_option_string(&self.heroku_auth_token),
            developer_count: self.developer_count,
            working_days_per_week_milli: self.working_days_per_week_milli,
            deployment_source: self.deployment_source.clone(),
        }
    }
}

/// The settings file: the global tokens and the projects by name.
#[derive(Debug, PartialEq, Eq)]
pub struct Config {
    pub github_personal_token: String,
    pub heroku_auth_token: Option<String>,
    pub projects: Vec<(String, ProjectConfig)>,
}

impl Config {
    /// An empty settings file: empty token, no Heroku token, no projects.
    pub fn default() -> (r: Config)
        ensures
            r.github_personal_token@.len() == 0,
            r.heroku_auth_token is None,
            r.projects@.len() == 0,
    {
        Config { github_personal_token: String::new(), heroku_auth_token: None, projects: Vec::new() }
    }
}

/// The settings of a project as the rest of the tool uses them, with the
/// tokens resolved.
#[derive(Debug, PartialEq, Eq)]
pub struct ProjectConfigDto {
    pub project_name: String,
    pub developer_count: u32,
    /// Working days per week, in thousandths of a day.
    pub working_days_per_week_milli: u32,
    pub github_personal_token: String,
    pub github_owner: String,
    pub github_repo: String,
    pub github_deployment_environment: Option<String>,
    pub github_deployment_branch_name: Option<String>,
    pub heroku_app_name: Option<String>,
    pub heroku_auth_token: Option<String>,
    pub deployment_source: String,
}

/// Why a project's settings could not be read.
#[derive(Debug, PartialEq, Eq)]
pub enum ProjectConfigIOReaderError {
    ConfigFileReadError(String),
    ProjectNotFound(String),
    DataSourceIsInvalid(String),
}

/// Why the settings could not be written.
#[derive(Debug, PartialEq, Eq)]
pub enum ProjectConfigIOWriterError {
    CannotWritten(String),
}

/// Position of the first project named `name`, if any.
#[verifier::opaque]
pub open spec fn project_index(projects: Seq<(String, ProjectConfig)>, name: Seq<char>) -> Option<int> {
    if exists|i: int| 0 <= i < projects.len() && projects[i].0@ == name {
        Some(
            choose|i: int|
                0 <= i < projects.len() && projects[i].0@ == name && forall|j: int|
                    0 <= j < i ==> projects[j].0@ != name,
        )
    } else {
        None
    }
}

/// The settings of the first project named `name`, if any.
pub open spec fn project_named(projects: Seq<(String, ProjectConfig)>, name: Seq<char>) -> Option<ProjectConfig> {
    match project_index(projects, name) {
        Some(i) => Some(projects[i].1),
        None => None,
    }
}

/// No two projects share a name.
pub open spec fn unique_names(projects: Seq<(String, ProjectConfig)>) -> bool {
    forall|i: int, j: int|
        0 <= i < projects.len() && 0 <= j < projects.len() && i != j ==> projects[i].0@
            != projects[j].0@
}

proof fn lemma_project_index(projects: Seq<(String, ProjectConfig)>, name: Seq<char>, k: int)
    requires
        0 <= k < projects.len(),
        projects[k].0@ == name,
        forall|j: int| 0 <= j < k ==> projects[j].0@ != name,
    ensures
        project_index(projects, name) == Some(k),
{
    reveal(project_index);
    let i = choose|i: int|
        0 <= i < projects.len() && projects[i].0@ == name && forall|j: int|
            0 <= j < i ==> projects[j].0@ != name;
    assert(projects[k].0@ == name);
    if i < k {
        assert(projects[i].0@ != name);
    } else if i > k {
        assert(projects[k].0@ != name);
    }
}

/// Position of the first project named `name`, if any.
pub fn find_project(projects: &Vec<(String, ProjectConfig)>, name: &String) -> (r: Option<usize>)
    ensures
        r matches Some(i) ==> {
            &&& i < projects@.len()
            &&& projects@[i as int].0@ == name@
            &&& project_index(projects@, name@) == Some(i as int)
        },
        r is None ==> project_index(projects@, name@) is None,
{
    let mut i: usize = 0;
    while i < projects.len()
        invariant
            i <= projects@.len(),
            forall|j: int| 0 <= j < i ==> projects@[j].0@ != name@,
        decreases projects@.len() - i,
    {
        if projects[i].0 == *name {
            proof {
                lemma_project_index(projects@, name@, i as int);
            }
            return Some(i);
        }
        i = i + 1;
    }
    proof {
        lemma_project_index_is_first(projects@, name@);
    }
    None
}

/// A project's token as it is used: its own one, else the global one.
pub open spec fn resolved_token(own: Option<String>, global: Seq<char>) -> Seq<char> {
    match own {
        Some(t) => t@,
        None => global,
    }
}

/// `d` holds the settings of the project `name`, stored as `pc` in `config`,
/// read for the deployment source `source`: the tokens resolved against the
/// global ones, and the fields that belong to other sources left empty.
pub open spec fn is_resolved_dto(
    d: ProjectConfigDto,
    config: Config,
    name: Seq<char>,
    pc: ProjectConfig,
    source: DeploymentSource,
) -> bool {
    &&& d.project_name@ == name
    &&& d.developer_count == pc.developer_count
    &&& d.working_days_per_week_milli == pc.working_days_per_week_milli
    &&& d.github_personal_token@ == resolved_token(
        pc.github_personal_token,
        config.github_personal_token@,
    )
    &&& d.github_owner@ == pc.github_owner@
    &&& d.github_repo@ == pc.github_repo@
    &&& opt_view(d.github_deployment_environment) == if source
        == DeploymentSource::GitHubDeployment {
        opt_view(pc.github_deployment_environment)
    } else {
        None
    }
    &&& opt_view(d.github_deployment_branch_name) == if source
        == DeploymentSource::GitHubPullRequest {
        opt_view(pc.github_deployment_branch_name)
    } else {
        None
    }
    &&& opt_view(d.heroku_app_name) == if source == DeploymentSource::HerokuRelease {
        opt_view(pc.heroku_app_name)
    } else {
        None
    }
    &&& opt_view(d.heroku_auth_token) == if source == DeploymentSource::HerokuRelease {
        match pc.heroku_auth_token {
            Some(t) => Some(t@),
            None => opt_view(config.heroku_auth_token),
        }
    } else {
        None
    }
    &&& d.deployment_source@ == source_name(source)
}

/// What reading the project `name` from the settings `config` answers: the
/// project's settings, or why they cannot be had.
pub open spec fn is_read_of(
    r: Result<ProjectConfigDto, ProjectConfigIOReaderError>,
    config: Config,
    name: Seq<char>,
) -> bool {
    match project_named(config.projects@, name) {
        None => r matches Err(ProjectConfigIOReaderError::ProjectNotFound(m)) && m@
            == "Project not found"@,
        Some(pc) => match source_of_name(pc.deployment_source@) {
            None => r matches Err(ProjectConfigIOReaderError::DataSourceIsInvalid(m)) && m@
                == pc.deployment_source@,
            Some(source) => r matches Ok(d) && is_resolved_dto(d, config, name, pc, source),
        },
    }
}

fn resolve_dto(config: &Config, project_name: String, pc: &ProjectConfig, source: DeploymentSource) -> (d:
    ProjectConfigDto)
    ensures
        is_resolved_dto(d, *config, project_name@, *pc, source),
{
    let github_personal_token = match &pc.github_personal_token {
        Some(t) => t.clone(),
        None => config.github_personal_token.clone(),
    };
    let (environment, branch, app, heroku_token) = match source {
        DeploymentSource::GitHubDeployment => (
            clone_option_string(&pc.github_deployment_environment),
            None,
            None,
            None,
        ),
        DeploymentSource::GitHubPullRequest => (
            None,
            clone_option_string(&pc.github_deployment_branch_name),
            None,
            None,
        ),
        DeploymentSource::HerokuRelease => (
            None,
            None,
            clone_option_string(&pc.heroku_app_name),
            match &pc.heroku_auth_token {
                Some(t) => Some(t.clone()),
                None => clone_option_string(&config.heroku_auth_token),
            },
        ),
    };
    ProjectConfigDto {
        project_name,
        developer_count: pc.developer_count,
        working_days_per_week_milli: pc.working_days_per_week_milli,
        github_personal_token,
        github_owner: pc.github_owner.clone(),
        github_repo: pc.github_repo.clone(),
        github_deployment_environment: environment,
        github_deployment_branch_name: branch,
        heroku_app_name: app,
        heroku_auth_token: heroku_token,
        deployment_source: source.value(),
    }
}

/// Whether a token can be used: it is not empty.
pub open spec fn valid_token(t: Seq<char>) -> bool {
    t.len() > 0
}

/// Whether the global tokens can be used: the GitHub token, and the Heroku
/// token when there is one.
pub open spec fn valid_globals(config: Config) -> bool {
    &&& valid_token(config.github_personal_token@)
    &&& config.heroku_auth_token matches Some(t) ==> valid_token(t@)
}

/// The global tokens of the settings file.
#[derive(Debug, PartialEq, Eq)]
pub struct GlobalConfig {
    pub github_personal_token: String,
    pub heroku_auth_token: Option<String>,
}

/// Reads project settings out of the loaded settings file.
pub trait ProjectConfigIOReader {
    /// The settings of the project `project_name`.
    fn read(&self, config: &Config, project_name: String) -> (r: Result<
        ProjectConfigDto,
        ProjectConfigIOReaderError,
    >)
        ensures
            is_read_of(r, *config, project_name@),
    ;

    /// The global tokens, once checked: the Heroku token, when there is one,
    /// then the GitHub token must not be empty.
    fn read_globals(&self, config: &Config) -> (r: Result<GlobalConfig, ProjectConfigIOReaderError>)
        ensures
            r is Ok <==> valid_globals(*config),
            r matches Ok(g) ==> {
                &&& g.github_personal_token@ == config.github_personal_token@
                &&& opt_view(g.heroku_auth_token) == opt_view(config.heroku_auth_token)
            },
            r matches Err(e) ==> e matches ProjectConfigIOReaderError::DataSourceIsInvalid(m) && m@
                == if config.heroku_auth_token matches Some(t) && !valid_token(t@) {
                "Heroku auth token is empty"@
            } else {
                "GitHub personal token is empty"@
            },
    ;
}

/// The reader of the settings file that the tool keeps.
pub struct ProjectConfigIOReaderWithSettingsToml;

impl ProjectConfigIOReader for ProjectConfigIOReaderWithSettingsToml {
    fn read(&self, config: &Config, project_name: String) -> (r: Result<
        ProjectConfigDto,
        ProjectConfigIOReaderError,
    >) {
        match find_project(&config.projects, &project_name) {
            None => Err(ProjectConfigIOReaderError::ProjectNotFound("Project not found".to_owned())),
            Some(i) => {
                let pc = &config.projects[i].1;
                match DeploymentSource::try_new(pc.deployment_source.as_str()) {
                    Err(e) => Err(ProjectConfigIOReaderError::DataSourceIsInvalid(e)),
                    Ok(source) => Ok(resolve_dto(config, project_name, pc, source)),
                }
            },
        }
    }

    fn read_globals(&self, config: &Config) -> (r: Result<GlobalConfig, ProjectConfigIOReaderError>) {
        if let Some(t) = &config.heroku_auth_token {
            if t.as_str().is_empty() {
                return Err(
                    ProjectConfigIOReaderError::DataSourceIsInvalid(
                        "Heroku auth token is empty".to_owned(),
                    ),
                );
            }
        }
        if config.github_personal_token.as_str().is_empty() {
            return Err(
                ProjectConfigIOReaderError::DataSourceIsInvalid(
                    "GitHub personal token is empty".to_owned(),
                ),
            );
        }
        Ok(
            GlobalConfig {
                github_personal_token: config.github_personal_token.clone(),
                heroku_auth_token: clone_option_string(&config.heroku_auth_token),
            },
        )
    }
}

/// Where the first project named `name` stands once `x` is added at the end:
/// where it stood, else at the end when `x` has that name.
proof fn lemma_project_index_push(s: Seq<(String, ProjectConfig)>, x: (String, ProjectConfig), name: Seq<char>)
    ensures
        project_index(s.push(x), name) == match project_index(s, name) {
            Some(i) => Some(i),
            None => if x.0@ == name {
                Some(s.len() as int)
            } else {
                None
            },
        },
{
    lemma_project_index_is_first(s, name);
    lemma_project_index_is_first(s.push(x), name);
    match project_index(s, name) {
        Some(i) => {
            assert(s.push(x)[i] == s[i]);
            assert forall|j: int| 0 <= j < i implies s.push(x)[j].0@ != name by {
                assert(s.push(x)[j] == s[j]);
            }
            lemma_project_index(s.push(x), name, i);
        },
        None => {
            if x.0@ == name {
                assert forall|j: int| 0 <= j < s.len() implies s.push(x)[j].0@ != name by {
                    assert(s.push(x)[j] == s[j]);
                }
                lemma_project_index(s.push(x), name, s.len() as int);
            } else {
                if project_index(s.push(x), name) is Some {
                    let i = project_index(s.push(x), name)->0;
                    if i < s.len() {
                        assert(s.push(x)[i] == s[i]);
                    }
                }
            }
        },
    }
}

/// Adding an entry under a name that `out` already holds changes nothing
/// that reading `out` gives.
proof fn lemma_named_push_known(
    out: Seq<(String, ProjectConfig)>,
    taken: Seq<(String, ProjectConfig)>,
    e: (String, ProjectConfig),
)
    requires
        forall|name: Seq<char>| #[trigger] project_named(out, name) == project_named(taken, name),
        project_index(out, e.0@) is Some,
    ensures
        forall|name: Seq<char>|
            #[trigger] project_named(out, name) == project_named(taken.push(e), name),
{
    assert forall|name: Seq<char>|
        #[trigger] project_named(out, name) == project_named(taken.push(e), name) by {
        lemma_project_index_push(taken, e, name);
        lemma_project_index_is_first(taken, name);
        assert(project_named(out, name) == project_named(taken, name));
        assert(project_named(out, e.0@) == project_named(taken, e.0@));
        if let Some(i) = project_index(taken, name) {
            assert(taken.push(e)[i] == taken[i]);
        }
    }
}

/// Adding an entry under a name that `out` does not hold adds it to what
/// reading gives, and keeps the names distinct.
proof fn lemma_named_push_new(
    out: Seq<(String, ProjectConfig)>,
    taken: Seq<(String, ProjectConfig)>,
    e: (String, ProjectConfig),
)
    requires
        forall|name: Seq<char>| #[trigger] project_named(out, name) == project_named(taken, name),
        project_index(out, e.0@) is None,
        unique_names(out),
    ensures
        forall|name: Seq<char>|
            #[trigger] project_named(out.push(e), name) == project_named(taken.push(e), name),
        unique_names(out.push(e)),
{
    assert forall|name: Seq<char>|
        #[trigger] project_named(out.push(e), name) == project_named(taken.push(e), name) by {
        lemma_project_index_push(taken, e, name);
        lemma_project_index_push(out, e, name);
        lemma_project_index_is_first(taken, name);
        lemma_project_index_is_first(out, name);
        assert(project_named(out, name) == project_named(taken, name));
        assert(project_named(out, e.0@) == project_named(taken, e.0@));
        if let Some(i) = project_index(taken, name) {
            assert(taken.push(e)[i] == taken[i]);
        }
        if let Some(i) = project_index(out, name) {
            assert(out.push(e)[i] == out[i]);
        }
    }
    lemma_project_index_is_first(out, e.0@);
    let o = out.push(e);
    assert forall|a: int, b: int|
        0 <= a < o.len() && 0 <= b < o.len() && a != b implies o[a].0@ != o[b].0@ by {
        if a < out.len() {
            assert(o[a] == out[a]);
        }
        if b < out.len() {
            assert(o[b] == out[b]);
        }
    }
}

impl Config {
    /// Settings with the given global tokens whose projects are `entries`,
    /// keeping under each name only its first entry: every name then stands
    /// once, and reading any name gives what it gave in `entries`.
    pub fn with_unique_names(
        github_personal_token: String,
        heroku_auth_token: Option<String>,
        entries: Vec<(String, ProjectConfig)>,
    ) -> (r: Config)
        ensures
            r.github_personal_token == github_personal_token,
            r.heroku_auth_token == heroku_auth_token,
            unique_names(r.projects@),
            forall|name: Seq<char>|
                #[trigger] project_named(r.projects@, name) == project_named(entries@, name),
            forall|k: int| 0 <= k < r.projects@.len() ==> entries@.contains(#[trigger] r.projects@[k]),
    {
        let mut out: Vec<(String, ProjectConfig)> = Vec::new();
        let mut i: usize = 0;
        proof {
            assert(entries@.take(0) =~= out@);
        }
        while i < entries.len()
            invariant
                i <= entries@.len(),
                unique_names(out@),
                forall|name: Seq<char>|
                    #[trigger] project_named(out@, name) == project_named(entries@.take(i as int), name),
                forall|k: int| 0 <= k < out@.len() ==> entries@.contains(#[trigger] out@[k]),
            decreases entries@.len() - i,
        {
            let ghost taken = entries@.take(i as int);
            let e = (entries[i].0.clone(), entries[i].1.clone());
            proof {
                assert(e == entries@[i as int]);
                assert(entries@.take(i + 1) =~= taken.push(e));
            }
            let ghost before = out@;
            match find_project(&out, &e.0) {
                Some(_) => {
                    proof {
                        lemma_named_push_known(before, taken, e);
                    }
                },
                None => {
                    out.push(e);
                    proof {
                        lemma_named_push_new(before, taken, e);
                        assert forall|k: int| 0 <= k < out@.len() implies entries@.contains(
                            #[trigger] out@[k],
                        ) by {
                            if k < before.len() {
                                assert(out@[k] == before[k]);
                            } else {
                                assert(entries@[i as int] == out@[k]);
                            }
                        }
                    }
                },
            }
            i = i + 1;
        }
        proof {
            assert(entries@.take(entries@.len() as int) =~= entries@);
        }
        Config { github_personal_token, heroku_auth_token, projects: out }
    }
}

/// Where the first project named `name` stands, as `project_index` gives it:
/// the first position with that name, or none when no project has it.
pub proof fn lemma_project_index_is_first(projects: Seq<(String, ProjectConfig)>, name: Seq<char>)
    ensures
        match project_index(projects, name) {
            Some(i) => {
                &&& 0 <= i < projects.len()
                &&& projects[i].0@ == name
                &&& forall|j: int| 0 <= j < i ==> projects[j].0@ != name
            },
            None => forall|j: int| 0 <= j < projects.len() ==> projects[j].0@ != name,
        },
{
    lemma_first_from(projects, name, 0);
}

proof fn lemma_first_from(projects: Seq<(String, ProjectConfig)>, name: Seq<char>, k: int)
    requires
        0 <= k <= projects.len(),
        forall|j: int| 0 <= j < k ==> projects[j].0@ != name,
    ensures
        match project_index(projects, name) {
            Some(i) => {
                &&& 0 <= i < projects.len()
                &&& projects[i].0@ == name
                &&& forall|j: int| 0 <= j < i ==> projects[j].0@ != name
            },
            None => forall|j: int| 0 <= j < projects.len() ==> projects[j].0@ != name,
        },
    decreases projects.len() - k,
{
    if k == projects.len() {
        reveal(project_index);
    } else if projects[k].0@ == name {
        lemma_project_index(projects, name, k);
    } else {
        lemma_first_from(projects, name, k + 1);
    }
}

/// `pc` is the entry that writing `data` stores for its project over the
/// global tokens `github_token` and `heroku_token`: a token equal to the
/// global one is left out, every other field is the written one.
pub open spec fn is_stored_entry(
    pc: ProjectConfig,
    github_token: Seq<char>,
    heroku_token: Option<Seq<char>>,
    data: ProjectConfigDto,
) -> bool {
    &&& opt_view(pc.github_personal_token) == if data.github_personal_token@ == github_token {
        None
    } else {
        Some(data.github_personal_token@)
    }
    &&& pc.github_owner@ == data.github_owner@
    &&& pc.github_repo@ == data.github_repo@
    &&& opt_view(pc.github_deployment_environment) == opt_view(data.github_deployment_environment)
    &&& opt_view(pc.github_deployment_branch_name) == opt_view(data.github_deployment_branch_name)
    &&& opt_view(pc.heroku_app_name) == opt_view(data.heroku_app_name)
    &&& opt_view(pc.heroku_auth_token) == if opt_view(data.heroku_auth_token) == heroku_token {
        None
    } else {
        opt_view(data.heroku_auth_token)
    }
    &&& pc.developer_count == data.developer_count
    &&& pc.working_days_per_week_milli == data.working_days_per_week_milli
    &&& pc.deployment_source@ == data.deployment_source@
}

/// The global GitHub token that writing over `loaded` keeps: the loaded one,
/// or the written one when no settings could be loaded.
pub open spec fn base_github_token(loaded: Option<Config>, data: ProjectConfigDto) -> Seq<char> {
    match loaded {
        Some(c) => c.github_personal_token@,
        None => data.github_personal_token@,
    }
}

/// The global Heroku token that writing over `loaded` keeps.
pub open spec fn base_heroku_token(loaded: Option<Config>, data: ProjectConfigDto) -> Option<Seq<char>> {
    match loaded {
        Some(c) => opt_view(c.heroku_auth_token),
        None => opt_view(data.heroku_auth_token),
    }
}

/// The projects that writing over `loaded` starts from.
pub open spec fn base_projects(loaded: Option<Config>) -> Seq<(String, ProjectConfig)> {
    match loaded {
        Some(c) => c.projects@,
        None => Seq::empty(),
    }
}

/// `config` is what writing `data` over the settings `loaded` gives (`None`
/// when no settings could be loaded): the global tokens kept, the project's
/// entry replaced where it stands or added at the end, the other entries kept.
pub open spec fn is_merge_of(config: Config, loaded: Option<Config>, data: ProjectConfigDto) -> bool {
    let gt = base_github_token(loaded, data);
    let ht = base_heroku_token(loaded, data);
    let projects = base_projects(loaded);
    &&& config.github_personal_token@ == gt
    &&& opt_view(config.heroku_auth_token) == ht
    &&& match project_index(projects, data.project_name@) {
        Some(i) => {
            &&& config.projects@.len() == projects.len()
            &&& forall|j: int| 0 <= j < projects.len() && j != i ==> config.projects@[j] == projects[j]
            &&& config.projects@[i].0@ == data.project_name@
            &&& is_stored_entry(config.projects@[i].1, gt, ht, data)
        },
        None => {
            &&& config.projects@.len() == projects.len() + 1
            &&& forall|j: int| 0 <= j < projects.len() ==> config.projects@[j] == projects[j]
            &&& config.projects@[projects.len() as int].0@ == data.project_name@
            &&& is_stored_entry(config.projects@[projects.len() as int].1, gt, ht, data)
        },
    }
}

/// Writes project settings into the settings file.
pub trait ProjectConfigIOWriter {
    /// The settings to store once `data` is written over `loaded`, the
    /// settings that could be loaded (`None` when they could not).
    fn write(&self, loaded: Option<Config>, data: ProjectConfigDto) -> (r: Config)
        ensures
            is_merge_of(r, loaded, data),
    ;
}

/// The writer of the settings file that the tool keeps.
pub struct ProjectConfigIOWriterWithSettingsToml;

impl ProjectConfigIOWriter for ProjectConfigIOWriterWithSettingsToml {
    fn write(&self, loaded: Option<Config>, data: ProjectConfigDto) -> (r: Config) {
        let mut config = match loaded {
            Some(c) => c,
            None => Config {
                github_personal_token: data.github_personal_token.clone(),
                heroku_auth_token: clone_option_string(&data.heroku_auth_token),
                projects: Vec::new(),
            },
        };
        let github_personal_token = if config.github_personal_token == data.github_personal_token {
            None
        } else {
            Some(data.github_personal_token.clone())
        };
        let heroku_auth_token = if option_string_eq(&config.heroku_auth_token, &data.heroku_auth_token) {
            None
        } else {
            clone_option_string(&data.heroku_auth_token)
        };
        let index = find_project(&config.projects, &data.project_name);
        proof {
            lemma_project_index_is_first(config.projects@, data.project_name@);
        }
        let project_config = ProjectConfig {
            github_personal_token,
            github_owner: data.github_owner,
            github_repo: data.github_repo,
            github_deployment_environment: data.github_deployment_environment,
            github_deployment_branch_name: data.github_deployment_branch_name,
            heroku_app_name: data.heroku_app_name,
            heroku_auth_token,
            developer_count: data.developer_count,
            working_days_per_week_milli: data.working_days_per_week_milli,
            deployment_source: data.deployment_source,
        };
        match index {
            Some(i) => {
                config.projects.set(i, (data.project_name, project_config));
            },
            None => {
                config.projects.push((data.project_name, project_config));
            },
        }
        config
    }
}

/// The two settings of a project hold the same values.
pub open spec fn same_dto(a: ProjectConfigDto, b: ProjectConfigDto) -> bool {
    &&& a.project_name@ == b.project_name@
    &&& a.developer_count == b.developer_count
    &&& a.working_days_per_week_milli == b.working_days_per_week_milli
    &&& a.github_personal_token@ == b.github_personal_token@
    &&& a.github_owner@ == b.github_owner@
    &&& a.github_repo@ == b.github_repo@
    &&& opt_view(a.github_deployment_environment) == opt_view(b.github_deployment_environment)
    &&& opt_view(a.github_deployment_branch_name) == opt_view(b.github_deployment_branch_name)
    &&& opt_view(a.heroku_app_name) == opt_view(b.heroku_app_name)
    &&& opt_view(a.heroku_auth_token) == opt_view(b.heroku_auth_token)
    &&& a.deployment_source@ == b.deployment_source@
}

/// After a project's settings are written, the written settings file is
/// where the project stands: the first entry under its name is the written one.
proof fn lemma_written_entry(loaded: Option<Config>, data: ProjectConfigDto, written: Config)
    requires
        is_merge_of(written, loaded, data),
    ensures
        project_named(written.projects@, data.project_name@) matches Some(pc) && is_stored_entry(
            pc,
            base_github_token(loaded, data),
            base_heroku_token(loaded, data),
            data,
        ),
{
    let projects = base_projects(loaded);
    let name = data.project_name@;
    lemma_project_index_is_first(projects, name);
    match project_index(projects, name) {
        Some(i) => {
            assert forall|j: int| 0 <= j < i implies written.projects@[j].0@ != name by {
                assert(written.projects@[j] == projects[j]);
            }
            lemma_project_index(written.projects@, name, i);
        },
        None => {
            let k = projects.len() as int;
            assert forall|j: int| 0 <= j < k implies written.projects@[j].0@ != name by {
                assert(written.projects@[j] == projects[j]);
            }
            lemma_project_index(written.projects@, name, k);
        },
    }
}

/// `d` is what reading back the written settings `data` of deployment source
/// `source` gives, over the global Heroku token `heroku_global`: the written
/// values; the fields that belong to other sources empty; and, for a Heroku
/// project, its own Heroku token, or the global one when it has none.
pub open spec fn reads_back(
    d: ProjectConfigDto,
    data: ProjectConfigDto,
    source: DeploymentSource,
    heroku_global: Option<Seq<char>>,
) -> bool {
    &&& d.project_name@ == data.project_name@
    &&& d.developer_count == data.developer_count
    &&& d.working_days_per_week_milli == data.working_days_per_week_milli
    &&& d.github_personal_token@ == data.github_personal_token@
    &&& d.github_owner@ == data.github_owner@
    &&& d.github_repo@ == data.github_repo@
    &&& opt_view(d.github_deployment_environment) == if source
        == DeploymentSource::GitHubDeployment {
        opt_view(data.github_deployment_environment)
    } else {
        None
    }
    &&& opt_view(d.github_deployment_branch_name) == if source
        == DeploymentSource::GitHubPullRequest {
        opt_view(data.github_deployment_branch_name)
    } else {
        None
    }
    &&& opt_view(d.heroku_app_name) == if source == DeploymentSource::HerokuRelease {
        opt_view(data.heroku_app_name)
    } else {
        None
    }
    &&& opt_view(d.heroku_auth_token) == if source == DeploymentSource::HerokuRelease {
        match opt_view(data.heroku_auth_token) {
            Some(t) => Some(t),
            None => heroku_global,
        }
    } else {
        None
    }
    &&& d.deployment_source@ == data.deployment_source@
}

/// Reading a project right after writing its settings, of a known deployment
/// source, gives those settings back: the fields of the other sources come
/// back empty, and a Heroku project written without a token of its own reads
/// the global Heroku token.
pub proof fn lemma_read_after_write(
    loaded: Option<Config>,
    data: ProjectConfigDto,
    written: Config,
    read: Result<ProjectConfigDto, ProjectConfigIOReaderError>,
    source: DeploymentSource,
)
    requires
        is_merge_of(written, loaded, data),
        is_read_of(read, written, data.project_name@),
        data.deployment_source@ == source_name(source),
    ensures
        read matches Ok(d) && reads_back(d, data, source, base_heroku_token(loaded, data)),
{
    lemma_written_entry(loaded, data, written);
    lemma_source_names_round_trip(source);
}

/// Reading a project right after writing its settings gives exactly those
/// settings back, when they leave empty the fields of the other sources and a
/// Heroku project without a token of its own is written where there is no
/// global Heroku token.
pub proof fn lemma_read_after_write_exact(
    loaded: Option<Config>,
    data: ProjectConfigDto,
    written: Config,
    read: Result<ProjectConfigDto, ProjectConfigIOReaderError>,
    source: DeploymentSource,
)
    requires
        is_merge_of(written, loaded, data),
        is_read_of(read, written, data.project_name@),
        data.deployment_source@ == source_name(source),
        source != DeploymentSource::GitHubDeployment ==> data.github_deployment_environment is None,
        source != DeploymentSource::GitHubPullRequest ==> data.github_deployment_branch_name is None,
        source != DeploymentSource::HerokuRelease ==> data.heroku_app_name is None
            && data.heroku_auth_token is None,
        data.heroku_auth_token is None ==> base_heroku_token(loaded, data) is None,
    ensures
        read matches Ok(d) && same_dto(d, data),
{
    lemma_read_after_write(loaded, data, written, read, source);
}

/// Writing a project's settings keeps the project names of the settings file
/// distinct.
pub proof fn lemma_write_keeps_names_unique(loaded: Option<Config>, data: ProjectConfigDto, written: Config)
    requires
        is_merge_of(written, loaded, data),
        unique_names(base_projects(loaded)),
    ensures
        unique_names(written.projects@),
{
    let projects = base_projects(loaded);
    let name = data.project_name@;
    lemma_project_index_is_first(projects, name);
    match project_index(projects, name) {
        Some(i) => {
            assert forall|a: int, b: int|
                0 <= a < written.projects@.len() && 0 <= b < written.projects@.len() && a
                    != b implies written.projects@[a].0@ != written.projects@[b].0@ by {
                if a != i {
                    assert(written.projects@[a] == projects[a]);
                }
                if b != i {
                    assert(written.projects@[b] == projects[b]);
                }
            }
        },
        None => {
            let k = projects.len() as int;
            assert forall|a: int, b: int|
                0 <= a < written.projects@.len() && 0 <= b < written.projects@.len() && a
                    != b implies written.projects@[a].0@ != written.projects@[b].0@ by {
                if a != k {
                    assert(written.projects@[a] == projects[a]);
                }
                if b != k {
                    assert(written.projects@[b] == projects[b]);
                }
            }
        },
    }
}

} // verus!
