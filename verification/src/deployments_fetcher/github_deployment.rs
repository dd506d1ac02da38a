//! Deployments recorded as GitHub deployments: the GraphQL query that lists
//! them, the answer's shape, which deployments count, and how they become
//! deployment records.

use vstd::prelude::*;
use crate::commit::Commit;
use crate::datetime::{DateTimeRange, DateTimeUtc};
use crate::text::{after_clause, after_clause_text, str_uppercase, uppercase_equals};
use super::{empty_list_text, BaseCommitShaOrRepositoryInfo, DeploymentInfo, DeploymentLog, DeploymentsFetcherError};

verus! {

broadcast use {vstd::seq_lib::group_seq_properties, vstd::seq_lib::group_filter_ensures};

pub const DEPLOYMENTS_QUERY_HEAD: &'static str = "\n        query {\n            repository_owner: repositoryOwner(login: \"";

pub const DEPLOYMENTS_QUERY_AFTER_OWNER: &'static str = "\") {\n                repository(name: \"";

pub const DEPLOYMENTS_QUERY_AFTER_REPO: &'static str = "\") {\n                    deployments(first: 100, environments: [\"";

pub const DEPLOYMENTS_QUERY_AFTER_ENVIRONMENT: &'static str = "\"], orderBy: {field: CREATED_AT, direction: DESC}";

pub const DEPLOYMENTS_QUERY_TAIL: &'static str = ") {\n                        nodes {\n                            id\n                            commit {\n                                id\n                                sha: oid\n                                message\n                                commit_resource_path: commitResourcePath\n                                committed_date: committedDate\n                            }\n                            task\n                            environment\n                            original_environment: originalEnvironment\n                            description\n                            created_at: createdAt\n                            updated_at: updatedAt\n                            creator {\n                                login\n                            }\n                            statuses(first: 20) {\n                                nodes {\n                                    id\n                                    state\n                                    description\n                                    environment_url: environmentUrl\n                                    log_url: logUrl\n                                    created_at: createdAt\n                                    updated_at: updatedAt\n                                    creator {\n                                        login\n                                    }\n                                }\n                                page_info: pageInfo {\n                                    end_cursor: endCursor\n                                    has_next_page: hasNextPage\n                                }\n                            }\n                        }\n                        page_info: pageInfo {\n                            end_cursor: endCursor\n                            has_next_page: hasNextPage\n                        }\n                    }\n                }\n            }\n        }\n    ";

/// The GraphQL query for the (up to 100) deployments of `owner/repo` to
/// `environment`, newest first, after the page cursor `after` if any.
pub open spec fn deployments_query_text(
    owner: Seq<char>,
    repo: Seq<char>,
    environment: Seq<char>,
    after: Option<Seq<char>>,
) -> Seq<char> {
    DEPLOYMENTS_QUERY_HEAD@ + owner + DEPLOYMENTS_QUERY_AFTER_OWNER@ + repo
        + DEPLOYMENTS_QUERY_AFTER_REPO@ + environment + DEPLOYMENTS_QUERY_AFTER_ENVIRONMENT@
        + after_clause(after) + DEPLOYMENTS_QUERY_TAIL@
}

/// Builds the GraphQL query for the deployments of `owner/repo` to `environment`.
pub fn deployments_query(owner: &str, repo: &str, environment: &str, after: Option<String>) -> (r:
    String)
    ensures
        r@ == deployments_query_text(
            owner@,
            repo@,
            environment@,
            match after {
                Some(c) => Some(c@),
                None => None,
            },
        ),
{
    let mut q = DEPLOYMENTS_QUERY_HEAD.to_owned();
    q.append(owner);
    q.append(DEPLOYMENTS_QUERY_AFTER_OWNER);
    q.append(repo);
    q.append(DEPLOYMENTS_QUERY_AFTER_REPO);
    q.append(environment);
    q.append(DEPLOYMENTS_QUERY_AFTER_ENVIRONMENT);
    let clause = after_clause_text(after);
    q.append(clause.as_str());
    q.append(DEPLOYMENTS_QUERY_TAIL);
    q
}

/// The commit of a deployment.
#[derive(Debug, PartialEq, Eq)]
pub struct DeploymentsCommitGraphQLResponse {
    pub id: String,
    pub sha: String,
    pub message: String,
    pub commit_resource_path: String,
    pub committed_date: DateTimeUtc,
}

/// A page cursor and whether more pages follow.
#[derive(Debug, PartialEq, Eq)]
pub struct DeploymentsPageInfoGraphQLResponse {
    pub end_cursor: Option<String>,
    pub has_next_page: bool,
}

/// Who created a deployment or a status.
#[derive(Debug, PartialEq, Eq)]
pub struct DeploymentsCreatorGraphQLResponse {
    pub login: String,
}

/// A status of a deployment.
#[derive(Debug, PartialEq, Eq)]
pub struct DeploymentsDeploymentsStatusNodeGraphQLResponse {
    pub id: String,
    pub state: String,
    pub description: Option<String>,
    pub created_at: DateTimeUtc,
    pub updated_at: DateTimeUtc,
    pub environment_url: Option<String>,
    pub log_url: Option<String>,
    pub creator: DeploymentsCreatorGraphQLResponse,
}

/// The statuses of a deployment.
#[derive(Debug, PartialEq, Eq)]
pub struct DeploymentsDeploymentsStatusesGraphQLResponse {
    pub nodes: Vec<DeploymentsDeploymentsStatusNodeGraphQLResponse>,
    pub page_info: DeploymentsPageInfoGraphQLResponse,
}

/// A deployment as the GraphQL API lists it.
#[derive(Debug, PartialEq, Eq)]
pub struct DeploymentsDeploymentsNodeGraphQLResponse {
    pub id: String,
    pub commit: DeploymentsCommitGraphQLResponse,
    pub task: String,
    pub environment: String,
    pub description: Option<String>,
    pub original_environment: String,
    pub created_at: DateTimeUtc,
    pub updated_at: DateTimeUtc,
    pub creator: DeploymentsCreatorGraphQLResponse,
    pub statuses: DeploymentsDeploymentsStatusesGraphQLResponse,
}

/// A status counts as succeeded when its state, upper-cased, is `SUCCESS`.
pub open spec fn is_success_status() -> spec_fn(DeploymentsDeploymentsStatusNodeGraphQLResponse) -> bool {
    |s: DeploymentsDeploymentsStatusNodeGraphQLResponse| str_uppercase(s.state@) == "SUCCESS"@
}

/// The succeeded statuses of a deployment, in the listed order.
pub open spec fn succeeded_statuses_of(node: DeploymentsDeploymentsNodeGraphQLResponse) -> Seq<
    DeploymentsDeploymentsStatusNodeGraphQLResponse,
> {
    node.statuses.nodes@.filter(is_success_status())
}

/// When a deployment took effect: the creation time of its first succeeded
/// status, or the deployment's own creation time when none succeeded.
pub open spec fn deployed_at_of(node: DeploymentsDeploymentsNodeGraphQLResponse) -> DateTimeUtc {
    if succeeded_statuses_of(node).len() > 0 {
        succeeded_statuses_of(node)[0].created_at
    } else {
        node.created_at
    }
}

/// Positions of the succeeded statuses of a deployment, in order.
pub fn succeeded_status_indices(deployment_node: &DeploymentsDeploymentsNodeGraphQLResponse) -> (r:
    Vec<usize>)
    ensures
        r@.len() == succeeded_statuses_of(*deployment_node).len(),
        forall|i: int|
            0 <= i < r@.len() ==> #[trigger] r@[i] < deployment_node.statuses.nodes@.len()
                && deployment_node.statuses.nodes@[r@[i] as int] == succeeded_statuses_of(
                *deployment_node,
            )[i],
{
    let statuses = &deployment_node.statuses.nodes;
    let ghost all = statuses@;
    let mut out: Vec<usize> = Vec::new();
    let mut i: usize = 0;
    proof {
        reveal(Seq::filter);
        assert(all.take(0) =~= Seq::<DeploymentsDeploymentsStatusNodeGraphQLResponse>::empty());
    }
    while i < statuses.len()
        invariant
            all == statuses@,
            i <= all.len(),
            out@.len() == all.take(i as int).filter(is_success_status()).len(),
            forall|j: int|
                0 <= j < out@.len() ==> #[trigger] out@[j] < all.len() && all[out@[j] as int]
                    == all.take(i as int).filter(is_success_status())[j],
        decreases all.len() - i,
    {
        proof {
            assert(all.take(i + 1) =~= all.take(i as int).push(all[i as int]));
            assert(all.take(i + 1).drop_last() =~= all.take(i as int));
            reveal(Seq::filter);
        }
        if uppercase_equals(statuses[i].state.as_str(), "SUCCESS") {
            out.push(i);
        }
        i = i + 1;
    }
    proof {
        assert(all.take(all.len() as int) =~= all);
    }
    out
}

/// Whether a deployment has a succeeded status.
pub fn has_succeeded_status(deployment_node: &DeploymentsDeploymentsNodeGraphQLResponse) -> (r: bool)
    ensures
        r == (succeeded_statuses_of(*deployment_node).len() > 0),
{
    let idx = succeeded_status_indices(deployment_node);
    idx.len() > 0
}

/// When a deployment took effect: the creation time of its first succeeded
/// status, else its own creation time.
pub fn get_deployed_at(deployment_node: &DeploymentsDeploymentsNodeGraphQLResponse) -> (r: DateTimeUtc)
    ensures
        r == deployed_at_of(*deployment_node),
{
    let idx = succeeded_status_indices(deployment_node);
    if idx.len() > 0 {
        deployment_node.statuses.nodes[idx[0]].created_at
    } else {
        deployment_node.created_at
    }
}

/// The deployments of a node list that have a succeeded status.
pub open spec fn has_success() -> spec_fn(DeploymentsDeploymentsNodeGraphQLResponse) -> bool {
    |n: DeploymentsDeploymentsNodeGraphQLResponse| succeeded_statuses_of(n).len() > 0
}

/// The predicate "took effect within `timeframe`".
pub open spec fn deployed_within(timeframe: DateTimeRange) -> spec_fn(
    DeploymentsDeploymentsNodeGraphQLResponse,
) -> bool {
    |n: DeploymentsDeploymentsNodeGraphQLResponse| timeframe.includes(deployed_at_of(n))
}

/// The predicate "took effect before `timeframe` starts".
pub open spec fn deployed_before(timeframe: DateTimeRange) -> spec_fn(
    DeploymentsDeploymentsNodeGraphQLResponse,
) -> bool {
    |n: DeploymentsDeploymentsNodeGraphQLResponse|
        deployed_at_of(n).secs() < timeframe.since_spec().secs()
}

/// One page of deployments: those with a succeeded status, the cursor of the
/// page and whether more pages follow.
pub struct FetchResult {
    pub data: Vec<DeploymentsDeploymentsNodeGraphQLResponse>,
    pub after: Option<String>,
    pub has_next_page: bool,
}

/// Keeps the deployments of a page that have a succeeded status, in order,
/// with the page's cursor and next-page flag.
pub fn succeeded_page(
    nodes: Vec<DeploymentsDeploymentsNodeGraphQLResponse>,
    page_info: DeploymentsPageInfoGraphQLResponse,
) -> (r: FetchResult)
    ensures
        r.data@ == nodes@.filter(has_success()),
        r.after == page_info.end_cursor,
        r.has_next_page == page_info.has_next_page,
{
    let ghost orig = nodes@;
    let mut rest = nodes;
    let mut out: Vec<DeploymentsDeploymentsNodeGraphQLResponse> = Vec::new();
    proof {
        reveal(Seq::filter);
        assert(orig.take(0) =~= Seq::<DeploymentsDeploymentsNodeGraphQLResponse>::empty());
    }
    while rest.len() > 0
        invariant
            0 <= orig.len() - rest@.len() <= orig.len(),
            rest@ == orig.skip(orig.len() - rest@.len()),
            out@ == orig.take(orig.len() - rest@.len()).filter(has_success()),
        decreases rest@.len(),
    {
        let ghost done = orig.len() - rest@.len();
        let node = rest.remove(0);
        proof {
            assert(node == orig[done]);
            assert(rest@ =~= orig.skip(done + 1));
            assert(orig.take(done + 1) =~= orig.take(done).push(node));
            assert(orig.take(done + 1).drop_last() =~= orig.take(done));
            reveal(Seq::filter);
        }
        if has_succeeded_status(&node) {
            out.push(node);
        }
    }
    proof {
        assert(orig.take(orig.len() as int) =~= orig);
    }
    FetchResult { data: out, after: page_info.end_cursor, has_next_page: page_info.has_next_page }
}

/// Splits deployments by `timeframe`: the last of those that took effect
/// before the timeframe, and, in order, those that took effect within it.
pub fn slice_deployment_nodes(
    nodes: Vec<DeploymentsDeploymentsNodeGraphQLResponse>,
    timeframe: &DateTimeRange,
) -> (r: (
    Option<DeploymentsDeploymentsNodeGraphQLResponse>,
    Vec<DeploymentsDeploymentsNodeGraphQLResponse>,
))
    ensures
        r.1@ == nodes@.filter(deployed_within(*timeframe)),
        forall|i: int|
            0 <= i < r.1@.len() ==> timeframe.since_spec().secs() <= #[trigger] deployed_at_of(
                r.1@[i],
            ).secs() <= timeframe.until_spec().secs(),
        forall|i: int|
            #![trigger nodes@[i]]
            0 <= i < nodes@.len() && timeframe.since_spec().secs() <= deployed_at_of(nodes@[i]).secs()
                <= timeframe.until_spec().secs() ==> r.1@.contains(nodes@[i]),
        r.0 == (if nodes@.filter(deployed_before(*timeframe)).len() > 0 {
            Some(nodes@.filter(deployed_before(*timeframe)).last())
        } else {
            None
        }),
{
    let ghost orig = nodes@;
    let ghost tf = *timeframe;
    let mut rest = nodes;
    let mut ranged: Vec<DeploymentsDeploymentsNodeGraphQLResponse> = Vec::new();
    let mut last: Option<DeploymentsDeploymentsNodeGraphQLResponse> = None;
    let since = timeframe.get_since();
    proof {
        reveal(Seq::filter);
        assert(orig.take(0) =~= Seq::<DeploymentsDeploymentsNodeGraphQLResponse>::empty());
    }
    while rest.len() > 0
        invariant
            tf == *timeframe,
            since == tf.since_spec(),
            0 <= orig.len() - rest@.len() <= orig.len(),
            rest@ == orig.skip(orig.len() - rest@.len()),
            ranged@ == orig.take(orig.len() - rest@.len()).filter(deployed_within(tf)),
            last == (if orig.take(orig.len() - rest@.len()).filter(deployed_before(tf)).len() > 0 {
                Some(orig.take(orig.len() - rest@.len()).filter(deployed_before(tf)).last())
            } else {
                None
            }),
        decreases rest@.len(),
    {
        let ghost done = orig.len() - rest@.len();
        let node = rest.remove(0);
        proof {
            assert(node == orig[done]);
            assert(rest@ =~= orig.skip(done + 1));
            assert(orig.take(done + 1) =~= orig.take(done).push(node));
            assert(orig.take(done + 1).drop_last() =~= orig.take(done));
            reveal(Seq::filter);
        }
        let deployed_at = get_deployed_at(&node);
        if timeframe.is_include(&deployed_at) {
            ranged.push(node);
        } else if deployed_at.timestamp() < since.timestamp() {
            last = Some(node);
        }
    }
    proof {
        assert(orig.take(orig.len() as int) =~= orig);
        lemma_kept_deployments_within(orig, tf);
    }
    (last, ranged)
}

/// Every deployment kept for a timeframe took effect within it, both ends
/// included (`since <= deployed_at <= until`); every deployment that took
/// effect within it is kept, and none that took effect before `since` or after
/// `until` is.
pub proof fn lemma_kept_deployments_within(
    nodes: Seq<DeploymentsDeploymentsNodeGraphQLResponse>,
    timeframe: DateTimeRange,
)
    ensures
        forall|i: int|
            0 <= i < nodes.filter(deployed_within(timeframe)).len()
                ==> timeframe.since_spec().secs() <= #[trigger] deployed_at_of(
                nodes.filter(deployed_within(timeframe))[i],
            ).secs() <= timeframe.until_spec().secs(),
        forall|i: int|
            #![trigger nodes[i]]
            0 <= i < nodes.len() ==> (nodes.filter(deployed_within(timeframe)).contains(nodes[i])
                <==> timeframe.since_spec().secs() <= deployed_at_of(nodes[i]).secs()
                <= timeframe.until_spec().secs()),
{
    let kept = nodes.filter(deployed_within(timeframe));
    assert forall|i: int| #![trigger nodes[i]] 0 <= i < nodes.len() && kept.contains(nodes[i])
        implies timeframe.since_spec().secs() <= deployed_at_of(nodes[i]).secs()
        <= timeframe.until_spec().secs() by {
        let j = choose|j: int| 0 <= j < kept.len() && kept[j] == nodes[i];
        assert(deployed_within(timeframe)(kept[j]));
    }
}

/// The deployment record of a listed deployment whose changes start at `base`.
pub open spec fn node_log(
    node: DeploymentsDeploymentsNodeGraphQLResponse,
    base: BaseCommitShaOrRepositoryInfo,
) -> DeploymentLog {
    DeploymentLog {
        info: DeploymentInfo::GithubDeployment { id: node.id },
        head_commit: Commit {
            sha: node.commit.sha,
            message: node.commit.message,
            resource_path: node.commit.commit_resource_path,
            committed_at: node.commit.committed_date,
            creator_login: node.creator.login,
        },
        base,
        creator_login: node.creator.login,
        deployed_at: deployed_at_of(node),
    }
}

/// Where the changes of the `i`-th listed deployment start: `first` for the
/// first one, else the commit of the deployment listed just before it.
pub open spec fn chained_base(
    first: BaseCommitShaOrRepositoryInfo,
    nodes: Seq<DeploymentsDeploymentsNodeGraphQLResponse>,
    i: int,
) -> BaseCommitShaOrRepositoryInfo {
    if i == 0 {
        first
    } else {
        BaseCommitShaOrRepositoryInfo::BaseCommitSha(nodes[i - 1].commit.sha)
    }
}

/// Turns listed deployments into deployment records, in order; each record's
/// changes start at the commit of the record before it, the first at `first_item`.
pub fn collect_to_logs(
    first_item: BaseCommitShaOrRepositoryInfo,
    deployment_nodes: Vec<DeploymentsDeploymentsNodeGraphQLResponse>,
) -> (r: Vec<DeploymentLog>)
    ensures
        r@.len() == deployment_nodes@.len(),
        forall|i: int|
            0 <= i < r@.len() ==> #[trigger] r@[i] == node_log(
                deployment_nodes@[i],
                chained_base(first_item, deployment_nodes@, i),
            ),
{
    let ghost orig = deployment_nodes@;
    let mut rest = deployment_nodes;
    let mut out: Vec<DeploymentLog> = Vec::new();
    let mut previous = first_item;
    while rest.len() > 0
        invariant
            0 <= orig.len() - rest@.len() <= orig.len(),
            rest@ == orig.skip(orig.len() - rest@.len()),
            out@.len() == orig.len() - rest@.len(),
            previous == chained_base(first_item, orig, out@.len() as int),
            forall|i: int|
                0 <= i < out@.len() ==> #[trigger] out@[i] == node_log(
                    orig[i],
                    chained_base(first_item, orig, i),
                ),
        decreases rest@.len(),
    {
        let ghost done = orig.len() - rest@.len();
        let node = rest.remove(0);
        proof {
            assert(node == orig[done]);
            assert(rest@ =~= orig.skip(done + 1));
        }
        let deployed_at = get_deployed_at(&node);
        let next_base = BaseCommitShaOrRepositoryInfo::BaseCommitSha(node.commit.sha.clone());
        let login = node.creator.login;
        let log = DeploymentLog {
            info: DeploymentInfo::GithubDeployment { id: node.id },
            head_commit: Commit {
                sha: node.commit.sha,
                message: node.commit.message,
                resource_path: node.commit.commit_resource_path,
                committed_at: node.commit.committed_date,
                creator_login: login.clone(),
            },
            base: previous,
            creator_login: login,
            deployed_at,
        };
        out.push(log);
        previous = next_base;
    }
    out
}

/// What to do after a page of deployments was taken in.
#[derive(Debug, PartialEq, Eq)]
pub enum PageOutcome {
    /// A deployment before the timeframe was seen: stop fetching.
    Stop,
    /// The last page was taken in: fetch when the repository was created.
    NeedRepositoryCreatedAt,
    /// Fetch the next page.
    Continue,
}

/// The state of fetching GitHub deployments page by page.
pub struct GithubDeploymentsCollector {
    /// Deployments within the timeframe seen so far, newest first.
    pub nodes: Vec<DeploymentsDeploymentsNodeGraphQLResponse>,
    /// Cursor of the last page taken in.
    pub after: Option<String>,
    /// Whether a page follows the last one taken in.
    pub has_next_page: bool,
    /// Whether fetching ended before the last page.
    pub stopped: bool,
    /// Where the changes of the newest deployment start, once known.
    pub base: Option<BaseCommitShaOrRepositoryInfo>,
}

impl GithubDeploymentsCollector {
    /// Nothing fetched yet; the first page is to be fetched.
    pub fn new() -> (r: Self)
        ensures
            r.nodes@.len() == 0,
            r.after is None,
            r.has_next_page,
            !r.stopped,
            r.base is None,
    {
        GithubDeploymentsCollector {
            nodes: Vec::new(),
            after: None,
            has_next_page: true,
            stopped: false,
            base: None,
        }
    }

    /// The cursor to fetch the next page after (`Some(None)` for the first
    /// page), or `None` when fetching is over.
    pub fn next_request(&self) -> (r: Option<Option<String>>)
        ensures
            r is Some <==> (self.has_next_page && !self.stopped),
            r matches Some(a) ==> a == self.after,
    {
        if self.has_next_page && !self.stopped {
            match &self.after {
                Some(c) => Some(Some(c.clone())),
                None => Some(None),
            }
        } else {
            None
        }
    }

    /// Takes in a fetched page: keeps, in order, the deployments seen so far
    /// and those of the page that lie within `timeframe`, remembers the page's
    /// cursor, and says what to do next.
    pub fn absorb_page(&mut self, page: FetchResult, timeframe: &DateTimeRange) -> (r: PageOutcome)
        ensures
            final(self).nodes@ == (old(self).nodes@ + page.data@).filter(
                deployed_within(*timeframe),
            ),
            forall|i: int|
                0 <= i < final(self).nodes@.len() ==> timeframe.since_spec().secs()
                    <= #[trigger] deployed_at_of(final(self).nodes@[i]).secs()
                    <= timeframe.until_spec().secs(),
            forall|i: int|
                #![trigger page.data@[i]]
                0 <= i < page.data@.len() && timeframe.since_spec().secs() <= deployed_at_of(
                    page.data@[i],
                ).secs() <= timeframe.until_spec().secs() ==> final(self).nodes@.contains(
                    page.data@[i],
                ),
            final(self).after == page.after,
            final(self).has_next_page == page.has_next_page,
            final(self).base == old(self).base,
            (r == PageOutcome::Stop) == ((old(self).nodes@ + page.data@).filter(
                deployed_before(*timeframe),
            ).len() > 0),
            final(self).stopped == (old(self).stopped || r == PageOutcome::Stop),
            (r == PageOutcome::NeedRepositoryCreatedAt) == (r != PageOutcome::Stop
                && !page.has_next_page),
    {
        let mut all: Vec<DeploymentsDeploymentsNodeGraphQLResponse> = Vec::new();
        std::mem::swap(&mut all, &mut self.nodes);
        let mut data = page.data;
        let ghost prior = all@;
        all.append(&mut data);
        proof {
            assert forall|i: int| 0 <= i < page.data@.len() implies #[trigger] all@[prior.len()
                + i] == page.data@[i] by {}
        }
        let (last_before_since, nodes) = slice_deployment_nodes(all, timeframe);
        self.nodes = nodes;
        self.after = page.after;
        self.has_next_page = page.has_next_page;
        if last_before_since.is_some() {
            self.stopped = true;
            PageOutcome::Stop
        } else if !page.has_next_page {
            PageOutcome::NeedRepositoryCreatedAt
        } else {
            PageOutcome::Continue
        }
    }

    /// Fetching a page failed: fetching is over.
    pub fn page_failed(&mut self)
        ensures
            final(self).stopped,
            final(self).nodes == old(self).nodes,
            final(self).base == old(self).base,
    {
        self.stopped = true;
    }

    /// Records when the repository was created, where the changes of the
    /// newest deployment start.
    pub fn set_repository_created_at(&mut self, created_at: DateTimeUtc)
        ensures
            final(self).base == Some(BaseCommitShaOrRepositoryInfo::RepositoryCreatedAt(created_at)),
            final(self).nodes == old(self).nodes,
            final(self).stopped == old(self).stopped,
            final(self).has_next_page == old(self).has_next_page,
    {
        self.base = Some(BaseCommitShaOrRepositoryInfo::RepositoryCreatedAt(created_at));
    }

    /// The deployment records of the deployments kept, or an error when the
    /// start of the changes was never learnt.
    pub fn finish(self) -> (r: Result<Vec<DeploymentLog>, DeploymentsFetcherError>)
        ensures
            r is Ok <==> self.base is Some,
            r matches Ok(logs) ==> logs@.len() == self.nodes@.len() && forall|i: int|
                0 <= i < logs@.len() ==> #[trigger] logs@[i] == node_log(
                    self.nodes@[i],
                    chained_base(self.base->0, self.nodes@, i),
                ),
            r matches Err(e) ==> e matches DeploymentsFetcherError::DeploymentsFetcherResultIsEmptyList(
                m,
            ) && m@ == empty_list_text(),
    {
        match self.base {
            Some(base) => Ok(collect_to_logs(base, self.nodes)),
            None => Err(
                DeploymentsFetcherError::DeploymentsFetcherResultIsEmptyList(
                    "Deployments fetcher result is empty list".to_owned(),
                ),
            ),
        }
    }
}

/// The deployments of one repository to one environment, as GitHub records them.
pub struct DeploymentsFetcherWithGithubDeployment {
    pub github_personal_token: String,
    pub github_owner: String,
    pub github_repo: String,
    pub environment: String,
}

impl DeploymentsFetcherWithGithubDeployment {
    /// The query for the page of deployments after the cursor `after`.
    pub fn query(&self, after: Option<String>) -> (r: String)
        ensures
            r@ == deployments_query_text(
                self.github_owner@,
                self.github_repo@,
                self.environment@,
                match after {
                    Some(c) => Some(c@),
                    None => None,
                },
            ),
    {
        deployments_query(
            self.github_owner.as_str(),
            self.github_repo.as_str(),
            self.environment.as_str(),
            after,
        )
    }
}

} // verus!
