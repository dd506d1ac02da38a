//! Deployments recorded as merged pull requests: the GraphQL query that lists
//! merged pull requests, which of them count as deployments, and how they
//! become deployment records.

use vstd::prelude::*;
use crate::commit::Commit;
use crate::datetime::{DateTimeRange, DateTimeUtc};
use crate::text::{after_clause, after_clause_text};
use crate::wildcard::{wild_match, wildcard_matches};
use super::{BaseCommitShaOrRepositoryInfo, DeploymentInfo, DeploymentLog};

verus! {

broadcast use {vstd::seq_lib::group_seq_properties, vstd::seq_lib::group_filter_ensures};

pub const MERGED_PULLS_QUERY_HEAD: &'static str = "\n        query {\n          repository_owner: repositoryOwner(login: \"";

pub const MERGED_PULLS_QUERY_AFTER_OWNER: &'static str = "\") {\n            repository(name: \"";

pub const MERGED_PULLS_QUERY_AFTER_REPO: &'static str = "\") {\n              pulls: pullRequests(first: 100, states: [MERGED], orderBy: {field: CREATED_AT, direction: DESC}";

pub const MERGED_PULLS_QUERY_TAIL: &'static str = ") {\n                nodes {\n                  id\n                  number\n                  title\n                  base_ref: baseRef {\n                    id\n                    name\n                  }\n                  merged_by: mergedBy {\n                    login\n                  }\n                  merged_at: mergedAt\n                  merge_commit: mergeCommit {\n                    id\n                    sha: oid\n                    message\n                    resource_path: resourcePath\n                    committed_date: committedDate\n                    author {\n                      user {\n                        login\n                      }\n                    }\n                  }\n                  base_commit_sha: baseRefOid\n                }\n                page_info: pageInfo {\n                  end_cursor: endCursor\n                  has_next_page: hasNextPage\n                }\n              }\n            }\n          }\n        }\n    ";

/// The GraphQL query for the (up to 100) merged pull requests of
/// `owner/repo`, newest first, after the page cursor `after` if any.
pub open spec fn merged_pulls_query_text(owner: Seq<char>, repo: Seq<char>, after: Option<Seq<char>>) -> Seq<char> {
    MERGED_PULLS_QUERY_HEAD@ + owner + MERGED_PULLS_QUERY_AFTER_OWNER@ + repo
        + MERGED_PULLS_QUERY_AFTER_REPO@ + after_clause(after) + MERGED_PULLS_QUERY_TAIL@
}

/// Builds the GraphQL query for the merged pull requests of `owner/repo`.
pub fn merged_pulls_query(owner: &str, repo: &str, after: Option<String>) -> (r: String)
    ensures
        r@ == merged_pulls_query_text(
            owner@,
            repo@,
            match after {
                Some(c) => Some(c@),
                None => None,
            },
        ),
{
    let mut q = MERGED_PULLS_QUERY_HEAD.to_owned();
    q.append(owner);
    q.append(MERGED_PULLS_QUERY_AFTER_OWNER);
    q.append(repo);
    q.append(MERGED_PULLS_QUERY_AFTER_REPO);
    let clause = after_clause_text(after);
    q.append(clause.as_str());
    q.append(MERGED_PULLS_QUERY_TAIL);
    q
}

/// The branch a pull request was merged into.
#[derive(Debug, PartialEq, Eq)]
pub struct MergedPullsBaseRef {
    pub id: String,
    pub name: String,
}

/// A user.
#[derive(Debug, PartialEq, Eq)]
pub struct MergedPullsUser {
    pub login: String,
}

/// The author of a commit, with the user if the author is one.
#[derive(Debug, PartialEq, Eq)]
pub struct MergedPullsCommitAuthor {
    pub user: Option<MergedPullsUser>,
}

/// A commit.
#[derive(Debug, PartialEq, Eq)]
pub struct MergedPullsCommit {
    pub id: String,
    pub sha: String,
    pub message: String,
    pub resource_path: String,
    pub committed_date: DateTimeUtc,
    pub author: Option<MergedPullsCommitAuthor>,
}

/// A page cursor and whether more pages follow.
#[derive(Debug, PartialEq, Eq)]
pub struct MergedPullsPageInfo {
    pub end_cursor: Option<String>,
    pub has_next_page: bool,
}

/// A merged pull request as the GraphQL API lists it.
#[derive(Debug, PartialEq, Eq)]
pub struct MergedPullsPullsNode {
    pub id: String,
    pub number: u64,
    pub title: String,
    pub base_ref: Option<MergedPullsBaseRef>,
    pub merged_by: Option<MergedPullsUser>,
    pub merged_at: Option<DateTimeUtc>,
    pub merge_commit: Option<MergedPullsCommit>,
    pub base_commit_sha: String,
}

/// A pull request counts as a deployment when it was merged into a branch
/// that `branch_pattern` matches, within `timeframe`.
pub open spec fn is_deployment_pull(branch_pattern: Seq<char>, timeframe: DateTimeRange) -> spec_fn(
    MergedPullsPullsNode,
) -> bool {
    |n: MergedPullsPullsNode|
        {
            &&& n.base_ref matches Some(b) && wildcard_matches(branch_pattern, b.name@)
            &&& n.merged_at matches Some(t) && timeframe.includes(t)
        }
}

/// Whether a pull request counts as a deployment: merged into a branch that
/// `branch_pattern` matches, within `timeframe`.
pub fn is_deployment_pull_request(
    node: &MergedPullsPullsNode,
    branch_pattern: &str,
    timeframe: &DateTimeRange,
) -> (r: bool)
    ensures
        r == is_deployment_pull(branch_pattern@, *timeframe)(*node),
        r == (node.base_ref is Some && wildcard_matches(branch_pattern@, node.base_ref->0.name@)
            && node.merged_at is Some && timeframe.since_spec().secs() <= node.merged_at->0.secs()
            <= timeframe.until_spec().secs()),
{
    let branch_ok = match &node.base_ref {
        Some(base_ref) => wild_match(branch_pattern, base_ref.name.as_str()),
        None => false,
    };
    branch_ok && match &node.merged_at {
        Some(merged_at) => timeframe.is_include(merged_at),
        None => false,
    }
}

/// A pull request counts as a deployment only when it was merged into a
/// branch that the pattern matches and its merge time lies within the
/// timeframe, both ends included (`since <= merged_at <= until`): one merged
/// after `until`, or before `since`, or never merged, is never kept.
pub proof fn lemma_deployment_pulls_merged_within(
    nodes: Seq<MergedPullsPullsNode>,
    branch_pattern: Seq<char>,
    timeframe: DateTimeRange,
)
    ensures
        forall|i: int|
            0 <= i < nodes.filter(is_deployment_pull(branch_pattern, timeframe)).len() ==> (
            #[trigger] nodes.filter(is_deployment_pull(branch_pattern, timeframe))[i]).merged_at is Some
                && timeframe.since_spec().secs() <= nodes.filter(
                is_deployment_pull(branch_pattern, timeframe),
            )[i].merged_at->0.secs() <= timeframe.until_spec().secs(),
        forall|i: int|
            #![trigger nodes[i]]
            0 <= i < nodes.len() ==> (nodes.filter(is_deployment_pull(branch_pattern, timeframe)).contains(
                nodes[i],
            ) <==> (nodes[i].base_ref is Some && wildcard_matches(branch_pattern, nodes[i].base_ref->0.name@)
                && nodes[i].merged_at is Some && timeframe.since_spec().secs()
                <= nodes[i].merged_at->0.secs() <= timeframe.until_spec().secs())),
{
    let kept = nodes.filter(is_deployment_pull(branch_pattern, timeframe));
    assert forall|i: int| #![trigger nodes[i]] 0 <= i < nodes.len() && kept.contains(nodes[i])
        implies (nodes[i].base_ref is Some && wildcard_matches(branch_pattern, nodes[i].base_ref->0.name@)
        && nodes[i].merged_at is Some && timeframe.since_spec().secs() <= nodes[i].merged_at->0.secs()
        <= timeframe.until_spec().secs()) by {
        let j = choose|j: int| 0 <= j < kept.len() && kept[j] == nodes[i];
        assert(is_deployment_pull(branch_pattern, timeframe)(kept[j]));
    }
}

/// The state of fetching merged pull requests page by page.
pub struct MergedPullsCollector {
    /// Pull requests that count as deployments, in the listed order.
    pub items: Vec<MergedPullsPullsNode>,
    /// Cursor of the last page taken in.
    pub after: Option<String>,
    /// Whether a page follows.
    pub has_next_page: bool,
}

impl MergedPullsCollector {
    /// Nothing fetched yet; the first page is to be fetched.
    pub fn new() -> (r: Self)
        ensures
            r.items@.len() == 0,
            r.after is None,
            r.has_next_page,
    {
        MergedPullsCollector { items: Vec::new(), after: None, has_next_page: true }
    }

    /// The cursor to fetch the next page after (`Some(None)` for the first
    /// page), or `None` when all pages were taken in.
    pub fn next_request(&self) -> (r: Option<Option<String>>)
        ensures
            r is Some <==> self.has_next_page,
            r matches Some(a) ==> a == self.after,
    {
        if self.has_next_page {
            match &self.after {
                Some(c) => Some(Some(c.clone())),
                None => Some(None),
            }
        } else {
            None
        }
    }

    /// Takes in a fetched page: appends the pull requests that count as
    /// deployments, in order, and remembers the page's cursor.
    pub fn absorb_page(
        &mut self,
        nodes: Vec<MergedPullsPullsNode>,
        page_info: MergedPullsPageInfo,
        branch_pattern: &str,
        timeframe: &DateTimeRange,
    )
        ensures
            final(self).items@ == old(self).items@ + nodes@.filter(
                is_deployment_pull(branch_pattern@, *timeframe),
            ),
            forall|i: int|
                #![trigger final(self).items@[i]]
                old(self).items@.len() <= i < final(self).items@.len() ==> final(self).items@[i].merged_at is Some
                    && timeframe.since_spec().secs() <= final(self).items@[i].merged_at->0.secs()
                    <= timeframe.until_spec().secs(),
            final(self).after == page_info.end_cursor,
            final(self).has_next_page == page_info.has_next_page,
    {
        let ghost orig = nodes@;
        let ghost start = self.items@;
        let ghost pred = is_deployment_pull(branch_pattern@, *timeframe);
        let mut rest = nodes;
        proof {
            reveal(Seq::filter);
            assert(orig.take(0) =~= Seq::<MergedPullsPullsNode>::empty());
            assert(start + orig.take(0).filter(pred) =~= start);
        }
        while rest.len() > 0
            invariant
                pred == is_deployment_pull(branch_pattern@, *timeframe),
                0 <= orig.len() - rest@.len() <= orig.len(),
                rest@ == orig.skip(orig.len() - rest@.len()),
                self.items@ == start + orig.take(orig.len() - rest@.len()).filter(pred),
            decreases rest@.len(),
        {
            let ghost done = orig.len() - rest@.len();
            let node = rest.remove(0);
            proof {
                assert(node == orig[done]);
                assert(rest@ =~= orig.skip(done + 1));
                assert(orig.take(done + 1) =~= orig.take(done).push(node));
                assert(orig.take(done + 1).drop_last() =~= orig.take(done));
                reveal(Seq::filter);
            }
            if is_deployment_pull_request(&node, branch_pattern, timeframe) {
                self.items.push(node);
                proof {
                    assert(self.items@ =~= start + orig.take(done + 1).filter(pred));
                }
            }
        }
        proof {
            assert(orig.take(orig.len() as int) =~= orig);
            lemma_deployment_pulls_merged_within(orig, branch_pattern@, *timeframe);
        }
        self.after = page_info.end_cursor;
        self.has_next_page = page_info.has_next_page;
    }
}

/// A pull request becomes a deployment record only when its merge commit and
/// merge time are known.
pub open spec fn is_complete_pull() -> spec_fn(MergedPullsPullsNode) -> bool {
    |n: MergedPullsPullsNode| n.merge_commit is Some && n.merged_at is Some
}

/// The login of a commit's author, or the empty text when unknown.
pub open spec fn author_login(author: Option<MergedPullsCommitAuthor>) -> Seq<char> {
    match author {
        Some(a) => match a.user {
            Some(u) => u.login@,
            None => Seq::<char>::empty(),
        },
        None => Seq::<char>::empty(),
    }
}

/// `log` is the deployment record of the merged pull request `node`: the pull
/// request's id, number and title, its merge commit as head, its base commit
/// as start of the changes, its merger (or the empty login) and merge time.
pub open spec fn is_log_of_pull(log: DeploymentLog, node: MergedPullsPullsNode) -> bool {
    &&& node.merge_commit matches Some(c) && {
        &&& log.head_commit.sha@ == c.sha@
        &&& log.head_commit.message@ == c.message@
        &&& log.head_commit.resource_path@ == c.resource_path@
        &&& log.head_commit.committed_at == c.committed_date
        &&& log.head_commit.creator_login@ == author_login(c.author)
    }
    &&& node.merged_at == Some(log.deployed_at)
    &&& log.info == DeploymentInfo::GithubMergedPullRequest {
        id: node.id,
        number: node.number,
        title: node.title,
    }
    &&& log.base == BaseCommitShaOrRepositoryInfo::BaseCommitSha(node.base_commit_sha)
    &&& log.creator_login@ == (match node.merged_by {
        Some(u) => u.login@,
        None => Seq::<char>::empty(),
    })
}

/// Turns merged pull requests into deployment records, in order, leaving out
/// those whose merge commit or merge time is unknown.
pub fn collect_to_logs(nodes: Vec<MergedPullsPullsNode>) -> (r: Vec<DeploymentLog>)
    ensures
        r@.len() == nodes@.filter(is_complete_pull()).len(),
        forall|i: int|
            0 <= i < r@.len() ==> is_log_of_pull(
                #[trigger] r@[i],
                nodes@.filter(is_complete_pull())[i],
            ),
{
    let ghost orig = nodes@;
    let mut rest = nodes;
    let mut out: Vec<DeploymentLog> = Vec::new();
    proof {
        reveal(Seq::filter);
        assert(orig.take(0) =~= Seq::<MergedPullsPullsNode>::empty());
    }
    while rest.len() > 0
        invariant
            0 <= orig.len() - rest@.len() <= orig.len(),
            rest@ == orig.skip(orig.len() - rest@.len()),
            out@.len() == orig.take(orig.len() - rest@.len()).filter(is_complete_pull()).len(),
            forall|i: int|
                0 <= i < out@.len() ==> is_log_of_pull(
                    #[trigger] out@[i],
                    orig.take(orig.len() - rest@.len()).filter(is_complete_pull())[i],
                ),
        decreases rest@.len(),
    {
        let ghost done = orig.len() - rest@.len();
        let node = rest.remove(0);
        proof {
            assert(node == orig[done]);
            assert(rest@ =~= orig.skip(done + 1));
            assert(orig.take(done + 1) =~= orig.take(done).push(node));
            assert(orig.take(done + 1).drop_last() =~= orig.take(done));
            reveal(Seq::filter);
        }
        let ghost before = orig.take(done).filter(is_complete_pull());
        let ghost node_copy = node;
        match (node.merge_commit, node.merged_at) {
            (Some(commit), Some(merged_at)) => {
                let commit_login = match commit.author {
                    Some(author) => match author.user {
                        Some(user) => user.login,
                        None => String::new(),
                    },
                    None => String::new(),
                };
                let merger = match node.merged_by {
                    Some(user) => user.login,
                    None => String::new(),
                };
                out.push(
                    DeploymentLog {
                        info: DeploymentInfo::GithubMergedPullRequest {
                            id: node.id,
                            number: node.number,
                            title: node.title,
                        },
                        head_commit: Commit {
                            sha: commit.sha,
                            message: commit.message,
                            resource_path: commit.resource_path,
                            committed_at: commit.committed_date,
                            creator_login: commit_login,
                        },
                        base: BaseCommitShaOrRepositoryInfo::BaseCommitSha(node.base_commit_sha),
                        creator_login: merger,
                        deployed_at: merged_at,
                    },
                );
                proof {
                    assert(orig.take(done + 1).filter(is_complete_pull()) == before.push(node_copy));
                }
            },
            _ => {
                proof {
                    assert(orig.take(done + 1).filter(is_complete_pull()) == before);
                }
            },
        }
    }
    proof {
        assert(orig.take(orig.len() as int) =~= orig);
    }
    out
}

/// The pull requests of one repository merged into the branches that a
/// pattern matches, taken as deployments.
pub struct DeploymentsFetcherWithGithubMergedPullRequest {
    pub github_personal_token: String,
    pub github_owner: String,
    pub github_repo: String,
    /// Pattern of the branches whose merges count as deployments (`*` and `?` wildcards).
    pub deploy_trigger_branch: String,
}

impl DeploymentsFetcherWithGithubMergedPullRequest {
    /// The query for the page of merged pull requests after the cursor `after`.
    pub fn query(&self, after: Option<String>) -> (r: String)
        ensures
            r@ == merged_pulls_query_text(
                self.github_owner@,
                self.github_repo@,
                match after {
                    Some(c) => Some(c@),
                    None => None,
                },
            ),
    {
        merged_pulls_query(self.github_owner.as_str(), self.github_repo.as_str(), after)
    }

    /// Takes in a fetched page of merged pull requests: those merged into a
    /// matching branch within `timeframe` are kept, in order.
    pub fn absorb_page(
        &self,
        collector: &mut MergedPullsCollector,
        nodes: Vec<MergedPullsPullsNode>,
        page_info: MergedPullsPageInfo,
        timeframe: &DateTimeRange,
    )
        ensures
            final(collector).items@ == old(collector).items@ + nodes@.filter(
                is_deployment_pull(self.deploy_trigger_branch@, *timeframe),
            ),
            forall|i: int|
                #![trigger final(collector).items@[i]]
                old(collector).items@.len() <= i < final(collector).items@.len() ==> final(collector).items@[i].merged_at is Some
                    && timeframe.since_spec().secs() <= final(collector).items@[i].merged_at->0.secs()
                    <= timeframe.until_spec().secs(),
            final(collector).after == page_info.end_cursor,
            final(collector).has_next_page == page_info.has_next_page,
    {
        collector.absorb_page(nodes, page_info, self.deploy_trigger_branch.as_str(), timeframe);
    }
}

} // verus!
