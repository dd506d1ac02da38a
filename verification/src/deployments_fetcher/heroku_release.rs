//! Deployments recorded as Heroku releases: the shape of the Heroku API's
//! answers, which releases count, and how releases become deployment records.

use vstd::prelude::*;
use crate::commit::Commit;
use crate::datetime::DateTimeUtc;
use crate::sorting::{is_stable_sort_of, stable_sort_by_key, Keyed};
use crate::text::{str_uppercase, uppercase_equals};
use super::{empty_list_text, BaseCommitShaOrRepositoryInfo, DeploymentInfo, DeploymentLog, DeploymentsFetcherError};

verus! {

broadcast use {vstd::seq_lib::group_seq_properties, vstd::seq_lib::group_filter_ensures};

/// The app of a release.
#[derive(Debug, PartialEq, Eq)]
pub struct HerokuReleaseApp {
    pub id: String,
    pub name: String,
}

/// The slug a release runs.
#[derive(Debug, PartialEq, Eq)]
pub struct HerokuReleaseSlug {
    pub id: String,
}

/// The user who made a release.
#[derive(Debug, PartialEq, Eq)]
pub struct HerokuReleaseUser {
    pub email: String,
    pub id: String,
}

/// A release as the Heroku API lists it.
#[derive(Debug, PartialEq, Eq)]
pub struct HerokuReleaseItem {
    pub addon_plan_names: Vec<String>,
    pub app: HerokuReleaseApp,
    pub created_at: DateTimeUtc,
    pub description: String,
    pub status: String,
    pub id: String,
    pub slug: Option<HerokuReleaseSlug>,
    pub updated_at: DateTimeUtc,
    pub user: HerokuReleaseUser,
    pub version: u64,
    pub current: bool,
    pub output_stream_url: Option<String>,
}

/// Where the archive of a slug lies.
#[derive(Debug, PartialEq, Eq)]
pub struct HerokuSlugBlobItem {
    pub method: String,
    pub url: String,
}

/// The stack of a slug.
#[derive(Debug, PartialEq, Eq)]
pub struct HerokuSlugStackItem {
    pub id: String,
    pub name: String,
}

/// A slug as the Heroku API describes it; `commit` is the hash it was built from.
#[derive(Debug, PartialEq, Eq)]
pub struct HerokuSlugItem {
    pub blob: HerokuSlugBlobItem,
    pub buildpack_provided_description: String,
    pub checksum: String,
    pub commit: String,
    pub commit_description: String,
    pub created_at: DateTimeUtc,
    pub id: String,
    pub size: u64,
    pub stack: HerokuSlugStackItem,
    pub updated_at: DateTimeUtc,
}

/// The commit of a release, as the GitHub commit API describes it.
#[derive(Debug, PartialEq, Eq)]
pub struct ReleaseCommit {
    pub sha: String,
    pub message: String,
    pub html_url: String,
    /// When the commit was authored, if known.
    pub author_date: Option<DateTimeUtc>,
    /// The GitHub login of the author, if known.
    pub author_login: Option<String>,
}

/// When the repository was created.
#[derive(Debug, PartialEq, Eq)]
pub struct GitHubRepositoryInfo {
    pub created_at: DateTimeUtc,
}

/// A release with its commit.
#[derive(Debug, PartialEq, Eq)]
pub struct HerokuRelease {
    pub release: HerokuReleaseItem,
    pub commit: ReleaseCommit,
}

/// A release with its commit, or when the repository was created.
#[derive(Debug, PartialEq, Eq)]
pub enum HerokuReleaseOrRepositoryInfo {
    HerokuRelease(HerokuRelease),
    RepositoryInfo(GitHubRepositoryInfo),
}

impl Keyed for HerokuReleaseOrRepositoryInfo {
    open spec fn sort_key(&self) -> int {
        match self {
            HerokuReleaseOrRepositoryInfo::HerokuRelease(r) => r.release.created_at.secs(),
            HerokuReleaseOrRepositoryInfo::RepositoryInfo(i) => i.created_at.secs(),
        }
    }

    fn key(&self) -> (r: i64) {
        match self {
            HerokuReleaseOrRepositoryInfo::HerokuRelease(r) => r.release.created_at.timestamp(),
            HerokuReleaseOrRepositoryInfo::RepositoryInfo(i) => i.created_at.timestamp(),
        }
    }
}

/// A release counts when its status, upper-cased, is `SUCCEEDED` and it has a slug.
pub open spec fn is_succeeded_release() -> spec_fn(HerokuReleaseItem) -> bool {
    |r: HerokuReleaseItem| str_uppercase(r.status@) == "SUCCEEDED"@ && r.slug is Some
}

/// The releases that succeeded and have a slug, in order.
pub fn succeeded_releases(releases: Vec<HerokuReleaseItem>) -> (r: Vec<HerokuReleaseItem>)
    ensures
        r@ == releases@.filter(is_succeeded_release()),
{
    let ghost orig = releases@;
    let mut rest = releases;
    let mut out: Vec<HerokuReleaseItem> = Vec::new();
    proof {
        reveal(Seq::filter);
        assert(orig.take(0) =~= Seq::<HerokuReleaseItem>::empty());
    }
    while rest.len() > 0
        invariant
            0 <= orig.len() - rest@.len() <= orig.len(),
            rest@ == orig.skip(orig.len() - rest@.len()),
            out@ == orig.take(orig.len() - rest@.len()).filter(is_succeeded_release()),
        decreases rest@.len(),
    {
        let ghost done = orig.len() - rest@.len();
        let release = rest.remove(0);
        proof {
            assert(release == orig[done]);
            assert(rest@ =~= orig.skip(done + 1));
            assert(orig.take(done + 1) =~= orig.take(done).push(release));
            assert(orig.take(done + 1).drop_last() =~= orig.take(done));
            reveal(Seq::filter);
        }
        if uppercase_equals(release.status.as_str(), "SUCCEEDED") && release.slug.is_some() {
            out.push(release);
        }
    }
    proof {
        assert(orig.take(orig.len() as int) =~= orig);
    }
    out
}

/// The message of a release without a slug.
pub open spec fn slug_missing_text() -> Seq<char> {
    "slug is None"@
}

/// The id of the slug of a release; refused when the release has no slug.
pub fn release_slug_id(release: &HerokuReleaseItem) -> (r: Result<String, DeploymentsFetcherError>)
    ensures
        r is Ok <==> release.slug is Some,
        r matches Ok(id) ==> id@ == release.slug->0.id@,
        r matches Err(e) ==> e matches DeploymentsFetcherError::InvalidResponse(m) && m@
            == slug_missing_text(),
{
    match &release.slug {
        Some(slug) => Ok(slug.id.clone()),
        None => Err(DeploymentsFetcherError::InvalidResponse("slug is None".to_owned())),
    }
}

/// The address of the releases of a Heroku app.
pub fn releases_url(app_name: &str) -> (r: String)
    ensures
        r@ == "https://api.heroku.com/apps/"@ + app_name@ + "/releases"@,
{
    let mut s = "https://api.heroku.com/apps/".to_owned();
    s.append(app_name);
    s.append("/releases");
    s
}

/// The address of a slug of a Heroku app.
pub fn slug_url(app_name: &str, slug_id: &str) -> (r: String)
    ensures
        r@ == "https://api.heroku.com/apps/"@ + app_name@ + "/slugs/"@ + slug_id@,
{
    let mut s = "https://api.heroku.com/apps/".to_owned();
    s.append(app_name);
    s.append("/slugs/");
    s.append(slug_id);
    s
}

/// The GitHub API path of a commit of `owner/repo`.
pub fn commit_path(owner: &str, repo: &str, sha: &str) -> (r: String)
    ensures
        r@ == "/repos/"@ + owner@ + "/"@ + repo@ + "/commits/"@ + sha@,
{
    let mut s = "/repos/".to_owned();
    s.append(owner);
    s.append("/");
    s.append(repo);
    s.append("/commits/");
    s.append(sha);
    s
}

/// Where the changes of the earliest entry's successor start: the entry's
/// commit for a release, the creation time for the repository.
pub open spec fn first_base(first: HerokuReleaseOrRepositoryInfo) -> BaseCommitShaOrRepositoryInfo {
    match first {
        HerokuReleaseOrRepositoryInfo::HerokuRelease(r) => BaseCommitShaOrRepositoryInfo::BaseCommitSha(
            r.commit.sha,
        ),
        HerokuReleaseOrRepositoryInfo::RepositoryInfo(i) => {
            BaseCommitShaOrRepositoryInfo::RepositoryCreatedAt(i.created_at)
        },
    }
}

/// The predicate "is a release".
pub open spec fn is_release() -> spec_fn(HerokuReleaseOrRepositoryInfo) -> bool {
    |x: HerokuReleaseOrRepositoryInfo| x is HerokuRelease
}

/// The releases among entries, in order.
pub open spec fn releases_of(entries: Seq<HerokuReleaseOrRepositoryInfo>) -> Seq<HerokuRelease> {
    entries.filter(is_release()).map_values(|x: HerokuReleaseOrRepositoryInfo| x->HerokuRelease_0)
}

/// A release becomes a deployment record only when its commit's author date
/// and author login are known.
pub open spec fn has_author(r: HerokuRelease) -> bool {
    r.commit.author_date is Some && r.commit.author_login is Some
}

/// The deployment record of a release whose changes start at `base`.
pub open spec fn release_log(r: HerokuRelease, base: BaseCommitShaOrRepositoryInfo) -> DeploymentLog {
    DeploymentLog {
        info: DeploymentInfo::HerokuRelease { id: r.release.id, version: r.release.version },
        head_commit: Commit {
            sha: r.commit.sha,
            message: r.commit.message,
            resource_path: r.commit.html_url,
            committed_at: r.commit.author_date->0,
            creator_login: r.commit.author_login->0,
        },
        base,
        creator_login: r.commit.author_login->0,
        deployed_at: r.release.created_at,
    }
}

/// Where the changes of the `i`-th release start: `first` for the first one,
/// else the commit of the release before it.
pub open spec fn release_base(
    first: BaseCommitShaOrRepositoryInfo,
    releases: Seq<HerokuRelease>,
    i: int,
) -> BaseCommitShaOrRepositoryInfo {
    if i == 0 {
        first
    } else {
        BaseCommitShaOrRepositoryInfo::BaseCommitSha(releases[i - 1].commit.sha)
    }
}

/// `logs` are the deployment records made from entries sorted by time: the
/// earliest entry gives where the first record's changes start; the other
/// releases, in order, give one record each, up to the first release whose
/// author is unknown.
pub open spec fn logs_of_sorted(
    sorted: Seq<HerokuReleaseOrRepositoryInfo>,
    logs: Seq<DeploymentLog>,
) -> bool {
    let rels = releases_of(sorted.drop_first());
    &&& sorted.len() > 0
    &&& logs.len() <= rels.len()
    &&& forall|i: int| 0 <= i < logs.len() ==> has_author(#[trigger] rels[i])
    &&& logs.len() < rels.len() ==> !has_author(rels[logs.len() as int])
    &&& forall|i: int|
        0 <= i < logs.len() ==> #[trigger] logs[i] == release_log(
            rels[i],
            release_base(first_base(sorted[0]), rels, i),
        )
}

proof fn lemma_releases_of_push(s: Seq<HerokuReleaseOrRepositoryInfo>, x: HerokuReleaseOrRepositoryInfo)
    ensures
        releases_of(s.push(x)) == (if x is HerokuRelease {
            releases_of(s).push(x->HerokuRelease_0)
        } else {
            releases_of(s)
        }),
{
    reveal(Seq::filter);
    assert(s.push(x).drop_last() =~= s);
    let f = |y: HerokuReleaseOrRepositoryInfo| y->HerokuRelease_0;
    if x is HerokuRelease {
        assert(s.push(x).filter(is_release()) == s.filter(is_release()).push(x));
        assert(s.filter(is_release()).push(x).map_values(f) =~= s.filter(is_release()).map_values(
            f,
        ).push(x->HerokuRelease_0));
    } else {
        assert(s.push(x).filter(is_release()) == s.filter(is_release()));
    }
}

/// Makes deployment records from entries sorted by time; see `logs_of_sorted`.
#[verifier::spinoff_prover]
#[verifier::rlimit(60)]
pub fn convert_sorted_items(sorted: Vec<HerokuReleaseOrRepositoryInfo>) -> (r: Vec<DeploymentLog>)
    requires
        sorted@.len() > 0,
    ensures
        logs_of_sorted(sorted@, r@),
        forall|i: int|
            0 <= i < r@.len() ==> #[trigger] r@[i].deployed_at == releases_of(
                sorted@.drop_first(),
            )[i].release.created_at,
        forall|i: int|
            0 <= i < r@.len() ==> #[trigger] r@[i].info == (DeploymentInfo::HerokuRelease {
                id: releases_of(sorted@.drop_first())[i].release.id,
                version: releases_of(sorted@.drop_first())[i].release.version,
            }),
{
    let ghost all = sorted@;
    let mut rest = sorted;
    let first_item = rest.remove(0);
    let ghost tail = rest@;
    proof {
        assert(tail =~= all.drop_first());
        assert(tail.take(0) =~= Seq::<HerokuReleaseOrRepositoryInfo>::empty());
        reveal(Seq::filter);
        assert(releases_of(tail.take(0)) =~= Seq::<HerokuRelease>::empty());
    }
    let mut previous = match first_item {
        HerokuReleaseOrRepositoryInfo::HerokuRelease(item) => {
            BaseCommitShaOrRepositoryInfo::BaseCommitSha(item.commit.sha)
        },
        HerokuReleaseOrRepositoryInfo::RepositoryInfo(info) => {
            BaseCommitShaOrRepositoryInfo::RepositoryCreatedAt(info.created_at)
        },
    };
    let ghost first = previous;
    let mut out: Vec<DeploymentLog> = Vec::new();
    let mut stopped = false;
    while rest.len() > 0 && !stopped
        invariant
            first == first_base(all[0]),
            tail == all.drop_first(),
            0 <= tail.len() - rest@.len() <= tail.len(),
            rest@ == tail.skip(tail.len() - rest@.len()),
            out@.len() <= releases_of(tail.take(tail.len() - rest@.len())).len(),
            !stopped ==> out@.len() == releases_of(tail.take(tail.len() - rest@.len())).len(),
            stopped ==> out@.len() < releases_of(tail.take(tail.len() - rest@.len())).len()
                && !has_author(releases_of(tail.take(tail.len() - rest@.len()))[out@.len() as int]),
            forall|i: int|
                0 <= i < out@.len() ==> has_author(
                    #[trigger] releases_of(tail.take(tail.len() - rest@.len()))[i],
                ),
            !stopped ==> previous == release_base(
                first,
                releases_of(tail.take(tail.len() - rest@.len())),
                out@.len() as int,
            ),
            forall|i: int|
                0 <= i < out@.len() ==> #[trigger] out@[i] == release_log(
                    releases_of(tail.take(tail.len() - rest@.len()))[i],
                    release_base(first, releases_of(tail.take(tail.len() - rest@.len())), i),
                ),
        decreases rest@.len(),
    {
        let ghost done = tail.len() - rest@.len();
        let ghost rels_before = releases_of(tail.take(done));
        let entry = rest.remove(0);
        proof {
            assert(entry == tail[done]);
            assert(rest@ =~= tail.skip(done + 1));
            assert(tail.take(done + 1) =~= tail.take(done).push(entry));
            lemma_releases_of_push(tail.take(done), entry);
        }
        let ghost rels_after = releases_of(tail.take(done + 1));
        match entry {
            HerokuReleaseOrRepositoryInfo::HerokuRelease(release) => {
                proof {
                    assert(rels_after == rels_before.push(release));
                    assert(rels_after[out@.len() as int] == release);
                }
                match (release.commit.author_date, release.commit.author_login) {
                    (Some(date), Some(login)) => {
                        let next = BaseCommitShaOrRepositoryInfo::BaseCommitSha(
                            release.commit.sha.clone(),
                        );
                        let log = DeploymentLog {
                            info: DeploymentInfo::HerokuRelease {
                                id: release.release.id,
                                version: release.release.version,
                            },
                            head_commit: Commit {
                                sha: release.commit.sha,
                                message: release.commit.message,
                                resource_path: release.commit.html_url,
                                committed_at: date,
                                creator_login: login.clone(),
                            },
                            base: previous,
                            creator_login: login,
                            deployed_at: release.release.created_at,
                        };
                        out.push(log);
                        previous = next;
                        proof {
                            assert forall|i: int| 0 <= i < out@.len() implies #[trigger] out@[i]
                                == release_log(rels_after[i], release_base(first, rels_after, i)) by {
                                if i < out@.len() - 1 {
                                    assert(rels_after[i] == rels_before[i]);
                                    if i > 0 {
                                        assert(rels_after[i - 1] == rels_before[i - 1]);
                                    }
                                }
                            }
                            assert forall|i: int| 0 <= i < out@.len() implies has_author(
                                #[trigger] rels_after[i],
                            ) by {
                                if i < out@.len() - 1 {
                                    assert(rels_after[i] == rels_before[i]);
                                }
                            }
                        }
                    },
                    _ => {
                        stopped = true;
                        proof {
                            assert forall|i: int| 0 <= i < out@.len() implies #[trigger] out@[i]
                                == release_log(rels_after[i], release_base(first, rels_after, i)) by {
                                assert(rels_after[i] == rels_before[i]);
                                if i > 0 {
                                    assert(rels_after[i - 1] == rels_before[i - 1]);
                                }
                            }
                            assert forall|i: int| 0 <= i < out@.len() implies has_author(
                                #[trigger] rels_after[i],
                            ) by {
                                assert(rels_after[i] == rels_before[i]);
                            }
                        }
                    },
                }
            },
            HerokuReleaseOrRepositoryInfo::RepositoryInfo(_) => {
                proof {
                    assert(rels_after == rels_before);
                }
            },
        }
    }
    proof {
        let done = tail.len() - rest@.len();
        if !stopped {
            assert(rest@.len() == 0);
            assert(tail.take(done) =~= tail);
        } else {
            // Records stop at the first release without an author; the releases
            // after it do not change the records made so far.
            let taken = releases_of(tail.take(done));
            let whole = releases_of(tail);
            assert(tail =~= tail.take(done) + tail.skip(done));
            vstd::seq::Seq::filter_distributes_over_add(tail.take(done), tail.skip(done), is_release());
            let f = |y: HerokuReleaseOrRepositoryInfo| y->HerokuRelease_0;
            assert(whole =~= taken + tail.skip(done).filter(is_release()).map_values(f));
            assert forall|i: int| 0 <= i < taken.len() implies #[trigger] whole[i] == taken[i] by {}
        }
        lemma_record_is_its_release(all, out@);
    }
    out
}

/// Each deployment record made from a release carries that release: it was
/// deployed when the release was created (whatever the date of its commit),
/// its head commit is the release's commit, authored when that commit was,
/// and its id and version are the release's.
pub proof fn lemma_record_is_its_release(
    sorted: Seq<HerokuReleaseOrRepositoryInfo>,
    logs: Seq<DeploymentLog>,
)
    requires
        logs_of_sorted(sorted, logs),
    ensures
        forall|i: int|
            0 <= i < logs.len() ==> #[trigger] logs[i].deployed_at == releases_of(
                sorted.drop_first(),
            )[i].release.created_at,
        forall|i: int|
            0 <= i < logs.len() ==> #[trigger] logs[i].info == (DeploymentInfo::HerokuRelease {
                id: releases_of(sorted.drop_first())[i].release.id,
                version: releases_of(sorted.drop_first())[i].release.version,
            }),
        forall|i: int|
            0 <= i < logs.len() ==> (#[trigger] logs[i].head_commit).sha == releases_of(
                sorted.drop_first(),
            )[i].commit.sha && Some(logs[i].head_commit.committed_at) == releases_of(
                sorted.drop_first(),
            )[i].commit.author_date,
{
    let rels = releases_of(sorted.drop_first());
    assert forall|i: int| 0 <= i < logs.len() implies Some(
        (#[trigger] logs[i].head_commit).committed_at,
    ) == rels[i].commit.author_date by {
        assert(has_author(rels[i]));
    }
}

/// Makes deployment records from releases with their commits and the
/// repository's creation: sorts them by time (entries at the same time keep
/// their order), then proceeds as `convert_sorted_items`. Refused when there
/// is no entry.
pub fn convert_to_items(deployment_nodes: Vec<HerokuReleaseOrRepositoryInfo>) -> (r: Result<
    Vec<DeploymentLog>,
    DeploymentsFetcherError,
>)
    ensures
        r is Ok <==> deployment_nodes@.len() > 0,
        r matches Ok(logs) ==> exists|sorted: Seq<HerokuReleaseOrRepositoryInfo>|
            is_stable_sort_of(sorted, deployment_nodes@) && logs_of_sorted(sorted, logs@) && (
            forall|i: int|
                0 <= i < logs@.len() ==> #[trigger] logs@[i].deployed_at == releases_of(
                    sorted.drop_first(),
                )[i].release.created_at),
        r matches Err(e) ==> e matches DeploymentsFetcherError::DeploymentsFetcherResultIsEmptyList(
            m,
        ) && m@ == empty_list_text(),
{
    if deployment_nodes.len() == 0 {
        return Err(
            DeploymentsFetcherError::DeploymentsFetcherResultIsEmptyList(
                "Deployments fetcher result is empty list".to_owned(),
            ),
        );
    }
    let ghost input = deployment_nodes@;
    let sorted = stable_sort_by_key(deployment_nodes);
    proof {
        broadcast use vstd::seq_lib::group_to_multiset_ensures;
        assert(sorted@.to_multiset().len() == input.to_multiset().len());
    }
    let ghost sorted_view = sorted@;
    let logs = convert_sorted_items(sorted);
    proof {
        assert(is_stable_sort_of(sorted_view, input) && logs_of_sorted(sorted_view, logs@) && (
        forall|i: int|
            0 <= i < logs@.len() ==> #[trigger] logs@[i].deployed_at == releases_of(
                sorted_view.drop_first(),
            )[i].release.created_at));
    }
    Ok(logs)
}

/// The releases of one Heroku app, with the commits of one GitHub repository.
pub struct DeploymentsFetcherWithHerokuRelease {
    pub heroku_app_name: String,
    pub heroku_auth_token: String,
    pub github_personal_token: String,
    pub github_owner: String,
    pub github_repo: String,
}

impl DeploymentsFetcherWithHerokuRelease {
    /// The address of the app's releases.
    pub fn releases_url(&self) -> (r: String)
        ensures
            r@ == "https://api.heroku.com/apps/"@ + self.heroku_app_name@ + "/releases"@,
    {
        releases_url(self.heroku_app_name.as_str())
    }

    /// The address of one of the app's slugs.
    pub fn slug_url(&self, slug_id: &str) -> (r: String)
        ensures
            r@ == "https://api.heroku.com/apps/"@ + self.heroku_app_name@ + "/slugs/"@ + slug_id@,
    {
        slug_url(self.heroku_app_name.as_str(), slug_id)
    }

    /// The API path of one of the repository's commits.
    pub fn commit_path(&self, sha: &str) -> (r: String)
        ensures
            r@ == "/repos/"@ + self.github_owner@ + "/"@ + self.github_repo@ + "/commits/"@ + sha@,
    {
        commit_path(self.github_owner.as_str(), self.github_repo.as_str(), sha)
    }
}

} // verus!
