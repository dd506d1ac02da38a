//! Comparing two commits: the pair of commit hashes to compare, the commits
//! that lie between them, and the errors of a comparison.

use vstd::prelude::*;
use crate::commit::Commit;
use crate::datetime::DateTimeUtc;

verus! {

/// Why a pair of commit hashes was refused.
#[derive(Debug, PartialEq, Eq)]
pub enum ValidatedCommitShaPairError {
    /// The base or the head hash is empty; the message shows both.
    EmptyBaseOrHead(String),
    /// The base and the head hash are the same; the message shows both.
    BaseEqualsHead(String),
}

/// A base and a head commit hash, both non-empty and different.
#[derive(Debug, PartialEq, Eq)]
pub struct ValidatedCommitShaPair {
    base: String,
    head: String,
}

/// The message that a refusal of a pair of hashes carries.
pub open spec fn pair_error_text(e: ValidatedCommitShaPairError) -> Seq<char> {
    match e {
        ValidatedCommitShaPairError::EmptyBaseOrHead(m) => m@,
        ValidatedCommitShaPairError::BaseEqualsHead(m) => m@,
    }
}

/// The conditions under which a pair of hashes is accepted.
pub open spec fn valid_sha_pair(base: Seq<char>, head: Seq<char>) -> bool {
    base.len() > 0 && head.len() > 0 && base != head
}

impl ValidatedCommitShaPair {
    #[verifier::type_invariant]
    spec fn valid(self) -> bool {
        valid_sha_pair(self.base@, self.head@)
    }

    /// The base hash.
    pub closed spec fn base_spec(self) -> Seq<char> {
        self.base@
    }

    /// The head hash.
    pub closed spec fn head_spec(self) -> Seq<char> {
        self.head@
    }

    /// Accepts the pair when both hashes are non-empty and they differ.
    /// Emptiness is checked first.
    pub fn new(base: String, head: String) -> (r: Result<Self, ValidatedCommitShaPairError>)
        ensures
            r is Ok <==> valid_sha_pair(base@, head@),
            r matches Ok(p) ==> p.base_spec() == base@ && p.head_spec() == head@,
            r matches Err(e) ==> (e is EmptyBaseOrHead <==> (base@.len() == 0 || head@.len()
                == 0)),
            r matches Err(e) ==> (e is BaseEqualsHead <==> (base@.len() > 0 && head@.len() > 0
                && base@ == head@)),
            r matches Err(e) ==> pair_error_text(e) == debug_pair_text(base@, head@),
    {
        if base.as_str().is_empty() || head.as_str().is_empty() {
            return Err(
                ValidatedCommitShaPairError::EmptyBaseOrHead(pair_description(&base, &head)),
            );
        }
        if base == head {
            return Err(ValidatedCommitShaPairError::BaseEqualsHead(pair_description(&base, &head)));
        }
        Ok(ValidatedCommitShaPair { base, head })
    }

    /// The base hash.
    pub fn get_base(&self) -> (r: String)
        ensures
            r@ == self.base_spec(),
            r@.len() > 0,
    {
        proof {
            use_type_invariant(self);
        }
        self.base.clone()
    }

    /// The head hash.
    pub fn get_head(&self) -> (r: String)
        ensures
            r@ == self.head_spec(),
            r@.len() > 0,
            r@ != self.base_spec(),
    {
        proof {
            use_type_invariant(self);
        }
        self.head.clone()
    }
}

/// The text that std's `Debug` formatting (`format!("{:?}", s)`) makes of a
/// string: the string quoted, with its special characters escaped.
pub uninterp spec fn debug_string_text(s: Seq<char>) -> Seq<char>;

/// The `Debug` text of a string, by std's `format!("{:?}", s)`.
/// Trusted: the result is `debug_string_text` of the string.
#[verifier::external_body]
fn debug_string(s: &String) -> (r: String)
    ensures
        r@ == debug_string_text(s@),
{
    format!("{:?}", s)
}

/// The text that shows two hashes, as in `base: "a", head: "b"`.
pub open spec fn debug_pair_text(base: Seq<char>, head: Seq<char>) -> Seq<char> {
    "base: "@ + debug_string_text(base) + ", head: "@ + debug_string_text(head)
}

/// Text that shows a base and a head hash, as in `base: "a", head: "b"`.
pub(crate) fn pair_description(base: &String, head: &String) -> (r: String)
    ensures
        r@ == debug_pair_text(base@, head@),
{
    let mut t = "base: ".to_owned();
    let b = debug_string(base);
    t.append(b.as_str());
    t.append(", head: ");
    let h = debug_string(head);
    t.append(h.as_str());
    t
}

/// Why comparing two commits failed.
#[derive(Debug, PartialEq, Eq)]
pub enum TwoCommitsComparerError {
    /// The API client could not be built or the request failed.
    CannotBuildAPIClient(String),
    /// The API answered with a status other than success.
    InvalidAPIResponse(String),
    /// The answer could not be read.
    CannotParseResponse(String),
    /// A field was missing in the answer.
    CannotGotFromJson(String),
}

/// Finds the commits that lie between the base and the head of a pair.
pub trait TwoCommitsComparer {
    /// The commits from `commit_sha_pair`'s base (excluded) to its head.
    fn compare(&self, commit_sha_pair: ValidatedCommitShaPair) -> Result<
        Vec<Commit>,
        TwoCommitsComparerError,
    >;
}

/// A comparer that answers every pair with the same commits.
pub struct TwoCommitsComparerWithMock {
    pub commits: Vec<Commit>,
}

impl TwoCommitsComparerWithMock {
    /// The commits this comparer answers with.
    pub fn compare_commits(&self, _commit_sha_pair: ValidatedCommitShaPair) -> (r: Result<
        Vec<Commit>,
        TwoCommitsComparerError,
    >)
        ensures
            r matches Ok(c) && c@ == self.commits@,
    {
        let c = self.commits.clone();
        proof {
            assert(c@ =~= self.commits@);
        }
        Ok(c)
    }
}

impl TwoCommitsComparer for TwoCommitsComparerWithMock {
    fn compare(&self, commit_sha_pair: ValidatedCommitShaPair) -> (r: Result<
        Vec<Commit>,
        TwoCommitsComparerError,
    >)
        ensures
            r matches Ok(c) && c@ == self.commits@,
    {
        self.compare_commits(commit_sha_pair)
    }
}

/// A commit as the compare API of the code host lists it.
pub struct ComparedCommitItem {
    pub sha: String,
    pub message: String,
    pub html_url: String,
    /// When the commit was authored, if the answer tells.
    pub author_date: Option<DateTimeUtc>,
    /// The login of the commit's author, if the answer tells.
    pub author_login: Option<String>,
}

/// Whether `item` has an author date, which a commit needs.
pub open spec fn has_author_date() -> spec_fn(ComparedCommitItem) -> bool {
    |item: ComparedCommitItem| item.author_date is Some
}

/// `c` is the commit that the listed commit `item` stands for: the same hash,
/// message and address, committed at the author date, by the author's login
/// or by an empty login when the author is unknown.
pub open spec fn is_commit_of_item(c: Commit, item: ComparedCommitItem) -> bool {
    &&& c.sha@ == item.sha@
    &&& c.message@ == item.message@
    &&& c.resource_path@ == item.html_url@
    &&& item.author_date == Some(c.committed_at)
    &&& c.creator_login@ == (match item.author_login {
        Some(login) => login@,
        None => Seq::<char>::empty(),
    })
}

/// The commits of a compare answer, in the answer's order; listed commits
/// without an author date are left out.
pub fn collect_compared_commits(items: Vec<ComparedCommitItem>) -> (r: Vec<Commit>)
    ensures
        r@.len() == items@.filter(has_author_date()).len(),
        forall|i: int|
            0 <= i < r@.len() ==> is_commit_of_item(
                #[trigger] r@[i],
                items@.filter(has_author_date())[i],
            ),
{
    let ghost orig = items@;
    let mut rest = items;
    let mut out: Vec<Commit> = Vec::new();
    proof {
        reveal(Seq::filter);
        assert(orig.take(0) =~= Seq::<ComparedCommitItem>::empty());
    }
    while rest.len() > 0
        invariant
            0 <= orig.len() - rest@.len() <= orig.len(),
            rest@ == orig.skip(orig.len() - rest@.len()),
            out@.len() == orig.take(orig.len() - rest@.len()).filter(has_author_date()).len(),
            forall|i: int|
                0 <= i < out@.len() ==> is_commit_of_item(
                    #[trigger] out@[i],
                    orig.take(orig.len() - rest@.len()).filter(has_author_date())[i],
                ),
        decreases rest@.len(),
    {
        let ghost done = orig.len() - rest@.len();
        let item = rest.remove(0);
        proof {
            assert(item == orig[done]);
            assert(rest@ =~= orig.skip(done + 1));
            assert(orig.take(done + 1) =~= orig.take(done).push(item));
            assert(orig.take(done + 1).drop_last() =~= orig.take(done));
            reveal(Seq::filter);
        }
        let ghost before = orig.take(done).filter(has_author_date());
        match item.author_date {
            Some(date) => {
                let login = match item.author_login {
                    Some(login) => login,
                    None => String::new(),
                };
                out.push(
                    Commit {
                        sha: item.sha,
                        message: item.message,
                        resource_path: item.html_url,
                        committed_at: date,
                        creator_login: login,
                    },
                );
                proof {
                    assert(orig.take(done + 1).filter(has_author_date()) == before.push(item));
                }
            },
            None => {
                proof {
                    assert(orig.take(done + 1).filter(has_author_date()) == before);
                }
            },
        }
    }
    proof {
        assert(orig.take(orig.len() as int) =~= orig);
    }
    out
}

/// The address of the code host's API that compares `base` with `head` in
/// `owner/repo`.
pub open spec fn compare_url_text(owner: Seq<char>, repo: Seq<char>, base: Seq<char>, head: Seq<char>) -> Seq<char> {
    "https://api.github.com/repos/"@ + owner + "/"@ + repo + "/compare/"@ + base + "..."@ + head
}

/// Builds the address of the API that compares `base` with `head` in `owner/repo`.
pub fn compare_url(owner: &str, repo: &str, base: &str, head: &str) -> (r: String)
    ensures
        r@ == compare_url_text(owner@, repo@, base@, head@),
{
    let mut u = "https://api.github.com/repos/".to_owned();
    u.append(owner);
    u.append("/");
    u.append(repo);
    u.append("/compare/");
    u.append(base);
    u.append("...");
    u.append(head);
    u
}

/// Whether an HTTP status code tells of success.
pub open spec fn is_http_success(code: u16) -> bool {
    200 <= code < 300
}

/// The digit character of a number from 0 to 9.
pub open spec fn digit_char(d: int) -> char {
    if d == 0 {
        '0'
    } else if d == 1 {
        '1'
    } else if d == 2 {
        '2'
    } else if d == 3 {
        '3'
    } else if d == 4 {
        '4'
    } else if d == 5 {
        '5'
    } else if d == 6 {
        '6'
    } else if d == 7 {
        '7'
    } else if d == 8 {
        '8'
    } else {
        '9'
    }
}

/// The decimal digits of `n`, without leading zeros (`0` for zero).
pub open spec fn decimal_text(n: nat) -> Seq<char>
    decreases n,
{
    if n < 10 {
        seq![digit_char(n as int)]
    } else {
        decimal_text(n / 10).push(digit_char((n % 10) as int))
    }
}

/// The text of a status code, as in `status: 404`.
pub open spec fn status_text(code: u16) -> Seq<char> {
    "status: "@ + decimal_text(code as nat)
}

fn digit_str(d: u16) -> (r: &'static str)
    requires
        d < 10,
    ensures
        r@ == seq![digit_char(d as int)],
{
    if d == 0 {
        proof { reveal_strlit("0"); }
        "0"
    } else if d == 1 {
        proof { reveal_strlit("1"); }
        "1"
    } else if d == 2 {
        proof { reveal_strlit("2"); }
        "2"
    } else if d == 3 {
        proof { reveal_strlit("3"); }
        "3"
    } else if d == 4 {
        proof { reveal_strlit("4"); }
        "4"
    } else if d == 5 {
        proof { reveal_strlit("5"); }
        "5"
    } else if d == 6 {
        proof { reveal_strlit("6"); }
        "6"
    } else if d == 7 {
        proof { reveal_strlit("7"); }
        "7"
    } else if d == 8 {
        proof { reveal_strlit("8"); }
        "8"
    } else {
        proof { reveal_strlit("9"); }
        "9"
    }
}

fn append_decimal(s: &mut String, n: u16)
    ensures
        final(s)@ == old(s)@ + decimal_text(n as nat),
    decreases n,
{
    if n >= 10 {
        append_decimal(s, n / 10);
    }
    let ghost before = s@;
    s.append(digit_str(n % 10));
    proof {
        if n >= 10 {
            assert(decimal_text(n as nat) == decimal_text((n / 10) as nat).push(digit_char((n % 10) as int)));
        }
        assert(before + seq![digit_char((n % 10) as int)] =~= before.push(digit_char((n % 10) as int)));
        assert(s@ =~= old(s)@ + decimal_text(n as nat));
    }
}

/// Text that shows an HTTP status code, as in `status: 404`.
pub(crate) fn status_description(code: u16) -> (r: String)
    ensures
        r@ == status_text(code),
{
    let mut s = "status: ".to_owned();
    append_decimal(&mut s, code);
    s
}

/// Refuses an answer whose HTTP status is not a success.
pub fn check_compare_status(code: u16) -> (r: Result<(), TwoCommitsComparerError>)
    ensures
        r is Ok <==> is_http_success(code),
        r matches Err(e) ==> e matches TwoCommitsComparerError::InvalidAPIResponse(m) && m@
            == status_text(code),
{
    if 200 <= code && code < 300 {
        Ok(())
    } else {
        Err(TwoCommitsComparerError::InvalidAPIResponse(status_description(code)))
    }
}

/// A comparer that asks the code host's compare API of one repository.
pub struct TwoCommitsComparerWithGitHub {
    pub github_personal_token: String,
    pub github_owner: String,
    pub github_repo: String,
}

impl TwoCommitsComparerWithGitHub {
    /// The address to ask for the commits between the pair's base and head.
    pub fn compare_url(&self, commit_sha_pair: &ValidatedCommitShaPair) -> (r: String)
        ensures
            r@ == compare_url_text(
                self.github_owner@,
                self.github_repo@,
                commit_sha_pair.base_spec(),
                commit_sha_pair.head_spec(),
            ),
    {
        let base = commit_sha_pair.get_base();
        let head = commit_sha_pair.get_head();
        compare_url(self.github_owner.as_str(), self.github_repo.as_str(), base.as_str(), head.as_str())
    }

    /// The commits of a compare answer with HTTP status `status`; the
    /// commits without an author date are left out.
    pub fn commits_of_answer(&self, status: u16, items: Vec<ComparedCommitItem>) -> (r: Result<
        Vec<Commit>,
        TwoCommitsComparerError,
    >)
        ensures
            r is Ok <==> is_http_success(status),
            r matches Err(e) ==> e matches TwoCommitsComparerError::InvalidAPIResponse(m) && m@
                == status_text(status),
            r matches Ok(c) ==> {
                &&& c@.len() == items@.filter(has_author_date()).len()
                &&& forall|i: int|
                    0 <= i < c@.len() ==> is_commit_of_item(
                        #[trigger] c@[i],
                        items@.filter(has_author_date())[i],
                    )
            },
    {
        match check_compare_status(status) {
            Err(e) => Err(e),
            Ok(()) => Ok(collect_compared_commits(items)),
        }
    }
}

} // verus!
