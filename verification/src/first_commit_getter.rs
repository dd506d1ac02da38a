//! The first commit between two commits: the pair of hashes to ask for, and
//! the first commit read out of the compare API's answer.

use vstd::prelude::*;
use crate::calendar::{chrono_rfc3339_timestamp, parse_datetime_utc, parse_rfc3339_timestamp, parsed_utc_secs};
use crate::datetime::{DateTimeUtc, TIMESTAMP_LIMIT};
use crate::two_commits_comparer::{
    compare_url, compare_url_text, debug_pair_text, is_http_success, pair_description,
    status_description, status_text, valid_sha_pair,
};

verus! {

/// Why a pair of commit hashes was refused.
#[derive(Debug, PartialEq, Eq)]
pub enum ValidatedFirstCommitGetterParamsError {
    /// The base or the head hash is empty; the message shows both.
    EmptyBaseOrHead(String),
    /// The base and the head hash are the same; the message shows both.
    BaseEqualsHead(String),
}

/// The base and head commit hashes to look between, both non-empty and different.
#[derive(Debug, PartialEq, Eq)]
pub struct ValidatedFirstCommitGetterParams {
    base: String,
    head: String,
}

impl ValidatedFirstCommitGetterParams {
    #[verifier::type_invariant]
    spec fn valid(self) -> bool {
        valid_sha_pair(self.base@, self.head@)
    }

    /// The base hash.
    pub closed spec fn base_spec(self) -> Seq<char> {
        self.base@
    }

    /// The head hash.
    pub closed spec fn head_spec(self) -> Seq<char> {
        self.head@
    }

    /// Accepts the hashes when both are non-empty and they differ.
    /// Emptiness is checked first.
    pub fn new(base: String, head: String) -> (r: Result<Self, ValidatedFirstCommitGetterParamsError>)
        ensures
            r is Ok <==> valid_sha_pair(base@, head@),
            r matches Ok(p) ==> p.base_spec() == base@ && p.head_spec() == head@,
            r matches Err(e) ==> (e is EmptyBaseOrHead <==> (base@.len() == 0 || head@.len()
                == 0)),
            r matches Err(e) ==> (e is BaseEqualsHead <==> (base@.len() > 0 && head@.len() > 0
                && base@ == head@)),
            r matches Err(e) ==> match e {
                ValidatedFirstCommitGetterParamsError::EmptyBaseOrHead(m) => m@ == debug_pair_text(
                    base@,
                    head@,
                ),
                ValidatedFirstCommitGetterParamsError::BaseEqualsHead(m) => m@ == debug_pair_text(
                    base@,
                    head@,
                ),
            },
    {
        if base.as_str().is_empty() || head.as_str().is_empty() {
            return Err(
                ValidatedFirstCommitGetterParamsError::EmptyBaseOrHead(
                    pair_description(&base, &head),
                ),
            );
        }
        if base == head {
            return Err(
                ValidatedFirstCommitGetterParamsError::BaseEqualsHead(
                    pair_description(&base, &head),
                ),
            );
        }
        Ok(ValidatedFirstCommitGetterParams { base, head })
    }

    /// The base hash.
    pub fn get_base(&self) -> (r: String)
        ensures
            r@ == self.base_spec(),
            r@.len() > 0,
    {
        proof {
            use_type_invariant(self);
        }
        self.base.clone()
    }

    /// The head hash.
    pub fn get_head(&self) -> (r: String)
        ensures
            r@ == self.head_spec(),
            r@.len() > 0,
            r@ != self.base_spec(),
    {
        proof {
            use_type_invariant(self);
        }
        self.head.clone()
    }
}

/// The first commit after a base commit.
#[derive(Debug, PartialEq, Eq)]
pub struct FirstCommitItem {
    pub sha: String,
    pub message: String,
    pub resource_path: String,
    pub committed_at: DateTimeUtc,
    pub creator_login: String,
}

/// Why the first commit could not be had.
#[derive(Debug, PartialEq, Eq)]
pub enum FirstCommitGetterError {
    /// The API client could not be built or the request failed.
    CannotBuildAPIClient(String),
    /// The API answered with a status other than success.
    InvalidAPIResponse(String),
    /// The answer could not be read as JSON.
    CannotParseResponse(String),
    /// The named field was missing in the answer, or unreadable.
    CannotGotFromJson(String),
}

/// The fields of the first listed commit of a compare answer, each present
/// when the answer holds it as text.
pub struct FirstCommitFields {
    /// `sha`
    pub sha: Option<String>,
    /// `commit.message`
    pub message: Option<String>,
    /// `html_url`
    pub html_url: Option<String>,
    /// `commit.author.date`, an RFC 3339 date and time
    pub date: Option<String>,
    /// `author.login`
    pub login: Option<String>,
}

/// Whether chrono reads `text` as an RFC 3339 instant that a `DateTimeUtc` holds.
pub open spec fn readable_rfc3339(text: Seq<char>) -> bool {
    chrono_rfc3339_timestamp(text) matches Some(t) && -TIMESTAMP_LIMIT <= t <= TIMESTAMP_LIMIT
}

/// The first field, in the order the answer is read, that is missing or
/// unreadable: `commits` when no commit is listed; `None` when all are there.
pub open spec fn first_missing_field(first: Option<FirstCommitFields>) -> Option<Seq<char>> {
    match first {
        None => Some("commits"@),
        Some(f) => if f.sha is None {
            Some("sha"@)
        } else if f.message is None {
            Some("message"@)
        } else if f.html_url is None {
            Some("html_url"@)
        } else if !(f.date matches Some(d) && readable_rfc3339(d@)) {
            Some("date"@)
        } else if f.login is None {
            Some("login"@)
        } else {
            None
        },
    }
}

/// `item` is the commit that the complete fields `f` describe.
pub open spec fn is_item_of_fields(item: FirstCommitItem, f: FirstCommitFields) -> bool {
    &&& f.sha matches Some(s) && item.sha@ == s@
    &&& f.message matches Some(m) && item.message@ == m@
    &&& f.html_url matches Some(u) && item.resource_path@ == u@
    &&& f.date matches Some(d) && chrono_rfc3339_timestamp(d@) == Some(
        item.committed_at.secs() as i64,
    )
    &&& f.login matches Some(l) && item.creator_login@ == l@
}

fn missing(field: &str) -> (r: Result<FirstCommitItem, FirstCommitGetterError>)
    ensures
        r matches Err(FirstCommitGetterError::CannotGotFromJson(m)) && m@ == field@,
{
    Err(FirstCommitGetterError::CannotGotFromJson(field.to_owned()))
}

/// Reads the first commit out of the first listed commit of a compare
/// answer (`None` when the answer lists none); a missing or unreadable field
/// is refused by its name.
pub fn first_commit_from_fields(first: Option<FirstCommitFields>) -> (r: Result<
    FirstCommitItem,
    FirstCommitGetterError,
>)
    ensures
        match first_missing_field(first) {
            Some(field) => r matches Err(FirstCommitGetterError::CannotGotFromJson(m)) && m@
                == field,
            None => r matches Ok(item) && is_item_of_fields(item, first->0),
        },
{
    let f = match first {
        None => {
            return missing("commits");
        },
        Some(f) => f,
    };
    let sha = match f.sha {
        None => {
            return missing("sha");
        },
        Some(s) => s,
    };
    let message = match f.message {
        None => {
            return missing("message");
        },
        Some(m) => m,
    };
    let html_url = match f.html_url {
        None => {
            return missing("html_url");
        },
        Some(u) => u,
    };
    let committed_at = match f.date {
        None => {
            return missing("date");
        },
        Some(d) => match parse_rfc3339_timestamp(d.as_str()) {
            Err(_) => {
                return missing("date");
            },
            Ok(t) => match DateTimeUtc::from_timestamp(t) {
                None => {
                    return missing("date");
                },
                Some(at) => at,
            },
        },
    };
    let login = match f.login {
        None => {
            return missing("login");
        },
        Some(l) => l,
    };
    Ok(
        FirstCommitItem {
            sha,
            message,
            resource_path: html_url,
            committed_at,
            creator_login: login,
        },
    )
}

/// Asks the code host's compare API of one repository for the first commit
/// after a base commit.
pub struct FirstCommitGetterWithGitHub {
    pub github_personal_token: String,
    pub github_owner: String,
    pub github_repo: String,
}

impl FirstCommitGetterWithGitHub {
    /// The address to ask for the commits between the base and the head.
    pub fn compare_url(&self, params: &ValidatedFirstCommitGetterParams) -> (r: String)
        ensures
            r@ == compare_url_text(
                self.github_owner@,
                self.github_repo@,
                params.base_spec(),
                params.head_spec(),
            ),
    {
        let base = params.get_base();
        let head = params.get_head();
        compare_url(self.github_owner.as_str(), self.github_repo.as_str(), base.as_str(), head.as_str())
    }

    /// The first commit of a compare answer with HTTP status `status`.
    pub fn first_commit_of_answer(&self, status: u16, first: Option<FirstCommitFields>) -> (r:
        Result<FirstCommitItem, FirstCommitGetterError>)
        ensures
            !is_http_success(status) ==> (r matches Err(
                FirstCommitGetterError::InvalidAPIResponse(m),
            ) && m@ == status_text(status)),
            is_http_success(status) ==> match first_missing_field(first) {
                Some(field) => r matches Err(FirstCommitGetterError::CannotGotFromJson(m)) && m@
                    == field,
                None => r matches Ok(item) && is_item_of_fields(item, first->0),
            },
    {
        if 200 <= status && status < 300 {
            first_commit_from_fields(first)
        } else {
            Err(FirstCommitGetterError::InvalidAPIResponse(status_description(status)))
        }
    }
}

/// A getter that answers every pair with one commit, committed at the
/// instant written in `committed_at_str` (`2023-01-01 00:00:00` or `2023-01-01`).
pub struct FirstCommitGetterWithMock {
    pub committed_at_str: String,
}

/// Whether `text` names an instant in one of the two accepted forms.
pub open spec fn readable_instant(text: Seq<char>) -> bool {
    parsed_utc_secs(text) matches Some(t) && -TIMESTAMP_LIMIT <= t <= TIMESTAMP_LIMIT
}

impl FirstCommitGetterWithMock {
    /// The one commit this getter answers with: hash `sha`, message
    /// `message`, address `resource_path`, author `creator_login`.
    pub fn get(&self, _params: ValidatedFirstCommitGetterParams) -> (r: Result<
        FirstCommitItem,
        FirstCommitGetterError,
    >)
        requires
            readable_instant(self.committed_at_str@),
        ensures
            r matches Ok(item) && {
                &&& item.sha@ == "sha"@
                &&& item.message@ == "message"@
                &&& item.resource_path@ == "resource_path"@
                &&& item.creator_login@ == "creator_login"@
                &&& parsed_utc_secs(self.committed_at_str@) == Some(item.committed_at.secs())
            },
    {
        match parse_datetime_utc(self.committed_at_str.as_str()) {
            Some(committed_at) => Ok(
                FirstCommitItem {
                    sha: "sha".to_owned(),
                    message: "message".to_owned(),
                    resource_path: "resource_path".to_owned(),
                    committed_at,
                    creator_login: "creator_login".to_owned(),
                },
            ),
            None => Err(FirstCommitGetterError::CannotGotFromJson("date".to_owned())),
        }
    }
}

} // verus!
