//! The first commit between two commits, asked for by owner, repository,
//! base and head as they come, with the hashes checked before the request.

use vstd::prelude::*;
use crate::calendar::{chrono_rfc3339_error, chrono_rfc3339_timestamp, parse_rfc3339_timestamp};
use crate::first_commit_getter::{
    first_commit_from_fields, first_missing_field, is_item_of_fields, readable_rfc3339,
    FirstCommitFields, FirstCommitGetterError, FirstCommitItem,
};
use crate::two_commits_comparer::{
    compare_url, compare_url_text, debug_pair_text, is_http_success, pair_description,
    status_description, status_text, valid_sha_pair,
};

verus! {

/// What to compare: a repository and two commit hashes.
#[derive(Debug, PartialEq, Eq)]
pub struct FirstCommitFromCompareParams {
    pub owner: String,
    pub repo: String,
    pub base: String,
    pub head: String,
}

/// Why the first commit could not be had.
#[derive(Debug, PartialEq, Eq)]
pub enum GetFirstCommitFromCompareError {
    /// The API client could not be built.
    CreateAPIClientError(String),
    /// The base or the head hash is empty; the message shows both.
    EmptyBaseOrHead(String),
    /// The base and the head hash are the same; the message shows both.
    BaseEqualsHead(String),
    /// The request failed.
    APIClientError(String),
    /// The API answered with a status other than success.
    APIResponseError(String),
    /// The answer, or the commit's date in it, could not be read.
    APIResponseParseError(String),
    /// The named field was missing in the answer.
    CannotGotFromJsonError(String),
}

/// The address to ask for the commits between `params`' base and head,
/// once the hashes are checked: both non-empty (checked first) and different.
pub fn first_commit_compare_url(params: &FirstCommitFromCompareParams) -> (r: Result<
    String,
    GetFirstCommitFromCompareError,
>)
    ensures
        r is Ok <==> valid_sha_pair(params.base@, params.head@),
        r matches Ok(u) ==> u@ == compare_url_text(
            params.owner@,
            params.repo@,
            params.base@,
            params.head@,
        ),
        r matches Err(e) ==> (e is EmptyBaseOrHead <==> (params.base@.len() == 0
            || params.head@.len() == 0)),
        r matches Err(e) ==> (e is BaseEqualsHead <==> (params.base@.len() > 0
            && params.head@.len() > 0 && params.base@ == params.head@)),
        r matches Err(e) ==> match e {
            GetFirstCommitFromCompareError::EmptyBaseOrHead(m) => m@ == debug_pair_text(
                params.base@,
                params.head@,
            ),
            GetFirstCommitFromCompareError::BaseEqualsHead(m) => m@ == debug_pair_text(
                params.base@,
                params.head@,
            ),
            _ => false,
        },
{
    if params.base.as_str().is_empty() || params.head.as_str().is_empty() {
        return Err(
            GetFirstCommitFromCompareError::EmptyBaseOrHead(
                pair_description(&params.base, &params.head),
            ),
        );
    }
    if params.base == params.head {
        return Err(
            GetFirstCommitFromCompareError::BaseEqualsHead(
                pair_description(&params.base, &params.head),
            ),
        );
    }
    Ok(
        compare_url(
            params.owner.as_str(),
            params.repo.as_str(),
            params.base.as_str(),
            params.head.as_str(),
        ),
    )
}

/// The message of a date that chrono reads but that lies outside the
/// instants the library holds.
pub open spec fn date_range_error_text() -> Seq<char> {
    "date: out of range"@
}

/// The message of an unreadable date `d`: chrono's parse error, or that the
/// instant is out of range.
pub open spec fn date_error_text(d: Seq<char>) -> Seq<char> {
    if chrono_rfc3339_timestamp(d) is None {
        chrono_rfc3339_error(d)
    } else {
        date_range_error_text()
    }
}

/// Whether the first listed commit has a date that cannot be read, its
/// earlier fields being there.
pub open spec fn date_unreadable(first: Option<FirstCommitFields>) -> bool {
    &&& first_missing_field(first) == Some("date"@)
    &&& first->0.date matches Some(d) && !readable_rfc3339(d@)
}

/// The first commit of a compare answer with HTTP status `status` and first
/// listed commit `first` (`None` when none is listed). A date that is there
/// but unreadable is a parse error carrying chrono's message; another missing
/// field is refused by its name.
pub fn first_commit_from_compare_answer(status: u16, first: Option<FirstCommitFields>) -> (r:
    Result<FirstCommitItem, GetFirstCommitFromCompareError>)
    ensures
        !is_http_success(status) ==> (r matches Err(
            GetFirstCommitFromCompareError::APIResponseError(m),
        ) && m@ == status_text(status)),
        is_http_success(status) ==> match first_missing_field(first) {
            Some(field) => if date_unreadable(first) {
                r matches Err(GetFirstCommitFromCompareError::APIResponseParseError(m)) && m@
                    == date_error_text(first->0.date->0@)
            } else {
                r matches Err(GetFirstCommitFromCompareError::CannotGotFromJsonError(m)) && m@
                    == field
            },
            None => r matches Ok(item) && is_item_of_fields(item, first->0),
        },
{
    if !(200 <= status && status < 300) {
        return Err(GetFirstCommitFromCompareError::APIResponseError(status_description(status)));
    }
    let date_present = match &first {
        Some(f) => f.date.is_some(),
        None => false,
    };
    let date_error: Option<String> = match &first {
        Some(f) => match &f.date {
            Some(d) => match parse_rfc3339_timestamp(d.as_str()) {
                Err(e) => Some(e),
                Ok(_) => None,
            },
            None => None,
        },
        None => None,
    };
    match first_commit_from_fields(first) {
        Ok(item) => Ok(item),
        Err(FirstCommitGetterError::CannotGotFromJson(m)) => {
            proof {
                reveal_strlit("date");
                reveal_strlit("commits");
                reveal_strlit("sha");
                reveal_strlit("message");
                reveal_strlit("html_url");
                reveal_strlit("login");
                assert("commits"@ != "date"@) by {
                    assert("commits"@.len() != "date"@.len());
                }
                assert("sha"@ != "date"@) by {
                    assert("sha"@.len() != "date"@.len());
                }
                assert("message"@ != "date"@) by {
                    assert("message"@.len() != "date"@.len());
                }
                assert("html_url"@ != "date"@) by {
                    assert("html_url"@.len() != "date"@.len());
                }
                assert("login"@ != "date"@) by {
                    assert("login"@[0] != "date"@[0]);
                }
            }
            if date_present && m == "date".to_owned() {
                match date_error {
                    Some(e) => Err(GetFirstCommitFromCompareError::APIResponseParseError(e)),
                    None => Err(
                        GetFirstCommitFromCompareError::APIResponseParseError(
                            "date: out of range".to_owned(),
                        ),
                    ),
                }
            } else {
                Err(GetFirstCommitFromCompareError::CannotGotFromJsonError(m))
            }
        },
        Err(_) => Err(GetFirstCommitFromCompareError::CannotGotFromJsonError("commits".to_owned())),
    }
}

} // verus!
