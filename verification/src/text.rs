//! Text helpers.

use vstd::prelude::*;

verus! {

/// The upper-case form of `text`, as std's `str::to_uppercase` makes it.
pub uninterp spec fn str_uppercase(text: Seq<char>) -> Seq<char>;

/// Upper-cases `text` with std's `str::to_uppercase`.
/// Trusted: the result is `str_uppercase` of the text.
#[verifier::external_body]
pub(crate) fn to_uppercase(text: &str) -> (r: String)
    ensures
        r@ == str_uppercase(text@),
{
    text.to_uppercase()
}

/// Whether the upper-case form of `text` is `expected`.
pub fn uppercase_equals(text: &str, expected: &str) -> (r: bool)
    ensures
        r == (str_uppercase(text@) == expected@),
{
    let upper = to_uppercase(text);
    let expected_string = expected.to_owned();
    upper == expected_string
}

/// The clause of a paged query that asks for the page after a cursor: empty
/// without a cursor, else `, after: "` followed by the cursor and `"`.
pub open spec fn after_clause(after: Option<Seq<char>>) -> Seq<char> {
    match after {
        Some(cursor) => ", after: \""@ + cursor + "\""@,
        None => Seq::<char>::empty(),
    }
}

/// The clause that asks for the page after `after`: empty without a cursor,
/// else `, after: "<cursor>"`.
pub fn after_clause_text(after: Option<String>) -> (r: String)
    ensures
        r@ == after_clause(match after {
            Some(c) => Some(c@),
            None => None,
        }),
{
    match after {
        Some(cursor) => {
            let mut s = ", after: \"".to_owned();
            s.append(cursor.as_str());
            s.append("\"");
            s
        },
        None => String::new(),
    }
}

} // verus!
