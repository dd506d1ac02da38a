//! Wildcard patterns (`*` and `?`) matched by the wildmatch crate.

use vstd::prelude::*;

verus! {

/// Whether `pattern` matches the whole of `text`: `*` matches any run of
/// characters (also none), `?` matches exactly one character, and every other
/// character matches only itself.
pub open spec fn wildcard_matches(pattern: Seq<char>, text: Seq<char>) -> bool
    decreases pattern.len() + text.len(),
{
    if pattern.len() == 0 {
        text.len() == 0
    } else if pattern[0] == '*' {
        wildcard_matches(pattern.drop_first(), text) || (text.len() > 0 && wildcard_matches(
            pattern,
            text.drop_first(),
        ))
    } else {
        text.len() > 0 && (pattern[0] == '?' || pattern[0] == text[0]) && wildcard_matches(
            pattern.drop_first(),
            text.drop_first(),
        )
    }
}

/// Matches `text` against `pattern` with wildmatch's `WildMatch::new(pattern).matches(text)`.
/// Trusted: the result is `wildcard_matches(pattern, text)`, the matching rule that
/// wildmatch documents (`?` one character, `*` any run, whole text, case-sensitive).
#[verifier::external_body]
pub(crate) fn wild_match(pattern: &str, text: &str) -> (r: bool)
    ensures
        r == wildcard_matches(pattern@, text@),
{
    wildmatch::WildMatch::new(pattern).matches(text)
}

} // verus!
