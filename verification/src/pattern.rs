//! Searching a text with a regular expression.

use vstd::prelude::*;

verus! {

/// Whether a regular expression, given by its source text, is found in a
/// haystack: `Some(true)` or `Some(false)` where the source compiles, `None`
/// where it does not.
pub uninterp spec fn regex_search(pattern: Seq<char>, haystack: Seq<char>) -> Option<bool>;

/// Calls `regex::Regex::new` on `pattern` and, where that gives a regex,
/// `regex::Regex::is_match` on `haystack`. Both depend on their arguments
/// alone; nothing is claimed of the answer but that it is `regex_search` of
/// the two texts. A pattern that does not compile comes back as `None`.
#[verifier::external_body]
pub(crate) fn search(pattern: &str, haystack: &str) -> (found: Option<bool>)
    ensures
        found == regex_search(pattern@, haystack@),
{
    match regex::Regex::new(pattern) {
        Ok(re) => Some(re.is_match(haystack)),
        Err(_) => None,
    }
}

} // verus!
