//! Body patterns.
//!
//! A target's body expectation is kept as the pattern text; compiling it and
//! searching a body with it are done by the `regex` crate behind the trusted
//! items below. Which texts a pattern accepts is left abstract: `pattern_valid`
//! and `pattern_matches` name the crate's answers, and every contract in the
//! library speaks of those names.

use vstd::prelude::*;

verus! {

/// Whether `regex::Regex::new` accepts the pattern text `p`.
pub uninterp spec fn pattern_valid(p: Seq<char>) -> bool;

/// Whether a search with the pattern `p` finds a match anywhere in the
/// text `t`, as `regex::Regex::is_match` answers it for a valid `p`.
pub uninterp spec fn pattern_matches(p: Seq<char>, t: Seq<char>) -> bool;

/// Relies on `regex::Regex::new`: whether a pattern text compiles depends
/// on that text alone.
#[verifier::external_body]
pub(crate) fn pattern_is_valid(pattern: &str) -> (r: bool)
    ensures
        r == pattern_valid(pattern@),
{
    regex::Regex::new(pattern).is_ok()
}

/// Relies on `regex::Regex::new` and `regex::Regex::is_match`: for a pattern
/// that compiles, whether a search finds a match depends on the pattern and
/// the searched text alone.
#[verifier::external_body]
pub(crate) fn pattern_search(pattern: &str, text: &str) -> (r: bool)
    requires
        pattern_valid(pattern@),
    ensures
        r == pattern_matches(pattern@, text@),
{
    match regex::Regex::new(pattern) {
        Ok(re) => re.is_match(text),
        Err(_) => false,
    }
}

/// Searches `text` with `pattern`: `Some(found)` when the pattern compiles,
/// `None` when it does not.
pub fn pattern_found(pattern: &str, text: &str) -> (r: Option<bool>)
    ensures
        r is Some <==> pattern_valid(pattern@),
        r is Some ==> r->Some_0 == pattern_matches(pattern@, text@),
{
    if pattern_is_valid(pattern) {
        Some(pattern_search(pattern, text))
    } else {
        None
    }
}

} // verus!
