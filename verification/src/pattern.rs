//! Matching of regular expressions, done by the `regex` crate.

use vstd::prelude::*;

verus! {

/// The text that capture group `group` of `pattern` spans in the leftmost
/// match that the `regex` crate finds in `haystack`. It is `None` where the
/// pattern does not compile, where nothing matches, or where the group took
/// no part in the match.
pub uninterp spec fn regex_capture(pattern: Seq<char>, haystack: Seq<char>, group: nat) -> Option<
    Seq<char>,
>;

/// Compiles `pattern` with `regex::Regex::new`, searches `haystack` with
/// `Regex::captures` and copies what `Captures::get(group)` spans.
///
/// Trusted: the result is `regex_capture` of the three arguments. The crate
/// compiles and searches without any state but its arguments, so equal
/// arguments give equal results.
#[verifier::external_body]
pub(crate) fn capture(pattern: &str, haystack: &str, group: usize) -> (found: Option<String>)
    ensures
        found is Some <==> regex_capture(pattern@, haystack@, group as nat) is Some,
        found matches Some(text) ==> regex_capture(pattern@, haystack@, group as nat) == Some(
            text@,
        ),
{
    let compiled = regex::Regex::new(pattern).ok()?;
    let groups = compiled.captures(haystack)?;
    groups.get(group).map(|found| found.as_str().to_string())
}

} // verus!
