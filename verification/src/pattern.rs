//! Regular expressions: the compiled pattern of the `regex` crate, and
//! what a search with it returns, as plain text values.

use regex::Regex;
use vstd::prelude::*;

verus! {

/// `regex::Regex`: a compiled regular expression. Nothing is known of
/// what is inside.
#[verifier::external_type_specification]
#[verifier::external_body]
pub struct ExRegex(Regex);

/// The pattern text that a compiled regular expression was built from.
pub uninterp spec fn pattern_text(re: Regex) -> Seq<char>;

/// Whether `Regex::new` takes a pattern text: it is a well-formed
/// pattern, and what it compiles to is within the engine's default
/// limits.
pub uninterp spec fn compiles(pattern: Seq<char>) -> bool;

/// Whether a compiled regular expression was built by `Regex::new`, that
/// is with the options that the pattern text alone asks for.
pub uninterp spec fn has_default_options(re: Regex) -> bool;

/// Whether a compiled regular expression is what `Regex::new` makes of
/// `pattern`.
pub open spec fn compiled_from(re: Regex, pattern: Seq<char>) -> bool {
    pattern_text(re) == pattern && has_default_options(re)
}

/// What a search for a pattern finds in a haystack: nothing, or the
/// text of each capture group of the leftmost match, group 0 being the
/// whole match and a group that took no part being `None`.
pub uninterp spec fn capture_groups(pattern: Seq<char>, haystack: Seq<char>) -> Option<
    Seq<Option<Seq<char>>>,
>;

/// The text of capture group `i`, or `None` where the group took no part
/// in the match or the pattern has no such group.
pub open spec fn group(groups: Seq<Option<Seq<char>>>, i: int) -> Option<Seq<char>> {
    if 0 <= i < groups.len() {
        groups[i]
    } else {
        None
    }
}

/// `Regex::new`: compiles a pattern, with the engine's default options.
/// Whether the engine takes a pattern depends on the pattern alone; a
/// regex that it hands out remembers the text it was compiled from.
#[verifier::external_body]
pub(crate) fn compile(pattern: &str) -> (r: Option<Regex>)
    ensures
        r is Some <==> compiles(pattern@),
        r matches Some(re) ==> pattern_text(re) == pattern@ && has_default_options(re),
{
    Regex::new(pattern).ok()
}

/// `Regex::as_str`: the pattern text that the regex was compiled from.
#[verifier::external_body]
pub(crate) fn source_of(re: &Regex) -> (text: &str)
    ensures
        text@ == pattern_text(*re),
{
    re.as_str()
}

/// `Regex::captures`: searches a haystack for the leftmost match and
/// hands out the text of every capture group. For a regex with default
/// options the result depends on the pattern text and the haystack
/// alone.
#[verifier::external_body]
pub(crate) fn captures(re: &Regex, haystack: &str) -> (r: Option<Vec<Option<String>>>)
    requires
        has_default_options(*re),
    ensures
        r.deep_view() == capture_groups(pattern_text(*re), haystack@),
{
    re.captures(haystack).map(|c| c.iter().map(|m| m.map(|g| g.as_str().to_string())).collect())
}

/// Looks up capture group `i` in the groups of a match.
pub fn group_at(groups: &Vec<Option<String>>, i: usize) -> (r: Option<&str>)
    ensures
        r.deep_view() == group(groups.deep_view(), i as int),
{
    if i < groups.len() {
        match &groups[i] {
            Some(s) => Some(s.as_str()),
            None => None,
        }
    } else {
        None
    }
}

} // verus!
