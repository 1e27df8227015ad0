//! The boundary to the `regex` crate.
//!
//! The items marked as trusted state what the library takes on trust from
//! `regex`; the rest of the library is verified against these statements.
//!
//! What a regular expression finds depends on the text of its pattern and on
//! the options it was built with. A `Pattern` is only ever built by
//! `regex::Regex::new`, which takes the text alone, so what a `Pattern` finds
//! is a function of its text.

use crate::text::is_char_boundary;
use vstd::prelude::*;

verus! {

/// A compiled regular expression of the `regex` crate. Opaque to proofs.
#[verifier::external_type_specification]
#[verifier::external_body]
pub struct ExRegex(regex::Regex);

/// The error of the `regex` crate for a pattern that does not compile.
#[verifier::external_type_specification]
#[verifier::external_body]
pub struct ExRegexError(regex::Error);

/// Whether `regex::Regex::new` accepts `pattern`.
pub uninterp spec fn pattern_is_valid(pattern: Seq<char>) -> bool;

/// The pattern text that `re` was compiled from (`regex::Regex::as_str`).
pub uninterp spec fn pattern_source(re: regex::Regex) -> Seq<char>;

/// Start and end, as byte offsets into the UTF-8 form of `haystack`, of the
/// successive non-overlapping matches that `regex::Regex::find_iter` yields
/// for the regex that `regex::Regex::new` makes of `pattern`.
pub uninterp spec fn match_spans(pattern: Seq<char>, haystack: Seq<char>) -> Seq<(usize, usize)>;

/// What `regex::Regex::captures` finds in `haystack` for the regex that
/// `regex::Regex::new` makes of `pattern`: nothing, or for every capture group
/// (group 0 is the whole match) the byte offsets of its start and end if it
/// took part in the match.
pub uninterp spec fn capture_spans(pattern: Seq<char>, haystack: Seq<char>) -> Option<
    Seq<Option<(usize, usize)>>,
>;

/// The capture groups of an executable capture result, as a sequence.
pub open spec fn groups_view(groups: Option<Vec<Option<(usize, usize)>>>) -> Option<
    Seq<Option<(usize, usize)>>,
> {
    match groups {
        Some(v) => Some(v@),
        None => None,
    }
}

/// A regular expression compiled by `regex::Regex::new`. The field is
/// private and `Pattern::new` is the only function that fills it, so no
/// `Pattern` holds a regex that was built with other options.
#[derive(Debug)]
pub struct Pattern {
    re: regex::Regex,
}

/// The spans are those of successive matches in `haystack`: each lies on
/// character boundaries and does not end before it starts, and each starts
/// after the start and not before the end of the one before it.
pub open spec fn successive_spans(haystack: Seq<char>, spans: Seq<(usize, usize)>) -> bool {
    &&& forall|i: int|
        0 <= i < spans.len() ==> {
            &&& (#[trigger] spans[i]).0 <= spans[i].1
            &&& is_char_boundary(haystack, spans[i].0 as nat)
            &&& is_char_boundary(haystack, spans[i].1 as nat)
        }
    &&& forall|i: int, j: int|
        0 <= i < j < spans.len() ==> {
            &&& (#[trigger] spans[i]).1 <= (#[trigger] spans[j]).0
            &&& spans[i].0 < spans[j].0
        }
}

/// Calls `regex::Regex::new`. Trusted: the call succeeds exactly on the
/// patterns that `pattern_is_valid` names, and the compiled regex remembers
/// the pattern it was made from.
#[verifier::external_body]
fn compile(pattern: &str) -> (r: Result<regex::Regex, regex::Error>)
    ensures
        r is Ok <==> pattern_is_valid(pattern@),
        r is Ok ==> pattern_source(r->Ok_0) == pattern@,
{
    regex::Regex::new(pattern)
}

/// `regex::Regex::clone`: the copy remembers the same pattern text.
pub assume_specification[ <regex::Regex as Clone>::clone ](re: &regex::Regex) -> (r: regex::Regex)
    ensures
        pattern_source(r) == pattern_source(*re),
;

/// Calls `regex::Regex::find_iter` on the regex of a `Pattern` and collects
/// the byte offsets of every match. Trusted: the result is the one that
/// `match_spans` names for the text of the pattern. Every offset lies on a
/// character boundary and no match ends before it starts. Matches do not
/// overlap, and an empty match never stands where the match before it
/// ended, so each match starts after the one before it started.
#[verifier::external_body]
pub(crate) fn find_spans(pattern: &Pattern, haystack: &str) -> (spans: Vec<(usize, usize)>)
    ensures
        spans@ == match_spans(pattern.source(), haystack@),
        successive_spans(haystack@, spans@),
{
    pattern.re.find_iter(haystack).map(|m| (m.start(), m.end())).collect()
}

/// Calls `regex::Regex::captures` on the regex of a `Pattern` and collects
/// the byte offsets of every capture group. Trusted: the result is the one
/// that `capture_spans` names for the text of the pattern.
#[verifier::external_body]
pub(crate) fn capture_groups(pattern: &Pattern, haystack: &str) -> (groups: Option<
    Vec<Option<(usize, usize)>>,
>)
    ensures
        groups_view(groups) == capture_spans(pattern.source(), haystack@),
{
    pattern.re.captures(haystack).map(|caps| caps.iter().map(|g| g.map(|m| (m.start(), m.end()))).collect())
}

impl Clone for Pattern {
    fn clone(&self) -> (r: Self)
        ensures
            r.source() == self.source(),
    {
        Pattern { re: self.re.clone() }
    }
}

impl Pattern {
    /// The text that the pattern was compiled from.
    pub closed spec fn source(&self) -> Seq<char> {
        pattern_source(self.re)
    }

    /// Compiles `pattern`. Succeeds exactly when the text is a valid
    /// regular expression; the error is the one of the `regex` crate.
    pub fn new(pattern: &str) -> (r: Result<Pattern, regex::Error>)
        ensures
            r is Ok <==> pattern_is_valid(pattern@),
            r is Ok ==> r->Ok_0.source() == pattern@,
    {
        match compile(pattern) {
            Ok(re) => Ok(Pattern { re }),
            Err(error) => Err(error),
        }
    }
}

} // verus!
