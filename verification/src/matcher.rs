//! Compiled matchers: the five ways a tag-match operand is held against a
//! record's field value.

use vstd::prelude::*;

use crate::strings::{parse_i32, seq_contains_sub, spec_parse_i32, str_contains, str_eq};

verus! {

/// Whether `pat` compiles as a regular expression, named here so that
/// contracts can speak of it; decided only by the wrappers below.
pub uninterp spec fn regex_builds(pat: Seq<char>) -> bool;

/// Whether the regular expression `pat` matches anywhere in `text`;
/// meaningful only when `regex_builds(pat)` holds.
pub uninterp spec fn regex_matches(pat: Seq<char>, text: Seq<char>) -> bool;

/// Relies on `regex::Regex::new`: whether a pattern compiles is a function
/// of the pattern text alone.
#[verifier::external_body]
pub(crate) fn regex_valid(pat: &str) -> (r: bool)
    ensures
        r == regex_builds(pat@),
{
    regex::Regex::new(pat).is_ok()
}

/// Relies on `regex::Regex::new` and `regex::Regex::is_match`: compiling a
/// pattern succeeds exactly when the pattern is valid, and whether the
/// compiled expression matches anywhere in the haystack is a function of
/// the pattern and haystack texts alone.
#[verifier::external_body]
fn regex_is_match(pat: &str, text: &str) -> (r: Option<bool>)
    ensures
        r is Some <==> regex_builds(pat@),
        r is Some ==> r->0 == regex_matches(pat@, text@),
{
    regex::Regex::new(pat).ok().map(|re| re.is_match(text))
}

/// A matcher, one of: a regular-expression search, a substring test, exact
/// equality, or one of the two year bounds. The `Regex` variant holds the
/// pattern text; it is compiled anew for each match.
#[derive(Debug)]
pub enum TagMatcher {
    Regex(String),
    Contains(String),
    Literal(String),
    AfterDate(i32),
    BeforeDate(i32),
}

/// The mathematical content of a matcher.
pub enum MatcherView {
    Regex(Seq<char>),
    Contains(Seq<char>),
    Literal(Seq<char>),
    AfterDate(int),
    BeforeDate(int),
}

impl View for TagMatcher {
    type V = MatcherView;

    open spec fn view(&self) -> MatcherView {
        match self {
            TagMatcher::Regex(p) => MatcherView::Regex(p@),
            TagMatcher::Contains(s) => MatcherView::Contains(s@),
            TagMatcher::Literal(s) => MatcherView::Literal(s@),
            TagMatcher::AfterDate(y) => MatcherView::AfterDate(*y as int),
            TagMatcher::BeforeDate(y) => MatcherView::BeforeDate(*y as int),
        }
    }
}

/// Whether a field value satisfies a matcher:
/// - `Literal(s)` asks for exact equality with `s`;
/// - `Contains(s)` asks for `s` to occur as a substring;
/// - `Regex(p)` asks for a match of `p` anywhere in the value (false when
///   the pattern does not compile);
/// - `AfterDate(y)` reads the value as an integer and asks for it to be
///   strictly greater than `y`; `BeforeDate(y)` asks for less-or-equal;
///   a value that does not parse as an integer never matches.
pub open spec fn spec_matches(m: MatcherView, v: Seq<char>) -> bool {
    match m {
        MatcherView::Regex(p) => regex_builds(p) && regex_matches(p, v),
        MatcherView::Contains(s) => seq_contains_sub(v, s),
        MatcherView::Literal(s) => v == s,
        MatcherView::AfterDate(y) => match spec_parse_i32(v) {
            Some(n) => n > y,
            None => false,
        },
        MatcherView::BeforeDate(y) => match spec_parse_i32(v) {
            Some(n) => n <= y,
            None => false,
        },
    }
}

impl TagMatcher {
    /// Holds a field value against this matcher, exactly as
    /// [`spec_matches`] describes.
    pub fn matches(&self, info: &str) -> (r: bool)
        ensures
            r == spec_matches(self@, info@),
    {
        match self {
            TagMatcher::Regex(p) => match regex_is_match(p.as_str(), info) {
                Some(b) => b,
                None => false,
            },
            TagMatcher::Contains(s) => str_contains(info, s.as_str()),
            TagMatcher::Literal(s) => str_eq(info, s.as_str()),
            TagMatcher::AfterDate(y) => match parse_i32(info) {
                Some(n) => n > *y,
                None => false,
            },
            TagMatcher::BeforeDate(y) => match parse_i32(info) {
                Some(n) => n <= *y,
                None => false,
            },
        }
    }
}

} // verus!
