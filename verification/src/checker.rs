//! Resolution of one tag match: a (name, mode, operand) triple either
//! becomes a checker — a matcher plus the attribute it reads — or fails.

use vstd::prelude::*;

use crate::details::TagDetails;
use crate::matcher::{regex_builds, spec_matches, MatcherView, TagMatcher};
use crate::strings::{lower_of, parse_i32, spec_parse_i32, str_eq, to_lowercase};
use crate::tag_type::{is_date_bound_name, spec_collect, spec_tag_type, TagType};

verus! {

/// The search mode of a tag match: exact equality, substring containment,
/// or a regular-expression search.
#[derive(Debug, PartialEq, Eq, Structural, Clone, Copy)]
pub enum SearchType {
    Regex,
    Contains,
    Literal,
}

/// The matcher a (lower-cased name, operand, mode) triple builds:
/// - under `Regex`, the operand must compile as a regular expression;
/// - under `Contains`, the operand is taken verbatim;
/// - under `Literal`, a date-bound name needs an integer operand and
///   yields the corresponding year bound; any other name takes the
///   operand verbatim.
pub open spec fn spec_build_matcher(lowered: Seq<char>, exp: Seq<char>, st: SearchType) -> Option<
    MatcherView,
> {
    match st {
        SearchType::Regex => if regex_builds(exp) {
            Some(MatcherView::Regex(exp))
        } else {
            None
        },
        SearchType::Contains => Some(MatcherView::Contains(exp)),
        SearchType::Literal => if lowered == "beforeyear"@ || lowered == "beforedate"@ {
            match spec_parse_i32(exp) {
                Some(y) => Some(MatcherView::BeforeDate(y as int)),
                None => None,
            }
        } else if lowered == "afteryear"@ || lowered == "afterdate"@ {
            match spec_parse_i32(exp) {
                Some(y) => Some(MatcherView::AfterDate(y as int)),
                None => None,
            }
        } else {
            Some(MatcherView::Literal(exp))
        },
    }
}

/// Full resolution of a tag match from its lower-cased name, operand and
/// mode: the attribute must resolve and the matcher must build.
pub open spec fn spec_try_checker(lowered: Seq<char>, exp: Seq<char>, st: SearchType) -> Option<
    (MatcherView, TagType),
> {
    match spec_tag_type(lowered, st) {
        None => None,
        Some(tt) => match spec_build_matcher(lowered, exp, st) {
            None => None,
            Some(mv) => Some((mv, tt)),
        },
    }
}

/// A record satisfies a resolved tag match when the attribute's field is
/// present and its value satisfies the matcher.
pub open spec fn checker_accepts(cv: (MatcherView, TagType), t: crate::details::TagView) -> bool {
    match spec_collect(cv.1, t) {
        Some(val) => spec_matches(cv.0, val),
        None => false,
    }
}

/// The record predicate of a resolved tag match.
pub open spec fn accepts_fn(cv: (MatcherView, TagType)) -> spec_fn(TagDetails) -> bool {
    |t: TagDetails| checker_accepts(cv, t@)
}

/// A resolved tag match: the matcher and the attribute it reads.
pub struct TagChecker {
    matcher: TagMatcher,
    tag: TagType,
}

impl View for TagChecker {
    type V = (MatcherView, TagType);

    closed spec fn view(&self) -> (MatcherView, TagType) {
        (self.matcher@, self.tag)
    }
}

impl TagChecker {
    /// Resolves a tag match. The tag name is lower-cased first; resolution
    /// then follows [`spec_try_checker`].
    pub fn try_from(exp: String, tag: String, search_type: SearchType) -> (r: Option<Self>)
        ensures
            r is Some <==> spec_try_checker(lower_of(tag@), exp@, search_type) is Some,
            r is Some ==> r->0@ == spec_try_checker(lower_of(tag@), exp@, search_type)->0,
    {
        let lowered = to_lowercase(tag.as_str());
        match TagType::try_from(lowered.as_str(), &search_type) {
            None => None,
            Some(tt) => {
                let matcher = match search_type {
                    SearchType::Regex => {
                        if crate::matcher::regex_valid(exp.as_str()) {
                            TagMatcher::Regex(exp)
                        } else {
                            return None;
                        }
                    },
                    SearchType::Contains => TagMatcher::Contains(exp),
                    SearchType::Literal => {
                        if str_eq(lowered.as_str(), "beforeyear") || str_eq(
                            lowered.as_str(),
                            "beforedate",
                        ) {
                            match parse_i32(exp.as_str()) {
                                Some(y) => TagMatcher::BeforeDate(y),
                                None => { return None },
                            }
                        } else if str_eq(lowered.as_str(), "afteryear") || str_eq(
                            lowered.as_str(),
                            "afterdate",
                        ) {
                            match parse_i32(exp.as_str()) {
                                Some(y) => TagMatcher::AfterDate(y),
                                None => { return None },
                            }
                        } else {
                            TagMatcher::Literal(exp)
                        }
                    },
                };
                Some(TagChecker { matcher, tag: tt })
            },
        }
    }

    /// Keeps exactly the records this checker accepts, in their original
    /// order.
    pub fn filter(&self, vec: &[TagDetails]) -> (r: Vec<TagDetails>)
        ensures
            r@ == vec@.filter(accepts_fn(self@)),
    {
        let ghost pred = accepts_fn(self@);
        let n = vec.len();
        let mut out: Vec<TagDetails> = Vec::new();
        let mut i: usize = 0;
        while i < n
            invariant
                n == vec@.len(),
                0 <= i <= n,
                out@ == vec@.subrange(0, i as int).filter(pred),
                pred == accepts_fn(self@),
            decreases n - i,
        {
            proof {
                let prev = vec@.subrange(0, i as int);
                assert(vec@.subrange(0, i + 1 as int) =~= prev.push(vec@[i as int]));
                prev.lemma_filter_push(vec@[i as int], pred);
            }
            let keep = match self.tag.collect(&vec[i]) {
                Some(info) => self.matcher.matches(info),
                None => false,
            };
            if keep {
                out.push(vec[i].clone());
            }
            i += 1;
        }
        proof {
            assert(vec@.subrange(0, n as int) =~= vec@);
        }
        out
    }
}

} // verus!
