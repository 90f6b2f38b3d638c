//! The evaluator: walks a query expression over a slice of records and a
//! playlist table, producing the matching records.
//!
//! The boolean scoping rule is deliberately not a textbook boolean
//! algebra. Reading the steps of an expression left to right, an `&` step
//! filters the accumulated output further, while a `|` step evaluates its
//! clause against the original input of the expression level and appends
//! the result — without removing duplicates. Any failing clause
//! (an unknown tag name, a date pseudo-tag outside a literal search, a
//! pattern that does not compile, a missing playlist) makes the whole
//! expression level yield nothing.

use vstd::prelude::*;

use crate::ast::{Clause, ClauseView, Expression, ExpressionView, QueryType, Token, TokenView};
use crate::checker::{accepts_fn, spec_try_checker, TagChecker};
use crate::details::{contains_record, TagDetails};
use crate::operator::OperatorType;
use crate::playlist::{member_fn, Playlist};
use crate::strings::{lower_of, str_eq};

verus! {

/// The first playlist in `ps` named `name`, if any.
pub open spec fn find_playlist(ps: Seq<Playlist>, name: Seq<char>) -> Option<Playlist>
    decreases ps.len(),
{
    if ps.len() == 0 {
        None
    } else if ps[0].name@ == name {
        Some(ps[0])
    } else {
        find_playlist(ps.drop_first(), name)
    }
}

/// The predicate that negation applies: keep a record when no record
/// equal to it stands in `removed`.
pub open spec fn not_removed_fn(removed: Seq<TagDetails>) -> spec_fn(TagDetails) -> bool {
    |t: TagDetails| !contains_record(removed, t)
}

pub open spec fn opt_vec_view(r: Option<Vec<TagDetails>>) -> Option<Seq<TagDetails>> {
    match r {
        Some(v) => Some(v@),
        None => None,
    }
}

/// What a tag-match token yields over input `s`: the records accepted by
/// the resolved checker, or nothing when resolution fails. Any other
/// token yields nothing here.
pub open spec fn spec_filter_tag(s: Seq<TagDetails>, t: TokenView) -> Option<Seq<TagDetails>> {
    match t {
        TokenView::TagMatch { search, name, operand } => match spec_try_checker(
            lower_of(name),
            operand,
            search,
        ) {
            None => None,
            Some(cv) => Some(s.filter(accepts_fn(cv))),
        },
        _ => None,
    }
}

/// What one token yields over input `s` and playlist table `ps`.
pub open spec fn spec_eval_token(s: Seq<TagDetails>, ps: Seq<Playlist>, t: TokenView) -> Option<
    Seq<TagDetails>,
>
    decreases t,
{
    match t {
        TokenView::TagMatch { .. } => spec_filter_tag(s, t),
        TokenView::PlaylistRef { name } => match find_playlist(ps, name) {
            None => None,
            Some(p) => Some(s.filter(member_fn(p.songs@))),
        },
        TokenView::Group(e) => spec_eval_expr(s, ps, *e),
    }
}

/// What one clause yields: its token's result, complemented within `s`
/// when the clause is negated.
pub open spec fn spec_eval_clause(s: Seq<TagDetails>, ps: Seq<Playlist>, c: ClauseView) -> Option<
    Seq<TagDetails>,
>
    decreases c,
{
    if c.negated {
        match spec_eval_token(s, ps, c.token) {
            None => None,
            Some(removed) => Some(s.filter(not_removed_fn(removed))),
        }
    } else {
        spec_eval_token(s, ps, c.token)
    }
}

/// Folds the remaining `(operator, clause)` steps over the accumulator
/// `acc`, with `s` the original input of this expression level.
pub open spec fn spec_eval_rest(
    s: Seq<TagDetails>,
    ps: Seq<Playlist>,
    rest: Seq<(OperatorType, ClauseView)>,
    acc: Seq<TagDetails>,
) -> Option<Seq<TagDetails>>
    decreases rest,
{
    if rest.len() == 0 {
        Some(acc)
    } else {
        let (op, c) = rest[0];
        match op {
            OperatorType::AND => match spec_eval_clause(acc, ps, c) {
                None => None,
                Some(narrowed) => spec_eval_rest(s, ps, rest.drop_first(), narrowed),
            },
            OperatorType::OR => match spec_eval_clause(s, ps, c) {
                None => None,
                Some(more) => spec_eval_rest(s, ps, rest.drop_first(), acc + more),
            },
        }
    }
}

/// What a whole expression level yields over input `s`.
pub open spec fn spec_eval_expr(s: Seq<TagDetails>, ps: Seq<Playlist>, e: ExpressionView) -> Option<
    Seq<TagDetails>,
>
    decreases e,
{
    match spec_eval_clause(s, ps, e.first) {
        None => None,
        Some(first) => spec_eval_rest(s, ps, e.rest, first),
    }
}

/// Evaluates a tag-match token: resolves it and filters `vec`; yields
/// nothing when resolution fails or the token is not a tag match.
pub fn filter_tag(vec: &[TagDetails], tag: &Token) -> (r: Option<Vec<TagDetails>>)
    ensures
        opt_vec_view(r) == spec_filter_tag(vec@, tag@),
{
    match tag {
        Token::TagMatch { search, name, operand } => {
            match TagChecker::try_from(operand.clone(), name.clone(), *search) {
                None => None,
                Some(checker) => Some(checker.filter(vec)),
            }
        },
        _ => None,
    }
}

/// Evaluates one token against `vec` and the playlist table.
pub fn filter_token(vec: &[TagDetails], playlists: &[Playlist], token: &Token) -> (r: Option<
    Vec<TagDetails>,
>)
    ensures
        opt_vec_view(r) == spec_eval_token(vec@, playlists@, token@),
    decreases token,
{
    match token {
        Token::TagMatch { .. } => filter_tag(vec, token),
        Token::PlaylistRef { name } => {
            let n = playlists.len();
            proof {
                assert(playlists@.skip(0) =~= playlists@);
            }
            let mut i: usize = 0;
            while i < n
                invariant
                    n == playlists@.len(),
                    0 <= i <= n,
                    token@ == (TokenView::PlaylistRef { name: name@ }),
                    find_playlist(playlists@, name@) == find_playlist(
                        playlists@.skip(i as int),
                        name@,
                    ),
                decreases n - i,
            {
                proof {
                    let tail = playlists@.skip(i as int);
                    assert(tail[0] == playlists@[i as int]);
                    assert(tail.drop_first() =~= playlists@.skip(i + 1 as int));
                }
                if str_eq(playlists[i].name.as_str(), name.as_str()) {
                    proof {
                        let tail = playlists@.skip(i as int);
                        assert(find_playlist(tail, name@) == Some(tail[0]));
                    }
                    return Some(playlists[i].filter(vec));
                }
                i += 1;
            }
            proof {
                assert(playlists@.skip(n as int).len() == 0);
            }
            None
        },
        Token::Group(e) => filter_query_expr(vec, playlists, e),
    }
}

/// Evaluates one clause: a negated clause keeps the records of `vec` that
/// its token's result does not contain.
pub fn filter_maybe_not_token(vec: &[TagDetails], playlists: &[Playlist], clause: &Clause) -> (r:
    Option<Vec<TagDetails>>)
    ensures
        opt_vec_view(r) == spec_eval_clause(vec@, playlists@, clause@),
    decreases clause,
{
    if clause.negated {
        let removed = match filter_token(vec, playlists, &clause.token) {
            None => { return None },
            Some(rm) => rm,
        };
        let ghost pred = not_removed_fn(removed@);
        let n = vec.len();
        let mut out: Vec<TagDetails> = Vec::new();
        let mut i: usize = 0;
        while i < n
            invariant
                n == vec@.len(),
                0 <= i <= n,
                out@ == vec@.subrange(0, i as int).filter(pred),
                pred == not_removed_fn(removed@),
            decreases n - i,
        {
            proof {
                let prev = vec@.subrange(0, i as int);
                assert(vec@.subrange(0, i + 1 as int) =~= prev.push(vec@[i as int]));
                prev.lemma_filter_push(vec@[i as int], pred);
            }
            if !contains_record_exec(&removed, &vec[i]) {
                out.push(vec[i].clone());
            }
            i += 1;
        }
        proof {
            assert(vec@.subrange(0, n as int) =~= vec@);
        }
        Some(out)
    } else {
        filter_token(vec, playlists, &clause.token)
    }
}

/// Membership of a record in a list, by structural equality.
pub fn contains_record_exec(v: &Vec<TagDetails>, t: &TagDetails) -> (r: bool)
    ensures
        r == contains_record(v@, *t),
{
    let n = v.len();
    let mut i: usize = 0;
    while i < n
        invariant
            n == v@.len(),
            0 <= i <= n,
            forall|k: int| 0 <= k < i ==> v@[k]@ != t@,
        decreases n - i,
    {
        if v[i] == *t {
            return true;
        }
        i += 1;
    }
    false
}

/// Evaluates one expression level over `vec`, left to right: `&` narrows
/// the accumulated output, `|` appends its clause's result over the
/// original `vec`; a failing clause yields nothing for the whole level.
pub fn filter_query_expr(vec: &[TagDetails], playlists: &[Playlist], expr: &Expression) -> (r:
    Option<Vec<TagDetails>>)
    ensures
        opt_vec_view(r) == spec_eval_expr(vec@, playlists@, expr@),
    decreases expr,
{
    let mut output = match filter_maybe_not_token(vec, playlists, &expr.first) {
        None => { return None },
        Some(o) => o,
    };
    let n = expr.rest.len();
    proof {
        crate::ast::lemma_rest_views(expr.rest@);
        assert(expr@.rest.skip(0) =~= expr@.rest);
    }
    let mut i: usize = 0;
    while i < n
        invariant
            n == expr.rest@.len(),
            0 <= i <= n,
            spec_eval_rest(vec@, playlists@, expr@.rest.skip(i as int), output@) == spec_eval_expr(
                vec@,
                playlists@,
                expr@,
            ),
        decreases n - i,
    {
        proof {
            crate::ast::lemma_rest_views(expr.rest@);
            let tail = expr@.rest.skip(i as int);
            assert(tail[0] == expr@.rest[i as int]);
            assert(expr@.rest[i as int] == (expr.rest@[i as int].0, expr.rest@[i as int].1@));
            assert(tail.drop_first() =~= expr@.rest.skip(i + 1 as int));
        }
        let step = &expr.rest[i];
        match step.0 {
            OperatorType::AND => {
                let narrowed = match filter_maybe_not_token(output.as_slice(), playlists, &step.1) {
                    None => { return None },
                    Some(o) => o,
                };
                output = narrowed;
            },
            OperatorType::OR => {
                let mut more = match filter_maybe_not_token(vec, playlists, &step.1) {
                    None => { return None },
                    Some(o) => o,
                };
                output.append(&mut more);
            },
        }
        i += 1;
    }
    proof {
        crate::ast::lemma_rest_views(expr.rest@);
        assert(expr@.rest.skip(n as int).len() == 0);
    }
    Some(output)
}

/// What a whole query yields over `songs` and `ps`: nothing on a parse
/// failure or a failing clause, else the matching records.
pub open spec fn spec_process(songs: Seq<TagDetails>, ps: Seq<Playlist>, q: Seq<char>) -> Option<
    Seq<TagDetails>,
> {
    match crate::parser::spec_parse_query(q) {
        None => None,
        Some((_, e)) => spec_eval_expr(songs, ps, e),
    }
}

/// Parses `query` and evaluates it over `songs` and `playlists`. Yields
/// `None` on a parse failure, and also when any clause fails to resolve —
/// callers treat both as an empty result.
pub fn process(songs: &[TagDetails], playlists: &[Playlist], query: &str) -> (r: Option<
    Vec<TagDetails>,
>)
    ensures
        opt_vec_view(r) == spec_process(songs@, playlists@, query@),
{
    match crate::parser::ExprParser::parse_query(query) {
        None => None,
        Some((_, e)) => filter_query_expr(songs, playlists, &e),
    }
}

/// The output mode a query selects, if it parses.
pub open spec fn spec_query_type(q: Seq<char>) -> Option<QueryType> {
    match crate::parser::spec_parse_query(q) {
        None => None,
        Some((m, _)) => Some(m),
    }
}

/// Reads the output mode off a query: `Play` for bare paths, `Index` for
/// full records; `None` when the query does not parse.
pub fn get_type(query: &str) -> (r: Option<QueryType>)
    ensures
        r == spec_query_type(query@),
{
    match crate::parser::ExprParser::parse_query(query) {
        None => None,
        Some((m, _)) => Some(m),
    }
}

} // verus!
