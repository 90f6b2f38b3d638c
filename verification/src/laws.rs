//! Laws of the evaluator, proved for every input: an `&` step can only
//! narrow the output, a `|` step appends its clause's matches (duplicates
//! included) and is order-independent in membership, and a negated plain
//! clause splits its input exactly in two.

use vstd::prelude::*;
use vstd::seq_lib::lemma_multiset_commutative;

use crate::ast::{ClauseView, ExpressionView, TokenView};
use crate::checker::{accepts_fn, SearchType};
use crate::details::{contains_record, TagDetails};
use crate::operator::OperatorType;
use crate::playlist::{member_fn, Playlist};
use crate::processor::{
    find_playlist, not_removed_fn, spec_eval_clause, spec_eval_expr, spec_eval_rest,
    spec_eval_token,
};
use crate::strings::lower_of;

verus! {

/// `p` reads only the view of a record: records equal field for field are
/// treated alike.
pub open spec fn view_respecting(p: spec_fn(TagDetails) -> bool) -> bool {
    forall|x: TagDetails, y: TagDetails| #![trigger p(x), p(y)] x@ == y@ ==> p(x) == p(y)
}

/// The pointwise negation of a record predicate.
pub open spec fn neg_fn(p: spec_fn(TagDetails) -> bool) -> spec_fn(TagDetails) -> bool {
    |t: TagDetails| !p(t)
}

/// The per-record predicate of a non-group token, meaningful when the
/// token evaluates successfully.
pub open spec fn token_pred(ps: Seq<Playlist>, t: TokenView) -> spec_fn(TagDetails) -> bool {
    match t {
        TokenView::TagMatch { search, name, operand } => accepts_fn(
            crate::checker::spec_try_checker(lower_of(name), operand, search)->0,
        ),
        TokenView::PlaylistRef { name } => member_fn(find_playlist(ps, name)->0.songs@),
        TokenView::Group(_) => |x: TagDetails| true,
    }
}

/// A successfully evaluated non-group token yields exactly the records of
/// `s` satisfying its per-record predicate, which reads views alone.
pub proof fn lemma_token_eval_is_filter(s: Seq<TagDetails>, ps: Seq<Playlist>, t: TokenView)
    requires
        !(t is Group),
        spec_eval_token(s, ps, t) is Some,
    ensures
        spec_eval_token(s, ps, t) == Some(s.filter(token_pred(ps, t))),
        view_respecting(token_pred(ps, t)),
{
}

/// The token holds no `|` anywhere, groups included.
pub open spec fn or_free_token(t: TokenView) -> bool
    decreases t,
{
    match t {
        TokenView::TagMatch { .. } => true,
        TokenView::PlaylistRef { .. } => true,
        TokenView::Group(e) => or_free_expr(*e),
    }
}

/// The clause holds no `|` anywhere.
pub open spec fn or_free_clause(c: ClauseView) -> bool
    decreases c,
{
    or_free_token(c.token)
}

/// The steps are all `&` steps over `|`-free clauses.
pub open spec fn or_free_steps(rest: Seq<(OperatorType, ClauseView)>) -> bool
    decreases rest,
{
    rest.len() == 0 || (rest[0].0 is AND && or_free_clause(rest[0].1) && or_free_steps(
        rest.drop_first(),
    ))
}

/// The expression holds no `|` anywhere.
pub open spec fn or_free_expr(e: ExpressionView) -> bool
    decreases e,
{
    or_free_clause(e.first) && or_free_steps(e.rest)
}

/// A `|`-free token keeps a subset of its input.
pub proof fn lemma_or_free_token_narrows(s: Seq<TagDetails>, ps: Seq<Playlist>, t: TokenView)
    requires
        or_free_token(t),
        spec_eval_token(s, ps, t) is Some,
    ensures
        spec_eval_token(s, ps, t)->0.len() <= s.len(),
    decreases t,
{
    match t {
        TokenView::Group(e) => {
            lemma_or_free_expr_narrows(s, ps, *e);
        },
        _ => {
            lemma_token_eval_is_filter(s, ps, t);
            s.lemma_filter_len(token_pred(ps, t));
        },
    }
}

/// A `|`-free clause keeps a subset of its input.
pub proof fn lemma_or_free_clause_narrows(s: Seq<TagDetails>, ps: Seq<Playlist>, c: ClauseView)
    requires
        or_free_clause(c),
        spec_eval_clause(s, ps, c) is Some,
    ensures
        spec_eval_clause(s, ps, c)->0.len() <= s.len(),
    decreases c,
{
    if c.negated {
        let removed = spec_eval_token(s, ps, c.token)->0;
        s.lemma_filter_len(not_removed_fn(removed));
    } else {
        lemma_or_free_token_narrows(s, ps, c.token);
    }
}

/// `|`-free steps never lengthen the accumulator.
pub proof fn lemma_or_free_steps_narrow(
    s: Seq<TagDetails>,
    ps: Seq<Playlist>,
    rest: Seq<(OperatorType, ClauseView)>,
    acc: Seq<TagDetails>,
)
    requires
        or_free_steps(rest),
        spec_eval_rest(s, ps, rest, acc) is Some,
    ensures
        spec_eval_rest(s, ps, rest, acc)->0.len() <= acc.len(),
    decreases rest,
{
    if rest.len() > 0 {
        let narrowed = spec_eval_clause(acc, ps, rest[0].1)->0;
        lemma_or_free_clause_narrows(acc, ps, rest[0].1);
        lemma_or_free_steps_narrow(s, ps, rest.drop_first(), narrowed);
    }
}

/// A `|`-free expression keeps a subset of its input.
pub proof fn lemma_or_free_expr_narrows(s: Seq<TagDetails>, ps: Seq<Playlist>, e: ExpressionView)
    requires
        or_free_expr(e),
        spec_eval_expr(s, ps, e) is Some,
    ensures
        spec_eval_expr(s, ps, e)->0.len() <= s.len(),
    decreases e,
{
    let first = spec_eval_clause(s, ps, e.first)->0;
    lemma_or_free_clause_narrows(s, ps, e.first);
    lemma_or_free_steps_narrow(s, ps, e.rest, first);
}

/// An `&` step narrows monotonically: when `A & B` evaluates, so does the
/// single-clause expression `A`, and `A & B` yields no more records than
/// `A` alone — provided `B` holds no `|` (a clause with `|` inside a
/// group, such as `(C | C)`, can lengthen the output).
pub proof fn lemma_and_step_narrows(
    s: Seq<TagDetails>,
    ps: Seq<Playlist>,
    a: ClauseView,
    b: ClauseView,
)
    requires
        or_free_clause(b),
        spec_eval_expr(
            s,
            ps,
            ExpressionView { first: a, rest: seq![(OperatorType::AND, b)] },
        ) is Some,
    ensures
        spec_eval_expr(s, ps, ExpressionView { first: a, rest: Seq::empty() }) is Some,
        spec_eval_expr(s, ps, ExpressionView { first: a, rest: seq![(OperatorType::AND, b)] })->0.len()
            <= spec_eval_expr(s, ps, ExpressionView { first: a, rest: Seq::empty() })->0.len(),
{
    let rest = seq![(OperatorType::AND, b)];
    let ra = spec_eval_clause(s, ps, a)->0;
    assert(rest.drop_first() =~= Seq::<(OperatorType, ClauseView)>::empty());
    lemma_or_free_clause_narrows(ra, ps, b);
}

/// A `|` step appends: `A | B` evaluates both clauses over the same input
/// and concatenates their outputs, so membership is order-independent —
/// `A | B` and `B | A` hold the same records with the same multiplicities
/// — and a record matching both clauses is counted in both outputs.
pub proof fn lemma_or_step_appends(
    s: Seq<TagDetails>,
    ps: Seq<Playlist>,
    a: ClauseView,
    b: ClauseView,
)
    requires
        spec_eval_clause(s, ps, a) is Some,
        spec_eval_clause(s, ps, b) is Some,
    ensures
        ({
            let ra = spec_eval_clause(s, ps, a)->0;
            let rb = spec_eval_clause(s, ps, b)->0;
            &&& spec_eval_expr(s, ps, ExpressionView { first: a, rest: seq![(OperatorType::OR, b)] })
                == Some(ra + rb)
            &&& spec_eval_expr(s, ps, ExpressionView { first: b, rest: seq![(OperatorType::OR, a)] })
                == Some(rb + ra)
            &&& (ra + rb).to_multiset() == (rb + ra).to_multiset()
            &&& forall|t: TagDetails|
                (ra + rb).to_multiset().count(t) == ra.to_multiset().count(t)
                    + rb.to_multiset().count(t)
        }),
{
    broadcast use vstd::multiset::group_multiset_axioms;

    let ra = spec_eval_clause(s, ps, a)->0;
    let rb = spec_eval_clause(s, ps, b)->0;
    let rest_ab = seq![(OperatorType::OR, b)];
    let rest_ba = seq![(OperatorType::OR, a)];
    assert(rest_ab.drop_first() =~= Seq::<(OperatorType, ClauseView)>::empty());
    assert(rest_ba.drop_first() =~= Seq::<(OperatorType, ClauseView)>::empty());
    lemma_multiset_commutative(ra, rb);
    lemma_multiset_commutative(rb, ra);
    assert((ra + rb).to_multiset() =~= (rb + ra).to_multiset());
}

/// A tag match resolved under a literal search with any name other than
/// the date pseudo-names matches exactly the values equal to its operand.
pub proof fn lemma_literal_match_is_equality(
    lowered: Seq<char>,
    exp: Seq<char>,
    v: Seq<char>,
)
    requires
        crate::checker::spec_try_checker(lowered, exp, SearchType::Literal) is Some,
        !crate::tag_type::is_date_bound_name(lowered),
    ensures
        crate::matcher::spec_matches(
            (crate::checker::spec_try_checker(lowered, exp, SearchType::Literal)->0).0,
            v,
        ) == (v == exp),
{
}

/// A tag match resolved under a containment search matches exactly the
/// values that hold its operand as a substring.
pub proof fn lemma_contains_match_is_substring(
    lowered: Seq<char>,
    exp: Seq<char>,
    v: Seq<char>,
)
    requires
        crate::checker::spec_try_checker(lowered, exp, SearchType::Contains) is Some,
    ensures
        crate::matcher::spec_matches(
            (crate::checker::spec_try_checker(lowered, exp, SearchType::Contains)->0).0,
            v,
        ) == crate::strings::seq_contains_sub(v, exp),
{
}

/// The date bounds read their value as an integer: `BeforeDate(y)` keeps
/// values at most `y`, `AfterDate(y)` keeps values strictly above `y`,
/// and the boundary value `y` itself satisfies `Before` but never
/// `After`.
pub proof fn lemma_date_bounds(y: int, v: Seq<char>)
    ensures
        crate::matcher::spec_matches(crate::matcher::MatcherView::BeforeDate(y), v) == (
        match crate::strings::spec_parse_i32(v) {
            Some(n) => n <= y,
            None => false,
        }),
        crate::matcher::spec_matches(crate::matcher::MatcherView::AfterDate(y), v) == (
        match crate::strings::spec_parse_i32(v) {
            Some(n) => n > y,
            None => false,
        }),
        crate::strings::spec_parse_i32(v) == Some(y as i32) && y == y as i32 as int
            ==> crate::matcher::spec_matches(crate::matcher::MatcherView::BeforeDate(y), v)
            && !crate::matcher::spec_matches(crate::matcher::MatcherView::AfterDate(y), v),
{
}

/// Resolving a date pseudo-name (`BeforeYear`, `BeforeDate`, `AfterYear`,
/// `AfterDate`) under a containment or regular-expression search always
/// fails.
pub proof fn lemma_date_bound_needs_literal(lowered: Seq<char>, exp: Seq<char>, st: SearchType)
    requires
        crate::tag_type::is_date_bound_name(lowered),
        !(st is Literal),
    ensures
        crate::tag_type::spec_tag_type(lowered, st) is None,
        crate::checker::spec_try_checker(lowered, exp, st) is None,
{
    reveal_strlit("beforedate");
    reveal_strlit("afterdate");
    reveal_strlit("beforeyear");
    reveal_strlit("afteryear");
    reveal_strlit("path");
    reveal_strlit("title");
    reveal_strlit("artist");
    reveal_strlit("album");
    reveal_strlit("albumartist");
    reveal_strlit("date");
    reveal_strlit("year");
    assert("beforedate"@.len() == 10);
    assert("afterdate"@.len() == 9);
    assert("beforeyear"@.len() == 10);
    assert("afteryear"@.len() == 9);
    assert("path"@.len() == 4);
    assert("title"@.len() == 5);
    assert("artist"@.len() == 6);
    assert("album"@.len() == 5);
    assert("albumartist"@.len() == 11);
    assert("date"@.len() == 4);
    assert("year"@.len() == 4);
}

/// Dividing a non-empty collection whose size is an exact multiple of the
/// division count yields no groups at all: every record is dropped. This
/// surprising behaviour is deliberate; see [`crate::iter::spec_divide`].
pub proof fn lemma_divide_exact_multiple_empty<T>(s: Seq<T>, d: int)
    requires
        d >= 1,
        s.len() > 0,
        s.len() as int % d == 0,
    ensures
        crate::iter::spec_divide(s, d).len() == 0,
{
    assert(s.len() >= d) by (nonlinear_arith)
        requires
            d >= 1 && s.len() > 0 && s.len() as int % d == 0,
    ;
}

/// Two predicates that agree on every element of `s` filter `s` alike.
proof fn lemma_filter_congruence(
    s: Seq<TagDetails>,
    p1: spec_fn(TagDetails) -> bool,
    p2: spec_fn(TagDetails) -> bool,
)
    requires
        forall|i: int| 0 <= i < s.len() ==> p1(#[trigger] s[i]) == p2(s[i]),
    ensures
        s.filter(p1) == s.filter(p2),
    decreases s.len(),
{
    reveal(Seq::filter);
    if s.len() > 0 {
        let dl = s.drop_last();
        assert(forall|i: int| 0 <= i < dl.len() ==> #[trigger] dl[i] == s[i]);
        lemma_filter_congruence(dl, p1, p2);
        assert(p1(s.last()) == p2(s.last()));
    }
}

/// Filtering `s` by a predicate and by its negation splits `s` exactly:
/// together the two outputs hold every record of `s` with its original
/// multiplicity.
proof fn lemma_filter_partition(s: Seq<TagDetails>, p: spec_fn(TagDetails) -> bool)
    ensures
        s.filter(p).to_multiset().add(s.filter(neg_fn(p)).to_multiset()) == s.to_multiset(),
    decreases s.len(),
{
    broadcast use vstd::multiset::group_multiset_axioms;
    broadcast use vstd::seq_lib::group_to_multiset_ensures;

    reveal(Seq::filter);
    if s.len() == 0 {
        assert(s.filter(p) == s);
        assert(s.filter(neg_fn(p)) == s);
        assert forall|a: TagDetails| s.to_multiset().count(a) == 0 by {
            assert(!s.contains(a));
        }
        assert(s.filter(p).to_multiset().add(s.filter(neg_fn(p)).to_multiset())
            =~= s.to_multiset());
    } else {
        let dl = s.drop_last();
        let last = s.last();
        lemma_filter_partition(dl, p);
        assert(dl.push(last) =~= s);
        assert(s.to_multiset() == dl.push(last).to_multiset());
        if p(last) {
            assert(s.filter(p) == dl.filter(p).push(last));
            assert(s.filter(neg_fn(p)) == dl.filter(neg_fn(p)));
            assert(dl.filter(p).push(last).to_multiset().add(dl.filter(neg_fn(p)).to_multiset())
                =~= dl.filter(p).to_multiset().add(dl.filter(neg_fn(p)).to_multiset()).insert(
                last,
            ));
        } else {
            assert(s.filter(p) == dl.filter(p));
            assert(s.filter(neg_fn(p)) == dl.filter(neg_fn(p)).push(last));
            assert(dl.filter(p).to_multiset().add(dl.filter(neg_fn(p)).push(last).to_multiset())
                =~= dl.filter(p).to_multiset().add(dl.filter(neg_fn(p)).to_multiset()).insert(
                last,
            ));
        }
    }
}

/// Negation is complementary within its scope: for a plain clause `C`
/// over input `S`, `C` and `!C` yield outputs with no record in common
/// that together reconstruct `S`, record for record.
pub proof fn lemma_negation_partitions(s: Seq<TagDetails>, ps: Seq<Playlist>, c: ClauseView)
    requires
        !c.negated,
        !(c.token is Group),
        spec_eval_clause(s, ps, c) is Some,
    ensures
        spec_eval_clause(s, ps, ClauseView { negated: true, token: c.token }) is Some,
        ({
            let pos = spec_eval_clause(s, ps, c)->0;
            let neg = spec_eval_clause(s, ps, ClauseView { negated: true, token: c.token })->0;
            &&& pos.to_multiset().add(neg.to_multiset()) == s.to_multiset()
            &&& forall|i: int, j: int|
                0 <= i < pos.len() && 0 <= j < neg.len() ==> (#[trigger] pos[i])@ != (
                #[trigger] neg[j])@
        }),
{
    broadcast use vstd::seq_lib::group_filter_ensures;

    lemma_token_eval_is_filter(s, ps, c.token);
    let p = token_pred(ps, c.token);
    let pos = s.filter(p);
    let neg = s.filter(not_removed_fn(pos));
    assert forall|i: int| 0 <= i < s.len() implies not_removed_fn(pos)(#[trigger] s[i]) == neg_fn(
        p,
    )(s[i]) by {
        let t = s[i];
        if contains_record(pos, t) {
            let k = choose|k: int| 0 <= k < pos.len() && pos[k]@ == t@;
            assert(p(pos[k]));
            assert(p(t));
        }
        if p(t) {
            assert(pos.contains(t));
            let k = choose|k: int| 0 <= k < pos.len() && pos[k] == t;
            assert(contains_record(pos, t));
        }
    }
    lemma_filter_congruence(s, not_removed_fn(pos), neg_fn(p));
    lemma_filter_partition(s, p);
    assert forall|i: int, j: int| 0 <= i < pos.len() && 0 <= j < neg.len() implies (
    #[trigger] pos[i])@ != (#[trigger] neg[j])@ by {
        assert(p(pos[i]));
        assert(neg_fn(p)(neg[j]));
        if pos[i]@ == neg[j]@ {
            assert(p(pos[i]) == p(neg[j]));
        }
    }
}

} // verus!
