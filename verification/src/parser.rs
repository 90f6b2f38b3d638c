//! The query parser. A query string is first split into lexemes —
//! identifiers, quoted strings and the five punctuation marks — and the
//! lexeme list is then parsed by recursive descent into the abstract
//! syntax of [`crate::ast`]. Both stages are total: malformed input
//! yields `None`, never a fault.

use vstd::prelude::*;
use vstd::string::StrSliceExecFns;
use vstd::string::StringExecFns;

use crate::ast::{Clause, ClauseView, Expression, ExpressionView, QueryType, Token, TokenView};
use crate::checker::SearchType;
use crate::operator::OperatorType;
use crate::strings::str_eq;

verus! {

/// One lexeme of the query language.
#[derive(Debug)]
pub enum Lex {
    /// A run of letters and underscores.
    Ident(String),
    /// The contents of a quoted string (either quote style).
    Str(String),
    /// `&`
    Amp,
    /// `|`
    Pipe,
    /// `!`
    Bang,
    /// `(`
    LParen,
    /// `)`
    RParen,
}

/// The mathematical content of a lexeme.
pub enum LexView {
    Ident(Seq<char>),
    Str(Seq<char>),
    Amp,
    Pipe,
    Bang,
    LParen,
    RParen,
}

impl View for Lex {
    type V = LexView;

    open spec fn view(&self) -> LexView {
        match self {
            Lex::Ident(s) => LexView::Ident(s@),
            Lex::Str(s) => LexView::Str(s@),
            Lex::Amp => LexView::Amp,
            Lex::Pipe => LexView::Pipe,
            Lex::Bang => LexView::Bang,
            Lex::LParen => LexView::LParen,
            Lex::RParen => LexView::RParen,
        }
    }
}

/// The views of a lexeme list.
pub open spec fn lex_views(toks: Seq<Lex>) -> Seq<LexView>
    decreases toks,
{
    if toks.len() == 0 {
        Seq::empty()
    } else {
        seq![toks[0]@] + lex_views(toks.drop_first())
    }
}

/// `lex_views` maps element by element.
pub proof fn lemma_lex_views(toks: Seq<Lex>)
    ensures
        lex_views(toks).len() == toks.len(),
        forall|i: int| 0 <= i < toks.len() ==> #[trigger] lex_views(toks)[i] == toks[i]@,
    decreases toks.len(),
{
    if toks.len() > 0 {
        lemma_lex_views(toks.drop_first());
        let head = seq![toks[0]@];
        assert(lex_views(toks) == head + lex_views(toks.drop_first()));
        assert forall|i: int| 0 <= i < toks.len() implies #[trigger] lex_views(toks)[i]
            == toks[i]@ by {
            if i > 0 {
                assert(lex_views(toks)[i] == lex_views(toks.drop_first())[i - 1]);
                assert(toks.drop_first()[i - 1] == toks[i]);
            }
        }
    }
}

pub open spec fn is_ws(c: char) -> bool {
    c == ' ' || c == '\t' || c == '\n' || c == '\r'
}

pub open spec fn is_ident_char(c: char) -> bool {
    (97 <= c as u32 && c as u32 <= 122) || (65 <= c as u32 && c as u32 <= 90) || c == '_'
}

fn is_ws_exec(c: char) -> (r: bool)
    ensures
        r == is_ws(c),
{
    c == ' ' || c == '\t' || c == '\n' || c == '\r'
}

fn is_ident_char_exec(c: char) -> (r: bool)
    ensures
        r == is_ident_char(c),
{
    let u = c as u32;
    (97 <= u && u <= 122) || (65 <= u && u <= 90) || c == '_'
}

/// The first position at or after `pos` that does not hold an identifier
/// character.
pub open spec fn ident_end(s: Seq<char>, pos: int) -> int
    decreases s.len() - pos,
{
    if pos < s.len() && is_ident_char(s[pos]) {
        ident_end(s, pos + 1)
    } else {
        pos
    }
}

proof fn lemma_ident_end_bounds(s: Seq<char>, pos: int)
    requires
        0 <= pos <= s.len(),
    ensures
        pos <= ident_end(s, pos) <= s.len(),
    decreases s.len() - pos,
{
    if pos < s.len() && is_ident_char(s[pos]) {
        lemma_ident_end_bounds(s, pos + 1);
    }
}

/// The position of the first `q` at or after `pos`, if any.
pub open spec fn close_quote(s: Seq<char>, pos: int, q: char) -> Option<int>
    decreases s.len() - pos,
{
    if pos < 0 || pos >= s.len() {
        None
    } else if s[pos] == q {
        Some(pos)
    } else {
        close_quote(s, pos + 1, q)
    }
}

pub open spec fn lex_cons(l: LexView, rest: Option<Seq<LexView>>) -> Option<Seq<LexView>> {
    match rest {
        None => None,
        Some(r) => Some(seq![l] + r),
    }
}

/// The lexemes of `s` from position `pos` on: whitespace is skipped, the
/// five marks stand for themselves, a letter or underscore opens an
/// identifier, a quote opens a string that runs to the next same quote.
/// An unterminated string or any other character fails the whole split.
pub open spec fn spec_lex(s: Seq<char>, pos: int) -> Option<Seq<LexView>>
    decreases s.len() - pos,
{
    if pos < 0 || pos >= s.len() {
        Some(Seq::empty())
    } else {
        let c = s[pos];
        if is_ws(c) {
            spec_lex(s, pos + 1)
        } else if c == '&' {
            lex_cons(LexView::Amp, spec_lex(s, pos + 1))
        } else if c == '|' {
            lex_cons(LexView::Pipe, spec_lex(s, pos + 1))
        } else if c == '!' {
            lex_cons(LexView::Bang, spec_lex(s, pos + 1))
        } else if c == '(' {
            lex_cons(LexView::LParen, spec_lex(s, pos + 1))
        } else if c == ')' {
            lex_cons(LexView::RParen, spec_lex(s, pos + 1))
        } else if c == '"' || c == '\'' {
            match close_quote(s, pos + 1, c) {
                None => None,
                Some(e) => if pos + 1 <= e < s.len() {
                    lex_cons(LexView::Str(s.subrange(pos + 1, e)), spec_lex(s, e + 1))
                } else {
                    None
                },
            }
        } else if is_ident_char(c) {
            let e = ident_end(s, pos);
            if pos < e <= s.len() {
                lex_cons(LexView::Ident(s.subrange(pos, e)), spec_lex(s, e))
            } else {
                None
            }
        } else {
            None
        }
    }
}

fn scan_ident(s: &str, n: usize, pos: usize) -> (e: usize)
    requires
        n == s@.len(),
        0 <= pos <= n,
    ensures
        e == ident_end(s@, pos as int),
        pos <= e <= n,
{
    let mut j = pos;
    while j < n && is_ident_char_exec(s.get_char(j))
        invariant
            n == s@.len(),
            pos <= j <= n,
            ident_end(s@, pos as int) == ident_end(s@, j as int),
        decreases n - j,
    {
        j += 1;
    }
    j
}

fn scan_quote(s: &str, n: usize, pos: usize, q: char) -> (e: Option<usize>)
    requires
        n == s@.len(),
        0 <= pos <= n,
    ensures
        match e {
            Some(i) => close_quote(s@, pos as int, q) == Some(i as int) && pos <= i < n,
            None => close_quote(s@, pos as int, q) is None,
        },
{
    let mut j = pos;
    while j < n && s.get_char(j) != q
        invariant
            n == s@.len(),
            pos <= j <= n,
            close_quote(s@, pos as int, q) == close_quote(s@, j as int, q),
        decreases n - j,
    {
        j += 1;
    }
    if j < n {
        Some(j)
    } else {
        None
    }
}

/// Splits a query string into lexemes, exactly as [`spec_lex`] describes.
pub fn lex(s: &str) -> (r: Option<Vec<Lex>>)
    ensures
        match r {
            Some(v) => spec_lex(s@, 0) == Some(lex_views(v@)),
            None => spec_lex(s@, 0) is None,
        },
{
    let n = s.unicode_len();
    let mut out: Vec<Lex> = Vec::new();
    let mut pos: usize = 0;
    while pos < n
        invariant
            n == s@.len(),
            0 <= pos <= n,
            match spec_lex(s@, pos as int) {
                Some(tl) => spec_lex(s@, 0) == Some(lex_views(out@) + tl),
                None => spec_lex(s@, 0) is None,
            },
        decreases n - pos,
    {
        let c = s.get_char(pos);
        let ghost prev = out@;
        let mut newpos: usize = pos + 1;
        if is_ws_exec(c) {
            pos = newpos;
            continue ;
        } else if c == '&' {
            out.push(Lex::Amp);
        } else if c == '|' {
            out.push(Lex::Pipe);
        } else if c == '!' {
            out.push(Lex::Bang);
        } else if c == '(' {
            out.push(Lex::LParen);
        } else if c == ')' {
            out.push(Lex::RParen);
        } else if c == '"' || c == '\'' {
            match scan_quote(s, n, pos + 1, c) {
                None => { return None },
                Some(e) => {
                    out.push(Lex::Str(s.substring_char(pos + 1, e).to_owned()));
                    newpos = e + 1;
                },
            }
        } else if is_ident_char_exec(c) {
            let e = scan_ident(s, n, pos);
            proof {
                lemma_ident_end_bounds(s@, pos + 1 as int);
                assert(ident_end(s@, pos as int) == ident_end(s@, pos + 1 as int));
            }
            out.push(Lex::Ident(s.substring_char(pos, e).to_owned()));
            newpos = e;
        } else {
            return None;
        }
        proof {
            lemma_lex_views_push(prev, out@.last());
            assert(out@ =~= prev.push(out@.last()));
            let lv = out@.last()@;
            assert(spec_lex(s@, pos as int) == lex_cons(lv, spec_lex(s@, newpos as int)));
            if spec_lex(s@, newpos as int) is Some {
                let tl2 = spec_lex(s@, newpos as int)->0;
                assert(lex_views(prev) + (seq![lv] + tl2) =~= lex_views(out@) + tl2);
            }
        }
        pos = newpos;
    }
    proof {
        assert(lex_views(out@) + Seq::<LexView>::empty() =~= lex_views(out@));
    }
    Some(out)
}

/// Pushing a lexeme commutes with taking views.
proof fn lemma_lex_views_push(toks: Seq<Lex>, l: Lex)
    ensures
        lex_views(toks.push(l)) == lex_views(toks).push(l@),
    decreases toks.len(),
{
    lemma_lex_views(toks);
    lemma_lex_views(toks.push(l));
    assert(lex_views(toks.push(l)) =~= lex_views(toks).push(l@));
}

/// The search mode selected by an identifier's optional two-character
/// prefix (`C_` for containment, `R_` for a regular expression), with the
/// prefix stripped; without one, the identifier names a literal match.
pub open spec fn strip_prefix(name: Seq<char>) -> (SearchType, Seq<char>) {
    if name.len() >= 2 && name[1] == '_' && name[0] == 'C' {
        (SearchType::Contains, name.subrange(2, name.len() as int))
    } else if name.len() >= 2 && name[1] == '_' && name[0] == 'R' {
        (SearchType::Regex, name.subrange(2, name.len() as int))
    } else {
        (SearchType::Literal, name)
    }
}

/// Parses one token at `pos`: a parenthesised sub-expression, or an
/// identifier applied to one quoted string — `InPlaylist` names a
/// playlist reference, any other identifier a tag match under the mode
/// its prefix selects.
pub open spec fn spec_parse_token(toks: Seq<LexView>, pos: int) -> Option<(TokenView, int)>
    decreases toks.len() - pos, 1int,
{
    if pos < 0 || pos >= toks.len() {
        None
    } else {
        match toks[pos] {
            LexView::LParen => match spec_parse_expression(toks, pos + 1) {
                None => None,
                Some((e, p2)) => if 0 <= p2 < toks.len() && toks[p2] is RParen {
                    Some((TokenView::Group(Box::new(e)), p2 + 1))
                } else {
                    None
                },
            },
            LexView::Ident(name) => if pos + 3 < toks.len() && toks[pos + 1] is LParen && toks[pos
                + 2] is Str && toks[pos + 3] is RParen {
                let operand = toks[pos + 2]->Str_0;
                if name == "InPlaylist"@ {
                    Some((TokenView::PlaylistRef { name: operand }, pos + 4))
                } else {
                    let (search, stripped) = strip_prefix(name);
                    Some((TokenView::TagMatch { search, name: stripped, operand }, pos + 4))
                }
            } else {
                None
            },
            _ => None,
        }
    }
}

/// Parses one clause at `pos`: a token, negated when a `!` precedes it.
pub open spec fn spec_parse_clause(toks: Seq<LexView>, pos: int) -> Option<(ClauseView, int)>
    decreases toks.len() - pos, 2int,
{
    if 0 <= pos < toks.len() && toks[pos] is Bang {
        match spec_parse_token(toks, pos + 1) {
            None => None,
            Some((t, p)) => Some((ClauseView { negated: true, token: t }, p)),
        }
    } else {
        match spec_parse_token(toks, pos) {
            None => None,
            Some((t, p)) => Some((ClauseView { negated: false, token: t }, p)),
        }
    }
}

/// Parses the `(operator, clause)` steps that follow a first clause; ends
/// where no `&` or `|` follows. (A successfully parsed clause always
/// advances the position, so the bound checked here never fails.)
pub open spec fn spec_parse_steps(toks: Seq<LexView>, pos: int) -> Option<
    (Seq<(OperatorType, ClauseView)>, int),
>
    decreases toks.len() - pos, 3int,
{
    if 0 <= pos < toks.len() && (toks[pos] is Amp || toks[pos] is Pipe) {
        let op = if toks[pos] is Amp {
            OperatorType::AND
        } else {
            OperatorType::OR
        };
        match spec_parse_clause(toks, pos + 1) {
            None => None,
            Some((c, p2)) => if pos < p2 <= toks.len() {
                match spec_parse_steps(toks, p2) {
                    None => None,
                    Some((steps, p3)) => Some((seq![(op, c)] + steps, p3)),
                }
            } else {
                None
            },
        }
    } else {
        Some((Seq::empty(), pos))
    }
}

/// Parses a whole expression level at `pos`: a clause, then its steps.
/// (The bound on the clause's end position never fails; see
/// [`spec_parse_steps`].)
pub open spec fn spec_parse_expression(toks: Seq<LexView>, pos: int) -> Option<
    (ExpressionView, int),
>
    decreases toks.len() - pos, 4int,
{
    match spec_parse_clause(toks, pos) {
        None => None,
        Some((c, p1)) => if pos < p1 <= toks.len() {
            match spec_parse_steps(toks, p1) {
                None => None,
                Some((steps, p2)) => Some((ExpressionView { first: c, rest: steps }, p2)),
            }
        } else {
            None
        },
    }
}

/// Parses a whole query from its lexemes: a mode identifier (`Play` or
/// `Index`), then one parenthesised expression, with nothing after it.
pub open spec fn spec_parse_query_toks(toks: Seq<LexView>) -> Option<(QueryType, ExpressionView)> {
    if toks.len() >= 2 && toks[0] is Ident && toks[1] is LParen {
        let mode = if toks[0]->Ident_0 == "Play"@ {
            Some(QueryType::Play)
        } else if toks[0]->Ident_0 == "Index"@ {
            Some(QueryType::Index)
        } else {
            None
        };
        match mode {
            None => None,
            Some(m) => match spec_parse_expression(toks, 2) {
                None => None,
                Some((e, p)) => if 0 <= p < toks.len() && toks[p] is RParen && p + 1 == toks.len() {
                    Some((m, e))
                } else {
                    None
                },
            },
        }
    } else {
        None
    }
}

/// Parses a whole query string.
pub open spec fn spec_parse_query(s: Seq<char>) -> Option<(QueryType, ExpressionView)> {
    match spec_lex(s, 0) {
        None => None,
        Some(toks) => spec_parse_query_toks(toks),
    }
}

fn parse_token_at(toks: &Vec<Lex>, pos: usize) -> (r: Option<(Token, usize)>)
    requires
        pos <= toks@.len(),
    ensures
        match r {
            Some(tp) => spec_parse_token(lex_views(toks@), pos as int) == Some((
                tp.0@,
                tp.1 as int,
            )) && pos < tp.1 <= toks@.len(),
            None => spec_parse_token(lex_views(toks@), pos as int) is None,
        },
    decreases toks@.len() - pos, 1int,
{
    proof {
        lemma_lex_views(toks@);
    }
    if pos >= toks.len() {
        return None;
    }
    match &toks[pos] {
        Lex::LParen => {
            let (e, p2) = match parse_expression_at(toks, pos + 1) {
                None => { return None },
                Some(x) => x,
            };
            if p2 < toks.len() && matches!(&toks[p2], Lex::RParen) {
                Some((Token::Group(Box::new(e)), p2 + 1))
            } else {
                None
            }
        },
        Lex::Ident(name) => {
            if toks.len() - pos < 4 {
                return None;
            }
            if !matches!(&toks[pos + 1], Lex::LParen) || !matches!(&toks[pos + 3], Lex::RParen) {
                return None;
            }
            let operand = match &toks[pos + 2] {
                Lex::Str(s) => s.clone(),
                _ => { return None },
            };
            if str_eq(name.as_str(), "InPlaylist") {
                Some((Token::PlaylistRef { name: operand }, pos + 4))
            } else {
                let nlen = name.as_str().unicode_len();
                let search: SearchType;
                let stripped: String;
                if nlen >= 2 && name.as_str().get_char(1) == '_' && name.as_str().get_char(0)
                    == 'C' {
                    search = SearchType::Contains;
                    stripped = name.as_str().substring_char(2, nlen).to_owned();
                } else if nlen >= 2 && name.as_str().get_char(1) == '_' && name.as_str().get_char(0)
                    == 'R' {
                    search = SearchType::Regex;
                    stripped = name.as_str().substring_char(2, nlen).to_owned();
                } else {
                    search = SearchType::Literal;
                    stripped = name.clone();
                }
                Some((Token::TagMatch { search, name: stripped, operand }, pos + 4))
            }
        },
        _ => None,
    }
}

fn parse_clause_at(toks: &Vec<Lex>, pos: usize) -> (r: Option<(Clause, usize)>)
    requires
        pos <= toks@.len(),
    ensures
        match r {
            Some(cp) => spec_parse_clause(lex_views(toks@), pos as int) == Some((
                cp.0@,
                cp.1 as int,
            )) && pos < cp.1 <= toks@.len(),
            None => spec_parse_clause(lex_views(toks@), pos as int) is None,
        },
    decreases toks@.len() - pos, 2int,
{
    proof {
        lemma_lex_views(toks@);
    }
    if pos < toks.len() && matches!(&toks[pos], Lex::Bang) {
        match parse_token_at(toks, pos + 1) {
            None => None,
            Some((t, p)) => Some((Clause { negated: true, token: t }, p)),
        }
    } else {
        match parse_token_at(toks, pos) {
            None => None,
            Some((t, p)) => Some((Clause { negated: false, token: t }, p)),
        }
    }
}

fn parse_steps_at(toks: &Vec<Lex>, pos: usize) -> (r: Option<
    (Vec<(OperatorType, Clause)>, usize),
>)
    requires
        pos <= toks@.len(),
    ensures
        match r {
            Some(sp) => spec_parse_steps(lex_views(toks@), pos as int) == Some((
                crate::ast::rest_views(sp.0@),
                sp.1 as int,
            )) && pos <= sp.1 <= toks@.len(),
            None => spec_parse_steps(lex_views(toks@), pos as int) is None,
        },
    decreases toks@.len() - pos, 3int,
{
    proof {
        lemma_lex_views(toks@);
    }
    if pos < toks.len() {
        let op: Option<OperatorType> = match &toks[pos] {
            Lex::Amp => Some(OperatorType::AND),
            Lex::Pipe => Some(OperatorType::OR),
            _ => None,
        };
        if let Some(op) = op {
            let (c, p2) = match parse_clause_at(toks, pos + 1) {
                None => { return None },
                Some(x) => x,
            };
            let (mut steps, p3) = match parse_steps_at(toks, p2) {
                None => { return None },
                Some(x) => x,
            };
            let ghost old_steps = steps@;
            steps.insert(0, (op, c));
            proof {
                crate::ast::lemma_rest_views(old_steps);
                crate::ast::lemma_rest_views(steps@);
                assert(steps@ == old_steps.insert(0, (op, c)));
                assert(crate::ast::rest_views(steps@) =~= seq![(op, c@)] + crate::ast::rest_views(
                    old_steps,
                ));
                assert(spec_parse_steps(lex_views(toks@), pos as int) == Some(
                    (crate::ast::rest_views(steps@), p3 as int),
                ));
            }
            return Some((steps, p3));
        }
    }
    proof {
        crate::ast::lemma_rest_views(Seq::<(OperatorType, Clause)>::empty());
        assert(crate::ast::rest_views(Seq::<(OperatorType, Clause)>::empty()) =~= Seq::<
            (OperatorType, ClauseView),
        >::empty());
        assert(spec_parse_steps(lex_views(toks@), pos as int) == Some(
            (Seq::<(OperatorType, ClauseView)>::empty(), pos as int),
        ));
    }
    Some((Vec::new(), pos))
}

fn parse_expression_at(toks: &Vec<Lex>, pos: usize) -> (r: Option<(Expression, usize)>)
    requires
        pos <= toks@.len(),
    ensures
        match r {
            Some(ep) => spec_parse_expression(lex_views(toks@), pos as int) == Some((
                ep.0@,
                ep.1 as int,
            )) && pos < ep.1 <= toks@.len(),
            None => spec_parse_expression(lex_views(toks@), pos as int) is None,
        },
    decreases toks@.len() - pos, 4int,
{
    proof {
        lemma_lex_views(toks@);
    }
    let (first, p1) = match parse_clause_at(toks, pos) {
        None => { return None },
        Some(x) => x,
    };
    let (rest, p2) = match parse_steps_at(toks, p1) {
        None => { return None },
        Some(x) => x,
    };
    Some((Expression { first, rest }, p2))
}

/// What parsing a whole string as one token yields: the token, provided
/// the lexemes split and are consumed completely.
pub open spec fn spec_parse_token_str(s: Seq<char>) -> Option<TokenView> {
    match spec_lex(s, 0) {
        None => None,
        Some(toks) => match spec_parse_token(toks, 0) {
            None => None,
            Some((t, p)) => if p == toks.len() {
                Some(t)
            } else {
                None
            },
        },
    }
}

/// As [`spec_parse_token_str`], for one clause.
pub open spec fn spec_parse_clause_str(s: Seq<char>) -> Option<ClauseView> {
    match spec_lex(s, 0) {
        None => None,
        Some(toks) => match spec_parse_clause(toks, 0) {
            None => None,
            Some((c, p)) => if p == toks.len() {
                Some(c)
            } else {
                None
            },
        },
    }
}

/// As [`spec_parse_token_str`], for one expression.
pub open spec fn spec_parse_expression_str(s: Seq<char>) -> Option<ExpressionView> {
    match spec_lex(s, 0) {
        None => None,
        Some(toks) => match spec_parse_expression(toks, 0) {
            None => None,
            Some((e, p)) => if p == toks.len() {
                Some(e)
            } else {
                None
            },
        },
    }
}

/// As [`spec_parse_token_str`], for a token that must be a tag match.
pub open spec fn spec_parse_tag_str(s: Seq<char>) -> Option<TokenView> {
    match spec_parse_token_str(s) {
        None => None,
        Some(t) => if t is TagMatch {
            Some(t)
        } else {
            None
        },
    }
}

/// The parser: each entry point consumes one whole string.
pub struct ExprParser;

impl ExprParser {
    /// Parses one token, such as `Album("Black")`, `InPlaylist("x")` or a
    /// parenthesised expression.
    pub fn parse_token(s: &str) -> (r: Option<Token>)
        ensures
            match r {
                Some(t) => spec_parse_token_str(s@) == Some(t@),
                None => spec_parse_token_str(s@) is None,
            },
    {
        let toks = match lex(s) {
            None => { return None },
            Some(t) => t,
        };
        proof {
            lemma_lex_views(toks@);
        }
        match parse_token_at(&toks, 0) {
            None => None,
            Some((t, p)) => if p == toks.len() {
                Some(t)
            } else {
                None
            },
        }
    }

    /// Parses one tag match, such as `R_Artist(".*a")`.
    pub fn parse_tag(s: &str) -> (r: Option<Token>)
        ensures
            match r {
                Some(t) => spec_parse_tag_str(s@) == Some(t@),
                None => spec_parse_tag_str(s@) is None,
            },
    {
        match Self::parse_token(s) {
            None => None,
            Some(t) => if matches!(t, Token::TagMatch { .. }) {
                Some(t)
            } else {
                None
            },
        }
    }

    /// Parses one clause, such as `!InPlaylist("def")`.
    pub fn parse_clause(s: &str) -> (r: Option<Clause>)
        ensures
            match r {
                Some(c) => spec_parse_clause_str(s@) == Some(c@),
                None => spec_parse_clause_str(s@) is None,
            },
    {
        let toks = match lex(s) {
            None => { return None },
            Some(t) => t,
        };
        proof {
            lemma_lex_views(toks@);
        }
        match parse_clause_at(&toks, 0) {
            None => None,
            Some((c, p)) => if p == toks.len() {
                Some(c)
            } else {
                None
            },
        }
    }

    /// Parses one expression, such as `Album("a") & !Genre("b")`.
    pub fn parse_expression(s: &str) -> (r: Option<Expression>)
        ensures
            match r {
                Some(e) => spec_parse_expression_str(s@) == Some(e@),
                None => spec_parse_expression_str(s@) is None,
            },
    {
        let toks = match lex(s) {
            None => { return None },
            Some(t) => t,
        };
        proof {
            lemma_lex_views(toks@);
        }
        match parse_expression_at(&toks, 0) {
            None => None,
            Some((e, p)) => if p == toks.len() {
                Some(e)
            } else {
                None
            },
        }
    }

    /// Parses a whole query: `Play(...)` or `Index(...)`, with nothing
    /// after the closing parenthesis.
    pub fn parse_query(query: &str) -> (r: Option<(QueryType, Expression)>)
        ensures
            match r {
                Some(qe) => spec_parse_query(query@) == Some((qe.0, qe.1@)),
                None => spec_parse_query(query@) is None,
            },
    {
        let toks = match lex(query) {
            None => { return None },
            Some(t) => t,
        };
        proof {
            lemma_lex_views(toks@);
        }
        if toks.len() < 2 {
            return None;
        }
        let mode = match &toks[0] {
            Lex::Ident(nm) => {
                if str_eq(nm.as_str(), "Play") {
                    QueryType::Play
                } else if str_eq(nm.as_str(), "Index") {
                    QueryType::Index
                } else {
                    return None;
                }
            },
            _ => { return None },
        };
        if !matches!(&toks[1], Lex::LParen) {
            return None;
        }
        match parse_expression_at(&toks, 2) {
            None => None,
            Some((e, p)) => {
                if p < toks.len() && matches!(&toks[p], Lex::RParen) && p + 1 == toks.len() {
                    Some((mode, e))
                } else {
                    None
                }
            },
        }
    }
}

} // verus!
