//! The abstract syntax of a query: an expression is a first clause
//! followed by operator/clause steps; a clause is a possibly negated
//! token; a token is a tag match, a playlist reference, or a
//! parenthesised sub-expression. Each node has a mathematical view with
//! its strings as character sequences.

use vstd::prelude::*;

use crate::checker::SearchType;
use crate::operator::OperatorType;

verus! {

/// Whether a query asks for bare paths (`Play`) or full records (`Index`).
#[derive(Debug, PartialEq, Eq, Structural, Clone, Copy)]
pub enum QueryType {
    Play,
    Index,
}

impl Default for QueryType {
    fn default() -> (r: Self)
        ensures
            r == QueryType::Play,
    {
        QueryType::Play
    }
}

/// One atom of a query.
pub enum Token {
    /// `name(operand)`, possibly under a `C_` or `R_` prefix selecting the
    /// search mode.
    TagMatch { search: SearchType, name: String, operand: String },
    /// `InPlaylist(name)`: membership in a named playlist.
    PlaylistRef { name: String },
    /// A parenthesised sub-expression, evaluated against the same input.
    Group(Box<Expression>),
}

/// A token, negated when preceded by `!`.
pub struct Clause {
    pub negated: bool,
    pub token: Token,
}

/// A first clause followed by `(operator, clause)` steps, evaluated left
/// to right.
pub struct Expression {
    pub first: Clause,
    pub rest: Vec<(OperatorType, Clause)>,
}

/// The mathematical content of a [`Token`].
pub enum TokenView {
    TagMatch { search: SearchType, name: Seq<char>, operand: Seq<char> },
    PlaylistRef { name: Seq<char> },
    Group(Box<ExpressionView>),
}

/// The mathematical content of a [`Clause`].
pub struct ClauseView {
    pub negated: bool,
    pub token: TokenView,
}

/// The mathematical content of an [`Expression`].
pub struct ExpressionView {
    pub first: ClauseView,
    pub rest: Seq<(OperatorType, ClauseView)>,
}

impl View for Token {
    type V = TokenView;

    open spec fn view(&self) -> TokenView
        decreases self,
    {
        match self {
            Token::TagMatch { search, name, operand } => TokenView::TagMatch {
                search: *search,
                name: name@,
                operand: operand@,
            },
            Token::PlaylistRef { name } => TokenView::PlaylistRef { name: name@ },
            Token::Group(e) => TokenView::Group(Box::new((**e)@)),
        }
    }
}

impl View for Clause {
    type V = ClauseView;

    open spec fn view(&self) -> ClauseView
        decreases self,
    {
        ClauseView { negated: self.negated, token: self.token@ }
    }
}

/// The views of an expression's trailing steps.
pub open spec fn rest_views(rest: Seq<(OperatorType, Clause)>) -> Seq<(OperatorType, ClauseView)>
    decreases rest,
{
    if rest.len() == 0 {
        Seq::empty()
    } else {
        seq![(rest[0].0, rest[0].1@)] + rest_views(rest.drop_first())
    }
}

impl View for Expression {
    type V = ExpressionView;

    open spec fn view(&self) -> ExpressionView
        decreases self,
    {
        ExpressionView { first: self.first@, rest: rest_views(self.rest@) }
    }
}

/// `rest_views` maps element by element.
pub proof fn lemma_rest_views(rest: Seq<(OperatorType, Clause)>)
    ensures
        rest_views(rest).len() == rest.len(),
        forall|i: int|
            0 <= i < rest.len() ==> #[trigger] rest_views(rest)[i] == (rest[i].0, rest[i].1@),
    decreases rest.len(),
{
    if rest.len() > 0 {
        lemma_rest_views(rest.drop_first());
        let head = seq![(rest[0].0, rest[0].1@)];
        assert(rest_views(rest) == head + rest_views(rest.drop_first()));
        assert forall|i: int| 0 <= i < rest.len() implies #[trigger] rest_views(rest)[i] == (
            rest[i].0,
            rest[i].1@,
        ) by {
            if i > 0 {
                assert(rest_views(rest)[i] == rest_views(rest.drop_first())[i - 1]);
                assert(rest.drop_first()[i - 1] == rest[i]);
            }
        }
    }
}

} // verus!
