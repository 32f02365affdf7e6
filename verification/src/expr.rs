//! The shape of a stored expression and the text that writes it.

use vstd::prelude::*;
use crate::text::join_spec;

verus! {

/// `num_parser::Expression`, the tree that the engine stores for the body of
/// a definition. Nothing inside it is visible here: see `expression_view`.
#[verifier::external_type_specification]
#[verifier::external_body]
pub struct ExExpression(num_parser::Expression);

/// The shape of a stored expression, with operators and literals as the text
/// that the engine shows for them.
pub enum ExprView {
    Binary(Box<ExprView>, Seq<char>, Box<ExprView>),
    Unary(Seq<char>, Box<ExprView>),
    Var(Seq<char>),
    Func(Seq<char>, Seq<ExprView>),
    Literal(Seq<char>),
    Union(Seq<ExprView>),
}

/// The shape of the expression `e`: what `node_of` finds in it, level by level.
pub uninterp spec fn expression_view(e: num_parser::Expression) -> ExprView;

/// The top of an expression, with its parts still to be looked into.
pub enum Node<'a> {
    Binary(&'a num_parser::Expression, String, &'a num_parser::Expression),
    Unary(String, &'a num_parser::Expression),
    Var(String),
    Func(String, Vec<&'a num_parser::Expression>),
    Literal(String),
    Union(Vec<&'a num_parser::Expression>),
}

/// The shapes of the expressions in `parts`, in order.
pub open spec fn views_of(parts: Seq<&num_parser::Expression>) -> Seq<ExprView> {
    Seq::new(parts.len(), |i: int| expression_view(*parts[i]))
}

impl<'a> Node<'a> {
    /// The shape that this top and its parts make up.
    pub open spec fn shape(self) -> ExprView {
        match self {
            Node::Binary(l, op, r) => ExprView::Binary(
                Box::new(expression_view(*l)),
                op@,
                Box::new(expression_view(*r)),
            ),
            Node::Unary(op, x) => ExprView::Unary(op@, Box::new(expression_view(*x))),
            Node::Var(name) => ExprView::Var(name@),
            Node::Func(name, args) => ExprView::Func(name@, views_of(args@)),
            Node::Literal(text) => ExprView::Literal(text@),
            Node::Union(parts) => ExprView::Union(views_of(parts@)),
        }
    }
}

/// Matches on the variant of a `num_parser::Expression` and hands out its
/// fields: sub-expressions by reference, names cloned, an operator or a
/// literal value as the text its `Display` gives.
#[verifier::external_body]
pub(crate) fn node_of<'a>(e: &'a num_parser::Expression) -> (n: Node<'a>)
    ensures
        n.shape() == expression_view(*e),
{
    match e {
        num_parser::Expression::Binary(l, op, r) => Node::Binary(&**l, op.to_string(), &**r),
        num_parser::Expression::Unary(op, x) => Node::Unary(op.to_string(), &**x),
        num_parser::Expression::Var(name) => Node::Var(name.clone()),
        num_parser::Expression::Func(name, args) => Node::Func(
            name.clone(),
            args.iter().map(|a| &**a).collect(),
        ),
        num_parser::Expression::Literal(value) => Node::Literal(value.to_string()),
        num_parser::Expression::Union(parts) => Node::Union(parts.iter().map(|p| &**p).collect()),
    }
}

/// The text of each expression in `parts`, in order.
pub open spec fn render_all(parts: Seq<ExprView>) -> Seq<Seq<char>>
    decreases parts,
{
    if parts.len() == 0 {
        Seq::empty()
    } else {
        render_all(parts.drop_last()).push(render(parts.last()))
    }
}

/// The text of an expression: operands around their operator, a call as its
/// name and its comma-separated arguments in round brackets, a union as its
/// comma-separated parts. No brackets are added around operands.
pub open spec fn render(e: ExprView) -> Seq<char>
    decreases e,
{
    match e {
        ExprView::Binary(l, op, r) => render(*l) + op + render(*r),
        ExprView::Unary(op, x) => op + render(*x),
        ExprView::Var(name) => name,
        ExprView::Func(name, args) => name + seq!['('] + join_spec(render_all(args), seq![','])
            + seq![')'],
        ExprView::Literal(text) => text,
        ExprView::Union(parts) => join_spec(render_all(parts), seq![',']),
    }
}

} // verus!
