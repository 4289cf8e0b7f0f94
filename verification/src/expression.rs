//! Host-language expressions, as far as the query compiler looks into them.
//!
//! The compiler reads the shape of an expression only where it takes a call
//! chain apart, and otherwise asks one thing of it: is it a constant literal?
//! The text of the expression is carried along for whoever renders the query.

use vstd::prelude::*;
use crate::span::Span;

verus! {

/// A name in the source, with the place where it stands.
#[derive(Debug, PartialEq, Eq)]
pub struct Ident {
    pub name: String,
    pub span: Span,
}

/// What an [`Ident`] stands for in contracts.
pub struct IdentModel {
    pub name: Seq<char>,
    pub span: Span,
}

impl DeepView for Ident {
    type V = IdentModel;

    open spec fn deep_view(&self) -> IdentModel {
        IdentModel { name: self.name@, span: self.span }
    }
}

impl Clone for Ident {
    fn clone(&self) -> (copy: Self)
        ensures
            copy == *self,
    {
        Ident { name: self.name.clone(), span: self.span }
    }
}

/// The shape of an expression.
#[derive(Debug, PartialEq, Eq)]
pub enum ExpressionNode {
    /// A constant literal token: a number, a string, a boolean.
    Literal,
    /// A path, by the names of its segments; a plain identifier has one.
    Path(Vec<String>),
    /// `receiver.method(arguments...)`
    MethodCall { receiver: Box<Expression>, method: Ident, arguments: Vec<Expression> },
    /// `receiver[index]`
    Index { receiver: Box<Expression>, index: Box<Expression> },
    /// Any other expression.
    Other,
}

/// An expression of the host language.
#[derive(Debug, PartialEq, Eq)]
pub struct Expression {
    pub node: ExpressionNode,
    /// The tokens of the expression as text. The compiler does not interpret
    /// them; it hands them on, and joins two of them for the length of a range.
    pub source: String,
    pub span: Span,
}

/// What an [`ExpressionNode`] stands for in contracts.
pub enum NodeModel {
    Literal,
    Path(Seq<Seq<char>>),
    MethodCall { receiver: Box<ExpressionModel>, method: IdentModel, arguments: Seq<ExpressionModel> },
    Index { receiver: Box<ExpressionModel>, index: Box<ExpressionModel> },
    Other,
}

/// What an [`Expression`] stands for in contracts.
pub struct ExpressionModel {
    pub node: NodeModel,
    pub source: Seq<char>,
    pub span: Span,
}

impl ExpressionModel {
    /// Whether the expression is a constant literal.
    pub open spec fn is_literal(self) -> bool {
        self.node is Literal
    }
}

/// The models of a sequence of expressions, one for one.
pub open spec fn expression_models(expressions: Seq<Expression>) -> Seq<ExpressionModel>
    decreases expressions,
{
    Seq::new(
        expressions.len(),
        |i: int|
            if 0 <= i < expressions.len() {
                expression_model(expressions[i])
            } else {
                arbitrary()
            },
    )
}

/// The model of an expression. It is the expression's `deep_view`.
pub open spec fn expression_model(expression: Expression) -> ExpressionModel
    decreases expression,
{
    ExpressionModel {
        node: match expression.node {
            ExpressionNode::Literal => NodeModel::Literal,
            ExpressionNode::Path(segments) => NodeModel::Path(segments.deep_view()),
            ExpressionNode::MethodCall { receiver, method, arguments } => NodeModel::MethodCall {
                receiver: Box::new(expression_model(*receiver)),
                method: method.deep_view(),
                arguments: expression_models(arguments@),
            },
            ExpressionNode::Index { receiver, index } => NodeModel::Index {
                receiver: Box::new(expression_model(*receiver)),
                index: Box::new(expression_model(*index)),
            },
            ExpressionNode::Other => NodeModel::Other,
        },
        source: expression.source@,
        span: expression.span,
    }
}

impl DeepView for Expression {
    type V = ExpressionModel;

    open spec fn deep_view(&self) -> ExpressionModel {
        expression_model(*self)
    }
}

impl Clone for Expression {
    /// A copy that stands for the same expression.
    fn clone(&self) -> (copy: Self)
        ensures
            copy.deep_view() == self.deep_view(),
        decreases self,
    {
        let node = match &self.node {
            ExpressionNode::Literal => ExpressionNode::Literal,
            ExpressionNode::Path(segments) => {
                let mut names: Vec<String> = Vec::new();
                let mut i: usize = 0;
                while i < segments.len()
                    invariant
                        i <= segments.len(),
                        names@ == segments@.take(i as int),
                    decreases segments.len() - i,
                {
                    names.push(segments[i].clone());
                    assert(names@ =~= segments@.take(i + 1));
                    i += 1;
                }
                assert(names@ =~= segments@);
                assert(names.deep_view() =~= segments.deep_view());
                ExpressionNode::Path(names)
            },
            ExpressionNode::MethodCall { receiver, method, arguments } => {
                let mut copies: Vec<Expression> = Vec::new();
                let mut i: usize = 0;
                while i < arguments.len()
                    invariant
                        i <= arguments.len(),
                        self.node == (ExpressionNode::MethodCall { receiver: *receiver, method: *method, arguments: *arguments }),
                        expression_models(copies@) == expression_models(arguments@.take(i as int)),
                    decreases arguments.len() - i,
                {
                    let ghost before = copies@;
                    assert(decreases_to!(self.node->arguments => arguments[i as int]));
                    copies.push(arguments[i].clone());
                    assert(expression_models(copies@) =~= expression_models(
                        arguments@.take(i + 1),
                    )) by {
                        assert(expression_models(before).len() == i);
                        assert forall|j: int| 0 <= j < i implies expression_models(copies@)[j]
                            == expression_models(arguments@.take(i + 1))[j] by {
                            assert(expression_models(before)[j] == expression_models(
                                arguments@.take(i as int),
                            )[j]);
                        }
                    }
                    i += 1;
                }
                assert(arguments@.take(i as int) =~= arguments@);
                ExpressionNode::MethodCall {
                    receiver: Box::new((**receiver).clone()),
                    method: method.clone(),
                    arguments: copies,
                }
            },
            ExpressionNode::Index { receiver, index } => ExpressionNode::Index {
                receiver: Box::new((**receiver).clone()),
                index: Box::new((**index).clone()),
            },
            ExpressionNode::Other => ExpressionNode::Other,
        };
        Expression { node, source: self.source.clone(), span: self.span }
    }
}

impl Expression {
    /// Whether the expression is a constant literal.
    pub open spec fn spec_is_literal(&self) -> bool {
        self.node is Literal
    }

    /// Whether the expression is a constant literal.
    #[verifier::when_used_as_spec(spec_is_literal)]
    pub fn is_literal(&self) -> (literal: bool)
        ensures
            literal == self.spec_is_literal(),
            literal == self.deep_view().is_literal(),
    {
        match self.node {
            ExpressionNode::Literal => true,
            _ => false,
        }
    }
}

} // verus!
