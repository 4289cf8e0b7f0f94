//! The call-chain parser: it takes a chained-call expression apart into the
//! identifier it starts from and the calls made on it, in source order.

use vstd::prelude::*;
use crate::error::{Error, ErrorModel};
use crate::expression::{
    expression_models, Expression, ExpressionModel, ExpressionNode, NodeModel,
};
use crate::span::Span;

verus! {

/// A method call.
#[derive(Debug, PartialEq, Eq)]
pub struct MethodCall {
    pub arguments: Vec<Expression>,
    pub name: String,
    pub position: Span,
}

/// What a [`MethodCall`] stands for in contracts.
pub struct MethodCallModel {
    pub arguments: Seq<ExpressionModel>,
    pub name: Seq<char>,
    pub position: Span,
}

impl DeepView for MethodCall {
    type V = MethodCallModel;

    open spec fn deep_view(&self) -> MethodCallModel {
        MethodCallModel {
            arguments: expression_models(self.arguments@),
            name: self.name@,
            position: self.position,
        }
    }
}

/// A collection of method calls.
#[derive(Debug, PartialEq, Eq)]
pub struct MethodCalls {
    pub calls: Vec<MethodCall>,
    /// The identifier at the start of the calls chain; empty where the chain
    /// starts from none.
    pub name: String,
    pub position: Span,
}

/// What a [`MethodCalls`] stands for in contracts.
pub struct MethodCallsModel {
    pub calls: Seq<MethodCallModel>,
    pub name: Seq<char>,
    pub position: Span,
}

impl DeepView for MethodCalls {
    type V = MethodCallsModel;

    open spec fn deep_view(&self) -> MethodCallsModel {
        MethodCallsModel {
            calls: self.calls.deep_view(),
            name: self.name@,
            position: self.position,
        }
    }
}

impl MethodCalls {
    /// Add a call to the method calls `Vec`.
    fn push(&mut self, call: MethodCall)
        ensures
            final(self).calls@ == old(self).calls@.push(call),
            final(self).calls.deep_view() == old(self).calls.deep_view().push(call.deep_view()),
            final(self).name == old(self).name,
            final(self).position == old(self).position,
    {
        self.calls.push(call);
        assert(self.calls.deep_view() =~= old(self).calls.deep_view().push(call.deep_view()));
    }
}

/// The name of the call that an index operation stands for.
pub open spec fn limit_name() -> Seq<char> {
    "limit"@
}

/// The message of the error raised on an expression that is no part of a
/// call chain.
pub open spec fn expected_method_call() -> Seq<char> {
    "expected method call"@
}

/// The identifier that a chain starts from: the plain identifier found by
/// following the receivers of calls and index operations all the way down.
/// `None` where something else is found there.
pub open spec fn chain_root(expression: ExpressionModel) -> Option<Seq<char>>
    decreases expression,
{
    match expression.node {
        NodeModel::MethodCall { receiver, .. } => chain_root(*receiver),
        NodeModel::Index { receiver, .. } => chain_root(*receiver),
        NodeModel::Path(segments) => if segments.len() == 1 {
            Some(segments[0])
        } else {
            None
        },
        _ => None,
    }
}

/// The calls of a chain, the innermost receiver's first. An index operation
/// counts as a call of `limit` on the index, at the index's position.
pub open spec fn chain_calls(expression: ExpressionModel) -> Seq<MethodCallModel>
    decreases expression,
{
    match expression.node {
        NodeModel::MethodCall { receiver, method, arguments } => chain_calls(*receiver).push(
            MethodCallModel { arguments, name: method.name, position: method.span },
        ),
        NodeModel::Index { receiver, index } => chain_calls(*receiver).push(
            MethodCallModel { arguments: seq![*index], name: limit_name(), position: index.span },
        ),
        _ => Seq::empty(),
    }
}

/// The syntax errors of a chain: one where the chain starts from something
/// that is neither a path, a call nor an index operation, at that place.
pub open spec fn chain_errors(expression: ExpressionModel) -> Seq<ErrorModel>
    decreases expression,
{
    match expression.node {
        NodeModel::MethodCall { receiver, .. } => chain_errors(*receiver),
        NodeModel::Index { receiver, .. } => chain_errors(*receiver),
        NodeModel::Path(_) => Seq::empty(),
        _ => seq![ErrorModel { message: expected_method_call(), position: expression.span }],
    }
}

/// Add the calls from the `expression` into the `calls` `Vec`.
fn add_calls(expression: Expression, calls: &mut MethodCalls, errors: &mut Vec<Error>)
    ensures
        final(calls).calls.deep_view() == old(calls).calls.deep_view() + chain_calls(
            expression.deep_view(),
        ),
        final(calls).name@ == match chain_root(expression.deep_view()) {
            Some(name) => name,
            None => old(calls).name@,
        },
        final(calls).position == old(calls).position,
        final(errors).deep_view() == old(errors).deep_view() + chain_errors(
            expression.deep_view(),
        ),
    decreases expression,
{
    let ghost model = expression.deep_view();
    let Expression { node, source: _, span } = expression;
    match node {
        ExpressionNode::MethodCall { receiver, method, arguments } => {
            add_calls(*receiver, calls, errors);
            calls.push(MethodCall { name: method.name, arguments, position: method.span });
            assert(calls.calls.deep_view() =~= old(calls).calls.deep_view() + chain_calls(model));
        },
        ExpressionNode::Path(mut segments) => {
            if segments.len() == 1 {
                let name = segments.remove(0);
                calls.name = name;
            }
            assert(calls.calls.deep_view() =~= old(calls).calls.deep_view() + chain_calls(model));
            assert(errors.deep_view() =~= old(errors).deep_view() + chain_errors(model));
        },
        ExpressionNode::Index { receiver, index } => {
            add_calls(*receiver, calls, errors);
            let position = index.span;
            let mut arguments = Vec::new();
            arguments.push(*index);
            assert(expression_models(arguments@) =~= seq![index.deep_view()]);
            let name = "limit".to_string();
            assert(name@ == limit_name());
            calls.push(MethodCall { name, arguments, position });
            assert(calls.calls.deep_view() =~= old(calls).calls.deep_view() + chain_calls(model));
        },
        _ => {
            errors.push(Error::new("expected method call".to_string(), span));
            assert(calls.calls.deep_view() =~= old(calls).calls.deep_view() + chain_calls(model));
            assert(errors.deep_view() =~= old(errors).deep_view() + chain_errors(model));
        },
    }
}

/// Convert a method call expression to a simpler vector-based structure.
///
/// The calls come out in the order in which the source applies them. Every
/// part of the chain that has not the shape of a call is reported; the chain
/// is returned beside the errors, with an empty name where it starts from no
/// plain identifier.
pub fn parse(expression: Expression) -> (result: (MethodCalls, Vec<Error>))
    ensures
        result.0.deep_view() == (MethodCallsModel {
            calls: chain_calls(expression.deep_view()),
            name: match chain_root(expression.deep_view()) {
                Some(name) => name,
                None => Seq::empty(),
            },
            position: expression.span,
        }),
        result.1.deep_view() == chain_errors(expression.deep_view()),
{
    let mut errors = Vec::new();
    let mut calls = MethodCalls { calls: Vec::new(), name: String::new(), position: expression.span };
    add_calls(expression, &mut calls, &mut errors);
    assert(calls.calls.deep_view() =~= chain_calls(expression.deep_view()));
    assert(errors.deep_view() =~= chain_errors(expression.deep_view()));
    (calls, errors)
}

/// An index operation reads as a call of `limit`: `receiver[index]` and
/// `receiver.limit(index)` give the same root, the same errors and the same
/// calls, but for the position of the last call. The one has the position of
/// the index, the other that of the method's name.
pub proof fn index_reads_as_limit(indexed: ExpressionModel, called: ExpressionModel)
    requires
        indexed.node is Index,
        called.node matches NodeModel::MethodCall { receiver, method, arguments }
            && receiver == indexed.node->Index_receiver && method.name == limit_name()
            && arguments == seq![*indexed.node->index],
    ensures
        chain_root(indexed) == chain_root(called),
        chain_errors(indexed) == chain_errors(called),
        chain_calls(indexed).len() == chain_calls(called).len(),
        chain_calls(indexed).drop_last() == chain_calls(called).drop_last(),
        chain_calls(indexed).last().name == chain_calls(called).last().name,
        chain_calls(indexed).last().arguments == chain_calls(called).last().arguments,
        chain_calls(indexed).last().position == indexed.node->index.span,
        chain_calls(called).last().position == called.node->method.span,
{
    let receiver = *indexed.node->Index_receiver;
    assert(chain_calls(indexed).drop_last() =~= chain_calls(receiver));
    assert(chain_calls(called).drop_last() =~= chain_calls(receiver));
}

/// The calls of a chain come out in the order in which the source applies
/// them: a call made on a chain comes after all the calls of that chain.
pub proof fn calls_in_source_order(expression: ExpressionModel)
    requires
        expression.node is MethodCall,
    ensures
        chain_calls(expression).len() == chain_calls(*expression.node->MethodCall_receiver).len()
            + 1,
        chain_calls(expression).drop_last() == chain_calls(
            *expression.node->MethodCall_receiver,
        ),
        chain_calls(expression).last().name == expression.node->method.name,
        chain_calls(expression).last().arguments == expression.node->arguments,
{
    assert(chain_calls(expression).drop_last() =~= chain_calls(
        *expression.node->MethodCall_receiver,
    ));
}

} // verus!
