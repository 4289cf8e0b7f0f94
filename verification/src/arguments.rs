//! Query arguments extractor.
//!
//! A query is walked in a fixed order, and every expression that it holds a
//! value in is emitted as an argument. The constant literals among them go to
//! one list, to be written into the query text; the others go to a second
//! list, to be bound when the query runs, in the order of that list. The
//! arguments of a method call are all bound, literal or not.

use vstd::prelude::*;
use vstd::string::StringExecFns;
use quote::ToTokens;
use crate::ast::{
    Aggregate, AggregateFilterExpression, Assignment, FieldList, Filter, FilterExpression,
    FilterValue, Identifier, Join, Limit, MethodCall, Order, Query, RelationalOperator,
};
use crate::expression::{
    Expression, ExpressionModel, ExpressionNode, Ident, IdentModel, NodeModel,
};
use crate::span::Span;

verus! {

/// A Rust expression to be send as a parameter to the SQL query function.
#[derive(Clone, Debug, PartialEq, Eq)]
pub struct Arg {
    pub expression: Expression,
    pub field_name: Option<Ident>,
    pub field_name_prefix: Option<String>,
}

/// What an [`Arg`] stands for in contracts.
pub struct ArgModel {
    pub expression: ExpressionModel,
    pub field_name: Option<IdentModel>,
    pub field_name_prefix: Option<Seq<char>>,
}

impl DeepView for Arg {
    type V = ArgModel;

    open spec fn deep_view(&self) -> ArgModel {
        ArgModel {
            expression: self.expression.deep_view(),
            field_name: self.field_name.deep_view(),
            field_name_prefix: self.field_name_prefix.deep_view(),
        }
    }
}

/// A collection of `Arg`s.
pub type Args = Vec<Arg>;

/// What the expression parser makes of a source text: the tokens of the one
/// expression that the text holds, printed again; `None` where the text does
/// not hold one expression.
pub uninterp spec fn parsed_expression(source: Seq<char>) -> Option<Seq<char>>;

/// Parses a source text as one expression and prints the expression's tokens.
///
/// Calls `syn::parse_str` for a `syn::Expr`, and prints what it read with
/// `to_token_stream` and the tokens' `to_string`. Nothing here is proved. The
/// contract claims no more than that the outcome depends on the text alone:
/// it is `None` where `syn` reports an error, and the printed tokens
/// otherwise. `syn` is built without its link to the compiler, so that it
/// reads the text with its own tokenizer wherever it runs. Like the walks of
/// this module it recurses on the nesting of what it reads.
#[verifier::external_body]
fn parse_expression(source: &str) -> (printed: Option<String>)
    ensures
        printed.deep_view() == parsed_expression(source@),
{
    match syn::parse_str::<syn::Expr>(source) {
        Ok(expression) => Some(expression.to_token_stream().to_string()),
        Err(_) => None,
    }
}

/// The operator that stands between the two bounds of a range in the
/// expression for its length, with a space on either side.
pub open spec fn minus() -> Seq<char> {
    " - "@
}

/// The expression that the parser reads in `end - start`, if it reads one.
pub open spec fn difference_source(end: Seq<char>, start: Seq<char>) -> Option<Seq<char>> {
    parsed_expression(end + minus() + start)
}

/// The expression that the compiler builds around the text of a difference.
/// It is no literal, whatever the text, and stands nowhere in the source.
pub open spec fn synthesized(source: Seq<char>) -> ExpressionModel {
    ExpressionModel { node: NodeModel::Other, source, span: Span::nowhere() }
}

/// An argument that carries an expression under a field name and a prefix.
pub open spec fn tagged(
    expression: ExpressionModel,
    field_name: Option<IdentModel>,
    field_name_prefix: Option<Seq<char>>,
) -> ArgModel {
    ArgModel { expression, field_name, field_name_prefix }
}

/// An argument that carries an expression and nothing else.
pub open spec fn untagged(expression: ExpressionModel) -> ArgModel {
    tagged(expression, None, None)
}

/// The two lists that a walk fills: the arguments to bind when the query
/// runs, and the literal arguments, each in the order of the walk.
pub struct ArgLists {
    pub dynamic: Seq<ArgModel>,
    pub literal: Seq<ArgModel>,
}

impl ArgLists {
    /// No argument of either kind.
    pub open spec fn nothing() -> ArgLists {
        ArgLists { dynamic: Seq::empty(), literal: Seq::empty() }
    }

    /// One argument, in the list that its expression puts it in: a literal
    /// is a literal argument, every other expression is bound.
    pub open spec fn of(arg: ArgModel) -> ArgLists {
        if arg.expression.is_literal() {
            ArgLists { dynamic: Seq::empty(), literal: seq![arg] }
        } else {
            ArgLists { dynamic: seq![arg], literal: Seq::empty() }
        }
    }

    /// Arguments that are bound whatever their expressions are.
    pub open spec fn bound(args: Seq<ArgModel>) -> ArgLists {
        ArgLists { dynamic: args, literal: Seq::empty() }
    }

    /// What a walk gives that goes on where this one ended: each list is
    /// followed by the list of the same kind.
    pub open spec fn followed_by(self, next: ArgLists) -> ArgLists {
        ArgLists { dynamic: self.dynamic + next.dynamic, literal: self.literal + next.literal }
    }

    /// The arguments of a sequence, each in the list that its expression
    /// puts it in.
    pub open spec fn each_of(args: Seq<ArgModel>) -> ArgLists
        decreases args.len(),
    {
        if args.len() == 0 {
            ArgLists::nothing()
        } else {
            ArgLists::each_of(args.drop_last()).followed_by(ArgLists::of(args.last()))
        }
    }
}

/// A walk that gives nothing leaves both lists as they are.
pub proof fn lemma_nothing_walked(arguments: Seq<ArgModel>, literals: Seq<ArgModel>)
    ensures
        arguments + ArgLists::nothing().dynamic == arguments,
        literals + ArgLists::nothing().literal == literals,
{
    assert(arguments + Seq::empty() =~= arguments);
    assert(literals + Seq::empty() =~= literals);
}

/// Two walks in a row add to each list what the first gave and then what
/// the second gave.
pub proof fn lemma_walked_in_turn(
    arguments: Seq<ArgModel>,
    literals: Seq<ArgModel>,
    first: ArgLists,
    second: ArgLists,
)
    ensures
        (arguments + first.dynamic) + second.dynamic == arguments + first.followed_by(second).dynamic,
        (literals + first.literal) + second.literal == literals + first.followed_by(second).literal,
{
    assert((arguments + first.dynamic) + second.dynamic =~= arguments + (first.dynamic
        + second.dynamic));
    assert((literals + first.literal) + second.literal =~= literals + (first.literal
        + second.literal));
}

/// Add an argument to `arguments`.
fn add_expr(arguments: &mut Args, literals: &mut Args, arg: Arg)
    ensures
        final(arguments).deep_view() == old(arguments).deep_view() + ArgLists::of(
            arg.deep_view(),
        ).dynamic,
        final(literals).deep_view() == old(literals).deep_view() + ArgLists::of(
            arg.deep_view(),
        ).literal,
{
    proof {
        lemma_nothing_walked(arguments.deep_view(), literals.deep_view());
    }
    // Do not add literal.
    if arg.expression.is_literal() {
        literals.push(arg);
        assert(literals.deep_view() =~= old(literals).deep_view() + seq![arg.deep_view()]);
        return ;
    }
    arguments.push(arg);
    assert(arguments.deep_view() =~= old(arguments).deep_view() + seq![arg.deep_view()]);
}

/// Create an argument from the parameters and add it to `arguments`.
fn add(
    arguments: &mut Args,
    literals: &mut Args,
    field_name: Option<Ident>,
    field_name_prefix: Option<String>,
    expr: Expression,
)
    ensures
        final(arguments).deep_view() == old(arguments).deep_view() + ArgLists::of(
            tagged(expr.deep_view(), field_name.deep_view(), field_name_prefix.deep_view()),
        ).dynamic,
        final(literals).deep_view() == old(literals).deep_view() + ArgLists::of(
            tagged(expr.deep_view(), field_name.deep_view(), field_name_prefix.deep_view()),
        ).literal,
{
    add_expr(arguments, literals, Arg { expression: expr, field_name_prefix, field_name });
}

/// Construct an argument from the method and add it to `args`. An argument
/// of a method call is bound when the query runs, whatever it is: it is
/// never added to `literals`.
fn add_with_method(args: &mut Args, literals: &mut Args, expr: Expression)
    ensures
        final(args).deep_view() == old(args).deep_view().push(untagged(expr.deep_view())),
        final(literals).deep_view() == old(literals).deep_view(),
{
    let arg = Arg { expression: expr, field_name: None, field_name_prefix: None };
    args.push(arg);
    assert(args.deep_view() =~= old(args).deep_view().push(arg.deep_view()));
}

/// The arguments that the walk of a limit gives. An index and a range that
/// is open on one side give their one bound. A range gives two: the
/// expression for its length, which the compiler builds from the two bounds,
/// and then its start.
pub open spec fn limit_arguments(limit: Limit) -> ArgLists {
    match limit {
        Limit::EndRange(expression) => ArgLists::of(untagged(expression.deep_view())),
        Limit::Index(expression) => ArgLists::of(untagged(expression.deep_view())),
        Limit::LimitOffset(_, _) => ArgLists::nothing(),
        Limit::NoLimit => ArgLists::nothing(),
        Limit::Range(start, end) => ArgLists::of(
            untagged(synthesized(difference_source(end.source@, start.source@)->0)),
        ).followed_by(ArgLists::of(untagged(start.deep_view()))),
        Limit::StartRange(expression) => ArgLists::of(untagged(expression.deep_view())),
    }
}

/// Whether the limit can be walked: the two bounds of a range have to give
/// an expression when the one is subtracted from the other.
pub open spec fn limit_is_walkable(limit: Limit) -> bool {
    limit matches Limit::Range(start, end) ==> difference_source(end.source@, start.source@)
        is Some
}

/// The expression that the compiler builds around the text of a difference.
pub fn synthesized_expression(source: String) -> (expression: Expression)
    ensures
        expression.deep_view() == synthesized(source@),
        !expression.is_literal(),
{
    Expression { node: ExpressionNode::Other, source, span: Span::nowhere() }
}

/// The expression for `end - start`, if the two give one.
pub fn difference(end: &Expression, start: &Expression) -> (length: Option<Expression>)
    ensures
        length.deep_view() == match difference_source(end.source@, start.source@) {
            Some(source) => Some(synthesized(source)),
            None => None,
        },
{
    let mut text = end.source.clone();
    text.append(" - ");
    text.append(start.source.as_str());
    match parse_expression(text.as_str()) {
        Some(source) => Some(synthesized_expression(source)),
        None => None,
    }
}

/// Create arguments from a range, given the expression for its length, and
/// add them to `arguments`.
pub fn add_range_arguments(
    length: Expression,
    start: Expression,
    arguments: &mut Args,
    literals: &mut Args,
)
    ensures
        final(arguments).deep_view() == old(arguments).deep_view() + ArgLists::of(
            untagged(length.deep_view()),
        ).followed_by(ArgLists::of(untagged(start.deep_view()))).dynamic,
        final(literals).deep_view() == old(literals).deep_view() + ArgLists::of(
            untagged(length.deep_view()),
        ).followed_by(ArgLists::of(untagged(start.deep_view()))).literal,
{
    proof {
        lemma_walked_in_turn(
            arguments.deep_view(),
            literals.deep_view(),
            ArgLists::of(untagged(length.deep_view())),
            ArgLists::of(untagged(start.deep_view())),
        );
    }
    add_expr(
        arguments,
        literals,
        Arg { expression: length, field_name: None, field_name_prefix: None },
    );
    self::add(arguments, literals, None, None, start);
}

/// Create arguments from the `limit` and add them to `arguments`.
fn add_limit_arguments(limit: Limit, arguments: &mut Args, literals: &mut Args)
    requires
        limit_is_walkable(limit),
    ensures
        final(arguments).deep_view() == old(arguments).deep_view() + limit_arguments(
            limit,
        ).dynamic,
        final(literals).deep_view() == old(literals).deep_view() + limit_arguments(limit).literal,
{
    proof {
        lemma_nothing_walked(arguments.deep_view(), literals.deep_view());
    }
    match limit {
        Limit::EndRange(expression) => self::add(arguments, literals, None, None, expression),
        Limit::Index(expression) => self::add(arguments, literals, None, None, expression),
        // NOTE: there are no arguments to add for a `LimitOffset` because it is always using literals.
        Limit::LimitOffset(_, _) => (),
        Limit::NoLimit => (),
        Limit::Range(expression1, expression2) => {
            if let Some(expression) = difference(&expression2, &expression1) {
                add_range_arguments(expression, expression1, arguments, literals);
            }
        },
        Limit::StartRange(expression) => self::add(arguments, literals, None, None, expression),
    }
}

/// The arguments that the arguments of a method call are emitted as: one
/// for each, in the order of the call, with no tag.
pub open spec fn method_arguments(arguments: Seq<Expression>) -> Seq<ArgModel> {
    Seq::new(arguments.len(), |i: int| untagged(arguments[i].deep_view()))
}

/// The arguments that a filter value gives beside the expression that it is
/// compared to, if there is one. A column gives that expression under the
/// column's name and table; a primary key gives it under the table alone. A
/// method call gives its own arguments, all of them bound, and nothing of
/// the expression.
pub open spec fn filter_value_arguments(
    filter_value: FilterValue,
    expression: Option<Expression>,
) -> ArgLists {
    match filter_value {
        FilterValue::Identifier(table, identifier) => match expression {
            Some(expr) => ArgLists::of(
                tagged(expr.deep_view(), Some(identifier.deep_view()), Some(table@)),
            ),
            None => ArgLists::nothing(),
        },
        FilterValue::MethodCall(call) => ArgLists::bound(method_arguments(call.arguments@)),
        FilterValue::NoValue => ArgLists::nothing(),
        FilterValue::PrimaryKey(table) => match expression {
            Some(expr) => ArgLists::of(tagged(expr.deep_view(), None, Some(table@))),
            None => ArgLists::nothing(),
        },
    }
}

/// Create arguments from the arguments of a method call and add them to
/// `args`.
fn add_method_arguments(arguments: Vec<Expression>, args: &mut Args, literals: &mut Args)
    ensures
        final(args).deep_view() == old(args).deep_view() + method_arguments(arguments@),
        final(literals).deep_view() == old(literals).deep_view(),
{
    let ghost all = arguments@;
    assert(args.deep_view() + method_arguments(all.take(0)) =~= args.deep_view());
    for arg in iter: arguments
        invariant
            iter.seq() == all,
            args.deep_view() == old(args).deep_view() + method_arguments(
                all.take(iter.index() as int),
            ),
            literals.deep_view() == old(literals).deep_view(),
    {
        add_with_method(args, literals, arg);
        assert(args.deep_view() =~= old(args).deep_view() + method_arguments(
            all.take(iter.index() + 1),
        ));
    }
    assert(all.take(all.len() as int) =~= all);
}

fn add_filter_value_arguments(
    filter_value: FilterValue,
    args: &mut Args,
    literals: &mut Args,
    expression: Option<Expression>,
)
    requires
        !(filter_value is NoValue),
    ensures
        final(args).deep_view() == old(args).deep_view() + filter_value_arguments(
            filter_value,
            expression,
        ).dynamic,
        final(literals).deep_view() == old(literals).deep_view() + filter_value_arguments(
            filter_value,
            expression,
        ).literal,
{
    proof {
        lemma_nothing_walked(args.deep_view(), literals.deep_view());
    }
    match filter_value {
        FilterValue::Identifier(table, identifier) => {
            // It is possible to have an identifier without expression, when the identifier is a
            // boolean field name, hence this condition.
            if let Some(expr) = expression {
                self::add(args, literals, Some(identifier), Some(table), expr);
            }
        },
        FilterValue::MethodCall(MethodCall { arguments, .. }) => {
            add_method_arguments(arguments, args, literals);
        },
        FilterValue::NoValue => (),
        FilterValue::PrimaryKey(table) => {
            if let Some(expr) = expression {
                self::add(args, literals, None, Some(table), expr);
            }
        },
    }
}

/// The arguments that the walk of a filter tree gives: those of its leaves,
/// from left to right.
pub open spec fn filter_arguments(filter: FilterExpression) -> ArgLists
    decreases filter,
{
    match filter {
        FilterExpression::Filter(filter) => filter_value_arguments(
            filter.operand1,
            Some(filter.operand2),
        ),
        FilterExpression::Filters(filters) => filter_arguments(*filters.operand1).followed_by(
            filter_arguments(*filters.operand2),
        ),
        FilterExpression::NegFilter(filter) => filter_arguments(*filter),
        FilterExpression::NoFilters => ArgLists::nothing(),
        FilterExpression::ParenFilter(filter) => filter_arguments(*filter),
        FilterExpression::FilterValue(filter_value) => filter_value_arguments(
            filter_value.node,
            None,
        ),
    }
}

/// Create arguments from the `filter` and add them to `arguments`.
fn add_filter_arguments(filter: FilterExpression, args: &mut Args, literals: &mut Args)
    requires
        filter.is_complete(),
    ensures
        final(args).deep_view() == old(args).deep_view() + filter_arguments(filter).dynamic,
        final(literals).deep_view() == old(literals).deep_view() + filter_arguments(
            filter,
        ).literal,
    decreases filter,
{
    match filter {
        FilterExpression::Filter(filter) => {
            add_filter_value_arguments(filter.operand1, args, literals, Some(filter.operand2));
        },
        FilterExpression::Filters(filters) => {
            proof {
                lemma_walked_in_turn(
                    args.deep_view(),
                    literals.deep_view(),
                    filter_arguments(*filters.operand1),
                    filter_arguments(*filters.operand2),
                );
            }
            add_filter_arguments(*filters.operand1, args, literals);
            add_filter_arguments(*filters.operand2, args, literals);
        },
        FilterExpression::NegFilter(filter) => {
            add_filter_arguments(*filter, args, literals);
        },
        FilterExpression::NoFilters => {
            proof {
                lemma_nothing_walked(args.deep_view(), literals.deep_view());
            }
        },
        FilterExpression::ParenFilter(filter) => {
            add_filter_arguments(*filter, args, literals);
        },
        FilterExpression::FilterValue(filter_value) => {
            add_filter_value_arguments(filter_value.node, args, literals, None);
        },
    }
}

/// The arguments that an aggregate gives beside the expression that it is
/// compared to, if there is one: that expression, with no tag. Nothing of
/// the aggregate itself is emitted.
pub open spec fn aggregate_filter_value_arguments(
    aggregate: Aggregate,
    expression: Option<Expression>,
) -> ArgLists {
    match expression {
        Some(expr) => ArgLists::of(untagged(expr.deep_view())),
        None => ArgLists::nothing(),
    }
}

/// The arguments that the walk of an aggregate filter tree gives: those of
/// its leaves, from left to right.
pub open spec fn aggregate_filter_arguments(filter: AggregateFilterExpression) -> ArgLists
    decreases filter,
{
    match filter {
        AggregateFilterExpression::Filter(filter) => aggregate_filter_value_arguments(
            filter.operand1,
            Some(filter.operand2),
        ),
        AggregateFilterExpression::Filters(filters) => aggregate_filter_arguments(
            *filters.operand1,
        ).followed_by(aggregate_filter_arguments(*filters.operand2)),
        AggregateFilterExpression::NegFilter(filter) => aggregate_filter_arguments(*filter),
        AggregateFilterExpression::NoFilters => ArgLists::nothing(),
        AggregateFilterExpression::ParenFilter(filter) => aggregate_filter_arguments(*filter),
        AggregateFilterExpression::FilterValue(filter_value) => aggregate_filter_value_arguments(
            filter_value.node,
            None,
        ),
    }
}

fn add_aggregate_filter_value_arguments(
    _aggregate: &Aggregate,
    args: &mut Args,
    literals: &mut Args,
    expression: Option<Expression>,
)
    ensures
        final(args).deep_view() == old(args).deep_view() + aggregate_filter_value_arguments(
            *_aggregate,
            expression,
        ).dynamic,
        final(literals).deep_view() == old(literals).deep_view()
            + aggregate_filter_value_arguments(*_aggregate, expression).literal,
{
    proof {
        lemma_nothing_walked(args.deep_view(), literals.deep_view());
    }
    if let Some(expr) = expression {
        self::add(args, literals, None, None, expr);
    }
}

/// Create arguments from the `filter` and add them to `arguments`.
fn add_aggregate_filter_arguments(
    filter: AggregateFilterExpression,
    args: &mut Args,
    literals: &mut Args,
)
    ensures
        final(args).deep_view() == old(args).deep_view() + aggregate_filter_arguments(
            filter,
        ).dynamic,
        final(literals).deep_view() == old(literals).deep_view() + aggregate_filter_arguments(
            filter,
        ).literal,
    decreases filter,
{
    match filter {
        AggregateFilterExpression::Filter(filter) => {
            add_aggregate_filter_value_arguments(
                &filter.operand1,
                args,
                literals,
                Some(filter.operand2),
            );
        },
        AggregateFilterExpression::Filters(filters) => {
            proof {
                lemma_walked_in_turn(
                    args.deep_view(),
                    literals.deep_view(),
                    aggregate_filter_arguments(*filters.operand1),
                    aggregate_filter_arguments(*filters.operand2),
                );
            }
            add_aggregate_filter_arguments(*filters.operand1, args, literals);
            add_aggregate_filter_arguments(*filters.operand2, args, literals);
        },
        AggregateFilterExpression::NegFilter(filter) => {
            add_aggregate_filter_arguments(*filter, args, literals);
        },
        AggregateFilterExpression::NoFilters => {
            proof {
                lemma_nothing_walked(args.deep_view(), literals.deep_view());
            }
        },
        AggregateFilterExpression::ParenFilter(filter) => {
            add_aggregate_filter_arguments(*filter, args, literals);
        },
        AggregateFilterExpression::FilterValue(filter_value) => {
            add_aggregate_filter_value_arguments(&filter_value.node, args, literals, None);
        },
    }
}

/// The arguments that a list of assignments is emitted as: the value of
/// each, under the name of the field that it is assigned to, in the order of
/// the list.
pub open spec fn assigned(assignments: Seq<Assignment>) -> Seq<ArgModel> {
    Seq::new(
        assignments.len(),
        |i: int|
            tagged(
                assignments[i].value.deep_view(),
                Some(assignments[i].identifier.deep_view()),
                None,
            ),
    )
}

/// The arguments that the walk of a list of assignments gives.
pub open spec fn assignment_arguments(assignments: Seq<Assignment>) -> ArgLists {
    ArgLists::each_of(assigned(assignments))
}

/// Create arguments from the `assignments` and add them to `arguments`.
fn add_assignments(assignments: Vec<Assignment>, arguments: &mut Args, literals: &mut Args)
    ensures
        final(arguments).deep_view() == old(arguments).deep_view() + assignment_arguments(
            assignments@,
        ).dynamic,
        final(literals).deep_view() == old(literals).deep_view() + assignment_arguments(
            assignments@,
        ).literal,
{
    let ghost all = assignments@;
    proof {
        lemma_nothing_walked(arguments.deep_view(), literals.deep_view());
        assert(assigned(all.take(0)) =~= Seq::<ArgModel>::empty());
    }
    for assign in iter: assignments
        invariant
            iter.seq() == all,
            arguments.deep_view() == old(arguments).deep_view() + assignment_arguments(
                all.take(iter.index() as int),
            ).dynamic,
            literals.deep_view() == old(literals).deep_view() + assignment_arguments(
                all.take(iter.index() as int),
            ).literal,
    {
        let ghost done = all.take(iter.index() as int);
        let ghost next = tagged(
            assign.value.deep_view(),
            Some(assign.identifier.deep_view()),
            None,
        );
        proof {
            let more = assigned(all.take(iter.index() + 1));
            assert(more.drop_last() =~= assigned(done));
            assert(more.last() == next);
            lemma_walked_in_turn(
                old(arguments).deep_view(),
                old(literals).deep_view(),
                assignment_arguments(done),
                ArgLists::of(next),
            );
        }
        let field_name = assign.identifier;
        self::add(arguments, literals, Some(field_name), None, assign.value);
    }
    assert(all.take(all.len() as int) =~= all);
}

/// The arguments that the walk of a query gives, in the order of the walk:
/// the filter before the aggregate filter, the filter before the limit, the
/// assignments before the filter. The creation and the removal of a table
/// give none.
pub open spec fn query_arguments(query: Query) -> ArgLists {
    match query {
        Query::Aggregate { aggregate_filter, filter, .. } => filter_arguments(filter).followed_by(
            aggregate_filter_arguments(aggregate_filter),
        ),
        Query::CreateTable { .. } => ArgLists::nothing(),
        Query::Delete { filter, .. } => filter_arguments(filter),
        Query::Drop { .. } => ArgLists::nothing(),
        Query::Insert { assignments, .. } => assignment_arguments(assignments@),
        Query::Select { filter, limit, .. } => filter_arguments(filter).followed_by(
            limit_arguments(limit),
        ),
        Query::Update { assignments, filter, .. } => assignment_arguments(assignments@).followed_by(
            filter_arguments(filter),
        ),
    }
}

/// Whether the query can be walked: its filter tree is complete, and the
/// bounds of a range that limits it give an expression when the one is
/// subtracted from the other.
pub open spec fn is_walkable(query: Query) -> bool {
    match query {
        Query::Aggregate { filter, .. } => filter.is_complete(),
        Query::CreateTable { .. } => true,
        Query::Delete { filter, .. } => filter.is_complete(),
        Query::Drop { .. } => true,
        Query::Insert { .. } => true,
        Query::Select { filter, limit, .. } => filter.is_complete() && limit_is_walkable(limit),
        Query::Update { filter, .. } => filter.is_complete(),
    }
}

/// Whether `result` holds the arguments of `query`: first the dynamic ones,
/// then the literal ones, each in the order of the walk.
pub open spec fn holds_arguments_of(result: (Seq<ArgModel>, Seq<ArgModel>), query: Query) -> bool {
    &&& result.0 == query_arguments(query).dynamic
    &&& result.1 == query_arguments(query).literal
}

/// Extract the Rust `Expression`s, the literal arguments and identifiers from the `Query`.
///
/// The first list holds the arguments to bind when the query runs, the
/// second the literal ones; both are in the order of the walk.
pub fn arguments(query: Query) -> (result: (Args, Args))
    requires
        is_walkable(query),
    ensures
        holds_arguments_of((result.0.deep_view(), result.1.deep_view()), query),
{
    let mut arguments = Vec::new();
    let mut literals = Vec::new();
    let ghost nothing = Seq::<ArgModel>::empty();
    assert(arguments.deep_view() =~= nothing);
    assert(literals.deep_view() =~= nothing);

    match query {
        Query::Aggregate { aggregate_filter, filter, .. } => {
            proof {
                lemma_walked_in_turn(
                    nothing,
                    nothing,
                    filter_arguments(filter),
                    aggregate_filter_arguments(aggregate_filter),
                );
            }
            add_filter_arguments(filter, &mut arguments, &mut literals);
            add_aggregate_filter_arguments(aggregate_filter, &mut arguments, &mut literals);
        },
        // No arguments.
        Query::CreateTable { .. } => (),
        Query::Delete { filter, .. } => {
            add_filter_arguments(filter, &mut arguments, &mut literals);
        },
        // No arguments.
        Query::Drop { .. } => (),
        Query::Insert { assignments, .. } => {
            add_assignments(assignments, &mut arguments, &mut literals);
        },
        Query::Select { filter, limit, .. } => {
            proof {
                lemma_walked_in_turn(
                    nothing,
                    nothing,
                    filter_arguments(filter),
                    limit_arguments(limit),
                );
            }
            add_filter_arguments(filter, &mut arguments, &mut literals);
            add_limit_arguments(limit, &mut arguments, &mut literals);
        },
        Query::Update { assignments, filter, .. } => {
            proof {
                lemma_walked_in_turn(
                    nothing,
                    nothing,
                    assignment_arguments(assignments@),
                    filter_arguments(filter),
                );
            }
            add_assignments(assignments, &mut arguments, &mut literals);
            add_filter_arguments(filter, &mut arguments, &mut literals);
        },
    }
    assert(arguments.deep_view() =~= query_arguments(query).dynamic);
    assert(literals.deep_view() =~= query_arguments(query).literal);

    (arguments, literals)
}

/// Says whether the limit can be walked.
pub fn check_limit_walkable(limit: &Limit) -> (holds: bool)
    ensures
        holds == limit_is_walkable(*limit),
{
    match limit {
        Limit::Range(start, end) => difference(end, start).is_some(),
        _ => true,
    }
}

/// Says whether the query can be walked.
pub fn check_walkable(query: &Query) -> (holds: bool)
    ensures
        holds == is_walkable(*query),
{
    match query {
        Query::Aggregate { filter, .. } => filter.check_complete(),
        Query::CreateTable { .. } => true,
        Query::Delete { filter, .. } => filter.check_complete(),
        Query::Drop { .. } => true,
        Query::Insert { .. } => true,
        Query::Select { filter, limit, .. } => filter.check_complete() && check_limit_walkable(
            limit,
        ),
        Query::Update { filter, .. } => filter.check_complete(),
    }
}

/// Extract the arguments of the query where it can be walked; `None` where
/// it cannot.
pub fn checked_arguments(query: Query) -> (result: Option<(Args, Args)>)
    ensures
        match result {
            Some(lists) => is_walkable(query) && holds_arguments_of(
                (lists.0.deep_view(), lists.1.deep_view()),
                query,
            ),
            None => !is_walkable(query),
        },
{
    if check_walkable(&query) {
        Some(arguments(query))
    } else {
        None
    }
}

/// The clauses of a query are walked in turn, and each list holds what the
/// earlier clause gave before what the later one gave: the filter comes
/// before the limit, the filter before the aggregate filter, and the
/// assignments before the filter.
pub proof fn clauses_are_walked_in_turn(query: Query)
    ensures
        query matches Query::Select { filter, limit, .. } ==> {
            &&& query_arguments(query).dynamic == filter_arguments(filter).dynamic
                + limit_arguments(limit).dynamic
            &&& query_arguments(query).literal == filter_arguments(filter).literal
                + limit_arguments(limit).literal
        },
        query matches Query::Aggregate { aggregate_filter, filter, .. } ==> {
            &&& query_arguments(query).dynamic == filter_arguments(filter).dynamic
                + aggregate_filter_arguments(aggregate_filter).dynamic
            &&& query_arguments(query).literal == filter_arguments(filter).literal
                + aggregate_filter_arguments(aggregate_filter).literal
        },
        query matches Query::Update { assignments, filter, .. } ==> {
            &&& query_arguments(query).dynamic == assignment_arguments(assignments@).dynamic
                + filter_arguments(filter).dynamic
            &&& query_arguments(query).literal == assignment_arguments(assignments@).literal
                + filter_arguments(filter).literal
        },
{
}

/// A range gives two arguments, the expression for its length and then its
/// start, and the first of them is bound when the query runs, whatever the
/// two bounds are. Where the start is no literal both are bound, in that
/// order; where it is a literal, it is the one literal argument.
pub proof fn range_gives_length_then_start(
    fields: FieldList,
    joins: Vec<Join>,
    order: Vec<Order>,
    table: Identifier,
    start: Expression,
    end: Expression,
)
    ensures
        ({
            let query = Query::Select {
                fields,
                filter: FilterExpression::NoFilters,
                joins,
                limit: Limit::Range(start, end),
                order,
                table,
            };
            let length = untagged(synthesized(difference_source(end.source@, start.source@)->0));
            let offset = untagged(start.deep_view());
            &&& !start.is_literal() ==> holds_arguments_of(
                (seq![length, offset], Seq::empty()),
                query,
            )
            &&& start.is_literal() ==> holds_arguments_of((seq![length], seq![offset]), query)
        }),
{
    let length = untagged(synthesized(difference_source(end.source@, start.source@)->0));
    let offset = untagged(start.deep_view());
    let nothing = Seq::<ArgModel>::empty();
    let given = ArgLists::nothing().followed_by(ArgLists::of(length).followed_by(ArgLists::of(offset)));
    if start.is_literal() {
        assert(given.dynamic =~= seq![length]);
        assert(given.literal =~= seq![offset]);
    } else {
        assert(given.dynamic =~= seq![length, offset]);
        assert(given.literal =~= nothing);
    }
}

/// Whether the query holds no clause that bears a value: each filter tree
/// that it has is empty, it has no limit, and it assigns nothing.
pub open spec fn bears_no_value(query: Query) -> bool {
    match query {
        Query::Aggregate { aggregate_filter, filter, .. } => filter is NoFilters
            && aggregate_filter is NoFilters,
        Query::CreateTable { .. } => true,
        Query::Delete { filter, .. } => filter is NoFilters,
        Query::Drop { .. } => true,
        Query::Insert { assignments, .. } => assignments@.len() == 0,
        Query::Select { filter, limit, .. } => filter is NoFilters && limit is NoLimit,
        Query::Update { assignments, filter, .. } => assignments@.len() == 0 && filter
            is NoFilters,
    }
}

/// A query that holds no clause that bears a value has no arguments, of
/// either kind.
pub proof fn no_value_gives_no_argument(query: Query)
    requires
        bears_no_value(query),
    ensures
        holds_arguments_of((Seq::empty(), Seq::empty()), query),
{
    let nothing = Seq::<ArgModel>::empty();
    assert(nothing + nothing =~= nothing);
}

/// The creation and the removal of a table have no arguments, of either
/// kind.
pub proof fn table_queries_give_no_argument(query: Query)
    requires
        query is CreateTable || query is Drop,
    ensures
        holds_arguments_of((Seq::empty(), Seq::empty()), query),
{
}

/// A comparison of a method call gives the arguments of the call, in the
/// order of the call, and nothing of the expression that the call is compared
/// to. All of them are bound when the query runs, literal or not: a call of
/// one argument gives that argument as the one argument to bind, and no
/// literal argument.
pub proof fn method_call_gives_its_arguments(
    call: MethodCall,
    operator: RelationalOperator,
    operand2: Expression,
    table: Identifier,
)
    ensures
        ({
            let filter = FilterExpression::Filter(
                Filter { operand1: FilterValue::MethodCall(call), operator, operand2 },
            );
            let query = Query::Delete { filter, table };
            &&& filter_arguments(filter).dynamic == method_arguments(call.arguments@)
            &&& filter_arguments(filter).literal == Seq::<ArgModel>::empty()
            &&& holds_arguments_of((method_arguments(call.arguments@), Seq::empty()), query)
            &&& call.arguments@.len() == 1 ==> holds_arguments_of(
                (seq![untagged(call.arguments@[0].deep_view())], Seq::empty()),
                query,
            )
        }),
{
    if call.arguments@.len() == 1 {
        assert(method_arguments(call.arguments@) =~= seq![
            untagged(call.arguments@[0].deep_view()),
        ]);
    }
}

/// Two extractions from one query give the same lists: the same arguments
/// under the same tags, in the same order.
pub proof fn extraction_is_reproducible(query: Query, first: (Args, Args), second: (Args, Args))
    requires
        holds_arguments_of((first.0.deep_view(), first.1.deep_view()), query),
        holds_arguments_of((second.0.deep_view(), second.1.deep_view()), query),
    ensures
        first.0.deep_view() == second.0.deep_view(),
        first.1.deep_view() == second.1.deep_view(),
{
}

} // verus!
