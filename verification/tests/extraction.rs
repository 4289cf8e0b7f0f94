use tql_query::arguments::{
    arguments, check_limit_walkable, check_walkable, checked_arguments, difference,
    add_range_arguments, synthesized_expression, Arg, Args,
};
use tql_query::ast::{
    Aggregate, AggregateFilter, AggregateFilterExpression, AggregateFilters, Assignment,
    AssignementOperator, Filter, FilterExpression, Filters, FilterValue, Limit, LogicalOperator,
    MethodCall, Query, RelationalOperator, TypedField, WithSpan,
};
use tql_query::expression::{Expression, ExpressionNode, Ident};
use tql_query::span::Span;

fn s(value: &str) -> String {
    value.to_string()
}

fn field(value: &str) -> Ident {
    Ident { name: s(value), span: Span { lo: 1, hi: 1 + value.len() } }
}

/// An expression that is no literal.
fn var(source: &str) -> Expression {
    Expression {
        node: ExpressionNode::Path(vec![s(source)]),
        source: s(source),
        span: Span { lo: 20, hi: 20 + source.len() },
    }
}

/// A literal.
fn lit(source: &str) -> Expression {
    Expression {
        node: ExpressionNode::Literal,
        source: s(source),
        span: Span { lo: 30, hi: 30 + source.len() },
    }
}

fn plain(expression: Expression) -> Arg {
    Arg { expression, field_name: None, field_name_prefix: None }
}

fn under(expression: Expression, name: Option<&str>, prefix: Option<&str>) -> Arg {
    Arg { expression, field_name: name.map(field), field_name_prefix: prefix.map(s) }
}

fn length(source: &str) -> Arg {
    plain(Expression {
        node: ExpressionNode::Other,
        source: s(source),
        span: Span { lo: 0, hi: 0 },
    })
}

fn column(table: &str, name: &str, operand2: Expression) -> FilterExpression {
    FilterExpression::Filter(Filter {
        operand1: FilterValue::Identifier(s(table), field(name)),
        operator: RelationalOperator::Equal,
        operand2,
    })
}

fn primary_key(table: &str, operand2: Expression) -> FilterExpression {
    FilterExpression::Filter(Filter {
        operand1: FilterValue::PrimaryKey(s(table)),
        operator: RelationalOperator::Equal,
        operand2,
    })
}

fn method(name: &str, arguments: Vec<Expression>) -> FilterValue {
    FilterValue::MethodCall(MethodCall {
        arguments,
        method_name: s(name),
        object_name: field("name"),
        template: s("{0} LIKE {1}"),
    })
}

fn method_filter(name: &str, arguments: Vec<Expression>, operand2: Expression) -> FilterExpression {
    FilterExpression::Filter(Filter {
        operand1: method(name, arguments),
        operator: RelationalOperator::Equal,
        operand2,
    })
}

fn alone(value: FilterValue) -> FilterExpression {
    FilterExpression::FilterValue(WithSpan { node: value, span: Span { lo: 3, hi: 9 } })
}

fn both(left: FilterExpression, operator: LogicalOperator, right: FilterExpression) -> FilterExpression {
    FilterExpression::Filters(Filters {
        operand1: Box::new(left),
        operator,
        operand2: Box::new(right),
    })
}

fn select(filter: FilterExpression, limit: Limit) -> Query {
    Query::Select {
        fields: vec![s("id")],
        filter,
        joins: vec![],
        limit,
        order: vec![],
        table: s("Table"),
    }
}

fn delete(filter: FilterExpression) -> Query {
    Query::Delete { filter, table: s("Table") }
}

fn assign(name: &str, operator: AssignementOperator, value: Expression) -> Assignment {
    Assignment {
        identifier: field(name),
        operator: WithSpan { node: operator, span: Span { lo: 8, hi: 9 } },
        value,
    }
}

fn sum() -> Aggregate {
    Aggregate { field: Some(field("price")), function: s("sum"), result_name: Some(field("total")) }
}

fn having(operand2: Expression) -> AggregateFilterExpression {
    AggregateFilterExpression::Filter(AggregateFilter {
        operand1: sum(),
        operator: RelationalOperator::GreaterThan,
        operand2,
    })
}

fn aggregate(filter: FilterExpression, aggregate_filter: AggregateFilterExpression) -> Query {
    Query::Aggregate {
        aggregates: vec![sum()],
        aggregate_filter,
        filter,
        groups: vec![s("kind")],
        joins: vec![],
        table: s("Table"),
    }
}

fn nothing() -> (Args, Args) {
    (vec![], vec![])
}

#[test]
fn queries_on_tables_have_no_arguments() {
    let create = Query::CreateTable {
        fields: vec![TypedField { identifier: s("id"), typ: s("SERIAL") }],
        table: s("Table"),
    };
    assert_eq!(arguments(create), nothing());
    assert_eq!(arguments(Query::Drop { table: s("Table") }), nothing());
}

#[test]
fn queries_without_filter_limit_and_assignment_have_no_arguments() {
    assert_eq!(arguments(select(FilterExpression::NoFilters, Limit::NoLimit)), nothing());
    assert_eq!(arguments(delete(FilterExpression::NoFilters)), nothing());
    assert_eq!(
        arguments(aggregate(FilterExpression::NoFilters, AggregateFilterExpression::NoFilters)),
        nothing()
    );
    assert_eq!(arguments(Query::Insert { assignments: vec![], table: s("Table") }), nothing());
    assert_eq!(
        arguments(Query::Update {
            assignments: vec![],
            filter: FilterExpression::NoFilters,
            table: s("Table"),
        }),
        nothing()
    );
}

#[test]
fn assignment_is_an_argument_though_filter_and_limit_are_empty() {
    let insert =
        Query::Insert { assignments: vec![assign("a", AssignementOperator::Equal, var("x"))], table: s("T") };
    assert_eq!(arguments(insert), (vec![under(var("x"), Some("a"), None)], vec![]));
}

#[test]
fn comparison_of_a_column_is_tagged_with_column_and_table() {
    let (dynamic, literals) = arguments(delete(column("Table", "age", var("min"))));
    assert_eq!(dynamic, vec![under(var("min"), Some("age"), Some("Table"))]);
    assert_eq!(literals, vec![]);

    let (dynamic, literals) = arguments(delete(column("Other", "age", lit("18"))));
    assert_eq!(dynamic, vec![]);
    assert_eq!(literals, vec![under(lit("18"), Some("age"), Some("Other"))]);
}

#[test]
fn comparison_of_a_primary_key_is_tagged_with_the_table_alone() {
    let (dynamic, literals) = arguments(delete(primary_key("Table", var("id"))));
    assert_eq!(dynamic, vec![under(var("id"), None, Some("Table"))]);
    assert_eq!(literals, vec![]);

    let (dynamic, literals) = arguments(delete(primary_key("Table", lit("1"))));
    assert_eq!(dynamic, vec![]);
    assert_eq!(literals, vec![under(lit("1"), None, Some("Table"))]);
}

#[test]
fn comparison_of_a_method_call_gives_the_arguments_of_the_call() {
    // name.contains(needle) == true
    let filter = method_filter("contains", vec![var("needle")], lit("true"));
    let (dynamic, literals) = arguments(delete(filter));
    assert_eq!(dynamic, vec![plain(var("needle"))]);
    assert_eq!(literals, vec![]);
}

#[test]
fn literal_argument_of_a_method_call_is_bound_like_any_other() {
    // name.contains("x") == y
    let filter = method_filter("contains", vec![lit("\"x\"")], var("y"));
    let (dynamic, literals) = arguments(delete(filter));
    assert_eq!(dynamic, vec![plain(lit("\"x\""))]);
    assert_eq!(dynamic[0].field_name, None);
    assert_eq!(dynamic[0].field_name_prefix, None);
    assert_eq!(literals, vec![]);

    // name.contains("x") == true: the literal that the call is compared to
    // is not an argument either.
    let filter = method_filter("contains", vec![lit("\"x\"")], lit("true"));
    assert_eq!(arguments(delete(filter)), (vec![plain(lit("\"x\""))], vec![]));
}

#[test]
fn arguments_of_a_method_call_come_in_the_order_of_the_call() {
    let filter = method_filter(
        "between",
        vec![var("a"), lit("1"), var("b"), lit("2"), var("c")],
        var("ignored"),
    );
    let (dynamic, literals) = arguments(delete(filter));
    assert_eq!(
        dynamic,
        vec![plain(var("a")), plain(lit("1")), plain(var("b")), plain(lit("2")), plain(var("c"))]
    );
    assert_eq!(literals, vec![]);
}

#[test]
fn method_call_without_arguments_gives_nothing() {
    let filter = method_filter("is_empty", vec![], var("ignored"));
    assert_eq!(arguments(delete(filter)), nothing());
}

#[test]
fn value_that_stands_alone_gives_only_the_arguments_of_a_call() {
    let flag = alone(FilterValue::Identifier(s("Table"), field("active")));
    assert_eq!(arguments(delete(flag)), nothing());
    let key = alone(FilterValue::PrimaryKey(s("Table")));
    assert_eq!(arguments(delete(key)), nothing());
    let call = alone(method("starts_with", vec![var("prefix"), lit("2")]));
    assert_eq!(arguments(delete(call)), (vec![plain(var("prefix")), plain(lit("2"))], vec![]));
}

#[test]
fn filter_tree_is_walked_from_left_to_right() {
    // a == x && !(b == 1 || (c == y)) && k == z
    let tree = both(
        both(
            column("T", "a", var("x")),
            LogicalOperator::And,
            FilterExpression::NegFilter(Box::new(FilterExpression::ParenFilter(Box::new(both(
                column("T", "b", lit("1")),
                LogicalOperator::Or,
                FilterExpression::ParenFilter(Box::new(column("U", "c", var("y")))),
            ))))),
        ),
        LogicalOperator::And,
        primary_key("T", var("z")),
    );
    let (dynamic, literals) = arguments(delete(tree));
    assert_eq!(
        dynamic,
        vec![
            under(var("x"), Some("a"), Some("T")),
            under(var("y"), Some("c"), Some("U")),
            under(var("z"), None, Some("T")),
        ]
    );
    assert_eq!(literals, vec![under(lit("1"), Some("b"), Some("T"))]);
}

#[test]
fn empty_filter_inside_a_tree_gives_nothing() {
    let tree = both(
        FilterExpression::NoFilters,
        LogicalOperator::And,
        both(column("T", "a", var("x")), LogicalOperator::Or, FilterExpression::NoFilters),
    );
    assert_eq!(
        arguments(delete(tree)),
        (vec![under(var("x"), Some("a"), Some("T"))], vec![])
    );
    let empty = FilterExpression::NegFilter(Box::new(FilterExpression::NoFilters));
    assert_eq!(arguments(delete(empty)), nothing());
}

#[test]
fn aggregate_walks_the_filter_and_then_the_aggregate_filter() {
    let filter = both(column("T", "a", var("x")), LogicalOperator::And, column("T", "b", lit("1")));
    let aggregate_filter = AggregateFilterExpression::Filters(AggregateFilters {
        operand1: Box::new(having(var("low"))),
        operator: LogicalOperator::And,
        operand2: Box::new(AggregateFilterExpression::NegFilter(Box::new(
            AggregateFilterExpression::ParenFilter(Box::new(having(lit("100")))),
        ))),
    });
    let (dynamic, literals) = arguments(aggregate(filter, aggregate_filter));
    assert_eq!(dynamic, vec![under(var("x"), Some("a"), Some("T")), plain(var("low"))]);
    assert_eq!(literals, vec![under(lit("1"), Some("b"), Some("T")), plain(lit("100"))]);
}

#[test]
fn aggregate_that_stands_alone_gives_nothing() {
    let aggregate_filter = AggregateFilterExpression::Filters(AggregateFilters {
        operand1: Box::new(AggregateFilterExpression::FilterValue(WithSpan {
            node: sum(),
            span: Span { lo: 0, hi: 3 },
        })),
        operator: LogicalOperator::Or,
        operand2: Box::new(AggregateFilterExpression::NoFilters),
    });
    assert_eq!(arguments(aggregate(FilterExpression::NoFilters, aggregate_filter)), nothing());
}

#[test]
fn insertion_walks_the_assignments_in_their_order() {
    let insert = Query::Insert {
        assignments: vec![
            assign("a", AssignementOperator::Equal, var("x")),
            assign("b", AssignementOperator::Equal, lit("2")),
            assign("c", AssignementOperator::Equal, var("z")),
            assign("d", AssignementOperator::Equal, lit("\"four\"")),
        ],
        table: s("Table"),
    };
    let (dynamic, literals) = arguments(insert);
    assert_eq!(dynamic, vec![under(var("x"), Some("a"), None), under(var("z"), Some("c"), None)]);
    assert_eq!(
        literals,
        vec![under(lit("2"), Some("b"), None), under(lit("\"four\""), Some("d"), None)]
    );
}

#[test]
fn update_walks_the_assignments_and_then_the_filter() {
    let update = Query::Update {
        assignments: vec![
            assign("count", AssignementOperator::Add, lit("1")),
            assign("name", AssignementOperator::Equal, var("new_name")),
        ],
        filter: both(column("T", "id", var("id")), LogicalOperator::And, column("T", "kind", lit("3"))),
        table: s("T"),
    };
    let (dynamic, literals) = arguments(update);
    assert_eq!(
        dynamic,
        vec![under(var("new_name"), Some("name"), None), under(var("id"), Some("id"), Some("T"))]
    );
    assert_eq!(
        literals,
        vec![under(lit("1"), Some("count"), None), under(lit("3"), Some("kind"), Some("T"))]
    );
}

#[test]
fn selection_walks_the_filter_and_then_the_limit() {
    let query = select(column("T", "a", var("x")), Limit::Index(var("i")));
    assert_eq!(
        arguments(query),
        (vec![under(var("x"), Some("a"), Some("T")), plain(var("i"))], vec![])
    );
    let query = select(column("T", "a", lit("1")), Limit::Index(lit("0")));
    assert_eq!(
        arguments(query),
        (vec![], vec![under(lit("1"), Some("a"), Some("T")), plain(lit("0"))])
    );
}

#[test]
fn limit_of_one_bound_gives_that_bound() {
    assert_eq!(
        arguments(select(FilterExpression::NoFilters, Limit::EndRange(var("n")))),
        (vec![plain(var("n"))], vec![])
    );
    assert_eq!(
        arguments(select(FilterExpression::NoFilters, Limit::EndRange(lit("10")))),
        (vec![], vec![plain(lit("10"))])
    );
    assert_eq!(
        arguments(select(FilterExpression::NoFilters, Limit::StartRange(var("n")))),
        (vec![plain(var("n"))], vec![])
    );
    assert_eq!(
        arguments(select(FilterExpression::NoFilters, Limit::StartRange(lit("10")))),
        (vec![], vec![plain(lit("10"))])
    );
    assert_eq!(
        arguments(select(FilterExpression::NoFilters, Limit::Index(var("n")))),
        (vec![plain(var("n"))], vec![])
    );
    assert_eq!(
        arguments(select(FilterExpression::NoFilters, Limit::Index(lit("10")))),
        (vec![], vec![plain(lit("10"))])
    );
}

#[test]
fn limit_and_offset_give_nothing() {
    let limit = Limit::LimitOffset(var("n"), lit("2"));
    assert_eq!(arguments(select(FilterExpression::NoFilters, limit)), nothing());
}

#[test]
fn range_gives_its_length_and_then_its_start() {
    let query = select(FilterExpression::NoFilters, Limit::Range(var("a"), var("b")));
    assert_eq!(arguments(query), (vec![length("b - a"), plain(var("a"))], vec![]));
}

#[test]
fn length_of_a_range_of_literals_is_no_literal() {
    let query = select(FilterExpression::NoFilters, Limit::Range(lit("1"), lit("5")));
    assert_eq!(arguments(query), (vec![length("5 - 1")], vec![plain(lit("1"))]));
    let query = select(FilterExpression::NoFilters, Limit::Range(var("a"), lit("5")));
    assert_eq!(arguments(query), (vec![length("5 - a"), plain(var("a"))], vec![]));
}

#[test]
fn length_of_a_range_is_read_by_the_parser() {
    let start = Expression {
        node: ExpressionNode::Other,
        source: s("page*size"),
        span: Span { lo: 4, hi: 13 },
    };
    let end = Expression {
        node: ExpressionNode::Other,
        source: s("v.len()"),
        span: Span { lo: 15, hi: 22 },
    };
    let query = select(column("T", "a", var("x")), Limit::Range(start.clone(), end));
    assert_eq!(
        arguments(query),
        (
            vec![
                under(var("x"), Some("a"), Some("T")),
                length("v . len () - page * size"),
                plain(start),
            ],
            vec![]
        )
    );
}

#[test]
fn difference_is_printed_by_the_parser() {
    let end = Expression {
        node: ExpressionNode::Other,
        source: s("n+1"),
        span: Span { lo: 10, hi: 13 },
    };
    let found = difference(&end, &var("offset")).unwrap();
    assert_eq!(found.source, "n + 1 - offset");
    assert_eq!(found.node, ExpressionNode::Other);
    assert_eq!(found.span, Span { lo: 0, hi: 0 });
    assert!(!found.is_literal());
}

#[test]
fn difference_of_what_gives_no_expression_is_none() {
    assert_eq!(difference(&var("("), &lit("1")), None);
    assert_eq!(difference(&var("a"), &var(")")), None);
    assert_eq!(difference(&var("a"), &var("")), None);
    assert_eq!(difference(&var("a"), &var("b; c")), None);
    assert_eq!(difference(&var("'a"), &var("b")), None);
}

#[test]
fn built_expression_is_no_literal_whatever_its_text() {
    let built = synthesized_expression(s("5"));
    assert_eq!(built.node, ExpressionNode::Other);
    assert_eq!(built.source, "5");
    assert_eq!(built.span, Span { lo: 0, hi: 0 });
    assert!(!built.is_literal());
}

#[test]
fn arguments_of_a_range_are_added_behind_what_is_there() {
    let mut dynamic = vec![plain(var("first"))];
    let mut literals = vec![plain(lit("0"))];
    add_range_arguments(synthesized_expression(s("e - s")), var("s"), &mut dynamic, &mut literals);
    assert_eq!(dynamic, vec![plain(var("first")), length("e - s"), plain(var("s"))]);
    assert_eq!(literals, vec![plain(lit("0"))]);
    add_range_arguments(synthesized_expression(s("9 - 4")), lit("4"), &mut dynamic, &mut literals);
    assert_eq!(
        dynamic,
        vec![plain(var("first")), length("e - s"), plain(var("s")), length("9 - 4")]
    );
    assert_eq!(literals, vec![plain(lit("0")), plain(lit("4"))]);
}

#[test]
fn range_without_length_is_not_walked() {
    let limit = Limit::Range(var("a"), var(")"));
    assert!(!check_limit_walkable(&limit));
    let query = select(FilterExpression::NoFilters, limit);
    assert!(!check_walkable(&query));
    assert_eq!(checked_arguments(query), None);
}

#[test]
fn every_other_limit_is_walked() {
    for limit in vec![
        Limit::NoLimit,
        Limit::Index(var(")")),
        Limit::StartRange(var(")")),
        Limit::EndRange(var(")")),
        Limit::LimitOffset(var(")"), var("(")),
        Limit::Range(var("a"), var("b")),
    ] {
        assert!(check_limit_walkable(&limit));
    }
}

#[test]
fn tree_with_a_value_left_out_is_not_walked() {
    let unset = || {
        FilterExpression::Filter(Filter {
            operand1: FilterValue::NoValue,
            operator: RelationalOperator::Equal,
            operand2: var("x"),
        })
    };
    let trees = vec![
        unset(),
        alone(FilterValue::NoValue),
        FilterExpression::NegFilter(Box::new(unset())),
        FilterExpression::ParenFilter(Box::new(alone(FilterValue::NoValue))),
        both(column("T", "a", var("x")), LogicalOperator::And, unset()),
        both(unset(), LogicalOperator::Or, column("T", "a", var("x"))),
    ];
    for tree in trees {
        assert!(!tree.check_complete());
        let query = delete(tree);
        assert!(!check_walkable(&query));
        assert_eq!(checked_arguments(query), None);
    }
    assert_eq!(checked_arguments(select(unset(), Limit::NoLimit)), None);
    assert_eq!(checked_arguments(aggregate(unset(), AggregateFilterExpression::NoFilters)), None);
    assert_eq!(
        checked_arguments(Query::Update { assignments: vec![], filter: unset(), table: s("T") }),
        None
    );
}

#[test]
fn complete_trees_are_walked() {
    let trees = vec![
        FilterExpression::NoFilters,
        column("T", "a", var("x")),
        primary_key("T", var("x")),
        method_filter("contains", vec![var("x")], var("y")),
        alone(FilterValue::Identifier(s("T"), field("flag"))),
        both(
            FilterExpression::NegFilter(Box::new(column("T", "a", var("x")))),
            LogicalOperator::And,
            FilterExpression::ParenFilter(Box::new(FilterExpression::NoFilters)),
        ),
    ];
    for tree in trees {
        assert!(tree.check_complete());
    }
}

#[test]
fn checked_extraction_agrees_with_the_extraction() {
    let query = || {
        select(
            both(column("T", "a", var("x")), LogicalOperator::And, column("T", "b", lit("1"))),
            Limit::Range(var("from"), var("to")),
        )
    };
    assert!(check_walkable(&query()));
    assert_eq!(checked_arguments(query()), Some(arguments(query())));
}

#[test]
fn extraction_gives_the_same_lists_each_time() {
    let query = || {
        Query::Update {
            assignments: vec![
                assign("a", AssignementOperator::Sub, var("x")),
                assign("b", AssignementOperator::Equal, lit("2")),
            ],
            filter: both(
                method_filter("contains", vec![var("n"), lit("\"x\"")], var("ignored")),
                LogicalOperator::Or,
                primary_key("T", var("id")),
            ),
            table: s("T"),
        }
    };
    let first = arguments(query());
    let second = arguments(query());
    assert_eq!(first, second);
    assert_eq!(
        first,
        (
            vec![
                under(var("x"), Some("a"), None),
                plain(var("n")),
                plain(lit("\"x\"")),
                under(var("id"), None, Some("T")),
            ],
            vec![under(lit("2"), Some("b"), None)],
        )
    );
    let ranged = || select(FilterExpression::NoFilters, Limit::Range(var("lo"), var("hi")));
    assert_eq!(arguments(ranged()), arguments(ranged()));
}

#[test]
fn literal_in_a_method_call_keeps_its_place_among_the_bound_arguments() {
    // a == 1 && name.between(2, x) && b == y
    let tree = both(
        both(
            column("T", "a", lit("1")),
            LogicalOperator::And,
            alone(method("between", vec![lit("2"), var("x")])),
        ),
        LogicalOperator::And,
        column("T", "b", var("y")),
    );
    let (dynamic, literals) = arguments(select(tree, Limit::Index(lit("0"))));
    assert_eq!(
        dynamic,
        vec![plain(lit("2")), plain(var("x")), under(var("y"), Some("b"), Some("T"))]
    );
    assert_eq!(literals, vec![under(lit("1"), Some("a"), Some("T")), plain(lit("0"))]);
}
