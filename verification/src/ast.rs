//! Abstract syntax tree for SQL generation.

use vstd::prelude::*;
use crate::expression::{Expression, Ident};
use crate::schema::{Schema, Type};
use crate::span::Span;

verus! {

pub type FieldList = Vec<Identifier>;

pub type Groups = Vec<Identifier>;

pub type Identifier = String;

/// `Aggregate` for une in SQL Aggregate `Query`.
#[derive(Clone, Debug, Default, PartialEq, Eq)]
pub struct Aggregate {
    pub field: Option<Ident>,
    pub function: Identifier,
    pub result_name: Option<Ident>,
}

/// `AggregateFilter` for SQL `Query` (HAVING clause).
#[derive(Debug, PartialEq, Eq)]
pub struct AggregateFilter {
    /// The filter value to be compared to `operand2`.
    pub operand1: Aggregate,
    /// The `operator` used to compare `operand1` to `operand2`.
    pub operator: RelationalOperator,
    /// The expression to be compared to `operand1`.
    pub operand2: Expression,
}

/// Aggregate filter expression.
#[derive(Debug, PartialEq, Eq)]
pub enum AggregateFilterExpression {
    Filter(AggregateFilter),
    Filters(AggregateFilters),
    NegFilter(Box<AggregateFilterExpression>),
    NoFilters,
    ParenFilter(Box<AggregateFilterExpression>),
    FilterValue(WithSpan<Aggregate>),
}

impl Default for AggregateFilterExpression {
    fn default() -> (filter: Self)
        ensures
            filter is NoFilters,
    {
        AggregateFilterExpression::NoFilters
    }
}

/// A `Filters` is used to combine `AggregateFilterExpression`s with a `LogicalOperator`.
#[derive(Debug, PartialEq, Eq)]
pub struct AggregateFilters {
    /// The `T` to be combined with `operand2`.
    pub operand1: Box<AggregateFilterExpression>,
    /// The `LogicalOperator` used to combine the `FilterExpression`s.
    pub operator: LogicalOperator,
    /// The `T` to be combined with `operand1`.
    pub operand2: Box<AggregateFilterExpression>,
}

/// `Assignment` for use in SQL Insert and Update `Query`.
#[derive(Debug, PartialEq, Eq)]
pub struct Assignment {
    /// The field that is assigned to.
    pub identifier: Ident,
    pub operator: WithSpan<AssignementOperator>,
    pub value: Expression,
}

/// `AssignementOperator` for use in SQL Insert and Update `Query`.
#[derive(Clone, Copy, Debug, PartialEq, Eq, Structural)]
pub enum AssignementOperator {
    Add,
    Divide,
    Equal,
    Modulo,
    Mul,
    Sub,
}

impl AssignementOperator {
    /// The operator as it is written.
    pub open spec fn symbol(self) -> Seq<char> {
        match self {
            AssignementOperator::Add => "+="@,
            AssignementOperator::Divide => "/="@,
            AssignementOperator::Equal => "="@,
            AssignementOperator::Modulo => "%="@,
            AssignementOperator::Mul => "*="@,
            AssignementOperator::Sub => "-="@,
        }
    }

    /// The operator as it is written.
    pub fn to_string(&self) -> (text: String)
        ensures
            text@ == self.symbol(),
    {
        let op = match *self {
            AssignementOperator::Add => "+=",
            AssignementOperator::Divide => "/=",
            AssignementOperator::Equal => "=",
            AssignementOperator::Modulo => "%=",
            AssignementOperator::Mul => "*=",
            AssignementOperator::Sub => "-=",
        };
        op.to_string()
    }
}

/// `Filter` for SQL `Query` (WHERE clause).
#[derive(Debug, PartialEq, Eq)]
pub struct Filter {
    /// The filter value to be compared to `operand2`.
    pub operand1: FilterValue,
    /// The `operator` used to compare `operand1` to `operand2`.
    pub operator: RelationalOperator,
    /// The expression to be compared to `operand1`.
    pub operand2: Expression,
}

/// Either a single `Filter`, `Filters`, `NegFilter`, `NoFilters`, `ParenFilter` or a `FilterValue`.
#[derive(Debug, PartialEq, Eq)]
pub enum FilterExpression {
    Filter(Filter),
    Filters(Filters),
    NegFilter(Box<FilterExpression>),
    NoFilters,
    ParenFilter(Box<FilterExpression>),
    FilterValue(WithSpan<FilterValue>),
}

impl Default for FilterExpression {
    fn default() -> (filter: Self)
        ensures
            filter is NoFilters,
    {
        FilterExpression::NoFilters
    }
}

impl FilterExpression {
    /// Whether the tree is complete: the marker `FilterValue::NoValue`, which
    /// stands in for a value while a tree is built, is left nowhere in it.
    pub open spec fn is_complete(self) -> bool
        decreases self,
    {
        match self {
            FilterExpression::Filter(filter) => !(filter.operand1 is NoValue),
            FilterExpression::Filters(filters) => filters.operand1.is_complete()
                && filters.operand2.is_complete(),
            FilterExpression::NegFilter(filter) => filter.is_complete(),
            FilterExpression::NoFilters => true,
            FilterExpression::ParenFilter(filter) => filter.is_complete(),
            FilterExpression::FilterValue(value) => !(value.node is NoValue),
        }
    }

    /// Says whether the tree is complete.
    pub fn check_complete(&self) -> (complete: bool)
        ensures
            complete == self.is_complete(),
        decreases self,
    {
        match self {
            FilterExpression::Filter(filter) => match filter.operand1 {
                FilterValue::NoValue => false,
                _ => true,
            },
            FilterExpression::Filters(filters) => filters.operand1.check_complete()
                && filters.operand2.check_complete(),
            FilterExpression::NegFilter(filter) => filter.check_complete(),
            FilterExpression::NoFilters => true,
            FilterExpression::ParenFilter(filter) => filter.check_complete(),
            FilterExpression::FilterValue(value) => match value.node {
                FilterValue::NoValue => false,
                _ => true,
            },
        }
    }
}

/// A `Filters` is used to combine `FilterExpression`s with a `LogicalOperator`.
#[derive(Debug, PartialEq, Eq)]
pub struct Filters {
    /// The `T` to be combined with `operand2`.
    pub operand1: Box<FilterExpression>,
    /// The `LogicalOperator` used to combine the `FilterExpression`s.
    pub operator: LogicalOperator,
    /// The `T` to be combined with `operand1`.
    pub operand2: Box<FilterExpression>,
}

/// Either an identifier or a method call.
#[derive(Debug, PartialEq, Eq)]
pub enum FilterValue {
    /// Stands in for a value while a tree is built. A complete tree holds
    /// none.
    NoValue,
    /// A column, after the table that owns it.
    Identifier(Identifier, Ident),
    MethodCall(MethodCall),
    /// The primary key of a table.
    PrimaryKey(Identifier),
}

/// A `Join` with another `joined_table` via a specific `joined_field`.
#[derive(Clone, Debug, Default, PartialEq, Eq)]
pub struct Join {
    pub base_field: Identifier,
    pub base_table: Identifier,
    pub joined_field: Identifier,
    pub joined_table: Identifier,
}

/// An SQL LIMIT clause.
#[derive(Clone, Debug, PartialEq, Eq)]
pub enum Limit {
    /// [..end]
    EndRange(Expression),
    /// [index]
    Index(Expression),
    /// Not created from a query. It is converted from a `Range`.
    LimitOffset(Expression, Expression),
    /// No limit was specified.
    NoLimit,
    /// [start..end]
    Range(Expression, Expression),
    /// [start..]
    StartRange(Expression),
}

impl Default for Limit {
    fn default() -> (limit: Limit)
        ensures
            limit is NoLimit,
    {
        Limit::NoLimit
    }
}

/// `LogicalOperator` to combine `Filter`s.
#[derive(Clone, Copy, Debug, PartialEq, Eq, Structural)]
pub enum LogicalOperator {
    And,
    Not,
    Or,
}

/// A method call is an abstraction of SQL function call.
#[derive(Debug, PartialEq, Eq)]
pub struct MethodCall {
    pub arguments: Vec<Expression>,
    pub method_name: Identifier,
    pub object_name: Ident,
    pub template: String,
}

/// An SQL ORDER BY clause.
#[derive(Clone, Debug, PartialEq, Eq)]
pub enum Order {
    /// Comes from `sort(field)`.
    Ascending(Identifier),
    /// Comes from `sort(-field)`.
    Descending(Identifier),
}

/// `RelationalOperator` to be used in a `Filter`.
#[derive(Clone, Copy, Debug, PartialEq, Eq, Structural)]
pub enum RelationalOperator {
    Equal,
    LesserThan,
    LesserThanEqual,
    NotEqual,
    GreaterThan,
    GreaterThanEqual,
}

/// An SQL `Query`.
#[allow(inconsistent_fields)]
#[derive(Debug, PartialEq, Eq)]
pub enum Query {
    Aggregate {
        aggregates: Vec<Aggregate>,
        aggregate_filter: AggregateFilterExpression,
        filter: FilterExpression,
        groups: Groups,
        joins: Vec<Join>,
        table: Identifier,
    },
    CreateTable { fields: Vec<TypedField>, table: Identifier },
    Delete { filter: FilterExpression, table: Identifier },
    Drop { table: Identifier },
    Insert { assignments: Vec<Assignment>, table: Identifier },
    Select {
        fields: FieldList,
        filter: FilterExpression,
        joins: Vec<Join>,
        limit: Limit,
        order: Vec<Order>,
        table: Identifier,
    },
    Update { assignments: Vec<Assignment>, filter: FilterExpression, table: Identifier },
}

/// The type of the query.
#[derive(Clone, Copy, Debug, PartialEq, Eq, Structural)]
pub enum QueryType {
    AggregateMulti,
    AggregateOne,
    Exec,
    InsertOne,
    SelectMulti,
    SelectOne,
}

/// An SQL field with its type.
#[derive(Clone, Debug, PartialEq, Eq)]
pub struct TypedField {
    pub identifier: Identifier,
    pub typ: String,
}

impl Query {
    /// The name of the table that the query works on.
    pub open spec fn table_name(self) -> Seq<char> {
        match self {
            Query::Aggregate { table, .. } => table@,
            Query::CreateTable { table, .. } => table@,
            Query::Delete { table, .. } => table@,
            Query::Drop { table, .. } => table@,
            Query::Insert { table, .. } => table@,
            Query::Select { table, .. } => table@,
            Query::Update { table, .. } => table@,
        }
    }

    /// The column whose declared type decides the classification of the
    /// query: a selection whose whole filter is one comparison of a column
    /// reads that column, in the table that it selects from.
    pub open spec fn column_read(self) -> Option<(Seq<char>, Seq<char>)> {
        match self {
            Query::Select { filter: FilterExpression::Filter(filter), table, .. } => {
                match filter.operand1 {
                    FilterValue::Identifier(_, column) => Some((table@, column.name@)),
                    _ => None,
                }
            },
            _ => None,
        }
    }

    /// Whether the query selects by a comparison of an identity column.
    pub open spec fn selects_by_identity(self, schema: Map<(Seq<char>, Seq<char>), Type>) -> bool {
        self.column_read() matches Some(column) && schema.contains_key(column)
            && schema[column] is Serial
    }

    /// Whether the query selects by an index.
    pub open spec fn selects_by_index(self) -> bool {
        self matches Query::Select { limit, .. } && limit is Index
    }

    /// How many rows the query gives: the classification of the query
    /// against a schema.
    pub open spec fn classification(self, schema: Map<(Seq<char>, Seq<char>), Type>) -> QueryType {
        match self {
            Query::Aggregate { groups, .. } => if groups@.len() > 0 {
                QueryType::AggregateMulti
            } else {
                QueryType::AggregateOne
            },
            Query::Insert { .. } => QueryType::InsertOne,
            Query::Select { .. } => if self.selects_by_identity(schema) || self.selects_by_index() {
                QueryType::SelectOne
            } else {
                QueryType::SelectMulti
            },
            Query::CreateTable { .. } | Query::Delete { .. } | Query::Drop { .. } | Query::Update {
                ..
            } => QueryType::Exec,
        }
    }

    /// Whether the schema holds what the classification of the query reads.
    pub open spec fn is_classifiable(self, schema: Map<(Seq<char>, Seq<char>), Type>) -> bool {
        self.column_read() matches Some(column) ==> schema.contains_key(column)
    }
}

/// Get the query table name.
pub fn query_table(query: &Query) -> (name: Identifier)
    ensures
        name@ == query.table_name(),
{
    let table_name = match query {
        Query::Aggregate { table, .. } => table,
        Query::CreateTable { table, .. } => table,
        Query::Delete { table, .. } => table,
        Query::Drop { table, .. } => table,
        Query::Insert { table, .. } => table,
        Query::Select { table, .. } => table,
        Query::Update { table, .. } => table,
    };
    table_name.clone()
}

/// Says whether the schema holds what the classification of the query reads.
pub fn check_classifiable(query: &Query, schema: &Schema) -> (holds: bool)
    ensures
        holds == query.is_classifiable(schema@),
{
    match query {
        Query::Select { filter: FilterExpression::Filter(filter), table, .. } => {
            match &filter.operand1 {
                FilterValue::Identifier(_, identifier) => schema.field_type(
                    table,
                    &identifier.name,
                ).is_some(),
                _ => true,
            }
        },
        _ => true,
    }
}

/// Get the query type, where the schema holds the column that decides it;
/// `None` where it does not.
pub fn checked_query_type(query: &Query, schema: &Schema) -> (typ: Option<QueryType>)
    ensures
        typ == if query.is_classifiable(schema@) {
            Some(query.classification(schema@))
        } else {
            None
        },
{
    if check_classifiable(query, schema) {
        Some(query_type(query, schema))
    } else {
        None
    }
}

/// Get the query type.
///
/// A selection gives one row where its whole filter is one comparison of a
/// column whose declared type is the identity type, and where its limit is
/// an index; the two are judged apart, and either is enough. The column is
/// looked up in the table that the query selects from, and the schema has to
/// hold it.
pub fn query_type(query: &Query, schema: &Schema) -> (typ: QueryType)
    requires
        query.is_classifiable(schema@),
    ensures
        typ == query.classification(schema@),
{
    match query {
        Query::Aggregate { groups, .. } => {
            if !groups.is_empty() {
                QueryType::AggregateMulti
            } else {
                QueryType::AggregateOne
            }
        },
        Query::Insert { .. } => QueryType::InsertOne,
        Query::Select { filter, limit, table, .. } => {
            let mut typ = QueryType::SelectMulti;
            if let FilterExpression::Filter(filter) = filter {
                if let FilterValue::Identifier(_, identifier) = &filter.operand1 {
                    if let Some(Type::Serial) = schema.field_type(table, &identifier.name) {
                        typ = QueryType::SelectOne;
                    }
                }
            }
            if let Limit::Index(_) = limit {
                typ = QueryType::SelectOne;
            }
            typ
        },
        Query::CreateTable { .. } | Query::Delete { .. } | Query::Drop { .. } | Query::Update {
            ..
        } => QueryType::Exec,
    }
}

/// A node of the tree with the place in the source that it was read from.
#[derive(Debug, PartialEq, Eq)]
pub struct WithSpan<T> {
    pub node: T,
    pub span: Span,
}

/// A selection whose whole filter compares a column of the identity type
/// gives one row, whatever its limit is.
pub proof fn identity_filter_selects_one(
    query: Query,
    schema: Map<(Seq<char>, Seq<char>), Type>,
)
    requires
        query matches Query::Select { filter: FilterExpression::Filter(filter), table, .. }
            && filter.operand1 matches FilterValue::Identifier(_, column) && schema.contains_key(
            (table@, column.name@),
        ) && schema[(table@, column.name@)] is Serial,
    ensures
        query.classification(schema) == QueryType::SelectOne,
{
}

/// A selection whose limit is an index gives one row, whatever its filter
/// is.
pub proof fn index_selects_one(query: Query, schema: Map<(Seq<char>, Seq<char>), Type>)
    requires
        query matches Query::Select { limit: Limit::Index(_), .. },
    ensures
        query.classification(schema) == QueryType::SelectOne,
{
}

/// A selection gives many rows unless its filter compares an identity
/// column or its limit is an index: nothing else makes it give one.
pub proof fn selects_many_otherwise(query: Query, schema: Map<(Seq<char>, Seq<char>), Type>)
    requires
        query is Select,
        !query.selects_by_identity(schema),
        !query.selects_by_index(),
    ensures
        query.classification(schema) == QueryType::SelectMulti,
{
}

} // verus!
