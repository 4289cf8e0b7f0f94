//! Compilation of chained query-builder expressions: the call-chain parser,
//! the query syntax tree with its classification, and the extraction of the
//! arguments that a query binds.

pub mod arguments;
pub mod ast;
pub mod error;
pub mod expression;
pub mod parser;
pub mod schema;
pub mod span;
