//! The SQL syntax tree: the parser's opaque nodes and the new nodes the
//! rewrites plan.
pub mod ast;
pub mod plan;
pub mod query;
pub mod relations;
