//! Syntax-tree rewrites that lower the source dialect to the target.
//!
//! For Spark: `DISTINCT ON` becomes a `ROW_NUMBER()` subquery, then the
//! function and operator rules run, then the type rules. For Trino, the
//! Trino function and type rules run after all of these.
pub mod args;
pub mod functions;
pub mod structure;
pub mod trino_functions;
pub mod trino_types;
pub mod types;

use vstd::prelude::*;

use crate::sql::ast::{visit_spark_functions, visit_spark_types, visit_trino_functions, visit_trino_types};
use crate::target::Target;
use sqlparser::ast::Statement;

verus! {

/// The structural pass, then the Spark function pass, on one statement.
pub fn apply_all(stmt: &mut Statement) {
    structure::rewrite_statement(stmt);
    visit_spark_functions(stmt);
}

/// Run every rewrite pass of `target` on one statement.
pub fn apply_all_for_target(stmt: &mut Statement, target: Target) {
    structure::rewrite_statement(stmt);
    visit_spark_functions(stmt);
    visit_spark_types(stmt);
    types::rewrite_create_table(stmt);
    match target {
        Target::Spark => {},
        Target::Trino => {
            visit_trino_functions(stmt);
            visit_trino_types(stmt);
            trino_types::rewrite_create_table(stmt);
        },
    }
}

} // verus!
