//! Data-type rewrites for the Trino target, run after the Spark ones:
//! `FLOAT` to `REAL`, `BINARY` / `BLOB` to `VARBINARY`, and the string
//! types (`TEXT`, `STRING`, and the custom `STRING` the Spark pass writes)
//! to `VARCHAR`.
use vstd::prelude::*;

use crate::rewrite::types::{apply_type_action, TypeAction};
use crate::sql::ast::{
    as_cast, create_table_column_types, set_cast_type, set_create_table_column_type, type_tag, TypeNew, TypeTag,
};
use crate::text::{seq_eq_ci, str_chars};
use core::ops::ControlFlow;
use sqlparser::ast::{Expr, Statement};

verus! {

/// The Trino rule for one type.
pub open spec fn trino_type_spec(t: TypeTag) -> TypeAction {
    match t {
        TypeTag::Float => TypeAction::Replace(TypeNew::Real),
        TypeTag::Binary | TypeTag::Blob => TypeAction::Replace(TypeNew::Varbinary),
        TypeTag::Text | TypeTag::StringKw => TypeAction::Replace(TypeNew::Varchar),
        TypeTag::Custom(Some(n)) => if seq_eq_ci(n@, "STRING"@) {
            TypeAction::Replace(TypeNew::Varchar)
        } else {
            TypeAction::Keep
        },
        _ => TypeAction::Keep,
    }
}

pub fn trino_type_action(t: TypeTag) -> (r: TypeAction)
    ensures
        r == trino_type_spec(t),
{
    match t {
        TypeTag::Float => TypeAction::Replace(TypeNew::Real),
        TypeTag::Binary | TypeTag::Blob => TypeAction::Replace(TypeNew::Varbinary),
        TypeTag::Text | TypeTag::StringKw => TypeAction::Replace(TypeNew::Varchar),
        TypeTag::Custom(Some(n)) => {
            if crate::text::eq_ignore_case(&str_chars(n.as_str()), &str_chars("STRING")) {
                TypeAction::Replace(TypeNew::Varchar)
            } else {
                TypeAction::Keep
            }
        },
        _ => TypeAction::Keep,
    }
}

/// One step of the Trino type pass: the target type of a `CAST`.
pub fn rewrite_expr(e: &mut Expr) -> (r: ControlFlow<()>)
    ensures
        r == ControlFlow::<()>::Continue(()),
{
    if let Some((_, t)) = as_cast(e) {
        let a = trino_type_action(type_tag(&t));
        if !matches!(a, TypeAction::Keep) {
            set_cast_type(e, apply_type_action(t, a));
        }
    }
    ControlFlow::Continue(())
}

/// The Trino type rule on the column types of a `CREATE TABLE`.
pub fn rewrite_create_table(s: &mut Statement) {
    if let Some(types) = create_table_column_types(s) {
        let mut i: usize = 0;
        while i < types.len()
            invariant
                i <= types.len(),
            decreases types.len() - i,
        {
            let t = types[i].clone();
            let a = trino_type_action(type_tag(&t));
            if !matches!(a, TypeAction::Keep) {
                set_create_table_column_type(s, i, apply_type_action(t, a));
            }
            i = i + 1;
        }
    }
}

/// The Trino type pass: `CAST` targets and `CREATE TABLE` column types.
pub struct TrinoTypeRewriter;

impl TrinoTypeRewriter {
    /// Run the pass over a statement.
    pub fn rewrite(&self, stmt: &mut sqlparser::ast::Statement) {
        crate::sql::ast::visit_trino_types(stmt);
        rewrite_create_table(stmt);
    }
}

} // verus!
