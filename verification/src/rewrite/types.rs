//! Data-type rewrites toward Spark SQL.
//!
//! | input                       | output      |
//! |-----------------------------|-------------|
//! | `JSON` / `JSONB` / `UUID`   | `STRING`    |
//! | `BYTEA`                     | `BINARY`    |
//! | `TIMESTAMP WITH TIME ZONE`  | `TIMESTAMP` |
//! | `REGCLASS` / `TEXT`         | `STRING`    |
//! | `INT2` / `INT4` / `INT8`    | `SMALLINT` / `INT` / `BIGINT` |
//! | `FLOAT4` / `FLOAT8`         | `REAL` / `DOUBLE` |
//! | `SERIAL` family             | the integer of the same width |
//!
//! Types reach the pass through `CAST` expressions and `CREATE TABLE`
//! column definitions; every other type is left as it is.
use vstd::prelude::*;

use crate::rewrite::args::{lower_name, name_is};
use crate::sql::ast::{
    as_cast, build_type, create_table_column_types, set_cast_type, set_create_table_column_type,
    type_tag, without_timezone, TypeNew, TypeTag, TzKind,
};
use crate::text::unicode_lower;
use core::ops::ControlFlow;
use sqlparser::ast::{DataType, Expr, Statement};

verus! {

/// What a type rewrite does to one type.
pub enum TypeAction {
    Keep,
    Replace(TypeNew),
    /// Drop the time-zone clause of a `TIMESTAMP`, keeping its precision.
    DropTimezone,
}

/// The Spark replacement of a type the parser did not know, by its
/// lower-cased name.
pub open spec fn custom_type_spec(n: Seq<char>) -> TypeAction {
    if n == "text"@ || n == "uuid"@ || n == "json"@ || n == "jsonb"@ {
        TypeAction::Replace(TypeNew::Custom("STRING"))
    } else if n == "bytea"@ {
        TypeAction::Replace(TypeNew::Binary)
    } else if n == "smallserial"@ || n == "serial2"@ || n == "int2"@ {
        TypeAction::Replace(TypeNew::SmallInt)
    } else if n == "serial"@ || n == "serial4"@ || n == "int4"@ {
        TypeAction::Replace(TypeNew::Int)
    } else if n == "bigserial"@ || n == "serial8"@ || n == "int8"@ {
        TypeAction::Replace(TypeNew::BigInt)
    } else if n == "float8"@ {
        TypeAction::Replace(TypeNew::Double)
    } else if n == "float4"@ {
        TypeAction::Replace(TypeNew::Real)
    } else if n == "timestamptz"@ {
        TypeAction::Replace(TypeNew::Timestamp)
    } else {
        TypeAction::Keep
    }
}

/// The Spark rule for one type.
pub open spec fn spark_type_spec(t: TypeTag) -> TypeAction {
    match t {
        TypeTag::Json | TypeTag::Jsonb | TypeTag::Uuid | TypeTag::Regclass | TypeTag::Text => TypeAction::Replace(
            TypeNew::Custom("STRING"),
        ),
        TypeTag::Bytea => TypeAction::Replace(TypeNew::Binary),
        TypeTag::Timestamp(tz) => if !(tz is NoClause) {
            TypeAction::DropTimezone
        } else {
            TypeAction::Keep
        },
        TypeTag::Int2 => TypeAction::Replace(TypeNew::SmallInt),
        TypeTag::Int4 => TypeAction::Replace(TypeNew::Int),
        TypeTag::Int8 => TypeAction::Replace(TypeNew::BigInt),
        TypeTag::Float4 => TypeAction::Replace(TypeNew::Real),
        TypeTag::Float8 => TypeAction::Replace(TypeNew::Double),
        TypeTag::Custom(name) => match name {
            Some(n) => custom_type_spec(unicode_lower(n@)),
            None => TypeAction::Keep,
        },
        _ => TypeAction::Keep,
    }
}

fn custom_type_action(n: &Option<Vec<char>>) -> (r: TypeAction)
    ensures
        match n {
            Some(v) => r == custom_type_spec(v@),
            None => r == TypeAction::Keep,
        },
{
    if n.is_none() {
        return TypeAction::Keep;
    }
    if name_is(n, "text") || name_is(n, "uuid") || name_is(n, "json") || name_is(n, "jsonb") {
        TypeAction::Replace(TypeNew::Custom("STRING"))
    } else if name_is(n, "bytea") {
        TypeAction::Replace(TypeNew::Binary)
    } else if name_is(n, "smallserial") || name_is(n, "serial2") || name_is(n, "int2") {
        TypeAction::Replace(TypeNew::SmallInt)
    } else if name_is(n, "serial") || name_is(n, "serial4") || name_is(n, "int4") {
        TypeAction::Replace(TypeNew::Int)
    } else if name_is(n, "bigserial") || name_is(n, "serial8") || name_is(n, "int8") {
        TypeAction::Replace(TypeNew::BigInt)
    } else if name_is(n, "float8") {
        TypeAction::Replace(TypeNew::Double)
    } else if name_is(n, "float4") {
        TypeAction::Replace(TypeNew::Real)
    } else if name_is(n, "timestamptz") {
        TypeAction::Replace(TypeNew::Timestamp)
    } else {
        TypeAction::Keep
    }
}

/// The Spark rule for one type.
pub fn spark_type_action(t: TypeTag) -> (r: TypeAction)
    ensures
        r == spark_type_spec(t),
{
    match t {
        TypeTag::Json | TypeTag::Jsonb | TypeTag::Uuid | TypeTag::Regclass | TypeTag::Text => TypeAction::Replace(
            TypeNew::Custom("STRING"),
        ),
        TypeTag::Bytea => TypeAction::Replace(TypeNew::Binary),
        TypeTag::Timestamp(tz) => if !matches!(tz, TzKind::NoClause) {
            TypeAction::DropTimezone
        } else {
            TypeAction::Keep
        },
        TypeTag::Int2 => TypeAction::Replace(TypeNew::SmallInt),
        TypeTag::Int4 => TypeAction::Replace(TypeNew::Int),
        TypeTag::Int8 => TypeAction::Replace(TypeNew::BigInt),
        TypeTag::Float4 => TypeAction::Replace(TypeNew::Real),
        TypeTag::Float8 => TypeAction::Replace(TypeNew::Double),
        TypeTag::Custom(name) => custom_type_action(&lower_name(name)),
        _ => TypeAction::Keep,
    }
}

/// Carry out a type action.
pub fn apply_type_action(t: DataType, a: TypeAction) -> (r: DataType)
    ensures
        a is Keep ==> r == t,
{
    match a {
        TypeAction::Keep => t,
        TypeAction::Replace(n) => build_type(n),
        TypeAction::DropTimezone => without_timezone(t),
    }
}

/// The Spark type rule on one data type, in place.
pub fn rewrite_type(ty: &mut DataType) {
    let a = spark_type_action(type_tag(ty));
    if !matches!(a, TypeAction::Keep) {
        *ty = apply_type_action(ty.clone(), a);
    }
}

/// One step of the Spark type pass: the target type of a `CAST`.
pub fn rewrite_expr(e: &mut Expr) -> (r: ControlFlow<()>)
    ensures
        r == ControlFlow::<()>::Continue(()),
{
    if let Some((_, t)) = as_cast(e) {
        let a = spark_type_action(type_tag(&t));
        if !matches!(a, TypeAction::Keep) {
            set_cast_type(e, apply_type_action(t, a));
        }
    }
    ControlFlow::Continue(())
}

/// The Spark type rule on the column types of a `CREATE TABLE`.
pub fn rewrite_create_table(s: &mut Statement) {
    if let Some(types) = create_table_column_types(s) {
        let mut i: usize = 0;
        while i < types.len()
            invariant
                i <= types.len(),
            decreases types.len() - i,
        {
            let t = types[i].clone();
            let a = spark_type_action(type_tag(&t));
            if !matches!(a, TypeAction::Keep) {
                set_create_table_column_type(s, i, apply_type_action(t, a));
            }
            i = i + 1;
        }
    }
}

/// The Spark type pass: `CAST` targets and `CREATE TABLE` column types.
pub struct TypeRewriter;

impl TypeRewriter {
    /// Run the pass over a statement.
    pub fn rewrite(&self, stmt: &mut sqlparser::ast::Statement) {
        crate::sql::ast::visit_spark_types(stmt);
        rewrite_create_table(stmt);
    }
}

} // verus!
