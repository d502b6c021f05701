//! The relations (table names) of a statement, met in the order of the
//! parser's own visitor, and their names read and renamed.
use vstd::prelude::*;

use sqlparser::ast::{Ident, ObjectName, Statement, TableAlias, TableFactor};

verus! {

/// The values of the parts of a name, in order.
#[verifier::external_body]
pub(crate) fn object_name_parts(n: &ObjectName) -> Vec<String> {
    n.0.iter().map(|i| i.value.clone()).collect()
}

/// Set the value of the last part of a name (a no-op on an empty name).
#[verifier::external_body]
pub(crate) fn set_last_name_part(n: &mut ObjectName, v: String) {
    if let Some(last) = n.0.last_mut() {
        last.value = v;
    }
}

/// One step of the walk that lists relations: the name's parts are added.
pub fn record_relation(out: &mut Vec<Vec<String>>, n: &ObjectName) -> (r: core::ops::ControlFlow<()>)
    ensures
        final(out).len() == old(out).len() + 1,
        final(out)@.take(old(out).len() as int) == old(out)@,
{
    out.push(object_name_parts(n));
    core::ops::ControlFlow::Continue(())
}

/// The name parts of every relation of a statement, in the order
/// `visit_relations` meets them: the tables of its `FROM` clauses, and the
/// statement's own target where it has one.
#[verifier::external_body]
pub(crate) fn relation_names(s: &Statement) -> Vec<Vec<String>> {
    let mut out = Vec::new();
    let _ = sqlparser::ast::visit_relations(s, |n| record_relation(&mut out, n));
    out
}

/// The statement kinds whose own name fields `visit_relations` meets
/// before any table of their queries; `Truncate` with its number of
/// targets.
pub enum StatementKind {
    Insert,
    CreateTable,
    CreateIndex,
    AlterTable,
    AlterView,
    Analyze,
    Msck,
    CreateVirtualTable,
    CreatePolicy,
    AlterPolicy,
    ShowColumns,
    ExplainTable,
    Cache,
    UnCache,
    Truncate(usize),
    Other,
}

/// The kind of a statement, one variant each.
#[verifier::external_body]
pub(crate) fn statement_kind(s: &Statement) -> StatementKind {
    match s {
        Statement::Insert(_) => StatementKind::Insert, Statement::CreateTable(_) => StatementKind::CreateTable,
        Statement::CreateIndex(_) => StatementKind::CreateIndex, Statement::AlterTable { .. } => StatementKind::AlterTable,
        Statement::AlterView { .. } => StatementKind::AlterView, Statement::Analyze { .. } => StatementKind::Analyze,
        Statement::Msck { .. } => StatementKind::Msck, Statement::Truncate { table_names, .. } => StatementKind::Truncate(table_names.len()),
        _ => statement_kind_more(s),
    }
}

#[verifier::external_body]
fn statement_kind_more(s: &Statement) -> StatementKind {
    match s {
        Statement::CreateVirtualTable { .. } => StatementKind::CreateVirtualTable,
        Statement::CreatePolicy { .. } => StatementKind::CreatePolicy, Statement::AlterPolicy { .. } => StatementKind::AlterPolicy,
        Statement::ShowColumns { .. } => StatementKind::ShowColumns, Statement::ExplainTable { .. } => StatementKind::ExplainTable,
        Statement::Cache { .. } => StatementKind::Cache, Statement::UNCache { .. } => StatementKind::UnCache,
        _ => StatementKind::Other,
    }
}

/// How many relations of its own (the table it inserts into, creates,
/// alters, truncates, ...) a statement of this kind names; `visit_relations`
/// meets them before any table of its queries.
pub open spec fn own_count_spec(k: StatementKind) -> nat {
    match k {
        StatementKind::Truncate(n) => n as nat,
        StatementKind::Other => 0,
        _ => 1,
    }
}

pub fn own_count(k: &StatementKind) -> (r: usize)
    ensures
        r == own_count_spec(*k),
{
    match k {
        StatementKind::Truncate(n) => *n,
        StatementKind::Other => 0,
        _ => 1,
    }
}

/// How many relations of its own a statement names.
pub fn own_relation_count(s: &Statement) -> usize {
    own_count(&statement_kind(s))
}

/// Every relation of a statement, in visiting order, handed to one step
/// of a delta rename (`visit_relations_mut`).
#[verifier::external_body]
pub(crate) fn rename_relations(s: &mut Statement, st: &mut crate::incremental::DeltaState) {
    let _ = sqlparser::ast::visit_relations_mut(s, |n| crate::incremental::delta_step(st, n));
}

/// Put `db` before the parts of a name.
#[verifier::external_body]
pub(crate) fn prepend_name_part(n: &mut ObjectName, db: String) {
    n.0.insert(0, Ident::new(db));
}

/// Every relation of a statement, in visiting order, handed to one step
/// of default-database qualification (`visit_relations_mut`).
#[verifier::external_body]
pub(crate) fn qualify_relations(s: &mut Statement, st: &mut crate::format::QualifyState) {
    let _ = sqlparser::ast::visit_relations_mut(s, |n| crate::format::qualify_step(st, n));
}

/// Give a named table the alias `alias` (a no-op on other relations).
#[verifier::external_body]
pub(crate) fn set_table_alias(t: &mut TableFactor, alias: String) {
    if let TableFactor::Table { alias: a, .. } = t {
        *a = Some(TableAlias { name: Ident::new(alias), columns: vec![] });
    }
}

/// Every expression of a statement handed to one step of the alias pass
/// (`visit_expressions_mut`).
#[verifier::external_body]
pub(crate) fn visit_alias_subqueries(s: &mut Statement) {
    let _ = sqlparser::ast::visit_expressions_mut(s, |e| crate::format::alias_subquery_expr(e));
}

} // verus!
