//! Statements, queries and `FROM` clauses of the parser's tree, one level at
//! a time. As in [`crate::sql::ast`], these functions only take a node
//! apart or put one back; the walks over the tree are verified functions of
//! the library.
use vstd::prelude::*;

use sqlparser::ast::JoinOperator as J;
use sqlparser::ast::{Function, FunctionArgumentList, FunctionArguments, WindowSpec, WindowType};
use sqlparser::ast::{
    Expr, GroupByExpr, JoinConstraint, Ident, ObjectName, OrderByExpr, Query, Select, SelectItem, SetExpr,
    Statement, TableFactor, TableWithJoins,
};

verus! {

#[verifier::external_type_specification]
#[verifier::external_body]
pub struct ExSetExpr(sqlparser::ast::SetExpr);

#[verifier::external_type_specification]
#[verifier::external_body]
pub struct ExTableFactor(sqlparser::ast::TableFactor);

#[verifier::external_type_specification]
#[verifier::external_body]
pub struct ExTableWithJoins(sqlparser::ast::TableWithJoins);

#[verifier::external_type_specification]
#[verifier::external_body]
pub struct ExObjectName(sqlparser::ast::ObjectName);

#[verifier::external_type_specification]
#[verifier::external_body]
pub struct ExGroupByExpr(sqlparser::ast::GroupByExpr);

pub assume_specification[ <SetExpr as Clone>::clone ](s: &SetExpr) -> (r: SetExpr)
    ensures
        r == *s,
;

pub assume_specification[ <TableFactor as Clone>::clone ](t: &TableFactor) -> (r: TableFactor)
    ensures
        r == *t,
;

// ---------------------------------------------------------------------------
// Statements
// ---------------------------------------------------------------------------

/// A statement, by kind, with what the library reads of it.
pub enum StatementParts {
    Plain(Query),
    /// `INSERT INTO name ..`: the printed table name and the source query.
    Insert(String, Option<Query>),
    /// `CREATE VIEW name AS query`: the printed name, the value of its last
    /// part, and the query.
    CreateView(String, Option<String>, Query),
    /// `CREATE TABLE name ..`: the printed name.
    CreateTable(String),
    /// `UPDATE table ..`: the printed table.
    Update(String),
    /// `DELETE ..`: how many target tables it names.
    Delete(usize),
    /// `MERGE INTO table ..`: the printed table.
    Merge(String),
    /// `ALTER TABLE name ..`: the printed name.
    AlterTable(String),
    /// `DROP kind names`: the kind (as `Debug` prints it) and the printed
    /// names.
    Drop(String, Vec<String>),
    Other,
}

#[verifier::external_body]
pub(crate) fn statement_parts(s: &Statement) -> StatementParts {
    match s {
        Statement::Query(q) => StatementParts::Plain((**q).clone()),
        Statement::Insert(i) => StatementParts::Insert(i.table_name.to_string(), i.source.as_ref().map(|q| (**q).clone())),
        Statement::CreateView { name, query, .. } => StatementParts::CreateView(name.to_string(), name.0.last().map(|i| i.value.clone()), (**query).clone()),
        Statement::CreateTable(ct) => StatementParts::CreateTable(ct.name.to_string()),
        _ => statement_parts_more(s),
    }
}

#[verifier::external_body]
fn statement_parts_more(s: &Statement) -> StatementParts {
    match s {
        Statement::Update { table, .. } => StatementParts::Update(table.relation.to_string()),
        Statement::Delete(d) => StatementParts::Delete(d.tables.len()),
        Statement::Merge { table, .. } => StatementParts::Merge(table.to_string()),
        Statement::AlterTable { name, .. } => StatementParts::AlterTable(name.to_string()),
        Statement::Drop { object_type, names, .. } => StatementParts::Drop(format!("{:?}", object_type), names.iter().map(|n| n.to_string()).collect()),
        _ => StatementParts::Other,
    }
}

/// Replace the query of a `Query` statement (a no-op on other statements).
#[verifier::external_body]
pub(crate) fn set_statement_query(s: &mut Statement, q: Query) {
    if let Statement::Query(old) = s {
        **old = q;
    }
}

/// Replace the source query of an `INSERT` or the query of a `CREATE VIEW`
/// (a no-op on other statements).
#[verifier::external_body]
pub(crate) fn set_statement_inner_query(s: &mut Statement, q: Query) {
    match s {
        Statement::Insert(i) => i.source = Some(Box::new(q)),
        Statement::CreateView { query, .. } => **query = q,
        _ => {},
    }
}

// ---------------------------------------------------------------------------
// Queries
// ---------------------------------------------------------------------------

/// A query: its common table expressions (name and query), body, `ORDER BY`
/// keys and `LIMIT`.
pub struct QueryParts {
    pub ctes: Vec<(String, Query)>,
    pub body: SetExpr,
    pub order_by: Option<Vec<OrderByExpr>>,
    pub limit: Option<Expr>,
}

#[verifier::external_body]
pub(crate) fn query_parts(q: &Query) -> QueryParts {
    let ctes = match &q.with {
        Some(w) => w.cte_tables.iter().map(|c| (c.alias.name.value.clone(), (*c.query).clone())).collect(),
        None => vec![],
    };
    QueryParts { ctes, body: (*q.body).clone(), order_by: q.order_by.as_ref().map(|o| o.exprs.clone()), limit: q.limit.clone() }
}

/// Replace the query of common table expression `i` (a no-op when there is
/// none).
#[verifier::external_body]
pub(crate) fn set_cte_query(q: &mut Query, i: usize, sub: Query) {
    if let Some(w) = &mut q.with {
        if let Some(c) = w.cte_tables.get_mut(i) {
            *c.query = sub;
        }
    }
}

/// Replace the body of a query.
#[verifier::external_body]
pub(crate) fn set_query_body(q: &mut Query, body: SetExpr) {
    *q.body = body;
}

/// A query body, by kind.
pub enum SetExprParts {
    SelectBody(Select),
    /// `left op right`: the operator and quantifier as `Debug` prints them.
    SetOperation(String, SetExpr, SetExpr),
    Nested(Query),
    /// `VALUES` with this many rows.
    Values(usize),
    Other,
}

#[verifier::external_body]
pub(crate) fn set_expr_parts(s: &SetExpr) -> SetExprParts {
    match s {
        SetExpr::Select(sel) => SetExprParts::SelectBody((**sel).clone()),
        SetExpr::SetOperation { op, set_quantifier, left, right } => SetExprParts::SetOperation(format!("{op:?} {set_quantifier:?}"), (**left).clone(), (**right).clone()),
        SetExpr::Query(q) => SetExprParts::Nested((**q).clone()),
        SetExpr::Values(v) => SetExprParts::Values(v.rows.len()),
        _ => SetExprParts::Other,
    }
}

/// A query body printed as SQL.
#[verifier::external_body]
pub(crate) fn set_expr_text(s: &SetExpr) -> String {
    s.to_string()
}

/// A query printed as SQL (its `Display`).
#[verifier::external_body]
pub(crate) fn query_text(q: &Query) -> String {
    q.to_string()
}

/// A query body as `Debug` prints it.
#[verifier::external_body]
pub(crate) fn set_expr_debug(s: &SetExpr) -> String {
    format!("{s:?}")
}

/// Put a select back as a query body (a no-op on other bodies).
#[verifier::external_body]
pub(crate) fn set_body_select(s: &mut SetExpr, sel: Select) {
    if let SetExpr::Select(old) = s {
        **old = sel;
    }
}

/// Replace both sides of a set operation (a no-op on other bodies).
#[verifier::external_body]
pub(crate) fn set_set_operation_sides(s: &mut SetExpr, l: SetExpr, r: SetExpr) {
    if let SetExpr::SetOperation { left, right, .. } = s {
        **left = l;
        **right = r;
    }
}

/// Replace a parenthesised query body (a no-op on other bodies).
#[verifier::external_body]
pub(crate) fn set_body_query(s: &mut SetExpr, q: Query) {
    if let SetExpr::Query(old) = s {
        **old = q;
    }
}

// ---------------------------------------------------------------------------
// Selects
// ---------------------------------------------------------------------------

/// What a `GROUP BY` holds.
pub enum GroupByParts {
    Expressions(Vec<Expr>),
    All,
}

/// The parts of a select that the library reads: the `DISTINCT ON` keys,
/// projection, `FROM` items, `WHERE`, `GROUP BY` and `HAVING`.
pub struct SelectParts {
    pub distinct_on: Option<Vec<Expr>>,
    pub projection: Vec<SelectItem>,
    pub from: Vec<TableWithJoins>,
    pub selection: Option<Expr>,
    pub group_by: GroupByParts,
    pub having: Option<Expr>,
}

#[verifier::external_body]
pub(crate) fn select_parts(s: &Select) -> SelectParts {
    let distinct_on = match &s.distinct { Some(sqlparser::ast::Distinct::On(keys)) => Some(keys.clone()), _ => None };
    let group_by = match &s.group_by {
        GroupByExpr::Expressions(es, _) => GroupByParts::Expressions(es.clone()),
        GroupByExpr::All(_) => GroupByParts::All,
    };
    SelectParts { distinct_on, projection: s.projection.clone(), from: s.from.clone(), selection: s.selection.clone(), group_by, having: s.having.clone() }
}

/// Replace the relation of `FROM` item `i`, or of join `j - 1` of it when
/// `j > 0` (a no-op when there is no such place).
#[verifier::external_body]
pub(crate) fn set_from_relation(s: &mut Select, i: usize, j: usize, t: TableFactor) {
    if let Some(twj) = s.from.get_mut(i) {
        if j == 0 {
            twj.relation = t;
        } else if let Some(join) = twj.joins.get_mut(j - 1) {
            join.relation = t;
        }
    }
}

/// A `FROM` item: its relation, then each join's relation with the join
/// operator as `Debug` prints it.
#[verifier::external_body]
pub(crate) fn from_item_parts(t: &TableWithJoins) -> (TableFactor, Vec<(String, TableFactor)>) {
    (t.relation.clone(), t.joins.iter().map(|j| (format!("{:?}", j.join_operator), j.relation.clone())).collect())
}

/// The `ON` condition of each join of a `FROM` item (`None` for joins
/// without one).
#[verifier::external_body]
pub(crate) fn join_conditions(t: &TableWithJoins) -> Vec<Option<Expr>> {
    t.joins.iter().map(|j| match &j.join_operator {
        J::Inner(c) | J::LeftOuter(c) | J::RightOuter(c) | J::FullOuter(c) | J::LeftSemi(c) | J::RightSemi(c) | J::LeftAnti(c) | J::RightAnti(c) | J::AsOf { constraint: c, .. } => match c { JoinConstraint::On(e) => Some(e.clone()), _ => None },
        _ => None,
    }).collect()
}

/// A relation in `FROM`, by kind.
pub enum TableFactorParts {
    /// A named table: the values of its name parts, its printed name, and
    /// the value of its alias.
    Table(Vec<String>, String, Option<String>),
    /// A subquery, with the value of its alias.
    Derived(Query, Option<String>),
    /// Any other relation, printed as SQL.
    Other(String),
}

#[verifier::external_body]
pub(crate) fn table_factor_parts(t: &TableFactor) -> TableFactorParts {
    match t {
        TableFactor::Table { name, alias, .. } => TableFactorParts::Table(name.0.iter().map(|i| i.value.clone()).collect(), name.to_string(), alias.as_ref().map(|a| a.name.value.clone())),
        TableFactor::Derived { subquery, alias, .. } => TableFactorParts::Derived((**subquery).clone(), alias.as_ref().map(|a| a.name.value.clone())),
        other => TableFactorParts::Other(other.to_string()),
    }
}

/// Replace the subquery of a derived relation (a no-op on other relations).
#[verifier::external_body]
pub(crate) fn set_derived_subquery(t: &mut TableFactor, q: Query) {
    if let TableFactor::Derived { subquery, .. } = t {
        **subquery = q;
    }
}

/// A projection item, by kind.
pub enum SelectItemParts {
    Unnamed(Expr),
    WithAlias(Expr, Ident),
    /// `name.*`, with the printed name.
    QualifiedWildcard(String),
    Wildcard,
}

#[verifier::external_body]
pub(crate) fn select_item_parts(i: &SelectItem) -> SelectItemParts {
    match i {
        SelectItem::UnnamedExpr(e) => SelectItemParts::Unnamed(e.clone()),
        SelectItem::ExprWithAlias { expr, alias } => SelectItemParts::WithAlias(expr.clone(), alias.clone()),
        SelectItem::QualifiedWildcard(name, _) => SelectItemParts::QualifiedWildcard(name.to_string()),
        SelectItem::Wildcard(_) => SelectItemParts::Wildcard,
    }
}

/// An `ORDER BY` key: its expression and direction (`Some(true)` for
/// `ASC`, `Some(false)` for `DESC`).
#[verifier::external_body]
pub(crate) fn order_by_parts(o: &OrderByExpr) -> (Expr, Option<bool>) {
    (o.expr.clone(), o.asc)
}

// ---------------------------------------------------------------------------
// Building the pieces of a `DISTINCT ON` rewrite
// ---------------------------------------------------------------------------

/// `name() OVER (PARTITION BY keys ORDER BY order)`.
#[verifier::external_body]
pub(crate) fn call_over(name: &str, partition_by: Vec<Expr>, order_by: Vec<OrderByExpr>) -> Expr {
    let spec = WindowSpec { window_name: None, partition_by, order_by, window_frame: None };
    let args = FunctionArguments::List(FunctionArgumentList { duplicate_treatment: None, args: vec![], clauses: vec![] });
    let name = ObjectName(vec![Ident::new(name)]);
    Expr::Function(Function { name, parameters: FunctionArguments::None, args, filter: None, null_treatment: None, over: Some(WindowType::WindowSpec(spec)), within_group: vec![] })
}

/// `e AS alias`.
#[verifier::external_body]
pub(crate) fn aliased_item(e: Expr, alias: &str) -> SelectItem {
    SelectItem::ExprWithAlias { expr: e, alias: Ident::new(alias) }
}

/// `e` without alias.
#[verifier::external_body]
pub(crate) fn unnamed_item(e: Expr) -> SelectItem {
    SelectItem::UnnamedExpr(e)
}

/// The select with no `DISTINCT` and the given projection, all else kept.
#[verifier::external_body]
pub(crate) fn select_without_distinct(sel: &Select, projection: Vec<SelectItem>) -> Select {
    Select { distinct: None, projection, ..sel.clone() }
}

/// A query whose only part is the given select.
#[verifier::external_body]
pub(crate) fn bare_query(sel: Select) -> Query {
    Query { with: None, body: Box::new(SetExpr::Select(Box::new(sel))), order_by: None, limit: None, limit_by: vec![],
        offset: None, fetch: None, locks: vec![], for_clause: None, settings: None, format_clause: None }
}

/// The `FROM` item `(inner) AS alias`, with no joins.
#[verifier::external_body]
pub(crate) fn derived_from_item(inner: Query, alias: &str) -> TableWithJoins {
    let alias = Some(sqlparser::ast::TableAlias { name: Ident::new(alias), columns: vec![] });
    TableWithJoins { relation: TableFactor::Derived { lateral: false, subquery: Box::new(inner), alias }, joins: vec![] }
}

/// `SELECT projection FROM from [WHERE selection]`, every other clause
/// empty.
#[verifier::external_body]
pub(crate) fn plain_select(projection: Vec<SelectItem>, from: Vec<TableWithJoins>, selection: Option<Expr>) -> Select {
    Select { distinct: None, top: None, top_before_distinct: false, projection, into: None, from, lateral_views: vec![],
        prewhere: None, selection, group_by: GroupByExpr::Expressions(vec![], vec![]), cluster_by: vec![],
        distribute_by: vec![], sort_by: vec![], having: None, named_window: vec![], qualify: None,
        window_before_qualify: false, value_table_mode: None, connect_by: None }
}

/// Make the select the query's body; the other clauses stay.
#[verifier::external_body]
pub(crate) fn set_select_body(q: &mut Query, sel: Select) {
    q.body = Box::new(SetExpr::Select(Box::new(sel)));
}

/// Set the query's `ORDER BY` to none.
#[verifier::external_body]
pub(crate) fn clear_order_by(q: &mut Query) {
    q.order_by = None;
}

/// The subquery of a `(subquery)`, `IN (subquery)` or `EXISTS (subquery)`
/// expression.
#[verifier::external_body]
pub(crate) fn expr_subquery(e: &Expr) -> Option<Query> {
    match e {
        Expr::Subquery(q) | Expr::InSubquery { subquery: q, .. } | Expr::Exists { subquery: q, .. } => Some((**q).clone()),
        _ => None,
    }
}

/// Replace the subquery of such an expression (a no-op on others).
#[verifier::external_body]
pub(crate) fn set_expr_subquery(e: &mut Expr, sub: Query) {
    match e {
        Expr::Subquery(q) | Expr::InSubquery { subquery: q, .. } | Expr::Exists { subquery: q, .. } => **q = sub,
        _ => {},
    }
}

/// Walk every expression of a statement, children first, giving each
/// subquery expression the `DISTINCT ON` rewrite.
#[verifier::external_body]
pub(crate) fn visit_distinct_on_subqueries(s: &mut Statement) {
    let _ = sqlparser::ast::visit_expressions_mut(s, |e| crate::rewrite::structure::rewrite_subquery_expr(e));
}

} // verus!
