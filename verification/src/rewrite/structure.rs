//! `DISTINCT ON (keys)` to a `ROW_NUMBER()` subquery.
//!
//! Spark has no `DISTINCT ON`. The query keeps one row per value of the
//! keys, the first by its `ORDER BY`:
//!
//! ```text
//! SELECT DISTINCT ON (dept_id) id, dept_id, salary FROM employees
//! ORDER BY dept_id, salary DESC
//! ```
//! becomes
//! ```text
//! SELECT id, dept_id, salary FROM (
//!     SELECT id, dept_id, salary,
//!            ROW_NUMBER() OVER (PARTITION BY dept_id ORDER BY dept_id, salary DESC)
//!                AS __coral_distinct_on_rn
//!     FROM employees
//! ) AS __coral_distinct_on_t
//! WHERE __coral_distinct_on_rn = 1
//! ```
//!
//! Every query of a statement is rewritten, inner queries first.
use vstd::prelude::*;

use crate::sql::ast::{expr_parts, ident_value, identifier_expr, new_ident, number_literal, BinOpNew, ExprParts};
use crate::sql::query::{
    aliased_item, bare_query, expr_subquery, from_item_parts, query_parts, call_over, derived_from_item, plain_select,
    select_item_parts, select_parts, select_without_distinct, set_body_query,
    set_body_select, set_cte_query, set_derived_subquery, set_expr_parts, set_expr_subquery,
    set_from_relation, set_query_body, set_select_body, clear_order_by, set_set_operation_sides,
    set_statement_inner_query, set_statement_query, statement_parts, table_factor_parts,
    unnamed_item, visit_distinct_on_subqueries, SelectItemParts, SetExprParts, StatementParts,
    TableFactorParts,
};
use crate::text::str_chars;
use core::ops::ControlFlow;
use sqlparser::ast::{Expr, Ident, OrderByExpr, Query, Select, SelectItem, SetExpr, Statement, TableWithJoins};

verus! {

/// Alias of the row-number column.
pub const RN_COLUMN: &'static str = "__coral_distinct_on_rn";

/// Alias of the derived table.
pub const SUBQUERY_ALIAS: &'static str = "__coral_distinct_on_t";

/// A projection item as the rewrite reads it.
pub enum ItemKind {
    /// `name` (a bare identifier).
    Ident,
    /// `a.b. ... .name`: its parts.
    Compound(Vec<Ident>),
    /// Any other expression without alias.
    OtherExpr,
    /// `expr AS alias`: the alias and its value.
    Alias(Ident, String),
    /// `*` or `name.*`.
    Wildcard,
}

pub struct ItemView {
    pub raw: SelectItem,
    pub kind: ItemKind,
}

/// What an outer projection item is.
pub enum ItemNew {
    /// The original item.
    Keep(SelectItem),
    /// A bare identifier.
    Ident(Ident),
    /// The bare identifier `col` (for a compound name with no parts).
    ColFallback,
}

/// Whether an item is the row-number column itself.
pub open spec fn is_rn_item(v: ItemView) -> bool {
    v.kind matches ItemKind::Alias(_, s) && s@ == "__coral_distinct_on_rn"@
}

/// How many leading items precede the row-number column.
pub open spec fn kept_len(vs: Seq<ItemView>, i: int) -> int
    decreases vs.len() - i,
{
    if i < 0 || i >= vs.len() {
        vs.len() as int
    } else if is_rn_item(vs[i]) {
        i
    } else {
        kept_len(vs, i + 1)
    }
}

/// An item re-projected by its output name: a compound name by its last
/// part, an aliased expression by its alias; anything else as it is.
pub open spec fn outer_item(v: ItemView) -> ItemNew {
    match v.kind {
        ItemKind::Compound(ids) => if ids@.len() > 0 {
            ItemNew::Ident(ids@.last())
        } else {
            ItemNew::ColFallback
        },
        ItemKind::Alias(a, _) => ItemNew::Ident(a),
        _ => ItemNew::Keep(v.raw),
    }
}

/// The outer projection: the items before the row-number column, each
/// re-projected by its output name.
pub fn strip_row_number(vs: &Vec<ItemView>) -> (r: Vec<ItemNew>)
    ensures
        r.len() == kept_len(vs@, 0),
        forall|i: int| 0 <= i < r.len() ==> #[trigger] r@[i] == outer_item(vs@[i]),
{
    let rn = str_chars("__coral_distinct_on_rn");
    let mut out: Vec<ItemNew> = Vec::new();
    let mut i: usize = 0;
    while i < vs.len()
        invariant
            i <= vs.len(),
            rn@ == "__coral_distinct_on_rn"@,
            out.len() == i,
            kept_len(vs@, 0) == kept_len(vs@, i as int),
            forall|k: int| 0 <= k < i ==> #[trigger] out@[k] == outer_item(vs@[k]),
        decreases vs.len() - i,
    {
        let item = match &vs[i].kind {
            ItemKind::Compound(ids) => {
                if ids.len() > 0 {
                    ItemNew::Ident(ids[ids.len() - 1].clone())
                } else {
                    ItemNew::ColFallback
                }
            },
            ItemKind::Alias(a, value) => {
                if crate::preprocess::connect_by::same(&str_chars(value.as_str()), &rn) {
                    return out;
                }
                ItemNew::Ident(a.clone())
            },
            _ => ItemNew::Keep(vs[i].raw.clone()),
        };
        out.push(item);
        i = i + 1;
    }
    out
}

/// Read a projection item.
pub fn item_view(item: &SelectItem) -> (r: ItemView)
    ensures
        r.raw == *item,
{
    let kind = match select_item_parts(item) {
        SelectItemParts::Unnamed(e) => match expr_parts(&e) {
            ExprParts::Identifier(_) => ItemKind::Ident,
            ExprParts::Compound(ids) => ItemKind::Compound(ids),
            _ => ItemKind::OtherExpr,
        },
        SelectItemParts::WithAlias(_, a) => {
            let v = ident_value(&a);
            ItemKind::Alias(a, v)
        },
        _ => ItemKind::Wildcard,
    };
    ItemView { raw: item.clone(), kind }
}

fn build_item(n: &ItemNew) -> (r: SelectItem)
    ensures
        n matches ItemNew::Keep(i) ==> r == i,
{
    match n {
        ItemNew::Keep(i) => i.clone(),
        ItemNew::Ident(id) => unnamed_item(identifier_expr(id.clone())),
        ItemNew::ColFallback => unnamed_item(identifier_expr(new_ident("col"))),
    }
}

/// Rewrite one query whose body is a `SELECT DISTINCT ON (..)`; other
/// queries are left as they are.
pub fn rewrite_distinct_on(q: &mut Query) {
    let parts = query_parts(q);
    let sel = match set_expr_parts(&parts.body) {
        SetExprParts::SelectBody(s) => s,
        _ => {
            return;
        },
    };
    let sp = select_parts(&sel);
    let keys = match sp.distinct_on {
        Some(k) => k,
        None => {
            return;
        },
    };
    let order: Vec<OrderByExpr> = match parts.order_by {
        Some(o) => o,
        None => Vec::new(),
    };
    let mut inner_projection: Vec<SelectItem> = Vec::new();
    let mut views: Vec<ItemView> = Vec::new();
    let mut i: usize = 0;
    while i < sp.projection.len()
        invariant
            i <= sp.projection.len(),
        decreases sp.projection.len() - i,
    {
        inner_projection.push(sp.projection[i].clone());
        views.push(item_view(&sp.projection[i]));
        i = i + 1;
    }
    inner_projection.push(aliased_item(call_over("ROW_NUMBER", keys, order), RN_COLUMN));
    let inner = bare_query(select_without_distinct(&sel, inner_projection));
    let kept = strip_row_number(&views);
    let mut outer_projection: Vec<SelectItem> = Vec::new();
    let mut k: usize = 0;
    while k < kept.len()
        invariant
            k <= kept.len(),
        decreases kept.len() - k,
    {
        outer_projection.push(build_item(&kept[k]));
        k = k + 1;
    }
    let rn_ref = identifier_expr(new_ident(RN_COLUMN));
    let selection = crate::sql::plan::build(
        crate::sql::plan::NewExpr::Binary(
            Box::new(crate::sql::plan::NewExpr::Old(rn_ref)),
            BinOpNew::Eq,
            Box::new(crate::sql::plan::NewExpr::Old(number_literal("1"))),
        ),
    );
    let mut from: Vec<TableWithJoins> = Vec::new();
    from.push(derived_from_item(inner, SUBQUERY_ALIAS));
    let outer = plain_select(outer_projection, from, Some(selection));
    set_select_body(q, outer);
    clear_order_by(q);
}

/// How deep the walk over nested queries goes.
pub const REWRITE_DEPTH: u64 = 1_000_000;

/// Rewrite a query and the queries nested in its `WITH`, body and `FROM`,
/// inner ones first.
pub fn distinct_on_query(q: &mut Query, depth: u64)
    decreases depth,
{
    if depth == 0 {
        return;
    }
    let d = depth - 1;
    let parts = query_parts(q);
    let mut i: usize = 0;
    while i < parts.ctes.len()
        invariant
            d < depth,
            i <= parts.ctes.len(),
        decreases parts.ctes.len() - i,
    {
        let mut cq = parts.ctes[i].1.clone();
        distinct_on_query(&mut cq, d);
        set_cte_query(q, i, cq);
        i = i + 1;
    }
    let mut body = parts.body;
    distinct_on_set_expr(&mut body, d);
    set_query_body(q, body);
    rewrite_distinct_on(q);
}

fn distinct_on_set_expr(s: &mut SetExpr, depth: u64)
    decreases depth,
{
    if depth == 0 {
        return;
    }
    let d = depth - 1;
    match set_expr_parts(s) {
        SetExprParts::SelectBody(sel) => {
            let mut sel = sel;
            distinct_on_from(&mut sel, d);
            set_body_select(s, sel);
        },
        SetExprParts::SetOperation(_, l, r) => {
            let mut l = l;
            let mut r = r;
            distinct_on_set_expr(&mut l, d);
            distinct_on_set_expr(&mut r, d);
            set_set_operation_sides(s, l, r);
        },
        SetExprParts::Nested(q) => {
            let mut q = q;
            distinct_on_query(&mut q, d);
            set_body_query(s, q);
        },
        _ => {},
    }
}

fn distinct_on_from(sel: &mut Select, depth: u64)
    decreases depth,
{
    if depth == 0 {
        return;
    }
    let d = depth - 1;
    let sp = select_parts(sel);
    let mut i: usize = 0;
    while i < sp.from.len()
        invariant
            d < depth,
            i <= sp.from.len(),
        decreases sp.from.len() - i,
    {
        let (relation, joins) = from_item_parts(&sp.from[i]);
        if let TableFactorParts::Derived(sub, _) = table_factor_parts(&relation) {
            let mut sub = sub;
            distinct_on_query(&mut sub, d);
            let mut rel = relation.clone();
            set_derived_subquery(&mut rel, sub);
            set_from_relation(sel, i, 0, rel);
        }
        let mut j: usize = 0;
        while j < joins.len()
            invariant
                d < depth,
                j <= joins.len(),
            decreases joins.len() - j,
        {
            if let TableFactorParts::Derived(sub, _) = table_factor_parts(&joins[j].1) {
                let mut sub = sub;
                distinct_on_query(&mut sub, d);
                let mut rel = joins[j].1.clone();
                set_derived_subquery(&mut rel, sub);
                set_from_relation(sel, i, j + 1, rel);
            }
            j = j + 1;
        }
        i = i + 1;
    }
}

/// One step of the walk over expressions: a subquery expression gets its
/// query rewritten.
pub fn rewrite_subquery_expr(e: &mut Expr) -> (r: ControlFlow<()>)
    ensures
        r == ControlFlow::<()>::Continue(()),
{
    if let Some(q) = expr_subquery(e) {
        let mut q = q;
        distinct_on_query(&mut q, REWRITE_DEPTH);
        set_expr_subquery(e, q);
    }
    ControlFlow::Continue(())
}

/// The `DISTINCT ON` pass over a whole statement.
pub fn rewrite_statement(s: &mut Statement) {
    visit_distinct_on_subqueries(s);
    match statement_parts(s) {
        StatementParts::Plain(q) => {
            let mut q = q;
            distinct_on_query(&mut q, REWRITE_DEPTH);
            set_statement_query(s, q);
        },
        StatementParts::Insert(_, Some(q)) => {
            let mut q = q;
            distinct_on_query(&mut q, REWRITE_DEPTH);
            set_statement_inner_query(s, q);
        },
        StatementParts::CreateView(_, _, q) => {
            let mut q = q;
            distinct_on_query(&mut q, REWRITE_DEPTH);
            set_statement_inner_query(s, q);
        },
        _ => {},
    }
}

/// The `DISTINCT ON` pass.
pub struct DistinctOnRewriter;

impl DistinctOnRewriter {
    /// Run the pass over a statement.
    pub fn rewrite(&self, stmt: &mut sqlparser::ast::Statement) {
        rewrite_statement(stmt);
    }
}

/// Every item of the outer projection of a `DISTINCT ON` rewrite names a
/// column of the derived table: a qualified column `a. ... .c` is
/// re-projected as the bare identifier `c`, an aliased expression by its
/// alias; the row-number column and what follows it are not projected.
pub proof fn law_outer_projection_names_derived_columns(vs: Seq<ItemView>, r: Seq<ItemNew>)
    requires
        r.len() == kept_len(vs, 0),
        forall|i: int| 0 <= i < r.len() ==> #[trigger] r[i] == outer_item(vs[i]),
    ensures
        r.len() <= vs.len(),
        forall|i: int| 0 <= i < r.len() ==> !is_rn_item(#[trigger] vs[i]),
        forall|i: int| 0 <= i < r.len() ==> ((#[trigger] vs[i]).kind matches ItemKind::Compound(ids) ==> (ids@.len() > 0
            ==> r[i] == ItemNew::Ident(ids@.last()))),
        forall|i: int| 0 <= i < r.len() ==> ((#[trigger] vs[i]).kind matches ItemKind::Alias(a, _) ==> r[i]
            == ItemNew::Ident(a)),
        forall|i: int| 0 <= i < r.len() ==> (r[i] is Keep ==> !((#[trigger] vs[i]).kind is Compound) && !(vs[i].kind is Alias)),
        forall|i: int| 0 <= i < r.len() ==> (!((#[trigger] vs[i]).kind is Compound) && !(vs[i].kind is Alias) ==> r[i]
            == ItemNew::Keep(vs[i].raw)),
        r.len() < vs.len() ==> is_rn_item(vs[r.len() as int]),
{
    lemma_kept_len(vs, 0);
    assert forall|i: int| 0 <= i < r.len() implies (!((#[trigger] vs[i]).kind is Compound) && !(vs[i].kind is Alias) ==> r[i]
        == ItemNew::Keep(vs[i].raw)) by {
        assert(r[i] == outer_item(vs[i]));
    }
    assert forall|i: int| 0 <= i < r.len() implies ((#[trigger] vs[i]).kind matches ItemKind::Compound(ids) ==> (ids@.len() > 0
        ==> r[i] == ItemNew::Ident(ids@.last()))) by {
        assert(r[i] == outer_item(vs[i]));
    }
    assert forall|i: int| 0 <= i < r.len() implies ((#[trigger] vs[i]).kind matches ItemKind::Alias(a, _) ==> r[i]
        == ItemNew::Ident(a)) by {
        assert(r[i] == outer_item(vs[i]));
    }
    assert forall|i: int| 0 <= i < r.len() implies (r[i] is Keep ==> !((#[trigger] vs[i]).kind is Compound) && !(vs[i].kind is Alias)) by {
        assert(r[i] == outer_item(vs[i]));
    }
}

proof fn lemma_kept_len(vs: Seq<ItemView>, i: int)
    requires
        0 <= i <= vs.len(),
    ensures
        i <= kept_len(vs, i) <= vs.len(),
        forall|j: int| i <= j < kept_len(vs, i) ==> !is_rn_item(#[trigger] vs[j]),
        kept_len(vs, i) < vs.len() ==> is_rn_item(vs[kept_len(vs, i)]),
    decreases vs.len() - i,
{
    if i < vs.len() && !is_rn_item(vs[i]) {
        lemma_kept_len(vs, i + 1);
    }
}

} // verus!
