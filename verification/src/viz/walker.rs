//! Statement to node tree: one node per clause, table and expression, with
//! a short label and a kind.
use vstd::prelude::*;

use crate::sql::ast::{
    data_type_text, expr_parts, expr_text, function_arg_text, ident_value, positional_arg, ExprParts,
};
use crate::sql::query::{
    from_item_parts, order_by_parts, query_parts, select_item_parts, select_parts, set_expr_parts,
    set_expr_text, statement_parts, table_factor_parts, GroupByParts, SelectItemParts, SetExprParts,
    StatementParts, TableFactorParts,
};
use crate::sql::ast::statement_text;
use crate::text::{dec, first_occ, push_all, str_chars, string_from_chars, strip_cr, usize_text};
use crate::viz::graph::{Node, NodeKind};
use sqlparser::ast::{Expr, OrderByExpr, Query, Select, SetExpr, Statement, TableFactor};

verus! {

/// How deep the walk goes; below this depth a subtree is drawn as one
/// `...` node.
pub const MAX_DEPTH: u64 = 1_000_000;

/// The first line of a text (a `\r` before its `\n` dropped), cut to 60
/// characters.
pub open spec fn summary(s: Seq<char>) -> Seq<char> {
    let line = match first_occ(s, seq!['\n'], 0) {
        Some(p) => strip_cr(s.take(p)),
        None => s,
    };
    if line.len() <= 60 {
        line
    } else {
        line.take(60)
    }
}

pub fn summarize(s: &str) -> (r: String)
    ensures
        r@ == summary(s@),
{
    let cs = str_chars(s);
    let mut nl: Vec<char> = Vec::new();
    nl.push('\n');
    assert(nl@ =~= seq!['\n']);
    let mut line = match crate::text::find_from(&cs, &nl, 0) {
        Some(p) => {
            let mut l = crate::text::slice_chars(&cs, 0, p);
            if l.len() > 0 && l[l.len() - 1] == '\r' {
                l.pop();
            }
            l
        },
        None => cs,
    };
    if line.len() > 60 {
        line.truncate(60);
    }
    string_from_chars(line)
}

/// `prefix (n noun)`, with an `s` after the noun unless `n` is 1.
pub open spec fn count_label(prefix: Seq<char>, n: nat, noun: Seq<char>) -> Seq<char> {
    prefix + "("@ + dec(n) + " "@ + noun + (if n == 1 { Seq::empty() } else { "s"@ }) + ")"@
}

fn counted(prefix: &str, n: usize, noun: &str) -> (r: String)
    ensures
        r@ == count_label(prefix@, n as nat, noun@),
{
    let mut out = str_chars(prefix);
    push_all(&mut out, &str_chars("("));
    push_all(&mut out, &usize_text(n));
    push_all(&mut out, &str_chars(" "));
    push_all(&mut out, &str_chars(noun));
    if n != 1 {
        push_all(&mut out, &str_chars("s"));
    }
    push_all(&mut out, &str_chars(")"));
    string_from_chars(out)
}

fn concat(a: &str, b: &str) -> (r: String)
    ensures
        r@ == a@ + b@,
{
    let mut out = str_chars(a);
    push_all(&mut out, &str_chars(b));
    string_from_chars(out)
}

fn text(s: &str) -> (r: String)
    ensures
        r@ == s@,
{
    string_from_chars(str_chars(s))
}

fn leaf(label: String, kind: NodeKind) -> (r: Node)
    ensures
        r.label == label,
        r.kind == kind,
        r.children@.len() == 0,
{
    Node { label, kind, children: Vec::new() }
}

fn branch(label: String, kind: NodeKind, children: Vec<Node>) -> (r: Node)
    ensures
        r.label == label,
        r.kind == kind,
        r.children == children,
{
    Node { label, kind, children }
}

fn one(n: Node) -> (r: Vec<Node>)
    ensures
        r@ == seq![n],
{
    let mut v: Vec<Node> = Vec::new();
    v.push(n);
    v
}

/// The node drawn where the walk stops going deeper: a `...` leaf.
pub open spec fn is_cut(n: Node) -> bool {
    n.label@ == "..."@ && n.kind == NodeKind::Misc && n.children@.len() == 0
}

/// The label of one `ORDER BY` key: `sort`, with its direction when given.
pub open spec fn is_sort_label(l: Seq<char>) -> bool {
    l == "sort"@ || l == "sort"@ + " ASC"@ || l == "sort"@ + " DESC"@
}

/// A join operator's label: its first 30 characters.
pub open spec fn join_label(op: Seq<char>) -> Seq<char> {
    if op.len() > 30 {
        op.take(30)
    } else {
        op
    }
}

/// The node drawn where the walk stops going deeper.
fn cut() -> (r: Node)
    ensures
        is_cut(r),
{
    leaf(text("..."), NodeKind::Misc)
}

/// The tree of one statement.
pub fn walk_statement(stmt: &Statement) -> (r: Node)
    ensures
        r.kind == NodeKind::Query || r.kind == NodeKind::Statement || r.kind == NodeKind::Misc,
{
    walk_statement_at(stmt, MAX_DEPTH)
}

fn walk_statement_at(stmt: &Statement, depth: u64) -> (r: Node)
    ensures
        depth == 0 ==> is_cut(r),
        r.kind == NodeKind::Query || r.kind == NodeKind::Statement || r.kind == NodeKind::Misc,
    decreases depth,
{
    if depth == 0 {
        return cut();
    }
    let d = depth - 1;
    match statement_parts(stmt) {
        StatementParts::Plain(q) => walk_query(&q, d),
        StatementParts::Insert(name, source) => {
            let kids = match source {
                Some(q) => one(walk_query(&q, d)),
                None => Vec::new(),
            };
            branch(concat("INSERT INTO ", name.as_str()), NodeKind::Statement, kids)
        },
        StatementParts::Update(t) => leaf(concat("UPDATE ", t.as_str()), NodeKind::Statement),
        StatementParts::Delete(n) => leaf(counted("DELETE ", n, "target"), NodeKind::Statement),
        StatementParts::CreateTable(name) => leaf(concat("CREATE TABLE ", name.as_str()), NodeKind::Statement),
        StatementParts::CreateView(name, _, q) => branch(
            concat("CREATE VIEW ", name.as_str()),
            NodeKind::Statement,
            one(walk_query(&q, d)),
        ),
        StatementParts::Merge(t) => leaf(concat("MERGE ", t.as_str()), NodeKind::Statement),
        StatementParts::AlterTable(name) => leaf(concat("ALTER TABLE ", name.as_str()), NodeKind::Statement),
        StatementParts::Drop(kind, names) => {
            let mut out = str_chars("DROP ");
            push_all(&mut out, &str_chars(kind.as_str()));
            push_all(&mut out, &str_chars(" "));
            let mut i: usize = 0;
            while i < names.len()
                invariant
                    i <= names.len(),
                decreases names.len() - i,
            {
                if i > 0 {
                    push_all(&mut out, &str_chars(", "));
                }
                push_all(&mut out, &str_chars(names[i].as_str()));
                i = i + 1;
            }
            leaf(string_from_chars(out), NodeKind::Statement)
        },
        StatementParts::Other => leaf(summarize(statement_text(stmt).as_str()), NodeKind::Misc),
    }
}

/// The tree of a query: its `WITH`, body, `ORDER BY` and `LIMIT`.
fn walk_query(q: &Query, depth: u64) -> (r: Node)
    ensures
        depth == 0 ==> is_cut(r),
        depth > 0 ==> r.label@ == "Query"@ && r.kind == NodeKind::Query,
    decreases depth,
{
    if depth == 0 {
        return cut();
    }
    let d = depth - 1;
    let parts = query_parts(q);
    let mut children: Vec<Node> = Vec::new();
    if parts.ctes.len() > 0 {
        let mut ctes: Vec<Node> = Vec::new();
        let mut i: usize = 0;
        while i < parts.ctes.len()
            invariant
                d < depth,
                i <= parts.ctes.len(),
            decreases parts.ctes.len() - i,
        {
            let (name, sub) = &parts.ctes[i];
            ctes.push(branch(concat("CTE ", name.as_str()), NodeKind::Cte, one(walk_query(sub, d))));
            i = i + 1;
        }
        let n = ctes.len();
        children.push(branch(counted("WITH ", n, "CTE"), NodeKind::Cte, ctes));
    }
    children.push(walk_set_expr(&parts.body, d));
    if let Some(keys) = &parts.order_by {
        children.push(walk_order_by(keys, d));
    }
    if let Some(l) = &parts.limit {
        children.push(leaf(concat("LIMIT ", expr_text(l).as_str()), NodeKind::Limit));
    }
    branch(text("Query"), NodeKind::Query, children)
}

fn walk_set_expr(s: &SetExpr, depth: u64) -> (r: Node)
    ensures
        depth == 0 ==> is_cut(r),
        r.kind == NodeKind::Select || r.kind == NodeKind::SetOp || r.kind == NodeKind::Subquery
            || r.kind == NodeKind::Values || r.kind == NodeKind::Misc,
    decreases depth,
{
    if depth == 0 {
        return cut();
    }
    let d = depth - 1;
    match set_expr_parts(s) {
        SetExprParts::SelectBody(sel) => walk_select(&sel, d),
        SetExprParts::SetOperation(op, l, r) => {
            let mut kids: Vec<Node> = Vec::new();
            kids.push(walk_set_expr(&l, d));
            kids.push(walk_set_expr(&r, d));
            branch(op, NodeKind::SetOp, kids)
        },
        SetExprParts::Nested(q) => branch(text("Subquery"), NodeKind::Subquery, one(walk_query(&q, d))),
        SetExprParts::Values(n) => leaf(counted("VALUES ", n, "row"), NodeKind::Values),
        SetExprParts::Other => leaf(summarize(set_expr_text(s).as_str()), NodeKind::Misc),
    }
}

/// The tree of a select: `FROM`, projection, `WHERE`, `GROUP BY`,
/// `HAVING`.
fn walk_select(s: &Select, depth: u64) -> (r: Node)
    ensures
        depth == 0 ==> is_cut(r),
        depth > 0 ==> r.label@ == "Select"@ && r.kind == NodeKind::Select,
    decreases depth,
{
    if depth == 0 {
        return cut();
    }
    let d = depth - 1;
    let parts = select_parts(s);
    let mut children: Vec<Node> = Vec::new();
    if parts.from.len() > 0 {
        let mut from: Vec<Node> = Vec::new();
        let mut i: usize = 0;
        while i < parts.from.len()
            invariant
                d < depth,
                i <= parts.from.len(),
            decreases parts.from.len() - i,
        {
            let (relation, joins) = from_item_parts(&parts.from[i]);
            from.push(walk_from_item(&relation, &joins, d));
            i = i + 1;
        }
        children.push(branch(counted("FROM ", parts.from.len(), "source"), NodeKind::From, from));
    }
    let mut proj: Vec<Node> = Vec::new();
    let mut i: usize = 0;
    while i < parts.projection.len()
        invariant
            d < depth,
            i <= parts.projection.len(),
            proj.len() == i,
        decreases parts.projection.len() - i,
    {
        let node = match select_item_parts(&parts.projection[i]) {
            SelectItemParts::Unnamed(e) => walk_expr(&e, d),
            SelectItemParts::WithAlias(e, alias) => branch(
                concat("AS ", ident_value(&alias).as_str()),
                NodeKind::Projection,
                one(walk_expr(&e, d)),
            ),
            SelectItemParts::Wildcard => leaf(text("*"), NodeKind::Projection),
            SelectItemParts::QualifiedWildcard(name) => leaf(concat(name.as_str(), ".*"), NodeKind::Projection),
        };
        proj.push(node);
        i = i + 1;
    }
    let n = proj.len();
    children.push(branch(counted("SELECT ", n, "col"), NodeKind::Projection, proj));
    if let Some(w) = &parts.selection {
        children.push(branch(text("WHERE"), NodeKind::Filter, one(walk_expr(w, d))));
    }
    match &parts.group_by {
        GroupByParts::Expressions(es) => {
            if es.len() > 0 {
                let mut kids: Vec<Node> = Vec::new();
                let mut k: usize = 0;
                while k < es.len()
                    invariant
                        d < depth,
                        k <= es.len(),
                    decreases es.len() - k,
                {
                    kids.push(walk_expr(&es[k], d));
                    k = k + 1;
                }
                children.push(branch(text("GROUP BY"), NodeKind::GroupBy, kids));
            }
        },
        GroupByParts::All => {
            children.push(leaf(text("GROUP BY ALL"), NodeKind::GroupBy));
        },
    }
    if let Some(h) = &parts.having {
        children.push(branch(text("HAVING"), NodeKind::Having, one(walk_expr(h, d))));
    }
    branch(text("Select"), NodeKind::Select, children)
}

/// A `FROM` item: the relation alone, or a `Joins` node holding it and
/// one node per join, labelled by the first 30 characters of the join
/// operator.
fn walk_from_item(relation: &TableFactor, joins: &Vec<(String, TableFactor)>, depth: u64) -> (r: Node)
    ensures
        depth == 0 ==> is_cut(r),
        depth > 0 && joins.len() == 0 ==> r.kind == NodeKind::Table || r.kind == NodeKind::Subquery
            || r.kind == NodeKind::Misc,
        depth > 0 && joins.len() > 0 ==> {
            &&& r.label@ == "Joins"@
            &&& r.kind == NodeKind::From
            &&& r.children@.len() == joins.len() + 1
            &&& forall|i: int| 0 <= i < joins.len() ==> {
                &&& (#[trigger] r.children@[i + 1]).kind == NodeKind::Join
                &&& r.children@[i + 1].label@ == join_label(joins@[i].0@)
                &&& r.children@[i + 1].children@.len() == 1
            }
        },
    decreases depth,
{
    if depth == 0 {
        return cut();
    }
    let d = depth - 1;
    let first = walk_table_factor(relation, d);
    if joins.len() == 0 {
        return first;
    }
    let mut kids: Vec<Node> = Vec::new();
    kids.push(first);
    let mut i: usize = 0;
    while i < joins.len()
        invariant
            d < depth,
            i <= joins.len(),
            kids@.len() == i + 1,
            forall|k: int| 0 <= k < i ==> {
                &&& (#[trigger] kids@[k + 1]).kind == NodeKind::Join
                &&& kids@[k + 1].label@ == join_label(joins@[k].0@)
                &&& kids@[k + 1].children@.len() == 1
            },
        decreases joins.len() - i,
    {
        let (op, rel) = &joins[i];
        let mut label = str_chars(op.as_str());
        if label.len() > 30 {
            label.truncate(30);
        }
        assert(label@ == join_label(joins@[i as int].0@));
        let node = branch(string_from_chars(label), NodeKind::Join, one(walk_table_factor(rel, d)));
        let ghost k0 = kids@;
        kids.push(node);
        assert(forall|k: int| 0 <= k < i ==> #[trigger] kids@[k + 1] == k0[k + 1]);
        i = i + 1;
    }
    branch(text("Joins"), NodeKind::From, kids)
}

fn walk_table_factor(t: &TableFactor, depth: u64) -> (r: Node)
    ensures
        depth == 0 ==> is_cut(r),
        depth > 0 ==> r.kind == NodeKind::Table || r.kind == NodeKind::Subquery,
    decreases depth,
{
    if depth == 0 {
        return cut();
    }
    let d = depth - 1;
    match table_factor_parts(t) {
        TableFactorParts::Table(_, name, alias) => {
            let label = match alias {
                Some(a) => {
                    let mut out = str_chars(name.as_str());
                    push_all(&mut out, &str_chars(" AS "));
                    push_all(&mut out, &str_chars(a.as_str()));
                    string_from_chars(out)
                },
                None => name,
            };
            leaf(label, NodeKind::Table)
        },
        TableFactorParts::Derived(q, alias) => {
            let label = match alias {
                Some(a) => concat("Derived AS ", a.as_str()),
                None => text("Derived"),
            };
            branch(label, NodeKind::Subquery, one(walk_query(&q, d)))
        },
        TableFactorParts::Other(text) => leaf(summarize(text.as_str()), NodeKind::Table),
    }
}

fn walk_order_by(keys: &Vec<OrderByExpr>, depth: u64) -> (r: Node)
    ensures
        depth == 0 ==> is_cut(r),
        depth > 0 ==> {
            &&& r.label@ == count_label("ORDER BY "@, keys.len() as nat, "key"@)
            &&& r.kind == NodeKind::OrderBy
            &&& r.children@.len() == keys.len()
            &&& forall|i: int| 0 <= i < keys.len() ==> {
                &&& (#[trigger] r.children@[i]).kind == NodeKind::OrderBy
                &&& is_sort_label(r.children@[i].label@)
                &&& r.children@[i].children@.len() == 1
            }
        },
    decreases depth,
{
    if depth == 0 {
        return cut();
    }
    let d = depth - 1;
    let mut kids: Vec<Node> = Vec::new();
    let mut i: usize = 0;
    while i < keys.len()
        invariant
            d < depth,
            i <= keys.len(),
            kids.len() == i,
            forall|k: int| 0 <= k < i ==> {
                &&& (#[trigger] kids@[k]).kind == NodeKind::OrderBy
                &&& is_sort_label(kids@[k].label@)
                &&& kids@[k].children@.len() == 1
            },
        decreases keys.len() - i,
    {
        let (e, asc) = order_by_parts(&keys[i]);
        let label = match asc {
            Some(true) => concat("sort", " ASC"),
            Some(false) => concat("sort", " DESC"),
            None => text("sort"),
        };
        let node = branch(label, NodeKind::OrderBy, one(walk_expr(&e, d)));
        let ghost k0 = kids@;
        kids.push(node);
        assert(forall|k: int| 0 <= k < i ==> #[trigger] kids@[k] == k0[k]);
        i = i + 1;
    }
    let n = kids.len();
    branch(counted("ORDER BY ", n, "key"), NodeKind::OrderBy, kids)
}

fn walk_expr(e: &Expr, depth: u64) -> (r: Node)
    ensures
        depth == 0 ==> is_cut(r),
        depth > 0 ==> r.kind == NodeKind::Expression || r.kind == NodeKind::Subquery,
    decreases depth,
{
    if depth == 0 {
        return cut();
    }
    let d = depth - 1;
    match expr_parts(e) {
        ExprParts::Identifier(i) => leaf(ident_value(&i), NodeKind::Expression),
        ExprParts::Compound(ids) => {
            let mut out: Vec<char> = Vec::new();
            let mut i: usize = 0;
            while i < ids.len()
                invariant
                    i <= ids.len(),
                decreases ids.len() - i,
            {
                if i > 0 {
                    out.push('.');
                }
                push_all(&mut out, &str_chars(ident_value(&ids[i]).as_str()));
                i = i + 1;
            }
            leaf(string_from_chars(out), NodeKind::Expression)
        },
        ExprParts::Literal(_) => leaf(expr_text(e), NodeKind::Expression),
        ExprParts::BinaryOp(l, op, _, r) => {
            let mut kids: Vec<Node> = Vec::new();
            kids.push(walk_expr(&l, d));
            kids.push(walk_expr(&r, d));
            branch(op, NodeKind::Expression, kids)
        },
        ExprParts::UnaryOp(op, x) => branch(op, NodeKind::Expression, one(walk_expr(&x, d))),
        ExprParts::Function(name, _, args) => {
            let mut kids: Vec<Node> = Vec::new();
            let mut i: usize = 0;
            while i < args.len()
                invariant
                    d < depth,
                    i <= args.len(),
                decreases args.len() - i,
            {
                let node = match positional_arg(&args[i]) {
                    Some(x) => walk_expr(&x, d),
                    None => leaf(summarize(function_arg_text(&args[i]).as_str()), NodeKind::Expression),
                };
                kids.push(node);
                i = i + 1;
            }
            branch(concat(name.as_str(), "()"), NodeKind::Expression, kids)
        },
        ExprParts::Cast(x, t) => branch(
            concat("CAST AS ", data_type_text(&t).as_str()),
            NodeKind::Expression,
            one(walk_expr(&x, d)),
        ),
        ExprParts::Case(conditions, results, else_result) => {
            let mut kids: Vec<Node> = Vec::new();
            let mut i: usize = 0;
            while i < conditions.len() && i < results.len()
                invariant
                    d < depth,
                    i <= conditions.len(),
                decreases conditions.len() - i,
            {
                let mut pair: Vec<Node> = Vec::new();
                pair.push(walk_expr(&conditions[i], d));
                pair.push(walk_expr(&results[i], d));
                kids.push(branch(text("WHEN"), NodeKind::Expression, pair));
                i = i + 1;
            }
            if let Some(er) = else_result {
                kids.push(branch(text("ELSE"), NodeKind::Expression, one(walk_expr(&er, d))));
            }
            branch(text("CASE"), NodeKind::Expression, kids)
        },
        ExprParts::Subquery(q) => branch(text("Subquery"), NodeKind::Subquery, one(walk_query(&q, d))),
        ExprParts::IsNull(x) => branch(text("IS NULL"), NodeKind::Expression, one(walk_expr(&x, d))),
        ExprParts::IsNotNull(x) => branch(text("IS NOT NULL"), NodeKind::Expression, one(walk_expr(&x, d))),
        _ => leaf(summarize(expr_text(e).as_str()), NodeKind::Expression),
    }
}

} // verus!
