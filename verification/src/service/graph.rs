//! Statement-level graph sources (one node per statement, chained in
//! order) in DOT and PlantUML.
use vstd::prelude::*;

use crate::sql::ast::{parse_sql_text, parse_count, statement_text};
use crate::sql::query::{statement_parts, StatementParts};
use crate::text::{dec, push_all, replace_all, replace_chars, str_chars, string_from_chars, usize_text};
use sqlparser::ast::Statement;

verus! {

fn one_char(c: char) -> (r: Vec<char>)
    ensures
        r@ == seq![c],
{
    let mut v: Vec<char> = Vec::new();
    v.push(c);
    assert(v@ =~= seq![c]);
    v
}

fn two_chars(a: char, b: char) -> (r: Vec<char>)
    ensures
        r@ == seq![a, b],
{
    let mut v: Vec<char> = Vec::new();
    v.push(a);
    v.push(b);
    assert(v@ =~= seq![a, b]);
    v
}

/// A DOT label: backslashes doubled, quotes escaped, newlines as `\n`.
pub open spec fn escape_dot_spec(s: Seq<char>) -> Seq<char> {
    replace_all(replace_all(replace_all(s, seq!['\\'], seq!['\\', '\\']), seq!['"'], seq!['\\', '"']), seq!['\n'], seq!['\\', 'n'])
}

pub fn escape_dot(s: &str) -> (r: String)
    ensures
        r@ == escape_dot_spec(s@),
{
    let a = replace_chars(&str_chars(s), &one_char('\\'), &two_chars('\\', '\\'));
    let b = replace_chars(&a, &one_char('"'), &two_chars('\\', '"'));
    string_from_chars(replace_chars(&b, &one_char('\n'), &two_chars('\\', 'n')))
}

/// A PlantUML label: quotes as two apostrophes, newlines as spaces.
pub open spec fn escape_plant_spec(s: Seq<char>) -> Seq<char> {
    replace_all(replace_all(s, seq!['"'], seq!['\'', '\'']), seq!['\n'], seq![' '])
}

pub fn escape_plant(s: &str) -> (r: String)
    ensures
        r@ == escape_plant_spec(s@),
{
    let a = replace_chars(&str_chars(s), &one_char('"'), &two_chars('\'', '\''));
    string_from_chars(replace_chars(&a, &one_char('\n'), &one_char(' ')))
}

/// A one-line label for a statement: its kind for the common kinds, else
/// the first 60 characters of its SQL.
pub fn summarize_statement(stmt: &Statement) -> (r: String)
    ensures
        r@ == "SELECT / query"@ || r@ == "INSERT"@ || r@ == "UPDATE"@ || r@ == "DELETE"@
            || r@ == "CREATE TABLE"@ || r@ == "CREATE VIEW"@ || r@ == "DROP"@ || r@ == "ALTER TABLE"@
            || r@ == "MERGE"@ || r@.len() <= 60,
{
    let label = match statement_parts(stmt) {
        StatementParts::Plain(_) => "SELECT / query",
        StatementParts::Insert(_, _) => "INSERT",
        StatementParts::Update(_) => "UPDATE",
        StatementParts::Delete(_) => "DELETE",
        StatementParts::CreateTable(_) => "CREATE TABLE",
        StatementParts::CreateView(_, _, _) => "CREATE VIEW",
        StatementParts::Drop(_, _) => "DROP",
        StatementParts::AlterTable(_) => "ALTER TABLE",
        StatementParts::Merge(_) => "MERGE",
        StatementParts::Other => {
            return first_chars(statement_text(stmt).as_str(), 60);
        },
    };
    string_from_chars(str_chars(label))
}

/// The first `n` characters of a text.
pub fn first_chars(s: &str, n: usize) -> (r: String)
    ensures
        r@ == if s@.len() <= n {
            s@
        } else {
            s@.take(n as int)
        },
{
    let mut v = str_chars(s);
    if v.len() > n {
        v.truncate(n);
    }
    string_from_chars(v)
}

/// The DOT node lines of the labels, numbered from 0.
pub open spec fn dot_nodes(ls: Seq<Seq<char>>) -> Seq<char>
    decreases ls.len(),
{
    if ls.len() == 0 {
        Seq::empty()
    } else {
        dot_nodes(ls.drop_last()) + "  stmt"@ + dec((ls.len() - 1) as nat) + " [label=\""@ + escape_dot_spec(ls.last())
            + "\"];\n"@
    }
}

/// Edges from each of `n` numbered nodes to the next, in DOT.
pub open spec fn dot_edges(n: nat) -> Seq<char>
    decreases n,
{
    if n <= 1 {
        Seq::empty()
    } else {
        dot_edges((n - 1) as nat) + "  stmt"@ + dec((n - 2) as nat) + " -> stmt"@ + dec((n - 1) as nat) + ";\n"@
    }
}

/// The DOT graph of statements with these labels.
pub open spec fn dot_source_spec(ls: Seq<Seq<char>>) -> Seq<char> {
    "digraph coral_ast {\n  rankdir=LR;\n"@ + "  node [shape=box, fontname=\"Helvetica\"];\n"@ + dot_nodes(ls) + dot_edges(
        ls.len(),
    ) + "}\n"@
}

/// The DOT graph of a parse error.
pub open spec fn dot_error_spec(msg: Seq<char>) -> Seq<char> {
    "digraph coral_parse_error {\n  node [shape=box]; err [label=\""@ + escape_dot_spec(msg) + "\"];\n}\n"@
}

pub fn dot_source(labels: &Vec<String>) -> (r: String)
    ensures
        r@ == dot_source_spec(labels@.map_values(|s: String| s@)),
{
    let ghost ls = labels@.map_values(|s: String| s@);
    let mut out = str_chars("digraph coral_ast {\n  rankdir=LR;\n");
    push_all(&mut out, &str_chars("  node [shape=box, fontname=\"Helvetica\"];\n"));
    let ghost head = out@;
    let mut i: usize = 0;
    while i < labels.len()
        invariant
            i <= labels.len(),
            ls == labels@.map_values(|s: String| s@),
            out@ == head + dot_nodes(ls.take(i as int)),
        decreases labels.len() - i,
    {
        assert(ls.take(i + 1).drop_last() =~= ls.take(i as int));
        assert(ls.take(i + 1).last() == labels@[i as int]@);
        push_all(&mut out, &str_chars("  stmt"));
        push_all(&mut out, &usize_text(i));
        push_all(&mut out, &str_chars(" [label=\""));
        push_all(&mut out, &str_chars(escape_dot(labels[i].as_str()).as_str()));
        push_all(&mut out, &str_chars("\"];\n"));
        i = i + 1;
        assert(out@ =~= head + dot_nodes(ls.take(i as int)));
    }
    assert(ls.take(labels.len() as int) =~= ls);
    let ghost mid = out@;
    let mut j: usize = 1;
    while j < labels.len()
        invariant
            1 <= j,
            j <= labels.len() || j == 1,
            out@ == mid + dot_edges(j as nat),
        decreases labels.len() - j,
    {
        push_all(&mut out, &str_chars("  stmt"));
        push_all(&mut out, &usize_text(j - 1));
        push_all(&mut out, &str_chars(" -> stmt"));
        push_all(&mut out, &usize_text(j));
        push_all(&mut out, &str_chars(";\n"));
        j = j + 1;
        assert(out@ =~= mid + dot_edges(j as nat));
    }
    assert(ls.len() == labels.len());
    assert(dot_edges(1) =~= dot_edges(0));
    assert(dot_edges(j as nat) == dot_edges(ls.len()));
    push_all(&mut out, &str_chars("}\n"));
    assert(out@ =~= dot_source_spec(ls));
    string_from_chars(out)
}

/// The PlantUML rectangles of the labels, numbered from 0.
pub open spec fn plant_nodes(ls: Seq<Seq<char>>) -> Seq<char>
    decreases ls.len(),
{
    if ls.len() == 0 {
        Seq::empty()
    } else {
        plant_nodes(ls.drop_last()) + "rectangle \"#"@ + dec((ls.len() - 1) as nat) + ": "@ + escape_plant_spec(
            ls.last(),
        ) + "\" as stmt"@ + dec((ls.len() - 1) as nat) + "\n"@
    }
}

/// Arrows from each of `n` numbered rectangles to the next.
pub open spec fn plant_edges(n: nat) -> Seq<char>
    decreases n,
{
    if n <= 1 {
        Seq::empty()
    } else {
        plant_edges((n - 1) as nat) + "stmt"@ + dec((n - 2) as nat) + " --> stmt"@ + dec((n - 1) as nat) + "\n"@
    }
}

/// The PlantUML diagram of statements with these labels.
pub open spec fn plant_source_spec(ls: Seq<Seq<char>>) -> Seq<char> {
    "@startuml\n"@ + plant_nodes(ls) + plant_edges(ls.len()) + "@enduml\n"@
}

/// The PlantUML diagram of a parse error.
pub open spec fn plant_error_spec(msg: Seq<char>) -> Seq<char> {
    "@startuml\nnote \"coral parse error: "@ + escape_plant_spec(msg) + "\"\n@enduml\n"@
}

pub fn plant_source(labels: &Vec<String>) -> (r: String)
    ensures
        r@ == plant_source_spec(labels@.map_values(|s: String| s@)),
{
    let ghost ls = labels@.map_values(|s: String| s@);
    let mut out = str_chars("@startuml\n");
    let ghost head = out@;
    let mut i: usize = 0;
    while i < labels.len()
        invariant
            i <= labels.len(),
            ls == labels@.map_values(|s: String| s@),
            out@ == head + plant_nodes(ls.take(i as int)),
        decreases labels.len() - i,
    {
        assert(ls.take(i + 1).drop_last() =~= ls.take(i as int));
        assert(ls.take(i + 1).last() == labels@[i as int]@);
        push_all(&mut out, &str_chars("rectangle \"#"));
        push_all(&mut out, &usize_text(i));
        push_all(&mut out, &str_chars(": "));
        push_all(&mut out, &str_chars(escape_plant(labels[i].as_str()).as_str()));
        push_all(&mut out, &str_chars("\" as stmt"));
        push_all(&mut out, &usize_text(i));
        push_all(&mut out, &str_chars("\n"));
        i = i + 1;
        assert(out@ =~= head + plant_nodes(ls.take(i as int)));
    }
    assert(ls.take(labels.len() as int) =~= ls);
    let ghost mid = out@;
    let mut j: usize = 1;
    while j < labels.len()
        invariant
            1 <= j,
            j <= labels.len() || j == 1,
            out@ == mid + plant_edges(j as nat),
        decreases labels.len() - j,
    {
        push_all(&mut out, &str_chars("stmt"));
        push_all(&mut out, &usize_text(j - 1));
        push_all(&mut out, &str_chars(" --> stmt"));
        push_all(&mut out, &usize_text(j));
        push_all(&mut out, &str_chars("\n"));
        j = j + 1;
        assert(out@ =~= mid + plant_edges(j as nat));
    }
    assert(ls.len() == labels.len());
    assert(plant_edges(1) =~= plant_edges(0));
    assert(plant_edges(j as nat) == plant_edges(ls.len()));
    push_all(&mut out, &str_chars("@enduml\n"));
    assert(out@ =~= plant_source_spec(ls));
    string_from_chars(out)
}

fn statement_labels(stmts: &Vec<Statement>) -> (r: Vec<String>)
    ensures
        r.len() == stmts.len(),
{
    let mut labels: Vec<String> = Vec::new();
    let mut i: usize = 0;
    while i < stmts.len()
        invariant
            i <= stmts.len(),
            labels.len() == i,
        decreases stmts.len() - i,
    {
        labels.push(summarize_statement(&stmts[i]));
        i = i + 1;
    }
    labels
}

/// The DOT graph of the statements of `sql`, or of its parse error.
pub fn render_dot(sql: &str) -> (r: String)
    ensures
        match parse_count(sql@) {
            None => exists|msg: Seq<char>| r@ == #[trigger] dot_error_spec(msg),
            Some(n) => exists|ls: Seq<Seq<char>>| ls.len() == n && r@ == #[trigger] dot_source_spec(ls),
        },
{
    match parse_sql_text(sql) {
        Ok(stmts) => {
            let labels = statement_labels(&stmts);
            let r = dot_source(&labels);
            assert(labels@.map_values(|s: String| s@).len() == stmts.len());
            r
        },
        Err(e) => {
            let m = e;
            let r = dot_error(m.as_str());
            assert(r@ == dot_error_spec(m@));
            r
        },
    }
}

pub fn dot_error(msg: &str) -> (r: String)
    ensures
        r@ == dot_error_spec(msg@),
{
    let mut out = str_chars("digraph coral_parse_error {\n  node [shape=box]; err [label=\"");
    push_all(&mut out, &str_chars(escape_dot(msg).as_str()));
    push_all(&mut out, &str_chars("\"];\n}\n"));
    string_from_chars(out)
}

/// The PlantUML diagram of the statements of `sql`, or of its parse error.
pub fn render_plantuml(sql: &str) -> (r: String)
    ensures
        match parse_count(sql@) {
            None => exists|msg: Seq<char>| r@ == #[trigger] plant_error_spec(msg),
            Some(n) => exists|ls: Seq<Seq<char>>| ls.len() == n && r@ == #[trigger] plant_source_spec(ls),
        },
{
    match parse_sql_text(sql) {
        Ok(stmts) => {
            let labels = statement_labels(&stmts);
            let r = plant_source(&labels);
            assert(labels@.map_values(|s: String| s@).len() == stmts.len());
            r
        },
        Err(e) => {
            let m = e;
            let r = plant_error(m.as_str());
            assert(r@ == plant_error_spec(m@));
            r
        },
    }
}

pub fn plant_error(msg: &str) -> (r: String)
    ensures
        r@ == plant_error_spec(msg@),
{
    let mut out = str_chars("@startuml\nnote \"coral parse error: ");
    push_all(&mut out, &str_chars(escape_plant(msg).as_str()));
    push_all(&mut out, &str_chars("\"\n@enduml\n"));
    string_from_chars(out)
}

} // verus!
