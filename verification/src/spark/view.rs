//! Spark view preparation: from a view's DDL and a typed catalog, what a
//! Spark driver needs to register the view again: its name, its body
//! translated to Spark SQL, the Avro record of its columns, and the tables
//! it reads (`db.table`, sorted, each once).
use vstd::prelude::*;

use crate::catalog::strings_view;
use crate::sorted::{insert_sorted, strictly_sorted};
use crate::error::CoralError;
use crate::schema::avro::AvroRecord;
use crate::schema::infer::{to_avro_record, SchemaError, TypedCatalog};
use crate::sql::ast::{parse_sql_text, parse_count};
use crate::sql::query::{query_text, statement_parts, StatementParts};
use crate::sql::relations::{own_relation_count, relation_names};
use crate::text::{join_chars, join_seq, push_all, str_chars, string_from_chars};
use crate::translator::translate;
use sqlparser::ast::Statement;

verus! {

/// Everything a Spark driver needs to register a translated view.
#[derive(Debug)]
pub struct SparkView {
    /// The last part of the view's name (`view` for a bare query).
    pub name: String,
    /// The view's query translated to Spark SQL.
    pub spark_sql: String,
    /// The Avro record of the view's output columns.
    pub avro: AvroRecord,
    /// The tables the view reads, as `db.table`, sorted, each once.
    pub referenced_tables: Vec<String>,
}

/// Why a view could not be prepared.
#[derive(Debug)]
pub enum SparkError {
    /// The DDL did not parse; the parser's message.
    Parse(String),
    Translate(CoralError),
    Schema(SchemaError),
    /// The DDL holds no view and no query.
    Plan(String),
}

impl SparkError {
    /// The message the error displays.
    pub fn message(&self) -> (r: String)
        ensures
            r@ == match self {
                SparkError::Parse(m) => "parse error: "@ + m@,
                SparkError::Translate(e) => "translate error: "@ + crate::error::coral_error_text(*e),
                SparkError::Schema(e) => "schema error: "@ + crate::schema::infer::schema_error_text(*e),
                SparkError::Plan(m) => "plan analysis error: "@ + m@,
            },
    {
        let (prefix, m) = match self {
            SparkError::Parse(m) => ("parse error: ", m.clone()),
            SparkError::Translate(e) => ("translate error: ", e.message()),
            SparkError::Schema(e) => ("schema error: ", e.message()),
            SparkError::Plan(m) => ("plan analysis error: ", m.clone()),
        };
        let mut out = str_chars(prefix);
        push_all(&mut out, &str_chars(m.as_str()));
        string_from_chars(out)
    }
}

// ---------------------------------------------------------------------------
// Views
// ---------------------------------------------------------------------------

/// The `db.table` form of a table name: a one-part name is in `default`;
/// longer names are their parts joined with `.`.
pub open spec fn qualified_spec(parts: Seq<Seq<char>>) -> Seq<char> {
    if parts.len() == 1 {
        "default."@ + parts[0]
    } else {
        join_seq(parts, "."@)
    }
}

pub fn qualified_table_name(parts: &Vec<String>) -> (r: String)
    ensures
        r@ == qualified_spec(strings_view(parts@)),
{
    if parts.len() == 1 {
        let mut out = str_chars("default.");
        push_all(&mut out, &str_chars(parts[0].as_str()));
        assert(strings_view(parts@)[0] == parts@[0]@);
        string_from_chars(out)
    } else {
        let mut cs: Vec<Vec<char>> = Vec::new();
        let mut i: usize = 0;
        while i < parts.len()
            invariant
                i <= parts.len(),
                cs@.map_values(|v: Vec<char>| v@) == strings_view(parts@).take(i as int),
            decreases parts.len() - i,
        {
            let ghost c0 = cs@;
            let piece = str_chars(parts[i].as_str());
            cs.push(piece);
            assert(cs@.map_values(|v: Vec<char>| v@) =~= c0.map_values(|v: Vec<char>| v@).push(piece@));
            assert(strings_view(parts@).take(i + 1) =~= strings_view(parts@).take(i as int).push(parts@[i as int]@));
            i = i + 1;
        }
        assert(strings_view(parts@).take(parts.len() as int) =~= strings_view(parts@));
        string_from_chars(join_chars(&cs, &str_chars(".")))
    }
}

/// The relations of each statement, in visiting order, with how many of
/// the first are the statement's own relations.
fn statement_relations(stmts: &Vec<Statement>) -> (r: Vec<(Vec<Vec<String>>, usize)>)
    ensures
        r.len() == stmts.len(),
{
    let mut out: Vec<(Vec<Vec<String>>, usize)> = Vec::new();
    let mut i: usize = 0;
    while i < stmts.len()
        invariant
            i <= stmts.len(),
            out.len() == i,
        decreases stmts.len() - i,
    {
        out.push((relation_names(&stmts[i]), own_relation_count(&stmts[i])));
        i = i + 1;
    }
    out
}

/// Where a statement's read tables start among its relations: after its
/// own relations.
pub open spec fn first_read(rel: (Vec<Vec<String>>, usize)) -> int {
    rel.1 as int
}

/// The `db.table` of relation `j` of statement `i`.
pub open spec fn read_name(rels: Seq<(Vec<Vec<String>>, usize)>, i: int, j: int) -> Seq<char> {
    qualified_spec(strings_view(rels[i].0@[j]@))
}

/// Whether some statement before `n` reads the table `x`.
pub open spec fn read_before(rels: Seq<(Vec<Vec<String>>, usize)>, n: int, x: Seq<char>) -> bool {
    exists|i: int, j: int|
        0 <= i < n && first_read(rels[i]) <= j < rels[i].0.len() && x == #[trigger] read_name(rels, i, j)
}

/// The tables the statements read (each statement's relations, its own
/// target aside), as `db.table`, sorted, each once.
fn referenced_tables(rels: &Vec<(Vec<Vec<String>>, usize)>) -> (r: Vec<String>)
    ensures
        strictly_sorted(strings_view(r@)),
        forall|x: Seq<char>| strings_view(r@).contains(x) <==> read_before(rels@, rels.len() as int, x),
{
    let mut set: Vec<String> = Vec::new();
    let mut i: usize = 0;
    while i < rels.len()
        invariant
            i <= rels.len(),
            strictly_sorted(strings_view(set@)),
            forall|x: Seq<char>| strings_view(set@).contains(x) <==> read_before(rels@, i as int, x),
        decreases rels.len() - i,
    {
        let names = &rels[i].0;
        let first: usize = rels[i].1;
        let mut j: usize = first;
        while j < names.len()
            invariant
                i < rels.len(),
                names == rels@[i as int].0,
                first == first_read(rels@[i as int]),
                first <= j,
                j <= names.len() || j == first,
                strictly_sorted(strings_view(set@)),
                forall|x: Seq<char>| strings_view(set@).contains(x) <==> (read_before(rels@, i as int, x)
                    || exists|k: int| first <= k < j && x == #[trigger] read_name(rels@, i as int, k)),
            decreases names.len() - j,
        {
            let q = qualified_table_name(&names[j]);
            let ghost before = strings_view(set@);
            insert_sorted(&mut set, q);
            proof {
                assert forall|x: Seq<char>| strings_view(set@).contains(x) <== (read_before(rels@, i as int, x)
                    || exists|k: int| first <= k < j + 1 && x == #[trigger] read_name(rels@, i as int, k)) by {
                    if exists|k: int| first <= k < j + 1 && x == #[trigger] read_name(rels@, i as int, k) {
                        let k = choose|k: int| first <= k < j + 1 && x == #[trigger] read_name(rels@, i as int, k);
                        if k < j {
                            assert(before.contains(x));
                        }
                    }
                }
                assert(read_name(rels@, i as int, j as int) == q@);
            }
            j = j + 1;
        }
        proof {
            assert forall|x: Seq<char>| strings_view(set@).contains(x) <==> read_before(rels@, i + 1, x) by {
                if read_before(rels@, i + 1, x) {
                    let (a, b) = choose|a: int, b: int|
                        0 <= a < i + 1 && first_read(rels@[a]) <= b < rels@[a].0.len() && x == #[trigger] read_name(rels@, a, b);
                    if a < i {
                        assert(read_before(rels@, i as int, x));
                    } else {
                        assert(first <= b < j && x == read_name(rels@, i as int, b));
                    }
                }
                if strings_view(set@).contains(x) && !read_before(rels@, i as int, x) {
                    let k = choose|k: int| first <= k < j && x == #[trigger] read_name(rels@, i as int, k);
                    assert(0 <= i < i + 1 && first_read(rels@[i as int]) <= k < rels@[i as int].0.len());
                }
                if read_before(rels@, i as int, x) {
                    let (a, b) = choose|a: int, b: int|
                        0 <= a < i && first_read(rels@[a]) <= b < rels@[a].0.len() && x == #[trigger] read_name(rels@, a, b);
                    assert(0 <= a < i + 1);
                }
            }
        }
        i = i + 1;
    }
    set
}

/// The view's name and the SQL to translate: the first `CREATE VIEW`
/// gives the last part of its name (`view` without one) and its query;
/// the first bare query gives `view` and the whole DDL.
fn extract_view_parts(stmts: &Vec<Statement>, ddl: &str) -> (r: Result<(String, String), SparkError>)
    ensures
        r matches Err(e) ==> (e matches SparkError::Plan(m) && m@ == "no CREATE VIEW or SELECT found in input DDL"@),
        stmts.len() == 0 ==> r is Err,
{
    let mut i: usize = 0;
    while i < stmts.len()
        decreases stmts.len() - i,
    {
        match statement_parts(&stmts[i]) {
            StatementParts::CreateView(_, last, q) => {
                let name = match last {
                    Some(l) => l,
                    None => string_from_chars(str_chars("view")),
                };
                return Ok((name, query_text(&q)));
            },
            StatementParts::Plain(_) => {
                return Ok((string_from_chars(str_chars("view")), string_from_chars(str_chars(ddl))));
            },
            _ => {},
        }
        i = i + 1;
    }
    Err(SparkError::Plan(string_from_chars(str_chars("no CREATE VIEW or SELECT found in input DDL"))))
}

/// Prepare a view (`CREATE VIEW .. AS SELECT ..`, or a bare `SELECT`) for
/// a Spark driver.
pub fn prepare_view<C: TypedCatalog>(ddl: &str, catalog: &C) -> (r: Result<SparkView, SparkError>)
    ensures
        parse_count(ddl@) is None <==> r matches Err(SparkError::Parse(_)),
        parse_count(ddl@) == Some(0nat) ==> r matches Err(SparkError::Plan(_)),
        r matches Ok(v) ==> strictly_sorted(strings_view(v.referenced_tables@)),
{
    let stmts = match parse_sql_text(ddl) {
        Ok(s) => s,
        Err(e) => {
            return Err(SparkError::Parse(e));
        },
    };
    let (name, select_text) = match extract_view_parts(&stmts, ddl) {
        Ok(x) => x,
        Err(e) => {
            return Err(e);
        },
    };
    let spark_sql = match translate(select_text.as_str()) {
        Ok(s) => s,
        Err(e) => {
            return Err(SparkError::Translate(e));
        },
    };
    let avro = match to_avro_record(ddl, catalog) {
        Ok(a) => a,
        Err(e) => {
            return Err(SparkError::Schema(e));
        },
    };
    Ok(SparkView { name, spark_sql, avro, referenced_tables: referenced_tables(&statement_relations(&stmts)) })
}

} // verus!
