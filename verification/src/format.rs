//! Output formatting, applied to rendered SQL text.
//!
//! - [`pretty_print`] puts every top-level clause (`SELECT`, `FROM`,
//!   `WHERE`, `GROUP BY`, ..., `UNION`, `EXCEPT`) on its own line.
//! - [`drop_as_in_from`] (Spark style) removes the `AS` between a table and
//!   its alias on `FROM` / `JOIN` lines.
//! - [`quote_idents_in_from`] (Trino style) double-quotes every bare
//!   identifier on `FROM` / `JOIN` lines.
//!
//! Two passes work on the syntax tree before it is printed:
//! [`qualify_with_default_db`] puts a database before one-part table names,
//! and [`add_default_aliases`] gives every named table without an alias
//! the last part of its name as alias.
use vstd::prelude::*;

use crate::catalog::strings_view;
use crate::sql::query::{
    expr_subquery, from_item_parts, query_parts, select_parts, set_body_query, set_body_select, set_cte_query,
    set_derived_subquery, set_expr_parts, set_expr_subquery, set_from_relation, set_query_body,
    set_set_operation_sides, set_statement_inner_query, set_statement_query, statement_parts,
    table_factor_parts, SetExprParts, StatementParts, TableFactorParts,
};
use crate::sql::relations::{
    own_relation_count, object_name_parts, prepend_name_part, qualify_relations, set_table_alias,
    visit_alias_subqueries,
};
use core::ops::ControlFlow;
use sqlparser::ast::{Expr, ObjectName, Query, Select, SetExpr, Statement};

use crate::text::{
    ascii_alnum, ascii_alpha, char_alphanumeric, eq_ci, is_alphanumeric, is_ascii_alnum,
    is_ascii_alpha, is_unicode_ws, join_chars, join_seq, lines_of, lines_vec, lit,
    matches_ci_at, occurs_at, occurs_at_ci, push_all, seq_eq_ci, slice_chars, str_chars,
    string_from_chars, trim_start_by, trim_start_chars, unicode_ws, upper_seq, upper_vec,
    starts_with, starts_with_chars,
};

verus! {

pub open spec fn ident_start(c: char) -> bool {
    is_ascii_alpha(c) || c == '_' || c == '"' || c == '`'
}

pub open spec fn ident_end(c: char) -> bool {
    is_ascii_alnum(c) || c == '_' || c == ')' || c == '"' || c == '`'
}

pub open spec fn ident_body(c: char) -> bool {
    is_ascii_alnum(c) || c == '_'
}

fn is_ident_start(c: char) -> (r: bool)
    ensures
        r == ident_start(c),
{
    ascii_alpha(c) || c == '_' || c == '"' || c == '`'
}

fn is_ident_end(c: char) -> (r: bool)
    ensures
        r == ident_end(c),
{
    ascii_alnum(c) || c == '_' || c == ')' || c == '"' || c == '`'
}

fn is_ident_body(c: char) -> (r: bool)
    ensures
        r == ident_body(c),
{
    ascii_alnum(c) || c == '_'
}

/// The line prefixes that mark a table context.
pub open spec fn from_prefixes() -> Seq<Seq<char>> {
    seq!["FROM "@, "JOIN "@, "LEFT JOIN "@, "RIGHT JOIN "@, "FULL JOIN "@, "INNER JOIN "@, "CROSS JOIN "@]
}

/// A line that, once leading whitespace is removed, starts a FROM or JOIN
/// clause.
pub open spec fn is_from_line(line: Seq<char>) -> bool {
    exists|k: int| 0 <= k < 7 && #[trigger] starts_with(trim_start_by(line), from_prefixes()[k])
}

fn from_prefix(k: usize) -> (r: Vec<char>)
    requires
        k < 7,
    ensures
        r@ == from_prefixes()[k as int],
{
    if k == 0 {
        lit("FROM ")
    } else if k == 1 {
        lit("JOIN ")
    } else if k == 2 {
        lit("LEFT JOIN ")
    } else if k == 3 {
        lit("RIGHT JOIN ")
    } else if k == 4 {
        lit("FULL JOIN ")
    } else if k == 5 {
        lit("INNER JOIN ")
    } else {
        lit("CROSS JOIN ")
    }
}

fn from_line(line: &Vec<char>) -> (r: bool)
    ensures
        r == is_from_line(line@),
{
    let t = trim_start_chars(line);
    let mut k: usize = 0;
    while k < 7
        invariant
            k <= 7,
            t@ == trim_start_by(line@),
            forall|j: int| 0 <= j < k ==> !#[trigger] starts_with(t@, from_prefixes()[j]),
        decreases 7 - k,
    {
        if starts_with_chars(&t, &from_prefix(k)) {
            return true;
        }
        k = k + 1;
    }
    false
}

/// ` AS ` between an identifier-like end and an identifier-like start at
/// position `i` (the space before `AS`), letters compared without case.
pub open spec fn as_here(cs: Seq<char>, i: int) -> bool {
    &&& i > 0
    &&& i + 4 < cs.len()
    &&& occurs_at_ci(cs, i + 1, seq!['A', 'S', ' '])
    &&& ident_end(cs[i - 1])
    &&& ident_start(cs[i + 4])
}

/// The `AS`-dropping pass over one line: quotes toggle on `'` and `"`, and
/// outside quotes every qualifying ` AS ` becomes a single space.
pub open spec fn strip_as_from(cs: Seq<char>, i: int, in_s: bool, in_d: bool) -> Seq<char>
    decreases cs.len() - i,
{
    if i < 0 || i >= cs.len() {
        Seq::empty()
    } else {
        let c = cs[i];
        if !in_d && c == '\'' {
            seq![c] + strip_as_from(cs, i + 1, !in_s, in_d)
        } else if !in_s && c == '"' {
            seq![c] + strip_as_from(cs, i + 1, in_s, !in_d)
        } else if !in_s && !in_d && c == ' ' && as_here(cs, i) {
            seq![' '] + strip_as_from(cs, i + 4, in_s, in_d)
        } else {
            seq![c] + strip_as_from(cs, i + 1, in_s, in_d)
        }
    }
}

fn strip_as_between_idents(cs: &Vec<char>) -> (r: Vec<char>)
    ensures
        r@ == strip_as_from(cs@, 0, false, false),
{
    let as_sp: Vec<char> = lit("AS ");
    proof {
        reveal_strlit("AS ");
    }
    assert(as_sp@ =~= seq!['A', 'S', ' ']);
    let mut out: Vec<char> = Vec::new();
    let mut in_single = false;
    let mut in_double = false;
    let mut i: usize = 0;
    while i < cs.len()
        invariant
            as_sp@ == seq!['A', 'S', ' '],
            i <= cs.len(),
            strip_as_from(cs@, 0, false, false) == out@ + strip_as_from(cs@, i as int, in_single, in_double),
        decreases cs.len() - i,
    {
        let ghost o = out@;
        let c = cs[i];
        if !in_double && c == '\'' {
            in_single = !in_single;
            out.push(c);
            assert(out@ =~= o + seq![c]);
            i = i + 1;
            continue;
        }
        if !in_single && c == '"' {
            in_double = !in_double;
            out.push(c);
            assert(out@ =~= o + seq![c]);
            i = i + 1;
            continue;
        }
        if !in_single && !in_double && c == ' ' {
            if i > 0 && cs.len() - i > 4 && matches_ci_at(cs, i + 1, &as_sp) && is_ident_end(cs[i - 1])
                && is_ident_start(cs[i + 4]) {
                out.push(' ');
                assert(out@ =~= o + seq![' ']);
                i = i + 4;
                continue;
            }
        }
        out.push(c);
        assert(out@ =~= o + seq![c]);
        i = i + 1;
    }
    assert(out@ + strip_as_from(cs@, i as int, in_single, in_double) =~= out@);
    out
}

/// One line after the `AS`-dropping pass: FROM / JOIN lines are rewritten,
/// others are kept.
pub open spec fn drop_as_line(l: Seq<char>) -> Seq<char> {
    if is_from_line(l) {
        strip_as_from(l, 0, false, false)
    } else {
        l
    }
}

/// What [`drop_as_in_from`] returns: every line passed through
/// [`drop_as_line`], joined again with `\n`.
pub open spec fn drop_as_spec(sql: Seq<char>) -> Seq<char> {
    join_seq(lines_of(sql).map_values(|l: Seq<char>| drop_as_line(l)), seq!['\n'])
}

/// Spark style: drop the ` AS ` keyword between a table reference and its
/// alias on FROM / JOIN lines (`FROM default.users AS users` becomes
/// `FROM default.users users`). Column and subquery aliases on other lines
/// are left intact, as is text inside quotes.
pub fn drop_as_in_from(sql: &str) -> (r: String)
    ensures
        r@ == drop_as_spec(sql@),
{
    let s = str_chars(sql);
    let ls = lines_vec(&s);
    let ghost lv = ls@.map_values(|v: Vec<char>| v@);
    let mut out_lines: Vec<Vec<char>> = Vec::new();
    let mut k: usize = 0;
    while k < ls.len()
        invariant
            k <= ls.len(),
            lv == ls@.map_values(|v: Vec<char>| v@),
            out_lines.len() == k,
            forall|j: int| 0 <= j < k ==> #[trigger] out_lines@[j]@ == drop_as_line(lv[j]),
        decreases ls.len() - k,
    {
        assert(lv[k as int] == ls@[k as int]@);
        if from_line(&ls[k]) {
            out_lines.push(strip_as_between_idents(&ls[k]));
        } else {
            out_lines.push(slice_chars(&ls[k], 0, ls[k].len()));
        }
        k = k + 1;
    }
    assert(out_lines@.map_values(|v: Vec<char>| v@) =~= lv.map_values(|l: Seq<char>| drop_as_line(l)));
    let mut nl: Vec<char> = Vec::new();
    nl.push('\n');
    assert(nl@ =~= seq!['\n']);
    string_from_chars(join_chars(&out_lines, &nl))
}

/// Keywords that are not quoted on FROM / JOIN lines.
pub open spec fn skip_keywords() -> Seq<Seq<char>> {
    seq![
        "FROM"@, "JOIN"@, "LEFT"@, "RIGHT"@, "FULL"@, "INNER"@, "OUTER"@, "CROSS"@, "ON"@, "AS"@,
        "AND"@, "OR"@, "NOT"@, "USING"@,
    ]
}

pub open spec fn is_skip_keyword(tok: Seq<char>) -> bool {
    exists|k: int| 0 <= k < 14 && upper_seq(tok) == #[trigger] skip_keywords()[k]
}

fn skip_keyword(k: usize) -> (r: Vec<char>)
    requires
        k < 14,
    ensures
        r@ == skip_keywords()[k as int],
{
    if k == 0 {
        lit("FROM")
    } else if k == 1 {
        lit("JOIN")
    } else if k == 2 {
        lit("LEFT")
    } else if k == 3 {
        lit("RIGHT")
    } else if k == 4 {
        lit("FULL")
    } else if k == 5 {
        lit("INNER")
    } else if k == 6 {
        lit("OUTER")
    } else if k == 7 {
        lit("CROSS")
    } else if k == 8 {
        lit("ON")
    } else if k == 9 {
        lit("AS")
    } else if k == 10 {
        lit("AND")
    } else if k == 11 {
        lit("OR")
    } else if k == 12 {
        lit("NOT")
    } else {
        lit("USING")
    }
}

fn is_skip_kw(tok: &Vec<char>) -> (r: bool)
    ensures
        r == is_skip_keyword(tok@),
{
    let u = upper_vec(tok);
    let mut k: usize = 0;
    while k < 14
        invariant
            k <= 14,
            u@ == upper_seq(tok@),
            forall|j: int| 0 <= j < k ==> u@ != #[trigger] skip_keywords()[j],
        decreases 14 - k,
    {
        if crate::preprocess::connect_by::same(&u, &skip_keyword(k)) {
            return true;
        }
        k = k + 1;
    }
    false
}

/// Length of the run of identifier-body characters starting at `i`.
pub open spec fn body_run(cs: Seq<char>, i: int) -> int
    decreases cs.len() - i,
{
    if i < 0 || i >= cs.len() || !ident_body(cs[i]) {
        0
    } else {
        1 + body_run(cs, i + 1)
    }
}

/// Length of the run of characters other than `"` starting at `i`.
pub open spec fn non_quote_run(cs: Seq<char>, i: int) -> int
    decreases cs.len() - i,
{
    if i < 0 || i >= cs.len() || cs[i] == '"' {
        0
    } else {
        1 + non_quote_run(cs, i + 1)
    }
}

pub proof fn lemma_runs(cs: Seq<char>, i: int)
    requires
        0 <= i <= cs.len(),
    ensures
        0 <= body_run(cs, i) <= cs.len() - i,
        0 <= non_quote_run(cs, i) <= cs.len() - i,
    decreases cs.len() - i,
{
    if i < cs.len() {
        lemma_runs(cs, i + 1);
    }
}

/// The quoting pass over one line, or `None` when it would never finish
/// (a backtick outside single quotes starts an empty identifier forever).
pub open spec fn quote_from(cs: Seq<char>, i: int, in_s: bool) -> Option<Seq<char>>
    decreases cs.len() - i,
{
    if i < 0 || i >= cs.len() {
        Some(Seq::empty())
    } else {
        let c = cs[i];
        if c == '\'' {
            match quote_from(cs, i + 1, !in_s) {
                Some(r) => Some(seq![c] + r),
                None => None,
            }
        } else if !in_s && c == '"' {
            let n = non_quote_run(cs, i + 1);
            proof {
                lemma_runs(cs, i + 1);
            }
            let closed = i + 1 + n < cs.len();
            let end = if closed { i + 2 + n } else { i + 1 + n };
            match quote_from(cs, end, in_s) {
                Some(r) => Some(cs.subrange(i, end) + r),
                None => None,
            }
        } else if !in_s && ident_start(c) {
            let n = body_run(cs, i);
            proof {
                lemma_runs(cs, i);
            }
            if n == 0 {
                None
            } else {
                let tok = cs.subrange(i, i + n);
                let piece = if is_skip_keyword(tok) { tok } else { seq!['"'] + tok + seq!['"'] };
                match quote_from(cs, i + n, in_s) {
                    Some(r) => Some(piece + r),
                    None => None,
                }
            }
        } else {
            match quote_from(cs, i + 1, in_s) {
                Some(r) => Some(seq![c] + r),
                None => None,
            }
        }
    }
}

/// The quoting pass terminates on every FROM / JOIN line of `sql`.
pub open spec fn quoting_terminates(sql: Seq<char>) -> bool {
    forall|k: int|
        0 <= k < lines_of(sql).len() && is_from_line(#[trigger] lines_of(sql)[k]) ==> quote_from(
            lines_of(sql)[k],
            0,
            false,
        ) is Some
}

proof fn lemma_body_run_exact(cs: Seq<char>, i: int, j: int)
    requires
        0 <= i <= j <= cs.len(),
        forall|k: int| i <= k < j ==> ident_body(#[trigger] cs[k]),
        j == cs.len() || !ident_body(cs[j]),
    ensures
        body_run(cs, i) == j - i,
    decreases j - i,
{
    if i < j {
        lemma_body_run_exact(cs, i + 1, j);
    }
}

proof fn lemma_non_quote_run_exact(cs: Seq<char>, i: int, j: int)
    requires
        0 <= i <= j <= cs.len(),
        forall|k: int| i <= k < j ==> #[trigger] cs[k] != '"',
        j == cs.len() || cs[j] == '"',
    ensures
        non_quote_run(cs, i) == j - i,
    decreases j - i,
{
    if i < j {
        lemma_non_quote_run_exact(cs, i + 1, j);
    }
}

fn try_quote_from_line(cs: &Vec<char>) -> (r: Option<Vec<char>>)
    ensures
        match r {
            Some(v) => quote_from(cs@, 0, false) == Some(v@),
            None => quote_from(cs@, 0, false) is None,
        },
{
    let mut out: Vec<char> = Vec::new();
    let mut in_single = false;
    let mut i: usize = 0;
    while i < cs.len()
        invariant
            i <= cs.len(),
            quote_from(cs@, 0, false) == match quote_from(cs@, i as int, in_single) {
                Some(t) => Some(out@ + t),
                None => None,
            },
        decreases cs.len() - i,
    {
        let ghost o = out@;
        let c = cs[i];
        if c == '\'' {
            in_single = !in_single;
            out.push(c);
            assert(out@ =~= o + seq![c]);
            i = i + 1;
            continue;
        }
        if !in_single && c == '"' {
            let start = i;
            out.push(c);
            i = i + 1;
            while i < cs.len() && cs[i] != '"'
                invariant
                    start < i <= cs.len(),
                    forall|k: int| start + 1 <= k < i ==> #[trigger] cs@[k] != '"',
                    out@ == o + cs@.subrange(start as int, i as int),
                decreases cs.len() - i,
            {
                out.push(cs[i]);
                i = i + 1;
                assert(out@ =~= o + cs@.subrange(start as int, i as int));
            }
            proof {
                lemma_non_quote_run_exact(cs@, start + 1, i as int);
            }
            if i < cs.len() {
                out.push(cs[i]);
                i = i + 1;
                assert(out@ =~= o + cs@.subrange(start as int, i as int));
            }
            continue;
        }
        if !in_single && is_ident_start(c) {
            let start = i;
            while i < cs.len() && is_ident_body(cs[i])
                invariant
                    start <= i <= cs.len(),
                    forall|k: int| start <= k < i ==> ident_body(#[trigger] cs@[k]),
                decreases cs.len() - i,
            {
                i = i + 1;
            }
            proof {
                lemma_body_run_exact(cs@, start as int, i as int);
            }
            if i == start {
                return None;
            }
            let tok = slice_chars(cs, start, i);
            if is_skip_kw(&tok) {
                push_all(&mut out, &tok);
            } else {
                out.push('"');
                push_all(&mut out, &tok);
                out.push('"');
                assert(out@ =~= o + (seq!['"'] + tok@ + seq!['"']));
            }
            continue;
        }
        out.push(c);
        assert(out@ =~= o + seq![c]);
        i = i + 1;
    }
    assert(out@ + Seq::<char>::empty() =~= out@);
    Some(out)
}

/// One line after the quoting pass: FROM / JOIN lines are rewritten, others
/// are kept.
pub open spec fn quote_line(l: Seq<char>) -> Seq<char> {
    if is_from_line(l) {
        quote_from(l, 0, false)->0
    } else {
        l
    }
}

/// What [`quote_idents_in_from`] returns.
pub open spec fn quote_idents_spec(sql: Seq<char>) -> Seq<char> {
    join_seq(lines_of(sql).map_values(|l: Seq<char>| quote_line(l)), seq!['\n'])
}

/// Trino style: double-quote every bare identifier on FROM / JOIN lines
/// (`default.users` becomes `"default"."users"`), leaving the join keywords,
/// already-quoted identifiers and string literals alone. The pass does not
/// finish on a FROM / JOIN line with a backtick outside single quotes, so
/// such input is excluded.
pub fn quote_idents_in_from(sql: &str) -> (r: String)
    requires
        quoting_terminates(sql@),
    ensures
        r@ == quote_idents_spec(sql@),
{
    let s = str_chars(sql);
    let ls = lines_vec(&s);
    let ghost lv = ls@.map_values(|v: Vec<char>| v@);
    let mut out_lines: Vec<Vec<char>> = Vec::new();
    let mut k: usize = 0;
    while k < ls.len()
        invariant
            k <= ls.len(),
            lv == ls@.map_values(|v: Vec<char>| v@),
            lv == lines_of(sql@),
            quoting_terminates(sql@),
            out_lines.len() == k,
            forall|j: int| 0 <= j < k ==> #[trigger] out_lines@[j]@ == quote_line(lv[j]),
        decreases ls.len() - k,
    {
        assert(lv[k as int] == ls@[k as int]@);
        if from_line(&ls[k]) {
            match try_quote_from_line(&ls[k]) {
                Some(v) => out_lines.push(v),
                None => {
                    assert(false);
                },
            }
        } else {
            out_lines.push(slice_chars(&ls[k], 0, ls[k].len()));
        }
        k = k + 1;
    }
    assert(out_lines@.map_values(|v: Vec<char>| v@) =~= lv.map_values(|l: Seq<char>| quote_line(l)));
    let mut nl: Vec<char> = Vec::new();
    nl.push('\n');
    assert(nl@ =~= seq!['\n']);
    string_from_chars(join_chars(&out_lines, &nl))
}

/// Clause keywords that start a new line at the top level.
pub open spec fn clause_keywords() -> Seq<Seq<char>> {
    seq![
        "SELECT"@, "FROM"@, "WHERE"@, "GROUP BY"@, "HAVING"@, "ORDER BY"@, "LIMIT"@, "OFFSET"@,
        "UNION ALL"@, "UNION"@, "INTERSECT ALL"@, "INTERSECT"@, "EXCEPT ALL"@, "EXCEPT"@,
    ]
}

fn clause_keyword(k: usize) -> (r: Vec<char>)
    requires
        k < 14,
    ensures
        r@ == clause_keywords()[k as int],
        r.len() > 0,
{
    if k == 0 {
        {
        proof {
            reveal_strlit("SELECT");
        }
        lit("SELECT")
    }
    } else if k == 1 {
        {
        proof {
            reveal_strlit("FROM");
        }
        lit("FROM")
    }
    } else if k == 2 {
        {
        proof {
            reveal_strlit("WHERE");
        }
        lit("WHERE")
    }
    } else if k == 3 {
        {
        proof {
            reveal_strlit("GROUP BY");
        }
        lit("GROUP BY")
    }
    } else if k == 4 {
        {
        proof {
            reveal_strlit("HAVING");
        }
        lit("HAVING")
    }
    } else if k == 5 {
        {
        proof {
            reveal_strlit("ORDER BY");
        }
        lit("ORDER BY")
    }
    } else if k == 6 {
        {
        proof {
            reveal_strlit("LIMIT");
        }
        lit("LIMIT")
    }
    } else if k == 7 {
        {
        proof {
            reveal_strlit("OFFSET");
        }
        lit("OFFSET")
    }
    } else if k == 8 {
        {
        proof {
            reveal_strlit("UNION ALL");
        }
        lit("UNION ALL")
    }
    } else if k == 9 {
        {
        proof {
            reveal_strlit("UNION");
        }
        lit("UNION")
    }
    } else if k == 10 {
        {
        proof {
            reveal_strlit("INTERSECT ALL");
        }
        lit("INTERSECT ALL")
    }
    } else if k == 11 {
        {
        proof {
            reveal_strlit("INTERSECT");
        }
        lit("INTERSECT")
    }
    } else if k == 12 {
        {
        proof {
            reveal_strlit("EXCEPT ALL");
        }
        lit("EXCEPT ALL")
    }
    } else {
        {
        proof {
            reveal_strlit("EXCEPT");
        }
        lit("EXCEPT")
    }
    }
}

/// Keyword `k` occurs at `i` (any ASCII case) and is not followed by an
/// identifier character.
pub open spec fn keyword_at(cs: Seq<char>, i: int, k: int) -> bool {
    let n = clause_keywords()[k].len() as int;
    &&& occurs_at_ci(cs, i, clause_keywords()[k])
    &&& (i + n == cs.len() || (!char_alphanumeric(cs[i + n]) && cs[i + n] != '_'))
}

/// The first keyword, in list order from `k`, that occurs at `i`.
pub open spec fn match_keyword_from(cs: Seq<char>, i: int, k: int) -> Option<int>
    decreases 14 - k,
{
    if k < 0 || k >= 14 {
        None
    } else if keyword_at(cs, i, k) {
        Some(k)
    } else {
        match_keyword_from(cs, i, k + 1)
    }
}

pub proof fn lemma_match_keyword_range(cs: Seq<char>, i: int, k: int)
    ensures
        match_keyword_from(cs, i, k) matches Some(j) ==> 0 <= k <= j < 14 && keyword_at(cs, i, j),
    decreases 14 - k,
{
    if 0 <= k < 14 && !keyword_at(cs, i, k) {
        lemma_match_keyword_range(cs, i, k + 1);
    }
}

fn match_keyword(cs: &Vec<char>, i: usize) -> (r: Option<usize>)
    requires
        i <= cs.len(),
    ensures
        r == (match match_keyword_from(cs@, i as int, 0) {
            Some(k) => Some(k as usize),
            None => None::<usize>,
        }),
        r matches Some(k) ==> k < 14 && keyword_at(cs@, i as int, k as int),
        match_keyword_from(cs@, i as int, 0) matches Some(j) ==> 0 <= j < 14,
{
    proof {
        lemma_match_keyword_range(cs@, i as int, 0);
    }
    let mut k: usize = 0;
    while k < 14
        invariant
            k <= 14,
            i <= cs.len(),
            match_keyword_from(cs@, i as int, 0) == match_keyword_from(cs@, i as int, k as int),
        decreases 14 - k,
    {
        let kw = clause_keyword(k);
        let n = kw.len();
        if matches_ci_at(cs, i, &kw) {
            let at_boundary = i + n == cs.len() || (!is_alphanumeric(cs[i + n]) && cs[i + n] != '_');
            if at_boundary {
                return Some(k);
            }
        }
        k = k + 1;
    }
    None
}

/// The position starts a word: the string starts there or whitespace
/// precedes it.
pub open spec fn word_boundary(cs: Seq<char>, i: int) -> bool {
    i == 0 || is_unicode_ws(cs[i - 1])
}

/// Output so far with a line break appended: trailing spaces are dropped
/// first, and nothing happens at the start or right after a line break.
pub open spec fn break_line(out: Seq<char>) -> Seq<char> {
    if out.len() > 0 && out.last() != '\n' {
        crate::text::trim_end_char(out, ' ') + seq!['\n']
    } else {
        out
    }
}

/// The pretty-printing machine: quotes (with `''` escapes inside single
/// quotes) and parentheses are tracked, and at depth 0 outside quotes a
/// clause keyword at a word boundary starts a new line.
pub open spec fn pretty_from(
    cs: Seq<char>,
    i: int,
    depth: nat,
    sq: bool,
    dq: bool,
    out: Seq<char>,
) -> Seq<char>
    decreases cs.len() - i,
{
    if i < 0 || i >= cs.len() {
        out
    } else {
        let c = cs[i];
        if !dq && c == '\'' {
            if sq && i + 1 < cs.len() && cs[i + 1] == '\'' {
                pretty_from(cs, i + 2, depth, sq, dq, out + seq![c, cs[i + 1]])
            } else {
                pretty_from(cs, i + 1, depth, !sq, dq, out + seq![c])
            }
        } else if !sq && c == '"' {
            pretty_from(cs, i + 1, depth, sq, !dq, out + seq![c])
        } else {
            let d2: nat = if !sq && !dq && c == '(' {
                depth + 1
            } else if !sq && !dq && c == ')' {
                if depth > 0 { (depth - 1) as nat } else { 0 }
            } else {
                depth
            };
            if !sq && !dq && d2 == 0 && word_boundary(cs, i) && match_keyword_from(cs, i, 0) is Some {
                let n = clause_keywords()[match_keyword_from(cs, i, 0)->0].len() as int;
                proof {
                    lemma_match_keyword_range(cs, i, 0);
                }
                if n > 0 {
                    pretty_from(cs, i + n, d2, sq, dq, break_line(out) + cs.subrange(i, i + n))
                } else {
                    out
                }
            } else {
                pretty_from(cs, i + 1, d2, sq, dq, out + seq![c])
            }
        }
    }
}

/// What [`pretty_print`] returns.
pub open spec fn pretty_spec(sql: Seq<char>) -> Seq<char> {
    pretty_from(sql, 0, 0, false, false, Seq::empty())
}

/// Break rendered SQL onto clause boundaries: each top-level clause keyword
/// (outside parentheses and quotes, at a word boundary, not followed by an
/// identifier character) starts a new line, with trailing spaces before the
/// break removed. Every other character is kept.
pub fn pretty_print(sql: &str) -> (r: String)
    ensures
        r@ == pretty_spec(sql@),
{
    let cs = str_chars(sql);
    let mut out: Vec<char> = Vec::new();
    let mut depth: usize = 0;
    let mut sq = false;
    let mut dq = false;
    let mut i: usize = 0;
    while i < cs.len()
        invariant
            i <= cs.len(),
            depth <= i,
            pretty_spec(cs@) == pretty_from(cs@, i as int, depth as nat, sq, dq, out@),
        decreases cs.len() - i,
    {
        let c = cs[i];
        let ghost o0 = out@;
        let ghost d0 = depth;
        if !dq && c == '\'' {
            if sq && i + 1 < cs.len() && cs[i + 1] == '\'' {
                out.push(c);
                out.push(cs[i + 1]);
                assert(out@ =~= o0 + seq![c, cs@[i + 1]]);
                i = i + 2;
                continue;
            }
            sq = !sq;
            out.push(c);
            assert(out@ =~= o0 + seq![c]);
            i = i + 1;
            continue;
        }
        if !sq && c == '"' {
            dq = !dq;
            out.push(c);
            assert(out@ =~= o0 + seq![c]);
            i = i + 1;
            continue;
        }
        if !sq && !dq {
            if c == '(' {
                depth = depth + 1;
            } else if c == ')' {
                if depth > 0 {
                    depth = depth - 1;
                }
            }
        }
        let boundary = i == 0 || unicode_ws(cs[i - 1]);
        if !sq && !dq && depth == 0 && boundary {
            match match_keyword(&cs, i) {
                Some(k) => {
                    let n = clause_keyword(k).len();
                    let ghost o = out@;
                    if out.len() > 0 && out[out.len() - 1] != '\n' {
                        while out.len() > 0 && out[out.len() - 1] == ' '
                            invariant
                                crate::text::trim_end_char(o, ' ') == crate::text::trim_end_char(out@, ' '),
                            decreases out.len(),
                        {
                            assert(out@.drop_last() =~= out@.take(out.len() - 1));
                            out.pop();
                        }
                        out.push('\n');
                        assert(out@ =~= break_line(o));
                    }
                    assert(out@ == break_line(o));
                    let kw_text = slice_chars(&cs, i, i + n);
                    push_all(&mut out, &kw_text);
                    assert(match_keyword_from(cs@, i as int, 0) == Some(k as int));
                    assert(pretty_from(cs@, i as int, d0 as nat, sq, dq, o0) == pretty_from(
                        cs@,
                        i + n,
                        depth as nat,
                        sq,
                        dq,
                        break_line(o0) + cs@.subrange(i as int, i + n),
                    ));
                    i = i + n;
                    continue;
                },
                None => {},
            }
        }
        out.push(c);
        assert(out@ =~= o0 + seq![c]);
        i = i + 1;
    }
    string_from_chars(out)
}

// ---------------------------------------------------------------------------
// Quoting that may not finish
// ---------------------------------------------------------------------------

/// [`quote_idents_in_from`] where it finishes: `None` exactly when some
/// `FROM` / `JOIN` line has a backtick outside single quotes.
pub fn try_quote_idents_in_from(sql: &str) -> (r: Option<String>)
    ensures
        match r {
            Some(t) => quoting_terminates(sql@) && t@ == quote_idents_spec(sql@),
            None => !quoting_terminates(sql@),
        },
{
    let s = str_chars(sql);
    let ls = lines_vec(&s);
    let ghost lv = ls@.map_values(|v: Vec<char>| v@);
    let mut k: usize = 0;
    while k < ls.len()
        invariant
            k <= ls.len(),
            lv == ls@.map_values(|v: Vec<char>| v@),
            lv == lines_of(sql@),
            forall|j: int| 0 <= j < k && is_from_line(#[trigger] lv[j]) ==> quote_from(lv[j], 0, false) is Some,
        decreases ls.len() - k,
    {
        assert(lv[k as int] == ls@[k as int]@);
        if from_line(&ls[k]) {
            if try_quote_from_line(&ls[k]).is_none() {
                assert(!quoting_terminates(sql@));
                return None;
            }
        }
        k = k + 1;
    }
    Some(quote_idents_in_from(sql))
}

// ---------------------------------------------------------------------------
// Passes over the syntax tree
// ---------------------------------------------------------------------------

/// A qualification pass in progress: the database to put before one-part
/// names, and how many of the statement's own relations (not tables of
/// its query) are still to come.
pub struct QualifyState {
    pub db: String,
    pub skip_own: usize,
}

/// One step of the qualification pass: the statement's own relation is
/// passed over; a one-part table name gets the database in front.
pub fn qualify_step(st: &mut QualifyState, n: &mut ObjectName) -> (r: ControlFlow<()>)
    ensures
        final(st).db == old(st).db,
        final(st).skip_own == if old(st).skip_own > 0 { old(st).skip_own - 1 } else { 0 },
{
    if st.skip_own > 0 {
        st.skip_own = st.skip_own - 1;
        return ControlFlow::Continue(());
    }
    if object_name_parts(n).len() == 1 {
        prepend_name_part(n, st.db.clone());
    }
    ControlFlow::Continue(())
}

/// Put `db` before every one-part table name (`user` becomes
/// `default.user`); qualified names stay as they are.
pub fn qualify_with_default_db(stmt: &mut Statement, db: &str) {
    let mut st = QualifyState { db: string_from_chars(str_chars(db)), skip_own: own_relation_count(stmt) };
    qualify_relations(stmt, &mut st);
}

/// The alias a named table gets: the last part of its name, when it has
/// no alias.
pub open spec fn default_alias_spec(parts: Seq<Seq<char>>, alias: Option<Seq<char>>) -> Option<Seq<char>> {
    if alias is None && parts.len() > 0 {
        Some(parts.last())
    } else {
        None
    }
}

pub fn default_alias(parts: &Vec<String>, alias: &Option<String>) -> (r: Option<String>)
    ensures
        r matches Some(a) ==> default_alias_spec(strings_view(parts@), crate::schema::infer::opt_view(*alias))
            == Some(a@),
        r is None ==> default_alias_spec(strings_view(parts@), crate::schema::infer::opt_view(*alias)) is None,
{
    if alias.is_none() && parts.len() > 0 {
        let last = parts.len() - 1;
        assert(strings_view(parts@)[last as int] == parts@[last as int]@);
        Some(parts[last].clone())
    } else {
        None
    }
}

/// How deep the alias pass follows nested queries.
pub const ALIAS_DEPTH: u64 = 1_000_000;

fn alias_relation(sel: &mut Select, i: usize, j: usize, t: &sqlparser::ast::TableFactor, depth: u64)
    decreases depth, 0nat,
{
    match table_factor_parts(t) {
        TableFactorParts::Table(parts, _, alias) => {
            if let Some(a) = default_alias(&parts, &alias) {
                let mut rel = t.clone();
                set_table_alias(&mut rel, a);
                set_from_relation(sel, i, j, rel);
            }
        },
        TableFactorParts::Derived(sub, _) => {
            if depth > 0 {
                let mut sub = sub;
                alias_query(&mut sub, depth - 1);
                let mut rel = t.clone();
                set_derived_subquery(&mut rel, sub);
                set_from_relation(sel, i, j, rel);
            }
        },
        _ => {},
    }
}

fn alias_select(sel: &mut Select, depth: u64)
    decreases depth, 1nat,
{
    let sp = select_parts(sel);
    let mut i: usize = 0;
    while i < sp.from.len()
        invariant
            i <= sp.from.len(),
        decreases sp.from.len() - i,
    {
        let (relation, joins) = from_item_parts(&sp.from[i]);
        alias_relation(sel, i, 0, &relation, depth);
        let mut j: usize = 0;
        while j < joins.len()
            invariant
                j <= joins.len(),
            decreases joins.len() - j,
        {
            if j < usize::MAX - 1 {
                alias_relation(sel, i, j + 1, &joins[j].1, depth);
            }
            j = j + 1;
        }
        i = i + 1;
    }
}

fn alias_set_expr(s: &mut SetExpr, depth: u64)
    decreases depth, 2nat,
{
    if depth == 0 {
        return;
    }
    let d = depth - 1;
    match set_expr_parts(s) {
        SetExprParts::SelectBody(sel) => {
            let mut sel = sel;
            alias_select(&mut sel, d);
            set_body_select(s, sel);
        },
        SetExprParts::SetOperation(_, l, r) => {
            let mut l = l;
            let mut r = r;
            alias_set_expr(&mut l, d);
            alias_set_expr(&mut r, d);
            set_set_operation_sides(s, l, r);
        },
        SetExprParts::Nested(q) => {
            let mut q = q;
            alias_query(&mut q, d);
            set_body_query(s, q);
        },
        _ => {},
    }
}

/// The alias pass over a query: its CTEs and its body.
fn alias_query(q: &mut Query, depth: u64)
    decreases depth, 3nat,
{
    if depth == 0 {
        return;
    }
    let d = depth - 1;
    let parts = query_parts(q);
    let mut i: usize = 0;
    while i < parts.ctes.len()
        invariant
            d < depth,
            i <= parts.ctes.len(),
        decreases parts.ctes.len() - i,
    {
        let mut cq = parts.ctes[i].1.clone();
        alias_query(&mut cq, d);
        set_cte_query(q, i, cq);
        i = i + 1;
    }
    let mut body = parts.body;
    alias_set_expr(&mut body, d);
    set_query_body(q, body);
}

/// One step of the walk over expressions: a subquery expression gets the
/// alias pass.
pub fn alias_subquery_expr(e: &mut Expr) -> (r: ControlFlow<()>)
    ensures
        r == ControlFlow::<()>::Continue(()),
{
    if let Some(q) = expr_subquery(e) {
        let mut q = q;
        alias_query(&mut q, ALIAS_DEPTH);
        set_expr_subquery(e, q);
    }
    ControlFlow::Continue(())
}

/// Give every named table without an alias the last part of its name as
/// alias (`FROM hr.employees` becomes `FROM hr.employees AS employees`);
/// existing aliases stay.
pub fn add_default_aliases(stmt: &mut Statement) {
    visit_alias_subqueries(stmt);
    match statement_parts(stmt) {
        StatementParts::Plain(q) => {
            let mut q = q;
            alias_query(&mut q, ALIAS_DEPTH);
            set_statement_query(stmt, q);
        },
        StatementParts::Insert(_, Some(q)) => {
            let mut q = q;
            alias_query(&mut q, ALIAS_DEPTH);
            set_statement_inner_query(stmt, q);
        },
        StatementParts::CreateView(_, _, q) => {
            let mut q = q;
            alias_query(&mut q, ALIAS_DEPTH);
            set_statement_inner_query(stmt, q);
        },
        _ => {},
    }
}

// ---------------------------------------------------------------------------
// What the layout keeps
// ---------------------------------------------------------------------------

/// The characters of a text other than spaces and line breaks, in order.
pub open spec fn solid(s: Seq<char>) -> Seq<char>
    decreases s.len(),
{
    if s.len() == 0 {
        Seq::empty()
    } else if s.last() == ' ' || s.last() == '\n' {
        solid(s.drop_last())
    } else {
        solid(s.drop_last()).push(s.last())
    }
}

proof fn lemma_solid_concat(a: Seq<char>, b: Seq<char>)
    ensures
        solid(a + b) == solid(a) + solid(b),
    decreases b.len(),
{
    if b.len() == 0 {
        assert(a + b =~= a);
        assert(solid(b) =~= Seq::<char>::empty());
        assert(solid(a) + solid(b) =~= solid(a));
    } else {
        lemma_solid_concat(a, b.drop_last());
        assert((a + b).drop_last() =~= a + b.drop_last());
        assert((a + b).last() == b.last());
        if !(b.last() == ' ' || b.last() == '\n') {
            assert(solid(a) + solid(b.drop_last()).push(b.last()) =~= (solid(a) + solid(b.drop_last())).push(
                b.last(),
            ));
        }
    }
}

proof fn lemma_solid_trim_spaces(s: Seq<char>)
    ensures
        solid(crate::text::trim_end_char(s, ' ')) == solid(s),
    decreases s.len(),
{
    if s.len() > 0 && s.last() == ' ' {
        lemma_solid_trim_spaces(s.drop_last());
    }
}

proof fn lemma_solid_break_line(out: Seq<char>)
    ensures
        solid(break_line(out)) == solid(out),
{
    if out.len() > 0 && out.last() != '\n' {
        let t = crate::text::trim_end_char(out, ' ');
        lemma_solid_trim_spaces(out);
        assert((t + seq!['\n']).drop_last() =~= t);
    }
}

proof fn lemma_pretty_from_solid(
    cs: Seq<char>,
    i: int,
    depth: nat,
    sq: bool,
    dq: bool,
    out: Seq<char>,
)
    requires
        0 <= i <= cs.len(),
    ensures
        solid(pretty_from(cs, i, depth, sq, dq, out)) == solid(out) + solid(cs.skip(i)),
    decreases cs.len() - i,
{
    if i >= cs.len() {
        assert(cs.skip(i) =~= Seq::<char>::empty());
        assert(solid(out) + solid(cs.skip(i)) =~= solid(out));
    } else {
        let c = cs[i];
        if !dq && c == '\'' {
            if sq && i + 1 < cs.len() && cs[i + 1] == '\'' {
                lemma_pretty_from_solid(cs, i + 2, depth, sq, dq, out + seq![c, cs[i + 1]]);
                lemma_solid_concat(out, seq![c, cs[i + 1]]);
                lemma_solid_concat(seq![c, cs[i + 1]], cs.skip(i + 2));
                assert(cs.skip(i) =~= seq![c, cs[i + 1]] + cs.skip(i + 2));
                lemma_solid_concat(out, cs.skip(i));
                assert(solid(out + seq![c, cs[i + 1]]) + solid(cs.skip(i + 2)) =~= solid(out) + solid(
                    cs.skip(i),
                ));
            } else {
                lemma_step_solid(cs, i, out, c);
                lemma_pretty_from_solid(cs, i + 1, depth, !sq, dq, out + seq![c]);
            }
        } else if !sq && c == '"' {
            lemma_step_solid(cs, i, out, c);
            lemma_pretty_from_solid(cs, i + 1, depth, sq, !dq, out + seq![c]);
        } else {
            let d2: nat = if !sq && !dq && c == '(' {
                depth + 1
            } else if !sq && !dq && c == ')' {
                if depth > 0 {
                    (depth - 1) as nat
                } else {
                    0
                }
            } else {
                depth
            };
            if !sq && !dq && d2 == 0 && word_boundary(cs, i) && match_keyword_from(cs, i, 0) is Some {
                let n = clause_keywords()[match_keyword_from(cs, i, 0)->0].len() as int;
                lemma_match_keyword_range(cs, i, 0);
                lemma_clause_keywords_nonempty(match_keyword_from(cs, i, 0)->0);
                if n > 0 {
                    let kw = cs.subrange(i, i + n);
                    lemma_pretty_from_solid(cs, i + n, d2, sq, dq, break_line(out) + kw);
                    lemma_solid_concat(break_line(out), kw);
                    lemma_solid_break_line(out);
                    lemma_solid_concat(kw, cs.skip(i + n));
                    assert(cs.skip(i) =~= kw + cs.skip(i + n));
                    assert(solid(break_line(out) + kw) + solid(cs.skip(i + n)) =~= solid(out) + solid(
                        cs.skip(i),
                    ));
                }
            } else {
                lemma_step_solid(cs, i, out, c);
                lemma_pretty_from_solid(cs, i + 1, d2, sq, dq, out + seq![c]);
            }
        }
    }
}

proof fn lemma_clause_keywords_nonempty(k: int)
    requires
        0 <= k < 14,
    ensures
        clause_keywords()[k].len() > 0,
{
    reveal_strlit("SELECT");
    reveal_strlit("FROM");
    reveal_strlit("WHERE");
    reveal_strlit("GROUP BY");
    reveal_strlit("HAVING");
    reveal_strlit("ORDER BY");
    reveal_strlit("LIMIT");
    reveal_strlit("OFFSET");
    reveal_strlit("UNION ALL");
    reveal_strlit("UNION");
    reveal_strlit("INTERSECT ALL");
    reveal_strlit("INTERSECT");
    reveal_strlit("EXCEPT ALL");
    reveal_strlit("EXCEPT");
}

proof fn lemma_step_solid(cs: Seq<char>, i: int, out: Seq<char>, c: char)
    requires
        0 <= i < cs.len(),
        cs[i] == c,
    ensures
        solid(out + seq![c]) + solid(cs.skip(i + 1)) == solid(out) + solid(cs.skip(i)),
{
    lemma_solid_concat(out, seq![c]);
    lemma_solid_concat(seq![c], cs.skip(i + 1));
    assert(cs.skip(i) =~= seq![c] + cs.skip(i + 1));
    assert(solid(out) + solid(seq![c]) + solid(cs.skip(i + 1)) =~= solid(out) + (solid(seq![c]) + solid(
        cs.skip(i + 1),
    )));
}

/// The layout changes nothing but spaces and line breaks: the other
/// characters of the text come out as they went in, in order.
pub proof fn law_pretty_print_keeps_the_text(sql: Seq<char>)
    ensures
        solid(pretty_spec(sql)) == solid(sql),
{
    lemma_pretty_from_solid(sql, 0, 0, false, false, Seq::empty());
    assert(sql.skip(0) =~= sql);
    assert(solid(Seq::<char>::empty()) + solid(sql) =~= solid(sql));
}

} // verus!
