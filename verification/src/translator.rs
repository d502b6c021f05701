//! The translation entry points.
//!
//! Pipeline: text preprocessing (`CONNECT BY`, `(+)`), parsing with the
//! PostgreSQL dialect, the syntax-tree rewrites of the target, and printing.
use vstd::prelude::*;

use crate::catalog::{strings_view, validate_against, Catalog, ValidationIssue};
use crate::function_catalog::lookup_spec;
use crate::error::CoralError;
use crate::preprocess::{preprocess, preprocess_spec};
use crate::rewrite::apply_all_for_target;
use crate::sql::ast::{parse_sql_text, parse_count, statement_text};
use crate::target::Target;
use crate::text::{join_seq, push_all, str_chars, string_from_chars};
use sqlparser::ast::Statement;

verus! {

/// Translate to Spark SQL.
pub fn translate(sql: &str) -> (r: Result<String, CoralError>)
    ensures
        translated(sql@, r),
{
    translate_to(sql, Target::Spark)
}

/// Translate to Trino SQL: the Spark rewrites, then the Trino ones.
pub fn translate_to_trino(sql: &str) -> (r: Result<String, CoralError>)
    ensures
        translated(sql@, r),
{
    translate_to(sql, Target::Trino)
}

/// A text made of `n` statement texts joined by `";\n"`.
pub open spec fn joined_statements(s: Seq<char>, n: nat) -> bool {
    exists|ts: Seq<Seq<char>>| ts.len() == n && #[trigger] join_seq(ts, ";\n"@) == s
}

/// Appending one more part to a join.
pub proof fn lemma_join_push(ts: Seq<Seq<char>>, t: Seq<char>, sep: Seq<char>)
    ensures
        join_seq(ts.push(t), sep) == if ts.len() == 0 { t } else { join_seq(ts, sep) + sep + t },
{
    assert(ts.push(t).drop_last() =~= ts);
}

/// What a translation of `sql` returns, as far as it is stated: a parse
/// error exactly when the preprocessed text does not parse; otherwise one
/// printed text per parsed statement, joined by `";\n"` (empty when there
/// is no statement).
pub open spec fn translated(sql: Seq<char>, r: Result<String, CoralError>) -> bool {
    match parse_count(preprocess_spec(sql)) {
        None => r matches Err(CoralError::Parse(_)),
        Some(n) => r matches Ok(s) && joined_statements(s@, n),
    }
}

/// Translate to the given target; the statements are printed joined by
/// `";\n"`.
pub fn translate_to(sql: &str, target: Target) -> (r: Result<String, CoralError>)
    ensures
        translated(sql@, r),
{
    let pre = preprocess(sql);
    match parse_sql_text(pre.as_str()) {
        Err(e) => Err(CoralError::Parse(e)),
        Ok(mut stmts) => {
            let texts = rewrite_all(&mut stmts, target);
            let mut out: Vec<char> = Vec::new();
            let sep = str_chars(";\n");
            let ghost mut ts: Seq<Seq<char>> = Seq::empty();
            let mut i: usize = 0;
            while i < texts.len()
                invariant
                    i <= texts.len(),
                    sep@ == ";\n"@,
                    ts.len() == i,
                    out@ == join_seq(ts, sep@),
                decreases texts.len() - i,
            {
                let piece = str_chars(texts[i].as_str());
                proof {
                    lemma_join_push(ts, piece@, sep@);
                }
                if i > 0 {
                    push_all(&mut out, &sep);
                }
                push_all(&mut out, &piece);
                proof {
                    ts = ts.push(piece@);
                }
                i = i + 1;
            }
            let r = string_from_chars(out);
            assert(joined_statements(r@, texts.len() as nat)) by {
                assert(join_seq(ts, ";\n"@) == r@);
            }
            Ok(r)
        },
    }
}

/// Translate to the given target, pretty or compact. Compact output is
/// [`translate_to`]'s. Pretty output qualifies one-part table names with
/// `default`, gives tables without an alias their name as alias, puts each
/// top-level clause on its own line, and then, for Spark, drops the `AS`
/// before table aliases, and for Trino double-quotes the identifiers of
/// `FROM` / `JOIN` lines. A statement whose `FROM` / `JOIN` line the Trino
/// quoting cannot finish is refused.
pub fn translate_to_with(sql: &str, target: Target, pretty: bool) -> (r: Result<String, CoralError>)
    ensures
        !pretty ==> translated(sql@, r),
        parse_count(preprocess_spec(sql@)) is None <==> r matches Err(CoralError::Parse(_)),
        r matches Err(CoralError::Unsupported(_)) ==> pretty && target == Target::Trino,
        parse_count(preprocess_spec(sql@)) == Some(0nat) ==> (r matches Ok(t) && t@.len() == 0),
        r matches Ok(t) ==> joined_statements(t@, parse_count(preprocess_spec(sql@))->0),
{
    if !pretty {
        return translate_to(sql, target);
    }
    let pre = preprocess(sql);
    match parse_sql_text(pre.as_str()) {
        Err(e) => Err(CoralError::Parse(e)),
        Ok(stmts) => {
            let mut out: Vec<char> = Vec::new();
            let sep = str_chars(";\n");
            let ghost mut ts: Seq<Seq<char>> = Seq::empty();
            let mut i: usize = 0;
            while i < stmts.len()
                invariant
                    i <= stmts.len(),
                    pretty,
                    parse_count(preprocess_spec(sql@)) == Some(stmts.len() as nat),
                    sep@ == ";\n"@,
                    ts.len() == i,
                    out@ == join_seq(ts, sep@),
                decreases stmts.len() - i,
            {
                let mut s = stmts[i].clone();
                apply_all_for_target(&mut s, target);
                crate::format::qualify_with_default_db(&mut s, "default");
                crate::format::add_default_aliases(&mut s);
                let laid_out = crate::format::pretty_print(statement_text(&s).as_str());
                let text = match target {
                    Target::Spark => crate::format::drop_as_in_from(laid_out.as_str()),
                    Target::Trino => match crate::format::try_quote_idents_in_from(laid_out.as_str()) {
                        Some(t) => t,
                        None => {
                            return Err(
                                CoralError::Unsupported(
                                    string_from_chars(
                                        str_chars("backtick outside quotes on a FROM / JOIN line"),
                                    ),
                                ),
                            );
                        },
                    },
                };
                let piece = str_chars(text.as_str());
                proof {
                    lemma_join_push(ts, piece@, sep@);
                }
                if i > 0 {
                    push_all(&mut out, &sep);
                }
                push_all(&mut out, &piece);
                proof {
                    ts = ts.push(piece@);
                }
                i = i + 1;
            }
            let r = string_from_chars(out);
            assert(joined_statements(r@, stmts.len() as nat)) by {
                assert(join_seq(ts, ";\n"@) == r@);
            }
            Ok(r)
        },
    }
}

/// Rewrite every statement for `target` and print each.
fn rewrite_all(stmts: &mut Vec<Statement>, target: Target) -> (r: Vec<String>)
    ensures
        r.len() == old(stmts).len(),
        final(stmts).len() == old(stmts).len(),
{
    let n = stmts.len();
    let mut out: Vec<String> = Vec::new();
    let mut i: usize = 0;
    while i < n
        invariant
            n == stmts.len(),
            i <= n,
            out.len() == i,
        decreases n - i,
    {
        let mut s = stmts[i].clone();
        apply_all_for_target(&mut s, target);
        out.push(statement_text(&s));
        stmts.set(i, s);
        i = i + 1;
    }
    out
}

/// Translate a script of several statements to Spark SQL, one text per
/// statement, in order.
pub fn translate_all(sql: &str) -> (r: Result<Vec<String>, CoralError>)
    ensures
        translated_all(sql@, r),
{
    translate_all_to(sql, Target::Spark)
}

/// Translate a script to Trino SQL, one text per statement, in order.
pub fn to_trino_sql_all(sql: &str) -> (r: Result<Vec<String>, CoralError>)
    ensures
        translated_all(sql@, r),
{
    translate_all_to(sql, Target::Trino)
}

/// One text per parsed statement; a parse error exactly when the
/// preprocessed text does not parse.
pub open spec fn translated_all(sql: Seq<char>, r: Result<Vec<String>, CoralError>) -> bool {
    match parse_count(preprocess_spec(sql)) {
        None => r matches Err(CoralError::Parse(_)),
        Some(n) => r matches Ok(v) && v.len() == n,
    }
}

/// Like [`translate_all`], for the given target.
pub fn translate_all_to(sql: &str, target: Target) -> (r: Result<Vec<String>, CoralError>)
    ensures
        translated_all(sql@, r),
{
    let pre = preprocess(sql);
    match parse_sql_text(pre.as_str()) {
        Err(e) => Err(CoralError::Parse(e)),
        Ok(mut stmts) => Ok(rewrite_all(&mut stmts, target)),
    }
}

/// A translation with the catalog's advisory issues.
#[derive(Debug)]
pub struct CatalogTranslation {
    /// The translated SQL (Spark, or the target asked for).
    pub spark_sql: String,
    /// Unknown tables and columns; they do not stop the translation.
    pub issues: Vec<ValidationIssue>,
}

/// Translate to Spark SQL and validate references against `catalog`.
pub fn translate_with_catalog<C: Catalog>(sql: &str, catalog: &mut C) -> (r: Result<CatalogTranslation, CoralError>)
    ensures
        translated_with_catalog(sql@, r),
{
    translate_with_catalog_to(sql, catalog, Target::Spark)
}

/// A parse error exactly when the preprocessed text does not parse;
/// otherwise one printed text per statement joined by `";\n"`, and no
/// issue when there is no statement.
pub open spec fn translated_with_catalog(sql: Seq<char>, r: Result<CatalogTranslation, CoralError>) -> bool {
    match parse_count(preprocess_spec(sql)) {
        None => r matches Err(CoralError::Parse(_)),
        Some(n) => r matches Ok(t) && joined_statements(t.spark_sql@, n) && (n == 0 ==> t.issues.len() == 0),
    }
}

/// Like [`translate_with_catalog`], for the given target. Each statement is
/// validated before it is rewritten, so the issues name what the input
/// wrote.
pub fn translate_with_catalog_to<C: Catalog>(sql: &str, catalog: &mut C, target: Target) -> (r: Result<CatalogTranslation, CoralError>)
    ensures
        translated_with_catalog(sql@, r),
{
    let pre = preprocess(sql);
    match parse_sql_text(pre.as_str()) {
        Err(e) => Err(CoralError::Parse(e)),
        Ok(stmts) => {
            let mut issues: Vec<ValidationIssue> = Vec::new();
            let mut out: Vec<char> = Vec::new();
            let sep = str_chars(";\n");
            let ghost mut ts: Seq<Seq<char>> = Seq::empty();
            let mut i: usize = 0;
            while i < stmts.len()
                invariant
                    i <= stmts.len(),
                    i == 0 ==> issues.len() == 0,
                    sep@ == ";\n"@,
                    ts.len() == i,
                    out@ == join_seq(ts, sep@),
                decreases stmts.len() - i,
            {
                let mut found = validate_against(&stmts[i], catalog);
                issues.append(&mut found);
                let mut s = stmts[i].clone();
                apply_all_for_target(&mut s, target);
                let piece = str_chars(statement_text(&s).as_str());
                proof {
                    lemma_join_push(ts, piece@, sep@);
                }
                if i > 0 {
                    push_all(&mut out, &sep);
                }
                push_all(&mut out, &piece);
                proof {
                    ts = ts.push(piece@);
                }
                i = i + 1;
            }
            let spark_sql = string_from_chars(out);
            assert(joined_statements(spark_sql@, stmts.len() as nat)) by {
                assert(join_seq(ts, ";\n"@) == spark_sql@);
            }
            Ok(CatalogTranslation { spark_sql, issues })
        },
    }
}

/// One step of the walk that lists call names: a call's lower-cased name
/// is added.
pub fn record_call_name(names: &mut Vec<String>, e: &sqlparser::ast::Expr) -> (r: core::ops::ControlFlow<()>)
    ensures
        r == core::ops::ControlFlow::<()>::Continue(()),
        final(names)@ == old(names)@ || exists|m: Seq<char>| {
            &&& final(names)@.len() == old(names)@.len() + 1
            &&& final(names)@.take(old(names)@.len() as int) == old(names)@
            &&& final(names)@.last()@ == #[trigger] crate::text::unicode_lower(m)
        },
{
    if let Some(parts) = crate::sql::ast::as_call(e) {
        if let Some(n) = parts.name_last {
            names.push(crate::text::to_lowercase(n.as_str()));
        }
    }
    core::ops::ControlFlow::Continue(())
}

/// The names the registry does not know, each once, in order of first
/// appearance.
pub open spec fn unknown_names(names: Seq<Seq<char>>) -> Seq<Seq<char>>
    decreases names.len(),
{
    if names.len() == 0 {
        Seq::empty()
    } else {
        let prev = unknown_names(names.drop_last());
        let n = names.last();
        if lookup_spec(n) is Some || prev.contains(n) {
            prev
        } else {
            prev.push(n)
        }
    }
}

/// What the unknown names are: names the registry does not know, none
/// twice, each one of the given names.
pub proof fn lemma_unknown_names(names: Seq<Seq<char>>)
    ensures
        forall|i: int| 0 <= i < unknown_names(names).len() ==> lookup_spec(#[trigger] unknown_names(names)[i]) is None,
        forall|i: int, j: int| 0 <= i < j < unknown_names(names).len() ==> unknown_names(names)[i] != unknown_names(names)[j],
        forall|i: int| 0 <= i < unknown_names(names).len() ==> names.contains(#[trigger] unknown_names(names)[i]),
    decreases names.len(),
{
    if names.len() > 0 {
        let prev = unknown_names(names.drop_last());
        lemma_unknown_names(names.drop_last());
        assert forall|i: int| 0 <= i < prev.len() implies names.contains(#[trigger] prev[i]) by {
            let k = choose|k: int| 0 <= k < names.drop_last().len() && names.drop_last()[k] == prev[i];
            assert(names[k] == prev[i]);
        }
        if !(lookup_spec(names.last()) is Some || prev.contains(names.last())) {
            assert(names[names.len() - 1] == names.last());
        }
    }
}

/// Keep the names the registry does not know, without repeats.
pub fn unknown_from_names(names: &Vec<String>) -> (r: Vec<String>)
    ensures
        strings_view(r@) == unknown_names(strings_view(names@)),
{
    let ghost nv = strings_view(names@);
    let mut out: Vec<String> = Vec::new();
    let mut i: usize = 0;
    while i < names.len()
        invariant
            i <= names.len(),
            nv == strings_view(names@),
            strings_view(out@) == unknown_names(nv.take(i as int)),
        decreases names.len() - i,
    {
        assert(nv.take(i + 1).drop_last() =~= nv.take(i as int));
        let n = &names[i];
        let known = crate::function_catalog::is_known(n.as_str());
        let mut seen = false;
        let mut k: usize = 0;
        while k < out.len()
            invariant
                k <= out.len(),
                seen == exists|j: int| 0 <= j < k && strings_view(out@)[j] == n@,
            decreases out.len() - k,
        {
            assert(strings_view(out@)[k as int] == out@[k as int]@);
            if crate::preprocess::connect_by::same(&str_chars(out[k].as_str()), &str_chars(n.as_str())) {
                seen = true;
            }
            assert(seen == exists|j: int| 0 <= j < k + 1 && strings_view(out@)[j] == n@) by {
                if seen && !(exists|j: int| 0 <= j < k && strings_view(out@)[j] == n@) {
                    assert(strings_view(out@)[k as int] == n@);
                }
            }
            k = k + 1;
        }
        proof {
            assert(strings_view(out@).contains(n@) == seen);
        }
        if !known && !seen {
            let ghost o = out@;
            out.push(n.clone());
            assert(strings_view(out@) =~= strings_view(o).push(n@));
        }
        i = i + 1;
    }
    assert(nv.take(names.len() as int) =~= nv);
    out
}

/// Function names in `sql` that the registry does not know (lower-cased,
/// each once, in order of first appearance); a parse error exactly when
/// the preprocessed text does not parse.
pub fn unknown_functions(sql: &str) -> (r: Result<Vec<String>, CoralError>)
    ensures
        parse_count(preprocess_spec(sql@)) is None <==> r matches Err(CoralError::Parse(_)),
        r is Err ==> r matches Err(CoralError::Parse(_)),
        r matches Ok(v) ==> {
            &&& forall|i: int| 0 <= i < v.len() ==> lookup_spec((#[trigger] v@[i])@) is None
            &&& forall|i: int, j: int| 0 <= i < j < v.len() ==> v@[i]@ != v@[j]@
        },
{
    let pre = preprocess(sql);
    match parse_sql_text(pre.as_str()) {
        Err(e) => Err(CoralError::Parse(e)),
        Ok(stmts) => {
            let names = crate::sql::ast::collect_call_names(&stmts);
            let v = unknown_from_names(&names);
            proof {
                lemma_unknown_names(strings_view(names@));
                assert forall|i: int| 0 <= i < v.len() implies lookup_spec((#[trigger] v@[i])@) is None by {
                    assert(strings_view(v@)[i] == v@[i]@);
                }
                assert forall|i: int, j: int| 0 <= i < j < v.len() implies v@[i]@ != v@[j]@ by {
                    assert(strings_view(v@)[i] == v@[i]@);
                    assert(strings_view(v@)[j] == v@[j]@);
                }
            }
            Ok(v)
        },
    }
}

} // verus!
