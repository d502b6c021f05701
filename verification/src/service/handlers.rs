//! What each endpoint computes, from request to response. Errors of a
//! translation come back as data (an `error` field), as the clients
//! expect.
use vstd::prelude::*;

use crate::catalog::strings_view;
use crate::error::CoralError;
use crate::function_catalog::{registry, registry_spec, lookup_in, Category, Disposition, FunctionEntry};
use crate::preprocess::preprocess_spec;
use crate::schema::infer::opt_view;
use crate::service::graph::{
    dot_error_spec, dot_source_spec, plant_error_spec, plant_source_spec, render_dot, render_plantuml,
};
use crate::service::models::{
    FunctionEntryDto, FunctionListResponse, HealthResponse, TranslateRequest, TranslateResponse, ValidateRequest,
    ValidateResponse, VisualizeRequest, VisualizeResponse,
};
use crate::service::state::{AppState, GraphPayload};
use crate::sorted::{insert_sorted, strictly_sorted};
use crate::sql::ast::{parse_sql_text, parse_count};
use crate::target::{parse_target, target_name, Target};
use crate::text::{ascii_lowercase, equals_str, lower_seq, push_all, str_chars, string_from_chars};
use crate::translator::translate_to;

verus! {

// ---------------------------------------------------------------------------
// Health, translation, validation
// ---------------------------------------------------------------------------

/// `GET /api/health`: status `ok` and the service's version.
pub fn health_response(version: &'static str) -> (r: HealthResponse)
    ensures
        r.status@ == "ok"@,
        r.version == version,
{
    HealthResponse { status: "ok", version }
}

/// The target a request names: Spark unless it names a known one.
pub open spec fn requested_target(t: Option<Seq<char>>) -> Target {
    match t {
        Some(s) => match parse_target(s) {
            Some(x) => x,
            None => Target::Spark,
        },
        None => Target::Spark,
    }
}

/// `POST /api/translations/translate`: the query translated to the
/// requested target; on failure an empty translation and the error's
/// message.
pub fn translate_response(req: &TranslateRequest) -> (r: TranslateResponse)
    ensures
        r.target@ == target_name(requested_target(opt_view(req.target_language))),
        r.issues.len() == 0,
        r.error is Some <==> parse_count(preprocess_spec(req.query@)) is None,
        r.error matches Some(m) ==> r.translated@.len() == 0 && exists|p: Seq<char>| m@ == "parse error: "@ + p,
{
    let target = match &req.target_language {
        Some(t) => match Target::parse(t.as_str()) {
            Some(x) => x,
            None => Target::Spark,
        },
        None => Target::Spark,
    };
    match translate_to(req.query.as_str(), target) {
        Ok(sql) => TranslateResponse { translated: sql, target: target.to_string(), issues: Vec::new(), error: None },
        Err(e) => {
            let m = e.message();
            proof {
                if let CoralError::Parse(p) = e {
                    assert(m@ == "parse error: "@ + p@);
                }
            }
            TranslateResponse {
                translated: string_from_chars(Vec::new()),
                target: target.to_string(),
                issues: Vec::new(),
                error: Some(m),
            }
        },
    }
}

/// `POST /api/translations/validate`: whether the query parses and into
/// how many statements.
pub fn validate_response(req: &ValidateRequest) -> (r: ValidateResponse)
    ensures
        r.parses <==> parse_count(req.query@) is Some,
        parse_count(req.query@) matches Some(n) ==> r.statement_count == n && r.parse_error is None,
        parse_count(req.query@) is None ==> r.statement_count == 0 && r.parse_error is Some,
{
    match parse_sql_text(req.query.as_str()) {
        Ok(stmts) => ValidateResponse { parses: true, statement_count: stmts.len(), parse_error: None },
        Err(e) => ValidateResponse { parses: false, statement_count: 0, parse_error: Some(e) },
    }
}

// ---------------------------------------------------------------------------
// Visualizations
// ---------------------------------------------------------------------------

/// The format a request names, lower-cased; `dot` by default.
pub open spec fn requested_format(f: Option<Seq<char>>) -> Seq<char> {
    match f {
        Some(s) => lower_seq(s),
        None => "dot"@,
    }
}

/// `src` is a graph of `sql` in format `fmt`, as the renderers draw it.
pub open spec fn graph_of(fmt: Seq<char>, sql: Seq<char>, src: Seq<char>) -> bool {
    if fmt == "dot"@ {
        match parse_count(sql) {
            None => exists|msg: Seq<char>| src == #[trigger] dot_error_spec(msg),
            Some(n) => exists|ls: Seq<Seq<char>>| ls.len() == n && src == #[trigger] dot_source_spec(ls),
        }
    } else {
        match parse_count(sql) {
            None => exists|msg: Seq<char>| src == #[trigger] plant_error_spec(msg),
            Some(n) => exists|ls: Seq<Seq<char>>| ls.len() == n && src == #[trigger] plant_source_spec(ls),
        }
    }
}

/// `POST /api/visualizations/generategraphs`: draw the query in the
/// requested format and store the source under `id`; an unknown format is
/// refused and nothing is stored.
pub fn generate_graphs(state: &mut AppState, req: &VisualizeRequest, id: String) -> (r: Result<
    VisualizeResponse,
    String,
>)
    ensures
        r is Ok <==> (requested_format(opt_view(req.format)) == "dot"@ || requested_format(opt_view(req.format))
            == "plantuml"@),
        r matches Ok(v) ==> v.graph_id@ == id@ && v.format@ == requested_format(opt_view(req.format)) && exists|
            src: Seq<char>,
        |
            graph_of(v.format@, req.query@, src) && #[trigger] final(state)@ == old(state)@.insert(id@, (v.format@, src)),
        r matches Err(m) ==> final(state)@ == old(state)@ && exists|q: Seq<char>|
            m@ == "unknown format "@ + q + "; expected 'dot' or 'plantuml'"@,
{
    let format = match &req.format {
        Some(f) => ascii_lowercase(f.as_str()),
        None => string_from_chars(str_chars("dot")),
    };
    let fc = str_chars(format.as_str());
    let source = if equals_str(&fc, "dot") {
        render_dot(req.query.as_str())
    } else if equals_str(&fc, "plantuml") {
        render_plantuml(req.query.as_str())
    } else {
        let mut m = str_chars("unknown format ");
        push_all(&mut m, &str_chars(crate::text::debug_text(format.as_str()).as_str()));
        push_all(&mut m, &str_chars("; expected 'dot' or 'plantuml'"));
        return Err(string_from_chars(m));
    };
    let ghost src = source@;
    let resp = VisualizeResponse { graph_id: id.clone(), format: format.clone() };
    state.store(id, GraphPayload { format, source });
    assert(graph_of(resp.format@, req.query@, src));
    Ok(resp)
}

/// `GET /api/visualizations/{id}`: the stored source with its media type
/// (plain text for PlantUML, Graphviz otherwise), or the not-found
/// message.
pub fn visualization_reply(state: &AppState, id: &str) -> (r: Result<(&'static str, String), String>)
    ensures
        match r {
            Ok((mime, src)) => state@.contains_key(id@) && src@ == state@[id@].1 && mime@ == if state@[id@].0
                == "plantuml"@ {
                "text/plain; charset=utf-8"@
            } else {
                "text/vnd.graphviz; charset=utf-8"@
            },
            Err(m) => !state@.contains_key(id@) && m@ == "no graph with id "@ + id@,
        },
{
    match state.get(id) {
        Some(p) => {
            let mime = if equals_str(&str_chars(p.format.as_str()), "plantuml") {
                "text/plain; charset=utf-8"
            } else {
                "text/vnd.graphviz; charset=utf-8"
            };
            Ok((mime, p.source))
        },
        None => {
            let mut m = str_chars("no graph with id ");
            push_all(&mut m, &str_chars(id));
            Err(string_from_chars(m))
        },
    }
}

// ---------------------------------------------------------------------------
// The function registry
// ---------------------------------------------------------------------------

/// How the service names a disposition.
pub open spec fn disposition_text(d: Disposition) -> Seq<char> {
    match d {
        Disposition::Passthrough => "passthrough"@,
        Disposition::Rename(n) => "rename:"@ + n@,
        Disposition::CustomRewrite => "custom"@,
        Disposition::UnsupportedBySpark => "unsupported"@,
    }
}

/// How the service names a category: its name, lower-cased.
pub open spec fn category_text(c: Category) -> Seq<char> {
    match c {
        Category::Aggregate => "aggregate"@,
        Category::String => "string"@,
        Category::Math => "math"@,
        Category::DateTime => "datetime"@,
        Category::Collection => "collection"@,
        Category::Json => "json"@,
        Category::Hash => "hash"@,
        Category::Bitwise => "bitwise"@,
        Category::Window => "window"@,
        Category::Cast => "cast"@,
        Category::Null => "null"@,
        Category::Conditional => "conditional"@,
        Category::Xpath => "xpath"@,
        Category::Udtf => "udtf"@,
        Category::Context => "context"@,
        Category::GaussDbSpecific => "gaussdbspecific"@,
        Category::Misc => "misc"@,
    }
}

pub fn disposition_name(d: Disposition) -> (r: String)
    ensures
        r@ == disposition_text(d),
{
    match d {
        Disposition::Passthrough => string_from_chars(str_chars("passthrough")),
        Disposition::Rename(n) => {
            let mut v = str_chars("rename:");
            push_all(&mut v, &str_chars(n));
            string_from_chars(v)
        },
        Disposition::CustomRewrite => string_from_chars(str_chars("custom")),
        Disposition::UnsupportedBySpark => string_from_chars(str_chars("unsupported")),
    }
}

pub fn category_name(c: Category) -> (r: String)
    ensures
        r@ == category_text(c),
{
    let s = match c {
        Category::Aggregate => "aggregate",
        Category::String => "string",
        Category::Math => "math",
        Category::DateTime => "datetime",
        Category::Collection => "collection",
        Category::Json => "json",
        Category::Hash => "hash",
        Category::Bitwise => "bitwise",
        Category::Window => "window",
        Category::Cast => "cast",
        Category::Null => "null",
        Category::Conditional => "conditional",
        Category::Xpath => "xpath",
        Category::Udtf => "udtf",
        Category::Context => "context",
        Category::GaussDbSpecific => "gaussdbspecific",
        Category::Misc => "misc",
    };
    string_from_chars(str_chars(s))
}

/// The names of the listed entries.
pub open spec fn dto_names(es: Seq<FunctionEntryDto>) -> Seq<Seq<char>> {
    es.map_values(|d: FunctionEntryDto| d.name@)
}

/// The listing of an entry.
pub open spec fn dto_matches(d: FunctionEntryDto, e: FunctionEntry) -> bool {
    &&& d.name@ == e.lower_name@
    &&& d.disposition@ == disposition_text(e.disposition)
    &&& d.category@ == category_text(e.category)
    &&& d.notes@ == e.notes@
}

/// The entry a name selects, the last one in table order.
pub fn entry_named(entries: &Vec<FunctionEntry>, n: &Vec<char>) -> (r: Option<FunctionEntry>)
    ensures
        r == lookup_in(entries@, n@),
{
    let mut found: Option<FunctionEntry> = None;
    let mut i: usize = 0;
    while i < entries.len()
        invariant
            i <= entries.len(),
            found == lookup_in(entries@.take(i as int), n@),
        decreases entries.len() - i,
    {
        assert(entries@.take(i + 1).drop_last() =~= entries@.take(i as int));
        if equals_str(n, entries[i].lower_name) {
            found = Some(entries[i]);
        }
        i = i + 1;
    }
    assert(entries@.take(entries.len() as int) =~= entries@);
    found
}

/// A name has an entry when some row carries it.
pub proof fn lemma_lookup_found(es: Seq<FunctionEntry>, n: Seq<char>)
    requires
        exists|i: int| 0 <= i < es.len() && (#[trigger] es[i]).lower_name@ == n,
    ensures
        lookup_in(es, n) matches Some(e) && e.lower_name@ == n,
    decreases es.len(),
{
    if es.last().lower_name@ != n {
        let i = choose|i: int| 0 <= i < es.len() && (#[trigger] es[i]).lower_name@ == n;
        assert(es.drop_last()[i] == es[i]);
        lemma_lookup_found(es.drop_last(), n);
    }
}

/// `GET /api/functions`: every registered name once, sorted, with its
/// entry (the last row registered under the name).
pub fn list_functions_response() -> (r: FunctionListResponse)
    ensures
        r.total == r.entries.len(),
        strictly_sorted(dto_names(r.entries@)),
        forall|x: Seq<char>|
            #[trigger] dto_names(r.entries@).contains(x) <==> exists|i: int|
                0 <= i < registry_spec().len() && (#[trigger] registry_spec()[i]).lower_name@ == x,
        forall|i: int|
            0 <= i < r.entries.len() ==> (lookup_in(registry_spec(), (#[trigger] r.entries@[i]).name@) matches Some(
                e,
            ) && dto_matches(r.entries@[i], e)),
{
    let reg = registry();
    let mut names: Vec<String> = Vec::new();
    let mut i: usize = 0;
    while i < reg.len()
        invariant
            i <= reg.len(),
            reg@ == registry_spec(),
            strictly_sorted(strings_view(names@)),
            forall|x: Seq<char>|
                #[trigger] strings_view(names@).contains(x) <==> exists|k: int| 0 <= k < i && (#[trigger] reg@[k]).lower_name@ == x,
        decreases reg.len() - i,
    {
        let ghost before = strings_view(names@);
        insert_sorted(&mut names, string_from_chars(str_chars(reg[i].lower_name)));
        proof {
            assert forall|x: Seq<char>|
                #[trigger] strings_view(names@).contains(x) <==> exists|k: int|
                    0 <= k < i + 1 && (#[trigger] reg@[k]).lower_name@ == x by {
                if x == reg@[i as int].lower_name@ {
                    assert(reg@[i as int].lower_name@ == x);
                }
            }
        }
        i = i + 1;
    }
    let ghost nv = strings_view(names@);
    let mut entries: Vec<FunctionEntryDto> = Vec::new();
    let mut j: usize = 0;
    while j < names.len()
        invariant
            j <= names.len(),
            reg@ == registry_spec(),
            nv == strings_view(names@),
            forall|x: Seq<char>|
                #[trigger] nv.contains(x) <==> exists|k: int| 0 <= k < reg.len() && (#[trigger] reg@[k]).lower_name@ == x,
            entries.len() == j,
            forall|k: int| 0 <= k < j ==> (#[trigger] entries@[k]).name@ == nv[k],
            forall|k: int|
                0 <= k < j ==> (lookup_in(registry_spec(), (#[trigger] entries@[k]).name@) matches Some(e)
                    && dto_matches(entries@[k], e)),
        decreases names.len() - j,
    {
        let key = str_chars(names[j].as_str());
        assert(nv[j as int] == names@[j as int]@);
        assert(nv.contains(key@));
        proof {
            lemma_lookup_found(reg@, key@);
        }
        match entry_named(&reg, &key) {
            Some(e) => {
                let d = FunctionEntryDto {
                    name: names[j].clone(),
                    disposition: disposition_name(e.disposition),
                    category: category_name(e.category),
                    notes: string_from_chars(str_chars(e.notes)),
                };
                entries.push(d);
            },
            None => {},
        }
        j = j + 1;
    }
    assert(dto_names(entries@) =~= nv);
    FunctionListResponse { total: entries.len(), entries }
}

} // verus!
