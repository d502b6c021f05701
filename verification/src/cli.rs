//! The command line's decisions: source dialect names, the allow-list of
//! unknown functions, and the function coverage report. Reading files and
//! printing is left to the program around the library.
use vstd::prelude::*;

use crate::catalog::strings_view;
use crate::preprocess::preprocess_spec;
use crate::sql::ast::parse_count;
use crate::target::{target_name, Target};
use crate::text::{replace_all, replace_chars};
use crate::translator::translate_to;
use crate::function_catalog::{lookup_in, registry, registry_spec, Category, Disposition, FunctionEntry};
use crate::sorted::{insert_sorted, strictly_sorted};
use crate::text::{
    debug_text, dec, equals_str, lower_seq, lower_vec, push_all, split_char, split_chars, str_chars,
    string_from_chars, trim_chars, trim_ws, usize_text,
};

verus! {

// ---------------------------------------------------------------------------
// Source dialects
// ---------------------------------------------------------------------------

/// The canonical name of a source dialect name (trimmed, ASCII case
/// ignored).
pub open spec fn canonical_source(n: Seq<char>) -> Option<Seq<char>> {
    if n == "gaussdb"@ || n == "opengauss"@ || n == "open_gauss"@ || n == "postgres"@ || n == "postgresql"@ {
        Some("gaussdb"@)
    } else if n == "hive"@ || n == "hiveql"@ {
        Some("hive"@)
    } else if n == "spark"@ || n == "spark_sql"@ || n == "sparksql"@ {
        Some("spark"@)
    } else if n == "trino"@ || n == "presto"@ {
        Some("trino"@)
    } else {
        None
    }
}

/// The canonical source dialect, or the message for an unknown one.
pub fn normalize_source(source: &str) -> (r: Result<String, String>)
    ensures
        match canonical_source(lower_seq(trim_ws(source@))) {
            Some(c) => r matches Ok(s) && s@ == c,
            None => r matches Err(m) && exists|q: Seq<char>|
                m@ == "unknown --source "@ + q + " (use 'gaussdb', 'hive', 'spark', or 'trino')"@,
        },
{
    let n = lower_vec(&trim_chars(&str_chars(source)));
    let c = if equals_str(&n, "gaussdb") || equals_str(&n, "opengauss") || equals_str(&n, "open_gauss") || equals_str(
        &n,
        "postgres",
    ) || equals_str(&n, "postgresql") {
        "gaussdb"
    } else if equals_str(&n, "hive") || equals_str(&n, "hiveql") {
        "hive"
    } else if equals_str(&n, "spark") || equals_str(&n, "spark_sql") || equals_str(&n, "sparksql") {
        "spark"
    } else if equals_str(&n, "trino") || equals_str(&n, "presto") {
        "trino"
    } else {
        let mut m = str_chars("unknown --source ");
        push_all(&mut m, &str_chars(debug_text(source).as_str()));
        push_all(&mut m, &str_chars(" (use 'gaussdb', 'hive', 'spark', or 'trino')"));
        return Err(string_from_chars(m));
    };
    Ok(string_from_chars(str_chars(c)))
}

/// How the reports name a canonical source dialect.
pub open spec fn source_label_spec(s: Seq<char>) -> Seq<char> {
    if s == "gaussdb"@ {
        "GaussDB / openGauss"@
    } else if s == "hive"@ {
        "Hive"@
    } else if s == "spark"@ {
        "Spark"@
    } else if s == "trino"@ {
        "Trino"@
    } else {
        "SQL"@
    }
}

pub fn source_label(source: &str) -> (r: &'static str)
    ensures
        r@ == source_label_spec(source@),
{
    let s = str_chars(source);
    if equals_str(&s, "gaussdb") {
        "GaussDB / openGauss"
    } else if equals_str(&s, "hive") {
        "Hive"
    } else if equals_str(&s, "spark") {
        "Spark"
    } else if equals_str(&s, "trino") {
        "Trino"
    } else {
        "SQL"
    }
}

// ---------------------------------------------------------------------------
// Unknown functions
// ---------------------------------------------------------------------------

/// Which unknown functions may pass: none, all, or the listed ones
/// (lower-cased, sorted, each once).
#[derive(Debug)]
pub enum UnknownFunctionAllowlist {
    NoneAllowed,
    All,
    Names(Vec<String>),
}

/// A listed name: a piece of the comma-separated list, trimmed and
/// lower-cased, not empty.
pub open spec fn listed(raw: Seq<char>, x: Seq<char>) -> bool {
    x.len() > 0 && exists|i: int|
        0 <= i < split_char(raw, ',').len() && lower_seq(trim_ws(#[trigger] split_char(raw, ',')[i])) == x
}

/// Read the `--allow-unknown-functions` value: absent allows none; empty
/// or `*` allows all; otherwise the comma-separated names.
pub fn parse_unknown_function_allowlist(raw: Option<&str>) -> (r: UnknownFunctionAllowlist)
    ensures
        match raw {
            None => r is NoneAllowed,
            Some(s) => if trim_ws(s@).len() == 0 || trim_ws(s@) == "*"@ {
                r is All
            } else {
                r matches UnknownFunctionAllowlist::Names(ns) && strictly_sorted(strings_view(ns@)) && forall|x: Seq<char>|
                    #[trigger] strings_view(ns@).contains(x) <==> listed(s@, x)
            },
        },
{
    let s = match raw {
        None => {
            return UnknownFunctionAllowlist::NoneAllowed;
        },
        Some(s) => s,
    };
    let t = trim_chars(&str_chars(s));
    if t.len() == 0 || equals_str(&t, "*") {
        return UnknownFunctionAllowlist::All;
    }
    let pieces = split_chars(&str_chars(s), ',');
    let ghost ps = pieces@.map_values(|v: Vec<char>| v@);
    let mut names: Vec<String> = Vec::new();
    let mut i: usize = 0;
    while i < pieces.len()
        invariant
            i <= pieces.len(),
            ps == pieces@.map_values(|v: Vec<char>| v@),
            ps == split_char(s@, ','),
            strictly_sorted(strings_view(names@)),
            forall|x: Seq<char>|
                #[trigger] strings_view(names@).contains(x) <==> (x.len() > 0 && exists|k: int|
                    0 <= k < i && lower_seq(trim_ws(#[trigger] ps[k])) == x),
        decreases pieces.len() - i,
    {
        assert(ps[i as int] == pieces@[i as int]@);
        let name = lower_vec(&trim_chars(&pieces[i]));
        if name.len() > 0 {
            insert_sorted(&mut names, string_from_chars(name));
        }
        proof {
            assert forall|x: Seq<char>|
                #[trigger] strings_view(names@).contains(x) <==> (x.len() > 0 && exists|k: int|
                    0 <= k < i + 1 && lower_seq(trim_ws(#[trigger] ps[k])) == x) by {
                if x.len() > 0 && x == lower_seq(trim_ws(ps[i as int])) {
                    assert(lower_seq(trim_ws(ps[i as int])) == x);
                }
            }
        }
        i = i + 1;
    }
    UnknownFunctionAllowlist::Names(names)
}

/// The unknown names the allow-list does not let pass, in order.
pub open spec fn rejected_spec(us: Seq<Seq<char>>, allowed: Seq<Seq<char>>) -> Seq<Seq<char>>
    decreases us.len(),
{
    if us.len() == 0 {
        Seq::empty()
    } else {
        let prev = rejected_spec(us.drop_last(), allowed);
        if allowed.contains(us.last()) {
            prev
        } else {
            prev.push(us.last())
        }
    }
}

fn contains_name(ns: &Vec<String>, n: &str) -> (r: bool)
    ensures
        r == strings_view(ns@).contains(n@),
{
    let c = str_chars(n);
    let mut i: usize = 0;
    while i < ns.len()
        invariant
            i <= ns.len(),
            c@ == n@,
            forall|k: int| 0 <= k < i ==> ns@[k]@ != n@,
        decreases ns.len() - i,
    {
        if crate::preprocess::connect_by::same(&str_chars(ns[i].as_str()), &c) {
            assert(strings_view(ns@)[i as int] == n@);
            return true;
        }
        i = i + 1;
    }
    false
}

/// The unknown functions the allow-list rejects: all of them, none, or
/// those not listed, in order.
pub fn rejected_unknown_functions(unknown: &Vec<String>, allowlist: &UnknownFunctionAllowlist) -> (r: Vec<String>)
    ensures
        strings_view(r@) == match allowlist {
            UnknownFunctionAllowlist::All => Seq::empty(),
            UnknownFunctionAllowlist::NoneAllowed => strings_view(unknown@),
            UnknownFunctionAllowlist::Names(ns) => rejected_spec(strings_view(unknown@), strings_view(ns@)),
        },
{
    let mut out: Vec<String> = Vec::new();
    match allowlist {
        UnknownFunctionAllowlist::All => {
            assert(strings_view(out@) =~= Seq::<Seq<char>>::empty());
        },
        UnknownFunctionAllowlist::NoneAllowed => {
            let mut i: usize = 0;
            while i < unknown.len()
                invariant
                    i <= unknown.len(),
                    strings_view(out@) == strings_view(unknown@).take(i as int),
                decreases unknown.len() - i,
            {
                let ghost o = strings_view(out@);
                let c = unknown[i].clone();
                assert(c@ == unknown@[i as int]@);
                out.push(c);
                assert(strings_view(out@) =~= o.push(unknown@[i as int]@));
                assert(strings_view(unknown@).take(i + 1) =~= strings_view(unknown@).take(i as int).push(
                    unknown@[i as int]@,
                ));
                i = i + 1;
            }
            assert(strings_view(unknown@).take(unknown.len() as int) =~= strings_view(unknown@));
        },
        UnknownFunctionAllowlist::Names(ns) => {
            let ghost us = strings_view(unknown@);
            let mut i: usize = 0;
            while i < unknown.len()
                invariant
                    i <= unknown.len(),
                    us == strings_view(unknown@),
                    strings_view(out@) == rejected_spec(us.take(i as int), strings_view(ns@)),
                decreases unknown.len() - i,
            {
                assert(us.take(i + 1).drop_last() =~= us.take(i as int));
                assert(us.take(i + 1).last() == unknown@[i as int]@);
                if !contains_name(ns, unknown[i].as_str()) {
                    let ghost o = strings_view(out@);
                    let c = unknown[i].clone();
                    assert(c@ == unknown@[i as int]@);
                    out.push(c);
                    assert(strings_view(out@) =~= o.push(unknown@[i as int]@));
                }
                i = i + 1;
            }
            assert(us.take(unknown.len() as int) =~= us);
        },
    }
    out
}

/// Every rejected name is an unknown one, and none is allowed.
pub proof fn law_rejected_are_unknown_and_not_allowed(us: Seq<Seq<char>>, allowed: Seq<Seq<char>>, x: Seq<char>)
    requires
        rejected_spec(us, allowed).contains(x),
    ensures
        us.contains(x),
        !allowed.contains(x),
    decreases us.len(),
{
    let prev = rejected_spec(us.drop_last(), allowed);
    if prev.contains(x) {
        law_rejected_are_unknown_and_not_allowed(us.drop_last(), allowed, x);
        let k = choose|k: int| 0 <= k < us.drop_last().len() && us.drop_last()[k] == x;
        assert(us[k] == x);
    } else {
        assert(us[us.len() - 1] == x);
    }
}

/// Every unknown name that is not allowed is rejected.
pub proof fn law_unlisted_unknown_is_rejected(us: Seq<Seq<char>>, allowed: Seq<Seq<char>>, x: Seq<char>)
    requires
        us.contains(x),
        !allowed.contains(x),
    ensures
        rejected_spec(us, allowed).contains(x),
    decreases us.len(),
{
    if us.last() == x {
        assert(rejected_spec(us, allowed).last() == x);
    } else {
        let k = choose|k: int| 0 <= k < us.len() && us[k] == x;
        assert(us.drop_last()[k] == x);
        law_unlisted_unknown_is_rejected(us.drop_last(), allowed, x);
        let j = choose|j: int|
            0 <= j < rejected_spec(us.drop_last(), allowed).len() && rejected_spec(us.drop_last(), allowed)[j] == x;
        let prev = rejected_spec(us.drop_last(), allowed);
        if !allowed.contains(us.last()) {
            assert(prev.push(us.last())[j] == x);
        }
    }
}

// ---------------------------------------------------------------------------
// The function coverage report
// ---------------------------------------------------------------------------

/// The short label of a category in the report.
pub open spec fn category_label_spec(c: Category) -> Seq<char> {
    match c {
        Category::Aggregate => "agg"@,
        Category::String => "str"@,
        Category::Math => "math"@,
        Category::DateTime => "date"@,
        Category::Collection => "coll"@,
        Category::Json => "json"@,
        Category::Hash => "hash"@,
        Category::Bitwise => "bit"@,
        Category::Window => "win"@,
        Category::Cast => "cast"@,
        Category::Null => "null"@,
        Category::Conditional => "cond"@,
        Category::Xpath => "xpath"@,
        Category::Udtf => "udtf"@,
        Category::Context => "ctx"@,
        Category::GaussDbSpecific => "gauss"@,
        Category::Misc => "misc"@,
    }
}

pub fn format_category(c: Category) -> (r: &'static str)
    ensures
        r@ == category_label_spec(c),
{
    match c {
        Category::Aggregate => "agg",
        Category::String => "str",
        Category::Math => "math",
        Category::DateTime => "date",
        Category::Collection => "coll",
        Category::Json => "json",
        Category::Hash => "hash",
        Category::Bitwise => "bit",
        Category::Window => "win",
        Category::Cast => "cast",
        Category::Null => "null",
        Category::Conditional => "cond",
        Category::Xpath => "xpath",
        Category::Udtf => "udtf",
        Category::Context => "ctx",
        Category::GaussDbSpecific => "gauss",
        Category::Misc => "misc",
    }
}

/// The category labels in the order the report groups them (sorted).
pub open spec fn report_labels() -> Seq<Seq<char>> {
    seq![
        "agg"@, "bit"@, "cast"@, "coll"@, "cond"@, "ctx"@, "date"@, "gauss"@, "hash"@, "json"@, "math"@,
        "misc"@, "null"@, "str"@, "udtf"@, "win"@, "xpath"@,
    ]
}

fn report_label_list() -> (r: Vec<&'static str>)
    ensures
        r@.map_values(|s: &'static str| s@) == report_labels(),
{
    let v = vec![
        "agg", "bit", "cast", "coll", "cond", "ctx", "date", "gauss", "hash", "json", "math", "misc", "null",
        "str", "udtf", "win", "xpath",
    ];
    assert(v@.map_values(|s: &'static str| s@) =~= report_labels());
    v
}

/// `s` padded with spaces to `w` characters (`{:<w}`).
pub open spec fn pad_spec(s: Seq<char>, w: nat) -> Seq<char> {
    if s.len() >= w {
        s
    } else {
        s + Seq::new((w - s.len()) as nat, |i: int| ' ')
    }
}

pub fn pad(s: &str, w: usize) -> (r: Vec<char>)
    ensures
        r@ == pad_spec(s@, w as nat),
{
    let mut v = str_chars(s);
    let ghost s0 = v@;
    while v.len() < w
        invariant
            s0 == s@,
            s0.len() <= v.len(),
            v@.take(s0.len() as int) == s0,
            forall|k: int| s0.len() <= k < v.len() ==> v@[k] == ' ',
            v.len() <= w || v.len() == s0.len(),
        decreases w - v.len(),
    {
        v.push(' ');
    }
    proof {
        if s0.len() < w {
            assert(v@ =~= s0 + Seq::new((w - s0.len()) as nat, |i: int| ' '));
        } else {
            assert(v@ =~= s0);
        }
    }
    v
}

/// How the report names a disposition.
pub open spec fn report_disposition(d: Disposition) -> Seq<char> {
    match d {
        Disposition::Passthrough => "passthrough"@,
        Disposition::Rename(n) => "=> "@ + n@,
        Disposition::CustomRewrite => "custom"@,
        Disposition::UnsupportedBySpark => "UNSUPPORTED"@,
    }
}

/// One line of the report: name, disposition and category in padded
/// columns, then the note.
pub open spec fn report_line_spec(e: FunctionEntry) -> Seq<char> {
    pad_spec(e.lower_name@, 24) + " "@ + pad_spec(report_disposition(e.disposition), 14) + " "@ + pad_spec(
        category_label_spec(e.category),
        6,
    ) + " "@ + e.notes@
}

pub fn report_line(e: FunctionEntry) -> (r: String)
    ensures
        r@ == report_line_spec(e),
{
    let disp = match e.disposition {
        Disposition::Passthrough => string_from_chars(str_chars("passthrough")),
        Disposition::Rename(n) => {
            let mut v = str_chars("=> ");
            push_all(&mut v, &str_chars(n));
            string_from_chars(v)
        },
        Disposition::CustomRewrite => string_from_chars(str_chars("custom")),
        Disposition::UnsupportedBySpark => string_from_chars(str_chars("UNSUPPORTED")),
    };
    let mut out = pad(e.lower_name, 24);
    push_all(&mut out, &str_chars(" "));
    push_all(&mut out, &pad(disp.as_str(), 14));
    push_all(&mut out, &str_chars(" "));
    push_all(&mut out, &pad(format_category(e.category), 6));
    push_all(&mut out, &str_chars(" "));
    push_all(&mut out, &str_chars(e.notes));
    string_from_chars(out)
}

/// The lines of the entries with category label `l`, in order.
pub open spec fn lines_with(es: Seq<FunctionEntry>, l: Seq<char>) -> Seq<Seq<char>>
    decreases es.len(),
{
    if es.len() == 0 {
        Seq::empty()
    } else {
        let prev = lines_with(es.drop_last(), l);
        if category_label_spec(es.last().category) == l {
            prev.push(report_line_spec(es.last()))
        } else {
            prev
        }
    }
}

/// The lines grouped by label, groups in the order of `ls`.
pub open spec fn grouped_lines(ls: Seq<Seq<char>>, es: Seq<FunctionEntry>) -> Seq<Seq<char>>
    decreases ls.len(),
{
    if ls.len() == 0 {
        Seq::empty()
    } else {
        grouped_lines(ls.drop_last(), es) + lines_with(es, ls.last())
    }
}

/// The names of entries, in order.
pub open spec fn entry_names(es: Seq<FunctionEntry>) -> Seq<Seq<char>> {
    es.map_values(|e: FunctionEntry| e.lower_name@)
}

/// The entries of the registry: one per name (the last row registered
/// under it), sorted by name.
pub open spec fn distinct_entries_ok(es: Seq<FunctionEntry>) -> bool {
    &&& strictly_sorted(entry_names(es))
    &&& forall|x: Seq<char>|
        #[trigger] entry_names(es).contains(x) <==> exists|i: int|
            0 <= i < registry_spec().len() && (#[trigger] registry_spec()[i]).lower_name@ == x
    &&& forall|i: int| 0 <= i < es.len() ==> lookup_in(registry_spec(), (#[trigger] es[i]).lower_name@) == Some(es[i])
}

/// The registry's entries, one per name, sorted by name.
fn distinct_entries() -> (r: Vec<FunctionEntry>)
    ensures
        distinct_entries_ok(r@),
{
    let reg = registry();
    let mut names: Vec<String> = Vec::new();
    let mut i: usize = 0;
    while i < reg.len()
        invariant
            i <= reg.len(),
            reg@ == registry_spec(),
            strictly_sorted(strings_view(names@)),
            forall|x: Seq<char>|
                #[trigger] strings_view(names@).contains(x) <==> exists|k: int| 0 <= k < i && (#[trigger] reg@[k]).lower_name@ == x,
        decreases reg.len() - i,
    {
        insert_sorted(&mut names, string_from_chars(str_chars(reg[i].lower_name)));
        proof {
            assert forall|x: Seq<char>|
                #[trigger] strings_view(names@).contains(x) <==> exists|k: int|
                    0 <= k < i + 1 && (#[trigger] reg@[k]).lower_name@ == x by {
                if x == reg@[i as int].lower_name@ {
                    assert(reg@[i as int].lower_name@ == x);
                }
            }
        }
        i = i + 1;
    }
    let ghost nv = strings_view(names@);
    let mut out: Vec<FunctionEntry> = Vec::new();
    let mut j: usize = 0;
    while j < names.len()
        invariant
            j <= names.len(),
            reg@ == registry_spec(),
            nv == strings_view(names@),
            forall|x: Seq<char>|
                #[trigger] nv.contains(x) <==> exists|k: int| 0 <= k < reg.len() && (#[trigger] reg@[k]).lower_name@ == x,
            out.len() == j,
            forall|k: int| 0 <= k < j ==> (#[trigger] out@[k]).lower_name@ == nv[k],
            forall|k: int| 0 <= k < j ==> lookup_in(registry_spec(), (#[trigger] out@[k]).lower_name@) == Some(out@[k]),
        decreases names.len() - j,
    {
        let key = str_chars(names[j].as_str());
        assert(nv[j as int] == names@[j as int]@);
        assert(nv.contains(key@));
        proof {
            crate::service::handlers::lemma_lookup_found(reg@, key@);
        }
        match crate::service::handlers::entry_named(&reg, &key) {
            Some(e) => {
                out.push(e);
            },
            None => {},
        }
        j = j + 1;
    }
    assert(entry_names(out@) =~= nv);
    out
}

/// The three header lines of the report, for `n` entries.
pub open spec fn report_header(n: nat) -> Seq<Seq<char>> {
    seq![
        "coral-rust function coverage ("@ + dec(n) + " entries)\n"@,
        pad_spec("NAME"@, 24) + " "@ + pad_spec("DISPOSITION"@, 14) + " "@ + pad_spec("CAT"@, 6) + " NOTES"@,
        Seq::new(90, |i: int| '-'),
    ]
}

/// The function coverage report, line by line: a header, then every
/// registered function grouped by category label (labels sorted), names
/// sorted within a group.
pub fn function_catalog_report() -> (r: Vec<String>)
    ensures
        exists|es: Seq<FunctionEntry>|
            distinct_entries_ok(es) && #[trigger] strings_view(r@) == report_header(es.len()) + grouped_lines(
                report_labels(),
                es,
            ),
{
    let es = distinct_entries();
    let mut first = str_chars("coral-rust function coverage (");
    push_all(&mut first, &usize_text(es.len()));
    push_all(&mut first, &str_chars(" entries)\n"));
    let mut second = pad("NAME", 24);
    push_all(&mut second, &str_chars(" "));
    push_all(&mut second, &pad("DISPOSITION", 14));
    push_all(&mut second, &str_chars(" "));
    push_all(&mut second, &pad("CAT", 6));
    push_all(&mut second, &str_chars(" NOTES"));
    let mut dashes: Vec<char> = Vec::new();
    while dashes.len() < 90
        invariant
            dashes.len() <= 90,
            forall|k: int| 0 <= k < dashes.len() ==> dashes@[k] == '-',
        decreases 90 - dashes.len(),
    {
        dashes.push('-');
    }
    assert(dashes@ =~= Seq::new(90, |i: int| '-'));
    let mut out: Vec<String> = Vec::new();
    out.push(string_from_chars(first));
    out.push(string_from_chars(second));
    out.push(string_from_chars(dashes));
    assert(strings_view(out@) =~= report_header(es@.len()));
    let labels = report_label_list();
    let ghost lv = labels@.map_values(|s: &'static str| s@);
    let ghost head = strings_view(out@);
    let mut i: usize = 0;
    while i < labels.len()
        invariant
            i <= labels.len(),
            lv == labels@.map_values(|s: &'static str| s@),
            lv == report_labels(),
            strings_view(out@) == head + grouped_lines(lv.take(i as int), es@),
        decreases labels.len() - i,
    {
        assert(lv.take(i + 1).drop_last() =~= lv.take(i as int));
        assert(lv.take(i + 1).last() == labels@[i as int]@);
        let ghost before = strings_view(out@);
        let mut j: usize = 0;
        while j < es.len()
            invariant
                j <= es.len(),
                i < labels.len(),
                strings_view(out@) == before + lines_with(es@.take(j as int), labels@[i as int]@),
            decreases es.len() - j,
        {
            assert(es@.take(j + 1).drop_last() =~= es@.take(j as int));
            let ghost o = strings_view(out@);
            if equals_str(&str_chars(format_category(es[j].category)), labels[i]) {
                out.push(report_line(es[j]));
                assert(strings_view(out@) =~= o.push(report_line_spec(es@[j as int])));
            }
            j = j + 1;
        }
        assert(es@.take(es.len() as int) =~= es@);
        i = i + 1;
        assert(strings_view(out@) =~= head + grouped_lines(lv.take(i as int), es@));
    }
    assert(lv.take(labels.len() as int) =~= lv);
    out
}

// ---------------------------------------------------------------------------
// The demonstration run
// ---------------------------------------------------------------------------

/// The texts of the demonstration samples.
pub open spec fn smoke_sample_texts() -> Seq<Seq<char>> {
    seq![
        "WITH active_emp AS (
        SELECT id, name, dept_id, salary, mgr_id FROM employees WHERE salary > 0
     )
     SELECT
        d.name || ' / ' || NVL(e.name, 'n/a') AS label,
        COUNT(*) AS headcount,
        SUM(e.salary) AS total_pay,
        CASE WHEN AVG(e.salary) > 100 THEN 'high' ELSE 'low' END AS tier,
        ROW_NUMBER() OVER (PARTITION BY d.id ORDER BY SUM(e.salary) DESC) AS rn
     FROM active_emp e
     LEFT JOIN departments d ON e.dept_id = d.id
     GROUP BY d.id, d.name, e.name
     HAVING COUNT(*) > 0
     ORDER BY SUM(e.salary) DESC"@,
        "SELECT
        id::BIGINT AS id64,
        DECODE(dept_id, 1, 'eng', 2, 'sales', 'other') AS dept_label,
        SUBSTR(name, 1, 3) AS short_name,
        MOD(id, 10) AS bucket
     FROM employees WHERE dept_id IN (1, 2, 3)"@,
        "SELECT id FROM employees WHERE name ~* '^a.*'
     UNION ALL
     SELECT id FROM employees WHERE dept_id IN (SELECT id FROM departments WHERE name ~ 'Eng')"@,
        "MERGE INTO employees t USING departments s ON t.dept_id = s.id
       WHEN MATCHED THEN UPDATE SET name = s.name
       WHEN NOT MATCHED THEN INSERT (id, name) VALUES (s.id, s.name)"@,
        "SELECT id, name FROM employees
       START WITH mgr_id IS NULL CONNECT BY PRIOR id = mgr_id"@,
        "SELECT DISTINCT ON (dept_id) id, dept_id, salary
       FROM employees ORDER BY dept_id, salary DESC"@,
    ]
}

/// The six GaussDB demonstration samples: a CTE with a join, grouping, a
/// window and `NVL`; a `::` cast with `DECODE`, `SUBSTR` and `MOD`; regex
/// operators with a `UNION` and a subquery; a `MERGE`; a `CONNECT BY`; a
/// `DISTINCT ON`.
pub fn smoke_samples() -> (r: Vec<&'static str>)
    ensures
        r@.map_values(|s: &'static str| s@) == smoke_sample_texts(),
{
    let v = vec![
        "WITH active_emp AS (
        SELECT id, name, dept_id, salary, mgr_id FROM employees WHERE salary > 0
     )
     SELECT
        d.name || ' / ' || NVL(e.name, 'n/a') AS label,
        COUNT(*) AS headcount,
        SUM(e.salary) AS total_pay,
        CASE WHEN AVG(e.salary) > 100 THEN 'high' ELSE 'low' END AS tier,
        ROW_NUMBER() OVER (PARTITION BY d.id ORDER BY SUM(e.salary) DESC) AS rn
     FROM active_emp e
     LEFT JOIN departments d ON e.dept_id = d.id
     GROUP BY d.id, d.name, e.name
     HAVING COUNT(*) > 0
     ORDER BY SUM(e.salary) DESC",
        "SELECT
        id::BIGINT AS id64,
        DECODE(dept_id, 1, 'eng', 2, 'sales', 'other') AS dept_label,
        SUBSTR(name, 1, 3) AS short_name,
        MOD(id, 10) AS bucket
     FROM employees WHERE dept_id IN (1, 2, 3)",
        "SELECT id FROM employees WHERE name ~* '^a.*'
     UNION ALL
     SELECT id FROM employees WHERE dept_id IN (SELECT id FROM departments WHERE name ~ 'Eng')",
        "MERGE INTO employees t USING departments s ON t.dept_id = s.id
       WHEN MATCHED THEN UPDATE SET name = s.name
       WHEN NOT MATCHED THEN INSERT (id, name) VALUES (s.id, s.name)",
        "SELECT id, name FROM employees
       START WITH mgr_id IS NULL CONNECT BY PRIOR id = mgr_id",
        "SELECT DISTINCT ON (dept_id) id, dept_id, salary
       FROM employees ORDER BY dept_id, salary DESC",
    ];
    assert(v@.map_values(|s: &'static str| s@) =~= smoke_sample_texts());
    v
}

/// A text indented for the report: every line break followed by two
/// spaces.
pub open spec fn indented(s: Seq<char>) -> Seq<char> {
    replace_all(s, seq!['\n'], seq!['\n', ' ', ' '])
}

fn indent(s: &str) -> (r: Vec<char>)
    ensures
        r@ == indented(s@),
{
    let mut nl: Vec<char> = Vec::new();
    nl.push('\n');
    let mut rep: Vec<char> = Vec::new();
    rep.push('\n');
    rep.push(' ');
    rep.push(' ');
    assert(nl@ =~= seq!['\n']);
    assert(rep@ =~= seq!['\n', ' ', ' ']);
    replace_chars(&str_chars(s), &nl, &rep)
}

/// The demonstration report for a source and a target, one printed line
/// per entry, and whether a sample failed to translate: a header naming
/// both; for each sample its number, its text (trimmed, indented) under
/// the source's label, and its translation under the target's name, or
/// the error.
pub fn smoke_report(source: &str, target: Target) -> (r: (Vec<String>, bool))
    ensures
        r.0.len() == 21,
        r.0@[0]@ == "# source: "@ + source_label_spec(source@),
        r.0@[1]@ == "# target: "@ + target_name(target) + "\n"@,
        r.0@[20]@ == "\n=============== done ==============="@,
        r.1 <==> exists|i: int|
            0 <= i < 6 && parse_count(preprocess_spec(#[trigger] smoke_sample_texts()[i])) is None,
{
    let samples = smoke_samples();
    assert(smoke_sample_texts().len() == 6);
    let label = source_label(source);
    let tname = target.to_string();
    let mut out: Vec<String> = Vec::new();
    let mut l0 = str_chars("# source: ");
    push_all(&mut l0, &str_chars(label));
    out.push(string_from_chars(l0));
    let mut l1 = str_chars("# target: ");
    push_all(&mut l1, &str_chars(tname.as_str()));
    push_all(&mut l1, &str_chars("\n"));
    out.push(string_from_chars(l1));
    let mut any_error = false;
    let mut i: usize = 0;
    while i < samples.len()
        invariant
            i <= samples.len(),
            samples.len() == 6,
            samples@.map_values(|s: &'static str| s@) == smoke_sample_texts(),
            out.len() == 2 + 3 * i,
            out@[0]@ == "# source: "@ + source_label_spec(source@),
            out@[1]@ == "# target: "@ + target_name(target) + "\n"@,
            tname@ == target_name(target),
            any_error <==> exists|k: int|
                0 <= k < i && parse_count(preprocess_spec(#[trigger] smoke_sample_texts()[k])) is None,
        decreases samples.len() - i,
    {
        let mut a = str_chars("\n=============== sample #");
        push_all(&mut a, &usize_text(i + 1));
        push_all(&mut a, &str_chars(" ==============="));
        out.push(string_from_chars(a));
        let mut b = str_chars("[");
        push_all(&mut b, &str_chars(label));
        push_all(&mut b, &str_chars("]\n  "));
        let trimmed = trim_chars(&str_chars(samples[i]));
        push_all(&mut b, &indent(string_from_chars(trimmed).as_str()));
        push_all(&mut b, &str_chars("\n"));
        out.push(string_from_chars(b));
        assert(smoke_sample_texts()[i as int] == samples@[i as int]@);
        let c = match translate_to(samples[i], target) {
            Ok(t) => {
                let mut c = str_chars("[");
                push_all(&mut c, &str_chars(tname.as_str()));
                push_all(&mut c, &str_chars("]\n  "));
                push_all(&mut c, &indent(t.as_str()));
                c
            },
            Err(e) => {
                any_error = true;
                let mut c = str_chars("[ERROR] ");
                push_all(&mut c, &str_chars(e.message().as_str()));
                c
            },
        };
        out.push(string_from_chars(c));
        i = i + 1;
    }
    let mut done = str_chars("\n=============== done ===============");
    out.push(string_from_chars(done));
    (out, any_error)
}


} // verus!
