//! Predicate push-down analysis of Spark plan text.
//!
//! Takes the plain text that `EXPLAIN` prints, finds each scan node, and
//! reports the pushed-down predicates found on its line, each with a
//! class: simple (comparisons, boolean logic, `IN`, null tests) or
//! complicated (a function call, `CASE`, a cast, a subquery).
use vstd::prelude::*;

use crate::sql::ast::{parse_sql_text, parse_count, ExprTag};
use crate::text::{
    find_from, first_occ, is_alphanumeric, char_alphanumeric, lines_of, lines_vec, push_all,
    slice_chars, split_ws, str_chars, string_from_chars, trim_chars, trim_start_by,
    trim_start_chars, trim_ws, upper_seq, upper_vec, ws_tokens,
};
use core::ops::ControlFlow;
use sqlparser::ast::Expr;

verus! {

/// Class on one predicate.
#[derive(Debug, Clone, Copy, PartialEq, Eq)]
pub enum PredicateClass {
    /// Comparisons, boolean logic, `IN`, `BETWEEN`, null tests.
    Simple,
    /// A function call, `CASE`, a cast or a subquery.
    Complicated,
    /// The text did not parse as an expression.
    Unparseable,
}

/// One predicate of one scan node.
#[derive(Debug)]
pub struct PredicateFinding {
    /// The predicate as it appears in the plan.
    pub predicate: String,
    pub class: PredicateClass,
}

/// A scan node: its table (`db.table` when the plan names the database)
/// and its predicates in plan order.
#[derive(Debug)]
pub struct PlanPredicateInfo {
    pub table: String,
    pub predicates: Vec<PredicateFinding>,
}

// ---------------------------------------------------------------------------
// Classifying one predicate
// ---------------------------------------------------------------------------

/// The wrapper names Spark prints for predicates that started life as
/// operators; they count as simple.
pub open spec fn plan_only_simple(u: Seq<char>) -> bool {
    u == "ISNULL"@ || u == "ISNOTNULL"@ || u == "EQUALTO"@ || u == "NOTEQUALTO"@ || u == "LESSTHAN"@
        || u == "LESSTHANOREQUAL"@ || u == "GREATERTHAN"@ || u == "GREATERTHANOREQUAL"@ || u == "IN"@
        || u == "NOT"@ || u == "AND"@ || u == "OR"@ || u == "EQUALNULLSAFE"@ || u == "STARTSWITH"@
        || u == "ENDSWITH"@ || u == "STRINGSTARTSWITH"@ || u == "STRINGENDSWITH"@ || u == "STRINGCONTAINS"@
}

fn is_plan_only_simple(u: &Vec<char>) -> (r: bool)
    ensures
        r == plan_only_simple(u@),
{
    let names = [
        "ISNULL", "ISNOTNULL", "EQUALTO", "NOTEQUALTO", "LESSTHAN", "LESSTHANOREQUAL", "GREATERTHAN",
        "GREATERTHANOREQUAL", "IN", "NOT", "AND", "OR", "EQUALNULLSAFE", "STARTSWITH", "ENDSWITH",
        "STRINGSTARTSWITH", "STRINGENDSWITH", "STRINGCONTAINS",
    ];
    let mut i: usize = 0;
    while i < 18
        invariant
            i <= 18,
            names@ == seq![
                "ISNULL", "ISNOTNULL", "EQUALTO", "NOTEQUALTO", "LESSTHAN", "LESSTHANOREQUAL", "GREATERTHAN",
                "GREATERTHANOREQUAL", "IN", "NOT", "AND", "OR", "EQUALNULLSAFE", "STARTSWITH", "ENDSWITH",
                "STRINGSTARTSWITH", "STRINGENDSWITH", "STRINGCONTAINS",
            ],
            forall|j: int| 0 <= j < i ==> u@ != (#[trigger] names@[j])@,
        decreases 18 - i,
    {
        if crate::preprocess::connect_by::same(u, &str_chars(names[i])) {
            return true;
        }
        i = i + 1;
    }
    assert(!plan_only_simple(u@)) by {
        assert(u@ != names@[0]@ && u@ != names@[1]@ && u@ != names@[2]@ && u@ != names@[3]@);
        assert(u@ != names@[4]@ && u@ != names@[5]@ && u@ != names@[6]@ && u@ != names@[7]@);
        assert(u@ != names@[8]@ && u@ != names@[9]@ && u@ != names@[10]@ && u@ != names@[11]@);
        assert(u@ != names@[12]@ && u@ != names@[13]@ && u@ != names@[14]@ && u@ != names@[15]@);
        assert(u@ != names@[16]@ && u@ != names@[17]@);
    }
    false
}

/// `NAME` when `s` has the shape `NAME(...)`: the text before the first
/// `(`, trimmed, non-empty and made of alphanumeric characters and `_`.
pub open spec fn outermost_call_name(s: Seq<char>) -> Option<Seq<char>> {
    match first_occ(s, seq!['('], 0) {
        None => None,
        Some(open) => {
            let head = trim_ws(s.take(open));
            if head.len() > 0 && forall|i: int| 0 <= i < head.len() ==> (char_alphanumeric(#[trigger] head[i]) || head[i] == '_') {
                Some(head)
            } else {
                None
            }
        },
    }
}

fn call_name(s: &Vec<char>) -> (r: Option<Vec<char>>)
    ensures
        match (r, outermost_call_name(s@)) {
            (Some(a), Some(b)) => a@ == b,
            (None, None) => true,
            _ => false,
        },
{
    let mut open: Vec<char> = Vec::new();
    open.push('(');
    assert(open@ =~= seq!['(']);
    let p = match find_from(s, &open, 0) {
        Some(p) => p,
        None => {
            return None;
        },
    };
    let head = trim_chars(&slice_chars(s, 0, p));
    assert(s@.subrange(0, p as int) =~= s@.take(p as int));
    if head.len() == 0 {
        return None;
    }
    let mut i: usize = 0;
    while i < head.len()
        invariant
            i <= head.len(),
            head@ == trim_ws(s@.take(p as int)),
            first_occ(s@, seq!['('], 0) == Some(p as int),
            forall|j: int| 0 <= j < i ==> (char_alphanumeric(#[trigger] head@[j]) || head@[j] == '_'),
        decreases head.len() - i,
    {
        let c = head[i];
        if !(is_alphanumeric(c) || c == '_') {
            assert(!(char_alphanumeric(head@[i as int]) || head@[i as int] == '_'));
            assert(trim_ws(s@.take(p as int)) == head@);
            return None;
        }
        i = i + 1;
    }
    assert(trim_ws(s@.take(p as int)) == head@);
    Some(head)
}

/// The text a predicate is parsed in: `SELECT 1 WHERE <predicate>`.
pub open spec fn wrapped_predicate(s: Seq<char>) -> Seq<char> {
    "SELECT 1 WHERE "@ + s
}

/// The expression kinds that make a predicate complicated: calls
/// (including the built-ins the parser gives their own node), `CASE`,
/// casts and subqueries.
pub open spec fn is_complicated(t: ExprTag) -> bool {
    !(t is Other)
}

/// Stop the walk at a complicated expression.
pub fn complication_class(t: ExprTag) -> (r: ControlFlow<()>)
    ensures
        r is Break <==> is_complicated(t),
{
    match t {
        ExprTag::Other => ControlFlow::Continue(()),
        _ => ControlFlow::Break(()),
    }
}

/// One step of the walk that looks for a complicated expression.
pub fn complication_step(e: &Expr) -> ControlFlow<()> {
    complication_class(crate::sql::ast::expr_tag(e))
}

/// Classify one predicate. An empty predicate is unparseable; a Spark
/// wrapper predicate (`IsNotNull(x)`, `EqualTo(a, b)`, ...) is simple;
/// otherwise the predicate is parsed as `SELECT 1 WHERE <predicate>`: text
/// that does not parse is unparseable, and parsed text is complicated when
/// any expression in it is a call, `CASE`, cast or subquery.
pub fn classify_predicate(predicate: &str) -> (r: PredicateClass)
    ensures
        ({
            let s = trim_ws(predicate@);
            if s.len() == 0 {
                r == PredicateClass::Unparseable
            } else if outermost_call_name(s) matches Some(n) && plan_only_simple(upper_seq(n)) {
                r == PredicateClass::Simple
            } else if parse_count(wrapped_predicate(s)) is None {
                r == PredicateClass::Unparseable
            } else {
                r != PredicateClass::Unparseable
            }
        }),
{
    let s = trim_chars(&str_chars(predicate));
    if s.len() == 0 {
        return PredicateClass::Unparseable;
    }
    if let Some(n) = call_name(&s) {
        if is_plan_only_simple(&upper_vec(&n)) {
            return PredicateClass::Simple;
        }
    }
    let mut wrapped = str_chars("SELECT 1 WHERE ");
    push_all(&mut wrapped, &s);
    let text = string_from_chars(wrapped);
    match parse_sql_text(text.as_str()) {
        Ok(stmts) => {
            if crate::sql::ast::any_complicated_expr(&stmts) {
                PredicateClass::Complicated
            } else {
                PredicateClass::Simple
            }
        },
        Err(_) => PredicateClass::Unparseable,
    }
}

// ---------------------------------------------------------------------------
// Scanning plan text
// ---------------------------------------------------------------------------

/// Leading plan-tree drawing characters: space, `+`, `-`, `|`.
pub open spec fn is_tree_char(c: char) -> bool {
    c == ' ' || c == '+' || c == '-' || c == '|'
}

pub open spec fn strip_tree_prefix(s: Seq<char>) -> Seq<char>
    decreases s.len(),
{
    if s.len() > 0 && is_tree_char(s[0]) {
        strip_tree_prefix(s.drop_first())
    } else {
        s
    }
}

fn strip_tree_prefix_exec(s: &Vec<char>) -> (r: Vec<char>)
    ensures
        r@ == strip_tree_prefix(s@),
{
    let mut i: usize = 0;
    assert(s@.skip(0) =~= s@);
    while i < s.len() && (s[i] == ' ' || s[i] == '+' || s[i] == '-' || s[i] == '|')
        invariant
            i <= s.len(),
            strip_tree_prefix(s@) == strip_tree_prefix(s@.skip(i as int)),
        decreases s.len() - i,
    {
        assert(s@.skip(i as int).drop_first() =~= s@.skip(i + 1));
        i = i + 1;
    }
    let r = slice_chars(s, i, s.len());
    assert(r@ =~= s@.skip(i as int));
    r
}

/// The keywords that mark a scan node.
pub open spec fn looks_like_scan(l: Seq<char>) -> bool {
    let t = trim_ws(l);
    crate::text::contains_seq(t, "Scan "@) || crate::text::contains_seq(t, "FileScan "@)
        || crate::text::contains_seq(t, "HiveTableScan"@) || crate::text::contains_seq(t, "BatchScan "@)
        || crate::text::contains_seq(t, "*(1) Scan"@)
}

fn looks_like_scan_exec(l: &Vec<char>) -> (r: bool)
    ensures
        r == looks_like_scan(l@),
{
    let t = trim_chars(l);
    crate::text::contains_chars(&t, &str_chars("Scan ")) || crate::text::contains_chars(&t, &str_chars("FileScan "))
        || crate::text::contains_chars(&t, &str_chars("HiveTableScan")) || crate::text::contains_chars(
        &t,
        &str_chars("BatchScan "),
    ) || crate::text::contains_chars(&t, &str_chars("*(1) Scan"))
}

/// What follows the first scan keyword found (tried in the order `Scan `,
/// `FileScan `, `HiveTableScan`, `BatchScan `), leading whitespace dropped.
pub open spec fn after_scan_keyword(l: Seq<char>) -> Option<Seq<char>> {
    match first_occ(l, "Scan "@, 0) {
        Some(i) => Some(trim_start_by(l.skip(i + 4))),
        None => match first_occ(l, "FileScan "@, 0) {
            Some(i) => Some(trim_start_by(l.skip(i + 8))),
            None => match first_occ(l, "HiveTableScan"@, 0) {
                Some(i) => Some(trim_start_by(l.skip(i + 13))),
                None => match first_occ(l, "BatchScan "@, 0) {
                    Some(i) => Some(trim_start_by(l.skip(i + 9))),
                    None => None,
                },
            },
        },
    }
}

fn find_kw_skip(l: &Vec<char>, kw: &str, keep: usize) -> (r: Option<Vec<char>>)
    requires
        keep <= kw@.len(),
    ensures
        match r {
            Some(v) => first_occ(l@, kw@, 0) matches Some(i) && v@ == trim_start_by(l@.skip(i + keep)),
            None => first_occ(l@, kw@, 0) is None,
        },
{
    let k = str_chars(kw);
    match find_from(l, &k, 0) {
        Some(i) => {
            assert(i + k.len() <= l.len());
            let rest = slice_chars(l, i + keep, l.len());
            assert(rest@ =~= l@.skip(i + keep));
            Some(trim_start_chars(&rest))
        },
        None => None,
    }
}

fn after_scan_keyword_exec(l: &Vec<char>) -> (r: Option<Vec<char>>)
    ensures
        match (r, after_scan_keyword(l@)) {
            (Some(a), Some(b)) => a@ == b,
            (None, None) => true,
            _ => false,
        },
{
    proof {
        reveal_strlit("Scan ");
        reveal_strlit("FileScan ");
        reveal_strlit("HiveTableScan");
        reveal_strlit("BatchScan ");
    }
    if let Some(v) = find_kw_skip(l, "Scan ", 4) {
        return Some(v);
    }
    if let Some(v) = find_kw_skip(l, "FileScan ", 8) {
        return Some(v);
    }
    if let Some(v) = find_kw_skip(l, "HiveTableScan", 13) {
        return Some(v);
    }
    find_kw_skip(l, "BatchScan ", 9)
}

/// The first `[`, `(` or `,`, or the end.
pub open spec fn name_stop(s: Seq<char>, i: int) -> int
    decreases s.len() - i,
{
    if i >= s.len() || i < 0 {
        s.len() as int
    } else if s[i] == '[' || s[i] == '(' || s[i] == ',' {
        i
    } else {
        name_stop(s, i + 1)
    }
}

/// The table of a scan line: the last word before the first `[`, `(` or
/// `,` after the scan keyword.
pub open spec fn extract_table(l: Seq<char>) -> Option<Seq<char>> {
    match after_scan_keyword(l) {
        None => None,
        Some(after) => {
            let words = ws_tokens(trim_ws(after.take(name_stop(after, 0))));
            if words.len() == 0 {
                None
            } else {
                Some(words.last())
            }
        },
    }
}

fn extract_table_exec(l: &Vec<char>) -> (r: Option<Vec<char>>)
    ensures
        match (r, extract_table(l@)) {
            (Some(a), Some(b)) => a@ == b,
            (None, None) => true,
            _ => false,
        },
{
    let after = match after_scan_keyword_exec(l) {
        Some(a) => a,
        None => {
            return None;
        },
    };
    let mut stop: usize = 0;
    while stop < after.len() && !(after[stop] == '[' || after[stop] == '(' || after[stop] == ',')
        invariant
            stop <= after.len(),
            name_stop(after@, 0) == name_stop(after@, stop as int),
        decreases after.len() - stop,
    {
        stop = stop + 1;
    }
    let head = slice_chars(&after, 0, stop);
    assert(head@ =~= after@.take(name_stop(after@, 0)));
    let words = split_ws(&trim_chars(&head));
    if words.len() == 0 {
        return None;
    }
    let last = slice_chars(&words[words.len() - 1], 0, words[words.len() - 1].len());
    assert(last@ =~= words@[words.len() - 1]@);
    assert(words@.map_values(|v: Vec<char>| v@).last() == words@.last()@);
    Some(last)
}

/// Where the bracketed payload that starts `rest` ends: the position after
/// the `]` that closes the first `[`, with brackets inside single-quoted
/// text not counted.
pub open spec fn payload_end(rest: Seq<char>, i: int, depth: int, quoted: bool) -> Option<int>
    decreases rest.len() - i,
{
    if i < 0 || i >= rest.len() {
        None
    } else {
        let c = rest[i];
        if c == '\'' {
            payload_end(rest, i + 1, depth, !quoted)
        } else if c == '[' && !quoted {
            payload_end(rest, i + 1, depth + 1, quoted)
        } else if c == ']' && !quoted {
            if depth - 1 == 0 {
                Some(i + 1)
            } else {
                payload_end(rest, i + 1, depth - 1, quoted)
            }
        } else {
            payload_end(rest, i + 1, depth, quoted)
        }
    }
}

/// `[...]` after `key` on a line: the text from the `[` through its
/// matching `]`.
pub open spec fn bracket_payload(line: Seq<char>, key: Seq<char>) -> Option<Seq<char>> {
    match first_occ(line, key, 0) {
        None => None,
        Some(k) => {
            let rest = trim_start_by(line.skip(k + key.len()));
            if rest.len() == 0 || rest[0] != '[' {
                None
            } else {
                match payload_end(rest, 0, 0, false) {
                    Some(end) => Some(rest.take(end)),
                    None => None,
                }
            }
        },
    }
}

fn bracket_payload_exec(line: &Vec<char>, key: &Vec<char>) -> (r: Option<Vec<char>>)
    ensures
        match (r, bracket_payload(line@, key@)) {
            (Some(a), Some(b)) => a@ == b,
            (None, None) => true,
            _ => false,
        },
{
    let k = match find_from(line, key, 0) {
        Some(k) => k,
        None => {
            return None;
        },
    };
    assert(k + key.len() <= line.len());
    let tail = slice_chars(line, k + key.len(), line.len());
    assert(tail@ =~= line@.skip(k + key.len()));
    let rest = trim_start_chars(&tail);
    if rest.len() == 0 || rest[0] != '[' {
        return None;
    }
    let mut depth: usize = 0;
    let mut quoted = false;
    let mut i: usize = 0;
    while i < rest.len()
        invariant
            i <= rest.len(),
            rest@ == trim_start_by(line@.skip(k + key.len())),
            first_occ(line@, key@, 0) == Some(k as int),
            rest@.len() > 0 && rest@[0] == '[',
            depth <= i,
            (i == 0 && depth == 0 && !quoted) || (i > 0 && depth >= 1),
            payload_end(rest@, 0, 0, false) == payload_end(rest@, i as int, depth as int, quoted),
        decreases rest.len() - i,
    {
        let c = rest[i];
        if c == '\'' {
            quoted = !quoted;
        } else if c == '[' && !quoted {
            depth = depth + 1;
        } else if c == ']' && !quoted {
            if depth == 1 {
                let r = slice_chars(&rest, 0, i + 1);
                assert(r@ =~= rest@.take(i + 1));
                assert(payload_end(rest@, i as int, depth as int, quoted) == Some(i + 1));
                assert(bracket_payload(line@, key@) == Some(rest@.take(i + 1)));
                return Some(r);
            }
            depth = depth - 1;
        }
        i = i + 1;
    }
    assert(payload_end(rest@, i as int, depth as int, quoted) is None);
    assert(bracket_payload(line@, key@) is None);
    None
}

/// The character-level state of the top-level comma split: pieces so far,
/// the current piece, the bracket depth, and whether inside quotes.
pub open spec fn split_state(s: Seq<char>) -> (Seq<Seq<char>>, Seq<char>, int, bool)
    decreases s.len(),
{
    if s.len() == 0 {
        (Seq::empty(), Seq::empty(), 0, false)
    } else {
        let (out, cur, depth, quoted) = split_state(s.drop_last());
        let c = s.last();
        if c == '\'' {
            (out, cur.push(c), depth, !quoted)
        } else if (c == '(' || c == '[') && !quoted {
            (out, cur.push(c), depth + 1, quoted)
        } else if (c == ')' || c == ']') && !quoted {
            (out, cur.push(c), depth - 1, quoted)
        } else if c == ',' && depth == 0 && !quoted {
            let piece = trim_ws(cur);
            (if piece.len() > 0 { out.push(piece) } else { out }, Seq::empty(), depth, quoted)
        } else {
            (out, cur.push(c), depth, quoted)
        }
    }
}

/// The inside of a `[...]` payload (the text itself when it is not
/// bracketed), trimmed.
pub open spec fn payload_inner(s: Seq<char>) -> Seq<char> {
    let t = trim_ws(s);
    if t.len() >= 2 && t[0] == '[' && t.last() == ']' {
        t.subrange(1, t.len() - 1)
    } else {
        t
    }
}

/// The predicates of a payload: split at commas outside brackets,
/// parentheses and quotes, each trimmed, empty pieces dropped.
pub open spec fn split_pushed(s: Seq<char>) -> Seq<Seq<char>> {
    let (out, cur, _, _) = split_state(payload_inner(s));
    let piece = trim_ws(cur);
    if piece.len() > 0 {
        out.push(piece)
    } else {
        out
    }
}

fn split_pushed_exec(s: &Vec<char>) -> (r: Vec<Vec<char>>)
    ensures
        r@.map_values(|v: Vec<char>| v@) == split_pushed(s@),
{
    let t = trim_chars(s);
    let inner = if t.len() >= 2 && t[0] == '[' && t[t.len() - 1] == ']' {
        slice_chars(&t, 1, t.len() - 1)
    } else {
        t
    };
    assert(inner@ == payload_inner(s@));
    let mut out: Vec<Vec<char>> = Vec::new();
    let mut cur: Vec<char> = Vec::new();
    let mut opens: usize = 0;
    let mut closes: usize = 0;
    let mut quoted = false;
    let mut i: usize = 0;
    while i < inner.len()
        invariant
            i <= inner.len(),
            opens <= i,
            closes <= i,
            ({
                let st = split_state(inner@.take(i as int));
                &&& out@.map_values(|v: Vec<char>| v@) == st.0
                &&& cur@ == st.1
                &&& opens - closes == st.2
                &&& quoted == st.3
            }),
        decreases inner.len() - i,
    {
        let c = inner[i];
        assert(inner@.take(i + 1).drop_last() =~= inner@.take(i as int));
        assert(inner@.take(i + 1).last() == c);
        if c == '\'' {
            quoted = !quoted;
            cur.push(c);
        } else if (c == '(' || c == '[') && !quoted {
            opens = opens + 1;
            cur.push(c);
        } else if (c == ')' || c == ']') && !quoted {
            closes = closes + 1;
            cur.push(c);
        } else if c == ',' && opens == closes && !quoted {
            let piece = trim_chars(&cur);
            if piece.len() > 0 {
                let ghost o = out@;
                out.push(piece);
                assert(out@.map_values(|v: Vec<char>| v@) =~= o.map_values(|v: Vec<char>| v@).push(piece@));
            }
            cur = Vec::new();
        } else {
            cur.push(c);
        }
        i = i + 1;
    }
    assert(inner@.take(inner.len() as int) =~= inner@);
    let piece = trim_chars(&cur);
    if piece.len() > 0 {
        let ghost o = out@;
        out.push(piece);
        assert(out@.map_values(|v: Vec<char>| v@) =~= o.map_values(|v: Vec<char>| v@).push(piece@));
    }
    out
}

/// The predicates of a scan line: those of its `PushedFilters: [...]`,
/// else of its `Filters: [...]`, else none.
pub open spec fn line_predicates(line: Seq<char>) -> Seq<Seq<char>> {
    match bracket_payload(line, "PushedFilters:"@) {
        Some(p) => split_pushed(p),
        None => match bracket_payload(line, "Filters:"@) {
            Some(p) => split_pushed(p),
            None => Seq::empty(),
        },
    }
}

/// The scan lines of a plan: each line with its leading tree drawing and
/// surrounding whitespace removed, kept when non-empty and a scan.
pub open spec fn scan_lines(plan: Seq<char>) -> Seq<Seq<char>> {
    lines_of(plan).map_values(|raw: Seq<char>| trim_ws(strip_tree_prefix(raw))).filter(
        |l: Seq<char>| l.len() > 0 && looks_like_scan(l),
    )
}

/// A scan line's table, `unknown` when none is found.
pub open spec fn scan_table(line: Seq<char>) -> Seq<char> {
    match extract_table(line) {
        Some(t) => t,
        None => "unknown"@,
    }
}

fn line_findings(line: &Vec<char>) -> (r: Vec<PredicateFinding>)
    ensures
        r@.map_values(|f: PredicateFinding| f.predicate@) == line_predicates(line@),
        forall|i: int| 0 <= i < r.len() ==> #[trigger] classified(r@[i]),
{
    let pieces = match bracket_payload_exec(line, &str_chars("PushedFilters:")) {
        Some(p) => split_pushed_exec(&p),
        None => match bracket_payload_exec(line, &str_chars("Filters:")) {
            Some(p) => split_pushed_exec(&p),
            None => Vec::new(),
        },
    };
    let mut out: Vec<PredicateFinding> = Vec::new();
    let mut i: usize = 0;
    while i < pieces.len()
        invariant
            i <= pieces.len(),
            out.len() == i,
            forall|j: int| 0 <= j < i ==> #[trigger] out@[j].predicate@ == pieces@[j]@,
            forall|j: int| 0 <= j < i ==> #[trigger] classified(out@[j]),
        decreases pieces.len() - i,
    {
        let p = string_from_chars(slice_chars(&pieces[i], 0, pieces[i].len()));
        assert(p@ =~= pieces@[i as int]@);
        let class = classify_predicate(p.as_str());
        out.push(PredicateFinding { predicate: p, class });
        i = i + 1;
    }
    assert(out@.map_values(|f: PredicateFinding| f.predicate@) =~= pieces@.map_values(|v: Vec<char>| v@));
    out
}

/// A finding carries the class [`classify_predicate`] states for its
/// text.
pub open spec fn classified(f: PredicateFinding) -> bool {
    let s = trim_ws(f.predicate@);
    if s.len() == 0 {
        f.class == PredicateClass::Unparseable
    } else if outermost_call_name(s) matches Some(n) && plan_only_simple(upper_seq(n)) {
        f.class == PredicateClass::Simple
    } else if parse_count(wrapped_predicate(s)) is None {
        f.class == PredicateClass::Unparseable
    } else {
        f.class != PredicateClass::Unparseable
    }
}

/// Every scan node of a plan text, in order: its table and the predicates
/// pushed into it.
pub fn analyze_plan(plan: &str) -> (r: Vec<PlanPredicateInfo>)
    ensures
        r.len() == scan_lines(plan@).len(),
        forall|i: int| 0 <= i < r.len() ==> {
            &&& (#[trigger] r@[i]).table@ == scan_table(scan_lines(plan@)[i])
            &&& r@[i].predicates@.map_values(|f: PredicateFinding| f.predicate@) == line_predicates(scan_lines(plan@)[i])
            &&& forall|j: int| 0 <= j < r@[i].predicates.len() ==> #[trigger] classified(r@[i].predicates@[j])
        },
{
    let lines = lines_vec(&str_chars(plan));
    let ghost views = lines@.map_values(|v: Vec<char>| v@);
    let ghost cleaned = views.map_values(|raw: Seq<char>| trim_ws(strip_tree_prefix(raw)));
    let ghost keep = |l: Seq<char>| l.len() > 0 && looks_like_scan(l);
    let mut out: Vec<PlanPredicateInfo> = Vec::new();
    let mut i: usize = 0;
    while i < lines.len()
        invariant
            i <= lines.len(),
            views == lines@.map_values(|v: Vec<char>| v@),
            views == lines_of(plan@),
            cleaned == views.map_values(|raw: Seq<char>| trim_ws(strip_tree_prefix(raw))),
            keep == (|l: Seq<char>| l.len() > 0 && looks_like_scan(l)),
            out.len() == cleaned.take(i as int).filter(keep).len(),
            forall|k: int| 0 <= k < out.len() ==> {
                &&& (#[trigger] out@[k]).table@ == scan_table(cleaned.take(i as int).filter(keep)[k])
                &&& out@[k].predicates@.map_values(|f: PredicateFinding| f.predicate@) == line_predicates(
                    cleaned.take(i as int).filter(keep)[k],
                )
                &&& forall|j: int| 0 <= j < out@[k].predicates.len() ==> #[trigger] classified(out@[k].predicates@[j])
            },
        decreases lines.len() - i,
    {
        let line = trim_chars(&strip_tree_prefix_exec(&lines[i]));
        assert(line@ == cleaned[i as int]);
        assert(cleaned.take(i + 1) =~= cleaned.take(i as int).push(cleaned[i as int]));
        proof {
            reveal(Seq::filter);
            assert(cleaned.take(i + 1).drop_last() =~= cleaned.take(i as int));
            assert(cleaned.take(i + 1).filter(keep) == if keep(cleaned[i as int]) {
                cleaned.take(i as int).filter(keep).push(cleaned[i as int])
            } else {
                cleaned.take(i as int).filter(keep)
            });
        }
        if line.len() > 0 && looks_like_scan_exec(&line) {
            let table = match extract_table_exec(&line) {
                Some(t) => string_from_chars(t),
                None => string_from_chars(str_chars("unknown")),
            };
            let predicates = line_findings(&line);
            out.push(PlanPredicateInfo { table, predicates });
        }
        i = i + 1;
    }
    assert(cleaned.take(lines.len() as int) =~= cleaned);
    out
}

} // verus!
