//! Text-level preprocessor for Oracle / GaussDB `START WITH ... CONNECT BY`
//! hierarchical queries.
//!
//! The PostgreSQL dialect of the parser does not accept this syntax, so the
//! canonical shape
//!
//! ```text
//! SELECT <cols> FROM <table> START WITH <pred> CONNECT BY PRIOR <left> = <right>
//! ```
//!
//! is rewritten into
//!
//! ```text
//! WITH RECURSIVE __coral_connect_by AS (
//!   SELECT * FROM <table> WHERE <pred>
//!   UNION ALL
//!   SELECT <table>.* FROM <table>, __coral_connect_by WHERE __coral_connect_by.<left> = <right>
//! )
//! SELECT <cols> FROM __coral_connect_by
//! ```
//!
//! Anything more complex (multi-table FROM, no `PRIOR`, ...) is left
//! unmodified so that the parser reports it precisely.
use vstd::prelude::*;

use crate::preprocess::keyword::{find_kw, find_kw_from, lemma_find_kw_bounds};
use crate::text::{
    ascii_alnum, is_ascii_alnum, join_chars, join_seq, lit, occurs_at, push_all, seq_eq_ci,
    slice_chars, split_ws, str_chars, string_from_chars, trim_chars, trim_end_char,
    trim_end_char_vec, trim_ws, upper_seq, upper_vec, contains_seq, contains_chars, upper, upper_char,
    ws_tokens,
};

verus! {

pub open spec fn kw_select() -> Seq<char> {
    seq!['S', 'E', 'L', 'E', 'C', 'T']
}

pub open spec fn kw_from() -> Seq<char> {
    seq!['F', 'R', 'O', 'M']
}

pub open spec fn kw_start_with() -> Seq<char> {
    seq!['S', 'T', 'A', 'R', 'T', ' ', 'W', 'I', 'T', 'H']
}

pub open spec fn kw_connect_by() -> Seq<char> {
    seq!['C', 'O', 'N', 'N', 'E', 'C', 'T', ' ', 'B', 'Y']
}

/// The state machine of [`find_top_level_eq`]: position of the first `=`
/// outside quotes and parentheses that is not part of `<=`, `>=` or `!=`.
/// A quote preceded by a backslash does not toggle the quoted state.
pub open spec fn top_eq_from(s: Seq<char>, i: int, depth: nat, in_str: bool, prev: char) -> Option<int>
    decreases s.len() - i,
{
    if i < 0 || i >= s.len() {
        None
    } else {
        let b = s[i];
        if b == '\'' && prev != '\\' {
            top_eq_from(s, i + 1, depth, !in_str, b)
        } else if b == '(' && !in_str {
            top_eq_from(s, i + 1, depth + 1, in_str, b)
        } else if b == ')' && !in_str && depth > 0 {
            top_eq_from(s, i + 1, (depth - 1) as nat, in_str, b)
        } else if b == '=' && !in_str && depth == 0 {
            if prev == '<' || prev == '>' || prev == '!' {
                top_eq_from(s, i + 1, depth, in_str, b)
            } else {
                Some(i)
            }
        } else {
            top_eq_from(s, i + 1, depth, in_str, b)
        }
    }
}

pub open spec fn top_level_eq(s: Seq<char>) -> Option<int> {
    top_eq_from(s, 0, 0, false, '\0')
}

proof fn lemma_top_eq_bounds(s: Seq<char>, i: int, depth: nat, in_str: bool, prev: char)
    ensures
        top_eq_from(s, i, depth, in_str, prev) matches Some(p) ==> 0 <= i <= p < s.len(),
    decreases s.len() - i,
{
    if 0 <= i < s.len() {
        let b = s[i];
        lemma_top_eq_bounds(s, i + 1, depth, !in_str, b);
        lemma_top_eq_bounds(s, i + 1, depth + 1, in_str, b);
        if depth > 0 {
            lemma_top_eq_bounds(s, i + 1, (depth - 1) as nat, in_str, b);
        }
        lemma_top_eq_bounds(s, i + 1, depth, in_str, b);
    }
}

/// Find the first `=` that is at parenthesis depth 0, outside quotes.
fn find_top_level_eq(s: &Vec<char>) -> (r: Option<usize>)
    ensures
        r == (match top_level_eq(s@) {
            Some(p) => Some(p as usize),
            None => None::<usize>,
        }),
        r matches Some(p) ==> p < s.len(),
        top_level_eq(s@) matches Some(p) ==> 0 <= p < s.len(),
{
    proof {
        lemma_top_eq_bounds(s@, 0, 0, false, '\0');
    }
    let mut depth: usize = 0;
    let mut in_string = false;
    let mut prev: char = '\0';
    let mut i: usize = 0;
    while i < s.len()
        invariant
            i <= s.len(),
            depth <= i,
            top_level_eq(s@) == top_eq_from(s@, i as int, depth as nat, in_string, prev),
        decreases s.len() - i,
    {
        let b = s[i];
        if b == '\'' && prev != '\\' {
            in_string = !in_string;
        } else if b == '(' && !in_string {
            depth = depth + 1;
        } else if b == ')' && !in_string && depth > 0 {
            depth = depth - 1;
        } else if b == '=' && !in_string && depth == 0 {
            if !(prev == '<' || prev == '>' || prev == '!') {
                return Some(i);
            }
        }
        prev = b;
        i = i + 1;
    }
    None
}

/// A bare (possibly dotted) table name: non-empty after trimming, only ASCII
/// letters, digits, `_` and `.`, and no `..`.
pub open spec fn simple_identifier(s: Seq<char>) -> bool {
    let t = trim_ws(s);
    &&& t.len() > 0
    &&& forall|k: int| 0 <= k < t.len() ==> is_ascii_alnum(#[trigger] t[k]) || t[k] == '_' || t[k] == '.'
    &&& !contains_seq(t, seq!['.', '.'])
}

fn is_simple_identifier(s: &Vec<char>) -> (r: bool)
    ensures
        r == simple_identifier(s@),
{
    let t = trim_chars(s);
    if t.len() == 0 {
        return false;
    }
    let mut k: usize = 0;
    while k < t.len()
        invariant
            t@ == trim_ws(s@),
            k <= t.len(),
            forall|j: int| 0 <= j < k ==> is_ascii_alnum(#[trigger] t@[j]) || t@[j] == '_' || t@[j] == '.',
        decreases t.len() - k,
    {
        let c = t[k];
        if !(ascii_alnum(c) || c == '_' || c == '.') {
            assert(!(is_ascii_alnum(t@[k as int]) || t@[k as int] == '_' || t@[k as int] == '.'));
            return false;
        }
        k = k + 1;
    }
    let dd = lit("..");
    proof {
        reveal_strlit("..");
    }
    assert(dd@ =~= seq!['.', '.']);
    !contains_chars(&t, &dd)
}

/// A word that ends the `PRIOR` condition (a clause the rewrite drops).
pub open spec fn stop_word(w: Seq<char>) -> bool {
    let u = upper_seq(w);
    ||| u == seq!['O', 'R', 'D', 'E', 'R']
    ||| u == seq!['G', 'R', 'O', 'U', 'P']
    ||| u == seq!['L', 'I', 'M', 'I', 'T']
    ||| u == seq!['O', 'F', 'F', 'S', 'E', 'T']
    ||| u == seq!['H', 'A', 'V', 'I', 'N', 'G']
}

/// The words before the first stop word.
pub open spec fn words_before_stop(ws: Seq<Seq<char>>) -> Seq<Seq<char>>
    decreases ws.len(),
{
    if ws.len() == 0 || stop_word(ws[0]) {
        Seq::empty()
    } else {
        seq![ws[0]] + words_before_stop(ws.drop_first())
    }
}

/// The right-hand side of the `PRIOR` condition as the rewrite uses it:
/// its words up to the first stop word, joined by single spaces, with
/// trailing semicolons removed.
pub open spec fn clean_right(r: Seq<char>) -> Seq<char> {
    trim_end_char(trim_ws(join_seq(words_before_stop(ws_tokens(trim_ws(r))), seq![' '])), ';')
}

/// The pieces of a rewritable hierarchical query, or `None` when the input
/// does not have the canonical shape.
pub struct ConnectByParts {
    pub cols: Seq<char>,
    pub table: Seq<char>,
    pub start_pred: Seq<char>,
    pub left: Seq<char>,
    pub right: Seq<char>,
}

pub open spec fn connect_by_parts(s: Seq<char>) -> Option<ConnectByParts> {
    let u = upper_seq(s);
    match find_kw_from(u, kw_select(), 0) {
        None => None,
        Some(sp) => match find_kw_from(u, kw_from(), sp) {
            None => None,
            Some(fp) => match find_kw_from(u, kw_start_with(), fp) {
                None => None,
                Some(swp) => match find_kw_from(u, kw_connect_by(), swp) {
                    None => None,
                    Some(cbp) => {
                        let cols = trim_ws(s.subrange(sp + 6, fp));
                        let table = trim_ws(s.subrange(fp + 4, swp));
                        let start_pred = trim_ws(s.subrange(swp + 10, cbp));
                        let rest = trim_ws(s.skip(cbp + 10));
                        let ru = upper_seq(rest);
                        if !(ru.take(6) == seq!['P', 'R', 'I', 'O', 'R', ' '] && ru.len() >= 6)
                            && !(ru.take(6) == seq!['P', 'R', 'I', 'O', 'R', '\t'] && ru.len() >= 6) {
                            None
                        } else {
                            let cexpr = trim_ws(rest.skip(5));
                            match top_level_eq(cexpr) {
                                None => None,
                                Some(eq) => {
                                    if !simple_identifier(table) {
                                        None
                                    } else {
                                        Some(ConnectByParts {
                                            cols,
                                            table,
                                            start_pred,
                                            left: trim_ws(cexpr.take(eq)),
                                            right: clean_right(cexpr.skip(eq + 1)),
                                        })
                                    }
                                },
                            }
                        }
                    },
                },
            },
        },
    }
}

/// The `WITH RECURSIVE` text built from the pieces.
pub open spec fn connect_by_text(p: ConnectByParts) -> Seq<char> {
    let cte = "__coral_connect_by"@;
    "WITH RECURSIVE "@ + cte + " AS (\n  SELECT * FROM "@ + p.table + " WHERE "@ + p.start_pred
        + "\n  UNION ALL\n  SELECT "@ + p.table + ".* FROM "@ + p.table + ", "@ + cte + " WHERE "@
        + cte + "."@ + p.left + " = "@ + p.right + "\n)\nSELECT "@ + p.cols + " FROM "@ + cte
}

/// What [`rewrite_connect_by`] returns.
pub open spec fn connect_by_spec(s: Seq<char>) -> Seq<char> {
    if find_kw_from(upper_seq(s), kw_connect_by(), 0) is None {
        s
    } else {
        match connect_by_parts(s) {
            Some(p) => connect_by_text(p),
            None => s,
        }
    }
}

fn chars_of(a: &[char]) -> (r: Vec<char>)
    ensures
        r@ == a@,
{
    let mut v: Vec<char> = Vec::new();
    let mut k: usize = 0;
    while k < a.len()
        invariant
            k <= a.len(),
            v@ == a@.take(k as int),
        decreases a.len() - k,
    {
        v.push(a[k]);
        k = k + 1;
        assert(v@ =~= a@.take(k as int));
    }
    assert(a@.take(a.len() as int) =~= a@);
    v
}

fn is_stop_word(w: &Vec<char>) -> (r: bool)
    ensures
        r == stop_word(w@),
{
    let u = upper_vec(w);
    let order = chars_of(&['O', 'R', 'D', 'E', 'R']);
    let group = chars_of(&['G', 'R', 'O', 'U', 'P']);
    let limit = chars_of(&['L', 'I', 'M', 'I', 'T']);
    let offset = chars_of(&['O', 'F', 'F', 'S', 'E', 'T']);
    let having = chars_of(&['H', 'A', 'V', 'I', 'N', 'G']);
    assert(order@ =~= seq!['O', 'R', 'D', 'E', 'R']);
    assert(group@ =~= seq!['G', 'R', 'O', 'U', 'P']);
    assert(limit@ =~= seq!['L', 'I', 'M', 'I', 'T']);
    assert(offset@ =~= seq!['O', 'F', 'F', 'S', 'E', 'T']);
    assert(having@ =~= seq!['H', 'A', 'V', 'I', 'N', 'G']);
    same(&u, &order) || same(&u, &group) || same(&u, &limit) || same(&u, &offset) || same(
        &u,
        &having,
    )
}

/// Exact equality of two character vectors.
pub fn same(a: &Vec<char>, b: &Vec<char>) -> (r: bool)
    ensures
        r == (a@ == b@),
{
    if a.len() != b.len() {
        return false;
    }
    let mut k: usize = 0;
    while k < a.len()
        invariant
            a.len() == b.len(),
            k <= a.len(),
            forall|j: int| 0 <= j < k ==> a@[j] == b@[j],
        decreases a.len() - k,
    {
        if a[k] != b[k] {
            assert(a@[k as int] != b@[k as int]);
            return false;
        }
        k = k + 1;
    }
    assert(a@ =~= b@);
    true
}

fn clean_right_exec(r: &Vec<char>) -> (out: Vec<char>)
    ensures
        out@ == clean_right(r@),
{
    let words = split_ws(&trim_chars(r));
    let ghost ws = words@.map_values(|v: Vec<char>| v@);
    let mut kept: Vec<Vec<char>> = Vec::new();
    let mut i: usize = 0;
    assert(ws.skip(0) =~= ws);
    assert(kept@.map_values(|v: Vec<char>| v@) =~= Seq::<Seq<char>>::empty());
    while i < words.len() && !is_stop_word(&words[i])
        invariant
            i <= words.len(),
            ws == words@.map_values(|v: Vec<char>| v@),
            words_before_stop(ws) == kept@.map_values(|v: Vec<char>| v@) + words_before_stop(ws.skip(i as int)),
        decreases words.len() - i,
    {
        let ghost old_kept = kept@.map_values(|v: Vec<char>| v@);
        assert(ws.skip(i as int)[0] == words@[i as int]@);
        assert(ws.skip(i as int).drop_first() =~= ws.skip(i + 1));
        kept.push(words[i].clone());
        assert(kept@.map_values(|v: Vec<char>| v@) =~= old_kept + seq![ws.skip(i as int)[0]]);
        i = i + 1;
    }
    proof {
        if i < words.len() {
            assert(ws.skip(i as int)[0] == words@[i as int]@);
        }
        assert(words_before_stop(ws.skip(i as int)) =~= Seq::<Seq<char>>::empty());
        assert(kept@.map_values(|v: Vec<char>| v@) + Seq::<Seq<char>>::empty() =~= kept@.map_values(|v: Vec<char>| v@));
    }
    let sp = chars_of(&[' ']);
    assert(sp@ =~= seq![' ']);
    let joined = join_chars(&kept, &sp);
    trim_end_char_vec(&trim_chars(&joined), ';')
}

proof fn lemma_kw_gap(u: Seq<char>, a: int, ka: Seq<char>, b: int, kb: Seq<char>)
    requires
        occurs_at(u, a, ka),
        occurs_at(u, b, kb),
        a <= b,
        kb.len() > 0,
        forall|k: int| 0 <= k < ka.len() ==> ka[k] != kb[0],
    ensures
        a + ka.len() <= b,
{
    if b < a + ka.len() {
        assert(u.subrange(a, a + ka.len())[b - a] == u[b]);
        assert(u.subrange(b, b + kb.len())[0] == u[b]);
    }
}

/// Builds the pieces of the rewrite, or `None` when the shape does not fit.
fn try_parts(s: &Vec<char>) -> (r: Option<(Vec<char>, Vec<char>, Vec<char>, Vec<char>, Vec<char>)>)
    ensures
        match connect_by_parts(s@) {
            None => r is None,
            Some(p) => r matches Some(t) && t.0@ == p.cols && t.1@ == p.table && t.2@ == p.start_pred
                && t.3@ == p.left && t.4@ == p.right,
        },
{
    let u = upper_vec(s);
    let k_select = chars_of(&['S', 'E', 'L', 'E', 'C', 'T']);
    let k_from = chars_of(&['F', 'R', 'O', 'M']);
    let k_sw = chars_of(&['S', 'T', 'A', 'R', 'T', ' ', 'W', 'I', 'T', 'H']);
    let k_cb = chars_of(&['C', 'O', 'N', 'N', 'E', 'C', 'T', ' ', 'B', 'Y']);
    assert(k_select@ =~= kw_select());
    assert(k_from@ =~= kw_from());
    assert(k_sw@ =~= kw_start_with());
    assert(k_cb@ =~= kw_connect_by());
    let sp = match find_kw(&u, &k_select, 0) {
        Some(p) => p,
        None => return None,
    };
    let fp = match find_kw(&u, &k_from, sp) {
        Some(p) => p,
        None => return None,
    };
    let swp = match find_kw(&u, &k_sw, fp) {
        Some(p) => p,
        None => return None,
    };
    let cbp = match find_kw(&u, &k_cb, swp) {
        Some(p) => p,
        None => return None,
    };
    proof {
        lemma_find_kw_bounds(u@, kw_select(), 0);
        lemma_find_kw_bounds(u@, kw_from(), sp as int);
        lemma_find_kw_bounds(u@, kw_start_with(), fp as int);
        lemma_find_kw_bounds(u@, kw_connect_by(), swp as int);
        lemma_kw_gap(u@, sp as int, kw_select(), fp as int, kw_from());
        lemma_kw_gap(u@, fp as int, kw_from(), swp as int, kw_start_with());
        lemma_kw_gap(u@, swp as int, kw_start_with(), cbp as int, kw_connect_by());
    }
    let cols = trim_chars(&slice_chars(s, sp + 6, fp));
    let table = trim_chars(&slice_chars(s, fp + 4, swp));
    let start_pred = trim_chars(&slice_chars(s, swp + 10, cbp));
    let after = slice_chars(s, cbp + 10, s.len());
    assert(after@ =~= s@.skip(cbp + 10));
    let rest = trim_chars(&after);
    let ru = upper_vec(&rest);
    let p1 = chars_of(&['P', 'R', 'I', 'O', 'R', ' ']);
    let p2 = chars_of(&['P', 'R', 'I', 'O', 'R', '\t']);
    assert(p1@ =~= seq!['P', 'R', 'I', 'O', 'R', ' ']);
    assert(p2@ =~= seq!['P', 'R', 'I', 'O', 'R', '\t']);
    let mut ok1 = false;
    let mut ok2 = false;
    if ru.len() >= 6 {
        let head = slice_chars(&ru, 0, 6);
        assert(head@ =~= ru@.take(6));
        ok1 = same(&head, &p1);
        ok2 = same(&head, &p2);
    }
    if !ok1 && !ok2 {
        return None;
    }
    let after_prior = slice_chars(&rest, 5, rest.len());
    assert(after_prior@ =~= rest@.skip(5));
    let cexpr = trim_chars(&after_prior);
    let eq = match find_top_level_eq(&cexpr) {
        Some(e) => e,
        None => return None,
    };
    let lpart = slice_chars(&cexpr, 0, eq);
    assert(lpart@ =~= cexpr@.take(eq as int));
    let left = trim_chars(&lpart);
    let rside = slice_chars(&cexpr, eq + 1, cexpr.len());
    assert(rside@ =~= cexpr@.skip(eq + 1));
    let right = clean_right_exec(&rside);
    if !is_simple_identifier(&table) {
        return None;
    }
    Some((cols, table, start_pred, left, right))
}

fn connect_by_text_exec(
    cols: &Vec<char>,
    table: &Vec<char>,
    pred: &Vec<char>,
    left: &Vec<char>,
    right: &Vec<char>,
) -> (r: Vec<char>)
    ensures
        r@ == connect_by_text(
            ConnectByParts {
                cols: cols@,
                table: table@,
                start_pred: pred@,
                left: left@,
                right: right@,
            },
        ),
{
    let cte = lit("__coral_connect_by");
    let mut out = lit("WITH RECURSIVE ");
    push_all(&mut out, &cte);
    push_all(&mut out, &lit(" AS (\n  SELECT * FROM "));
    push_all(&mut out, table);
    push_all(&mut out, &lit(" WHERE "));
    push_all(&mut out, pred);
    push_all(&mut out, &lit("\n  UNION ALL\n  SELECT "));
    push_all(&mut out, table);
    push_all(&mut out, &lit(".* FROM "));
    push_all(&mut out, table);
    push_all(&mut out, &lit(", "));
    push_all(&mut out, &cte);
    push_all(&mut out, &lit(" WHERE "));
    push_all(&mut out, &cte);
    push_all(&mut out, &lit("."));
    push_all(&mut out, left);
    push_all(&mut out, &lit(" = "));
    push_all(&mut out, right);
    push_all(&mut out, &lit("\n)\nSELECT "));
    push_all(&mut out, cols);
    push_all(&mut out, &lit(" FROM "));
    push_all(&mut out, &cte);
    out
}

/// Rewrite a `START WITH ... CONNECT BY PRIOR` query into `WITH RECURSIVE`.
/// Returns the input unchanged when it has no `CONNECT BY` keyword or the
/// shape is more complex than the rewrite handles.
pub fn rewrite_connect_by(input: &str) -> (r: String)
    ensures
        r@ == connect_by_spec(input@),
{
    let s = str_chars(input);
    let u = upper_vec(&s);
    let k_cb = chars_of(&['C', 'O', 'N', 'N', 'E', 'C', 'T', ' ', 'B', 'Y']);
    assert(k_cb@ =~= kw_connect_by());
    if find_kw(&u, &k_cb, 0).is_none() {
        return string_from_chars(s);
    }
    match try_parts(&s) {
        Some((cols, table, pred, left, right)) => string_from_chars(
            connect_by_text_exec(&cols, &table, &pred, &left, &right),
        ),
        None => string_from_chars(s),
    }
}

} // verus!
