//! Text-level preprocessor for Oracle `(+)` outer-join syntax.
//!
//! The two-table form
//!
//! ```text
//! SELECT <cols> FROM a, b WHERE a.id = b.id(+) [AND <other_filter>]
//! ```
//!
//! becomes
//!
//! ```text
//! SELECT <cols> FROM a LEFT JOIN b ON a.id = b.id [WHERE <other_filter>]
//! ```
//!
//! `(+)` on the right of `=` keeps all rows of the left table; on the left
//! of `=` the sides are swapped. Anything more complex (not exactly two
//! tables, several markers, a marker not ending one side of an equality,
//! columns not qualified by the table's alias) is left unchanged.
use vstd::prelude::*;

use crate::preprocess::connect_by::same;
use crate::preprocess::keyword::{find_kw, find_kw_from, lemma_find_kw_bounds};
use crate::text::{
    contains_chars, contains_seq, count_chars, count_occ, ends_with, ends_with_chars, find_from,
    first_occ, join_chars, join_seq, lemma_first_occ, lemma_first_occ_range, lit, occurs_at,
    push_all, replace_all, replace_chars, slice_chars, split_char, split_chars, split_ws,
    starts_with, starts_with_chars, str_chars, string_from_chars, trim_chars, trim_end_char,
    trim_end_char_vec, trim_end_pat, trim_end_pat_vec, trim_end_ws, trim_ws, upper_seq, upper_vec,
    ws_end, ws_tokens, matches_at,
};

verus! {

pub open spec fn plus_after(s: Seq<char>, i: int) -> bool {
    i + 2 < s.len() && s[i + 1] == '+' && s[i + 2] == ')'
}

pub open spec fn plus_before(s: Seq<char>, i: int) -> bool {
    i >= 2 && s[i - 1] == '+' && s[i - 2] == '('
}

/// Position of the first top-level `=` (not in quotes, parentheses other than
/// the `(+)` marker not counted, not part of `<=`, `>=`, `!=`).
pub open spec fn oj_eq_from(s: Seq<char>, i: int, depth: int, in_str: bool, prev: char) -> Option<int>
    decreases s.len() - i,
{
    if i < 0 || i >= s.len() {
        None
    } else {
        let b = s[i];
        if b == '\'' {
            oj_eq_from(s, i + 1, depth, !in_str, b)
        } else if b == '(' && !in_str {
            oj_eq_from(s, i + 1, if plus_after(s, i) { depth } else { depth + 1 }, in_str, b)
        } else if b == ')' && !in_str {
            oj_eq_from(s, i + 1, if plus_before(s, i) { depth } else { depth - 1 }, in_str, b)
        } else if b == '=' && !in_str && depth == 0 && !(prev == '<' || prev == '>' || prev == '!') {
            Some(i)
        } else {
            oj_eq_from(s, i + 1, depth, in_str, b)
        }
    }
}

pub open spec fn oj_eq(s: Seq<char>) -> Option<int> {
    oj_eq_from(s, 0, 0, false, '\0')
}

proof fn lemma_oj_eq_bounds(s: Seq<char>, i: int, depth: int, in_str: bool, prev: char)
    ensures
        oj_eq_from(s, i, depth, in_str, prev) matches Some(p) ==> 0 <= i <= p < s.len(),
    decreases s.len() - i,
{
    if 0 <= i < s.len() {
        let b = s[i];
        lemma_oj_eq_bounds(s, i + 1, depth, !in_str, b);
        lemma_oj_eq_bounds(s, i + 1, depth, in_str, b);
        lemma_oj_eq_bounds(s, i + 1, depth + 1, in_str, b);
        lemma_oj_eq_bounds(s, i + 1, depth - 1, in_str, b);
    }
}

/// Signed depth kept as two counters, one of which is zero.
fn find_oj_eq(s: &Vec<char>) -> (r: Option<usize>)
    ensures
        r == (match oj_eq(s@) {
            Some(p) => Some(p as usize),
            None => None::<usize>,
        }),
        oj_eq(s@) matches Some(p) ==> 0 <= p < s.len(),
{
    proof {
        lemma_oj_eq_bounds(s@, 0, 0, false, '\0');
    }
    let mut pos: usize = 0;
    let mut neg: usize = 0;
    let mut in_string = false;
    let mut prev: char = '\0';
    let mut i: usize = 0;
    while i < s.len()
        invariant
            i <= s.len(),
            pos <= i,
            neg <= i,
            pos == 0 || neg == 0,
            oj_eq(s@) == oj_eq_from(s@, i as int, pos - neg, in_string, prev),
        decreases s.len() - i,
    {
        let b = s[i];
        if b == '\'' {
            in_string = !in_string;
        } else if b == '(' && !in_string {
            if !(s.len() - i > 2 && s[i + 1] == '+' && s[i + 2] == ')') {
                if neg > 0 {
                    neg = neg - 1;
                } else {
                    pos = pos + 1;
                }
            }
        } else if b == ')' && !in_string {
            if !(i >= 2 && s[i - 1] == '+' && s[i - 2] == '(') {
                if pos > 0 {
                    pos = pos - 1;
                } else {
                    neg = neg + 1;
                }
            }
        } else if b == '=' && !in_string && pos == 0 && neg == 0 && !(prev == '<' || prev == '>'
            || prev == '!') {
            return Some(i);
        }
        prev = b;
        i = i + 1;
    }
    None
}

pub open spec fn and_sep() -> Seq<char> {
    seq![' ', 'A', 'N', 'D', ' ']
}

/// Predicates of a WHERE clause split on top-level ` AND ` (found in the
/// upper-cased text `u`, cut from the clause `c`), each trimmed.
pub open spec fn and_split(c: Seq<char>, u: Seq<char>, i: int, start: int, depth: int, in_str: bool) -> Seq<Seq<char>>
    decreases u.len() - i,
{
    if i < 0 || i >= u.len() {
        seq![trim_ws(c.subrange(start, c.len() as int))]
    } else {
        let b = u[i];
        if b == '\'' {
            and_split(c, u, i + 1, start, depth, !in_str)
        } else if b == '(' && !in_str {
            and_split(c, u, i + 1, start, if plus_after(u, i) { depth } else { depth + 1 }, in_str)
        } else if b == ')' && !in_str {
            and_split(c, u, i + 1, start, if plus_before(u, i) { depth } else { depth - 1 }, in_str)
        } else if b == ' ' && !in_str && depth == 0 && occurs_at(u, i, and_sep()) {
            seq![trim_ws(c.subrange(start, i))] + and_split(c, u, i + 5, i + 5, depth, in_str)
        } else {
            and_split(c, u, i + 1, start, depth, in_str)
        }
    }
}

pub open spec fn split_top_level_and_spec(c: Seq<char>) -> Seq<Seq<char>> {
    and_split(c, upper_seq(c), 0, 0, 0, false)
}

fn split_top_level_and(c: &Vec<char>) -> (r: Vec<Vec<char>>)
    ensures
        r@.map_values(|v: Vec<char>| v@) == split_top_level_and_spec(c@),
{
    let u = upper_vec(c);
    let sep = lit(" AND ");
    proof {
        reveal_strlit(" AND ");
    }
    assert(sep@ =~= and_sep());
    let mut parts: Vec<Vec<char>> = Vec::new();
    let mut start: usize = 0;
    let mut pos: usize = 0;
    let mut neg: usize = 0;
    let mut in_string = false;
    let mut i: usize = 0;
    while i < u.len()
        invariant
            u@ == upper_seq(c@),
            u.len() == c.len(),
            sep@ == and_sep(),
            start <= i <= u.len(),
            pos <= i,
            neg <= i,
            pos == 0 || neg == 0,
            split_top_level_and_spec(c@) == parts@.map_values(|v: Vec<char>| v@) + and_split(
                c@,
                u@,
                i as int,
                start as int,
                pos - neg,
                in_string,
            ),
        decreases u.len() - i,
    {
        let b = u[i];
        if b == '\'' {
            in_string = !in_string;
        } else if b == '(' && !in_string {
            if !(u.len() - i > 2 && u[i + 1] == '+' && u[i + 2] == ')') {
                if neg > 0 {
                    neg = neg - 1;
                } else {
                    pos = pos + 1;
                }
            }
        } else if b == ')' && !in_string {
            if !(i >= 2 && u[i - 1] == '+' && u[i - 2] == '(') {
                if pos > 0 {
                    pos = pos - 1;
                } else {
                    neg = neg + 1;
                }
            }
        } else if b == ' ' && !in_string && pos == 0 && neg == 0 && matches_at(&u, i, &sep) {
            let ghost old_parts = parts@.map_values(|v: Vec<char>| v@);
            let piece = trim_chars(&slice_chars(c, start, i));
            parts.push(piece);
            assert(parts@.map_values(|v: Vec<char>| v@) =~= old_parts + seq![
                trim_ws(c@.subrange(start as int, i as int)),
            ]);
            i = i + 5;
            start = i;
            continue;
        }
        i = i + 1;
    }
    let ghost old_parts = parts@.map_values(|v: Vec<char>| v@);
    let last = trim_chars(&slice_chars(c, start, c.len()));
    parts.push(last);
    assert(parts@.map_values(|v: Vec<char>| v@) =~= old_parts + seq![
        trim_ws(c@.subrange(start as int, c.len() as int)),
    ]);
    parts
}

/// The trimmed pieces that are not empty.
pub open spec fn nonempty_trimmed(ps: Seq<Seq<char>>) -> Seq<Seq<char>>
    decreases ps.len(),
{
    if ps.len() == 0 {
        Seq::empty()
    } else if trim_ws(ps[0]).len() == 0 {
        nonempty_trimmed(ps.drop_first())
    } else {
        seq![trim_ws(ps[0])] + nonempty_trimmed(ps.drop_first())
    }
}

fn nonempty_trimmed_exec(ps: &Vec<Vec<char>>) -> (r: Vec<Vec<char>>)
    ensures
        r@.map_values(|v: Vec<char>| v@) == nonempty_trimmed(ps@.map_values(|v: Vec<char>| v@)),
{
    let ghost pv = ps@.map_values(|v: Vec<char>| v@);
    let mut out: Vec<Vec<char>> = Vec::new();
    let mut i: usize = 0;
    assert(pv.skip(0) =~= pv);
    assert(out@.map_values(|v: Vec<char>| v@) =~= Seq::<Seq<char>>::empty());
    while i < ps.len()
        invariant
            i <= ps.len(),
            pv == ps@.map_values(|v: Vec<char>| v@),
            nonempty_trimmed(pv) == out@.map_values(|v: Vec<char>| v@) + nonempty_trimmed(pv.skip(i as int)),
        decreases ps.len() - i,
    {
        let ghost o = out@.map_values(|v: Vec<char>| v@);
        assert(pv.skip(i as int)[0] == ps@[i as int]@);
        assert(pv.skip(i as int).drop_first() =~= pv.skip(i + 1));
        let t = trim_chars(&ps[i]);
        if t.len() > 0 {
            out.push(t);
            assert(out@.map_values(|v: Vec<char>| v@) =~= o + seq![trim_ws(pv.skip(i as int)[0])]);
        }
        i = i + 1;
    }
    assert(out@.map_values(|v: Vec<char>| v@) + nonempty_trimmed(pv.skip(i as int)) =~= out@.map_values(|v: Vec<char>| v@));
    out
}

/// The alias (or bare name) of a FROM entry: the last word once ` AS ` /
/// ` as ` are dropped, without trailing commas.
pub open spec fn alias_of(expr: Seq<char>) -> Seq<char> {
    let cleaned = replace_all(replace_all(expr, " AS "@, " "@), " as "@, " "@);
    let ws = ws_tokens(cleaned);
    trim_end_char(if ws.len() > 0 { ws.last() } else { expr }, ',')
}

fn alias_of_exec(expr: &Vec<char>) -> (r: Vec<char>)
    ensures
        r@ == alias_of(expr@),
{
    let sp = lit(" ");
    let as_up = lit(" AS ");
    let as_low = lit(" as ");
    proof {
        reveal_strlit(" AS ");
        reveal_strlit(" as ");
    }
    let a = replace_chars(expr, &as_up, &sp);
    let cleaned = replace_chars(&a, &as_low, &sp);
    let words = split_ws(&cleaned);
    let ghost ws = words@.map_values(|v: Vec<char>| v@);
    if words.len() > 0 {
        assert(ws.last() == words@[words.len() - 1]@);
        trim_end_char_vec(&words[words.len() - 1], ',')
    } else {
        trim_end_char_vec(expr, ',')
    }
}

/// Index of the first predicate that holds the `(+)` marker.
pub open spec fn first_with_plus(ps: Seq<Seq<char>>, i: int) -> Option<int>
    decreases ps.len() - i,
{
    if i < 0 || i >= ps.len() {
        None
    } else if contains_seq(ps[i], "(+)"@) {
        Some(i)
    } else {
        first_with_plus(ps, i + 1)
    }
}

proof fn lemma_first_with_plus(ps: Seq<Seq<char>>, i: int)
    ensures
        first_with_plus(ps, i) matches Some(k) ==> 0 <= i <= k < ps.len(),
    decreases ps.len() - i,
{
    if 0 <= i < ps.len() && !contains_seq(ps[i], "(+)"@) {
        lemma_first_with_plus(ps, i + 1);
    }
}

/// The sequence without its element at `k`.
pub open spec fn remove_at(ps: Seq<Seq<char>>, k: int) -> Seq<Seq<char>> {
    ps.take(k) + ps.skip(k + 1)
}

/// The rewritten query for an input of the supported shape, else `None`.
pub open spec fn outer_join_rewrite(s: Seq<char>) -> Option<Seq<char>> {
    let u = upper_seq(s);
    let plus = "(+)"@;
    match find_kw_from(u, seq!['S', 'E', 'L', 'E', 'C', 'T'], 0) {
        None => None,
        Some(sp) => match find_kw_from(u, seq!['F', 'R', 'O', 'M'], sp) {
            None => None,
            Some(fp) => match find_kw_from(u, seq!['W', 'H', 'E', 'R', 'E'], fp) {
                None => None,
                Some(wp) => {
                    let tables = nonempty_trimmed(split_char(trim_ws(s.subrange(fp + 4, wp)), ','));
                    let wc = trim_ws(trim_end_char(s.skip(wp + 5), ';'));
                    if tables.len() != 2 || count_occ(wc, plus) != 1 {
                        None
                    } else {
                        let preds = split_top_level_and_spec(wc);
                        match first_with_plus(preds, 0) {
                            None => None,
                            Some(k) => {
                                let pp = trim_ws(preds[k]);
                                match oj_eq(pp) {
                                    None => None,
                                    Some(eq) => {
                                        let lhs = trim_ws(pp.take(eq));
                                        let rhs = trim_ws(pp.skip(eq + 1));
                                        if !ends_with(rhs, plus) && !ends_with(lhs, plus) {
                                            None
                                        } else {
                                            let right_marked = ends_with(rhs, plus);
                                            let preserved = if right_marked { tables[0] } else { tables[1] };
                                            let optional = if right_marked { tables[1] } else { tables[0] };
                                            let pcol = if right_marked { lhs } else { rhs };
                                            let ocol = trim_ws(trim_end_pat(if right_marked { rhs } else { lhs }, plus));
                                            if !starts_with(pcol, alias_of(preserved) + "."@)
                                                || !starts_with(ocol, alias_of(optional) + "."@) {
                                                None
                                            } else {
                                                let remaining = remove_at(preds, k);
                                                let new_where = if remaining.len() == 0 {
                                                    Seq::empty()
                                                } else {
                                                    " WHERE "@ + join_seq(remaining, " AND "@)
                                                };
                                                let tail = match first_occ(s, seq![';'], wp) {
                                                    Some(t) => s.skip(t),
                                                    None => Seq::empty(),
                                                };
                                                Some(trim_end_ws(s.take(fp)) + " FROM "@ + preserved
                                                    + " LEFT JOIN "@ + optional + " ON "@ + pcol + " = "@
                                                    + ocol + new_where + tail)
                                            }
                                        }
                                    },
                                }
                            },
                        }
                    }
                },
            },
        },
    }
}

/// What [`rewrite_oracle_outer_join`] returns.
pub open spec fn outer_join_spec(s: Seq<char>) -> Seq<char> {
    if !contains_seq(s, "(+)"@) {
        s
    } else {
        match outer_join_rewrite(s) {
            Some(r) => r,
            None => s,
        }
    }
}

fn remove_at_exec(ps: &Vec<Vec<char>>, k: usize) -> (r: Vec<Vec<char>>)
    requires
        k < ps.len(),
    ensures
        r@.map_values(|v: Vec<char>| v@) == remove_at(ps@.map_values(|v: Vec<char>| v@), k as int),
{
    let ghost pv = ps@.map_values(|v: Vec<char>| v@);
    let mut out: Vec<Vec<char>> = Vec::new();
    let mut i: usize = 0;
    while i < ps.len()
        invariant
            k < ps.len(),
            i <= ps.len(),
            pv == ps@.map_values(|v: Vec<char>| v@),
            out@.map_values(|v: Vec<char>| v@) == if i <= k { pv.take(i as int) } else {
                remove_at(pv.take(i as int), k as int)
            },
        decreases ps.len() - i,
    {
        let ghost o = out@.map_values(|v: Vec<char>| v@);
        if i != k {
            out.push(ps[i].clone());
            assert(out@.map_values(|v: Vec<char>| v@) =~= o + seq![pv[i as int]]);
        }
        i = i + 1;
        proof {
            if i <= k {
                assert(out@.map_values(|v: Vec<char>| v@) =~= pv.take(i as int));
            } else {
                assert(out@.map_values(|v: Vec<char>| v@) =~= remove_at(pv.take(i as int), k as int));
            }
        }
    }
    assert(pv.take(ps.len() as int) =~= pv);
    out
}

fn first_with_plus_exec(ps: &Vec<Vec<char>>) -> (r: Option<usize>)
    ensures
        r == (match first_with_plus(ps@.map_values(|v: Vec<char>| v@), 0) {
            Some(k) => Some(k as usize),
            None => None::<usize>,
        }),
        r matches Some(k) ==> k < ps.len(),
        first_with_plus(ps@.map_values(|v: Vec<char>| v@), 0) matches Some(k) ==> 0 <= k < ps.len(),
{
    let ghost pv = ps@.map_values(|v: Vec<char>| v@);
    proof {
        lemma_first_with_plus(pv, 0);
    }
    let plus = lit("(+)");
    let mut i: usize = 0;
    while i < ps.len()
        invariant
            i <= ps.len(),
            plus@ == "(+)"@,
            pv == ps@.map_values(|v: Vec<char>| v@),
            first_with_plus(pv, 0) == first_with_plus(pv, i as int),
        decreases ps.len() - i,
    {
        assert(pv[i as int] == ps@[i as int]@);
        if contains_chars(&ps[i], &plus) {
            return Some(i);
        }
        i = i + 1;
    }
    None
}

fn words(a: &Vec<char>, b: &Vec<char>) -> (r: Vec<char>)
    ensures
        r@ == a@ + b@,
{
    let mut v = slice_chars(a, 0, a.len());
    assert(v@ =~= a@);
    push_all(&mut v, b);
    v
}

fn try_rewrite(s: &Vec<char>) -> (r: Option<Vec<char>>)
    ensures
        match outer_join_rewrite(s@) {
            None => r is None,
            Some(t) => r matches Some(v) && v@ == t,
        },
{
    let u = upper_vec(s);
    let k_select = lit("SELECT");
    let k_from = lit("FROM");
    let k_where = lit("WHERE");
    let plus = lit("(+)");
    proof {
        reveal_strlit("SELECT");
        reveal_strlit("FROM");
        reveal_strlit("WHERE");
        reveal_strlit("(+)");
    }
    assert(k_select@ =~= seq!['S', 'E', 'L', 'E', 'C', 'T']);
    assert(k_from@ =~= seq!['F', 'R', 'O', 'M']);
    assert(k_where@ =~= seq!['W', 'H', 'E', 'R', 'E']);
    let sp = match find_kw(&u, &k_select, 0) {
        Some(p) => p,
        None => return None,
    };
    let fp = match find_kw(&u, &k_from, sp) {
        Some(p) => p,
        None => return None,
    };
    let wp = match find_kw(&u, &k_where, fp) {
        Some(p) => p,
        None => return None,
    };
    proof {
        lemma_find_kw_bounds(u@, seq!['F', 'R', 'O', 'M'], sp as int);
        lemma_find_kw_bounds(u@, seq!['W', 'H', 'E', 'R', 'E'], fp as int);
        if wp < fp + 4 {
            assert(u@.subrange(fp as int, fp + 4)[wp - fp] == u@[wp as int]);
            assert(u@.subrange(wp as int, wp + 5)[0] == u@[wp as int]);
        }
    }
    let from_clause = trim_chars(&slice_chars(s, fp + 4, wp));
    let tables = nonempty_trimmed_exec(&split_chars(&from_clause, ','));
    let after_where = slice_chars(s, wp + 5, s.len());
    assert(after_where@ =~= s@.skip(wp + 5));
    let wc = trim_chars(&trim_end_char_vec(&after_where, ';'));
    if tables.len() != 2 || count_chars(&wc, &plus) != 1 {
        return None;
    }
    let preds = split_top_level_and(&wc);
    let k = match first_with_plus_exec(&preds) {
        Some(k) => k,
        None => return None,
    };
    assert(preds@.map_values(|v: Vec<char>| v@)[k as int] == preds@[k as int]@);
    let pp = trim_chars(&preds[k]);
    let eq = match find_oj_eq(&pp) {
        Some(e) => e,
        None => return None,
    };
    let lpart = slice_chars(&pp, 0, eq);
    assert(lpart@ =~= pp@.take(eq as int));
    let rpart = slice_chars(&pp, eq + 1, pp.len());
    assert(rpart@ =~= pp@.skip(eq + 1));
    let lhs = trim_chars(&lpart);
    let rhs = trim_chars(&rpart);
    let right_marked = ends_with_chars(&rhs, &plus);
    if !right_marked && !ends_with_chars(&lhs, &plus) {
        return None;
    }
    let (pi, oi) = if right_marked { (0usize, 1usize) } else { (1usize, 0usize) };
    let pcol = if right_marked { slice_chars(&lhs, 0, lhs.len()) } else { slice_chars(&rhs, 0, rhs.len()) };
    assert(pcol@ =~= if right_marked { lhs@ } else { rhs@ });
    let ocol = if right_marked { trim_chars(&trim_end_pat_vec(&rhs, &plus)) } else { trim_chars(&trim_end_pat_vec(&lhs, &plus)) };
    assert(tables@.map_values(|v: Vec<char>| v@)[0] == tables@[0]@);
    assert(tables@.map_values(|v: Vec<char>| v@)[1] == tables@[1]@);
    let dot = lit(".");
    let pa = words(&alias_of_exec(&tables[pi]), &dot);
    let oa = words(&alias_of_exec(&tables[oi]), &dot);
    if !starts_with_chars(&pcol, &pa) || !starts_with_chars(&ocol, &oa) {
        return None;
    }
    proof {
        let su = upper_seq(s@);
        assert(find_kw_from(su, seq!['S', 'E', 'L', 'E', 'C', 'T'], 0) == Some(sp as int));
        assert(find_kw_from(su, seq!['F', 'R', 'O', 'M'], sp as int) == Some(fp as int));
        assert(find_kw_from(su, seq!['W', 'H', 'E', 'R', 'E'], fp as int) == Some(wp as int));
        let gt = nonempty_trimmed(split_char(trim_ws(s@.subrange(fp + 4, wp as int)), ','));
        assert(gt == tables@.map_values(|v: Vec<char>| v@));
        let gwc = trim_ws(trim_end_char(s@.skip(wp + 5), ';'));
        assert(gwc == wc@);
        assert(gt.len() == 2);
        assert(count_occ(gwc, "(+)"@) == 1);
        let gp = split_top_level_and_spec(gwc);
        assert(gp == preds@.map_values(|v: Vec<char>| v@));
        assert(first_with_plus(gp, 0) == Some(k as int));
        assert(oj_eq(pp@) == Some(eq as int));
    }
    let remaining = remove_at_exec(&preds, k);
    let mut out = slice_chars(s, 0, ws_end_of_prefix(s, fp));
    assert(out@ == trim_end_ws(s@.take(fp as int)));
    push_all(&mut out, &lit(" FROM "));
    push_all(&mut out, &tables[pi]);
    push_all(&mut out, &lit(" LEFT JOIN "));
    push_all(&mut out, &tables[oi]);
    push_all(&mut out, &lit(" ON "));
    push_all(&mut out, &pcol);
    push_all(&mut out, &lit(" = "));
    push_all(&mut out, &ocol);
    if remaining.len() > 0 {
        push_all(&mut out, &lit(" WHERE "));
        push_all(&mut out, &join_chars(&remaining, &lit(" AND ")));
    }
    let mut semi: Vec<char> = Vec::new();
    semi.push(';');
    assert(semi@ =~= seq![';']);
    match find_from(s, &semi, wp) {
        Some(t) => {
            let tail = slice_chars(s, t, s.len());
            assert(tail@ =~= s@.skip(t as int));
            push_all(&mut out, &tail);
        },
        None => {},
    }
    Some(out)
}

/// End of `s[..n]` once trailing whitespace is removed.
fn ws_end_of_prefix(s: &Vec<char>, n: usize) -> (r: usize)
    requires
        n <= s.len(),
    ensures
        r <= n,
        s@.subrange(0, r as int) == trim_end_ws(s@.take(n as int)),
{
    let t = slice_chars(s, 0, n);
    assert(t@ =~= s@.take(n as int));
    let r = ws_end(&t);
    assert(s@.subrange(0, r as int) =~= t@.take(r as int));
    r
}

/// Rewrite the first Oracle `(+)` outer-join pattern into a standard
/// `LEFT JOIN`. Returns the input unchanged when there is no `(+)` or the
/// shape is more complex than the rewrite handles.
pub fn rewrite_oracle_outer_join(input: &str) -> (r: String)
    ensures
        r@ == outer_join_spec(input@),
{
    let s = str_chars(input);
    let plus = lit("(+)");
    if !contains_chars(&s, &plus) {
        return string_from_chars(s);
    }
    match try_rewrite(&s) {
        Some(v) => string_from_chars(v),
        None => string_from_chars(s),
    }
}

/// Removing the `(+)` predicate keeps every other conjunct of the `WHERE`
/// clause, in order: one fewer conjunct, the ones before it at their
/// places, the ones after it moved up by one.
pub proof fn law_other_conjuncts_are_kept(ps: Seq<Seq<char>>, k: int)
    requires
        0 <= k < ps.len(),
    ensures
        remove_at(ps, k).len() == ps.len() - 1,
        forall|j: int| 0 <= j < k ==> #[trigger] remove_at(ps, k)[j] == ps[j],
        forall|j: int| k < j < ps.len() ==> #[trigger] remove_at(ps, k)[j - 1] == ps[j],
        forall|j: int| 0 <= j < ps.len() && j != k ==> remove_at(ps, k).contains(#[trigger] ps[j]),
{
    assert forall|j: int| 0 <= j < ps.len() && j != k implies remove_at(ps, k).contains(#[trigger] ps[j]) by {
        if j < k {
            assert(remove_at(ps, k)[j] == ps[j]);
        } else {
            assert(remove_at(ps, k)[j - 1] == ps[j]);
        }
    }
}

/// The conjunct taken out as the join condition is the first one holding
/// `(+)`; when none holds it, none is taken.
pub proof fn law_first_outer_join_conjunct(ps: Seq<Seq<char>>, i: int)
    requires
        0 <= i,
    ensures
        first_with_plus(ps, i) matches Some(k) ==> i <= k < ps.len() && contains_seq(ps[k], "(+)"@) && forall|j: int|
            i <= j < k ==> !contains_seq(#[trigger] ps[j], "(+)"@),
        first_with_plus(ps, i) is None ==> forall|j: int| i <= j < ps.len() ==> !contains_seq(#[trigger] ps[j], "(+)"@),
    decreases ps.len() - i,
{
    if i < ps.len() && !contains_seq(ps[i], "(+)"@) {
        law_first_outer_join_conjunct(ps, i + 1);
    }
}

} // verus!
