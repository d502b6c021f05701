//! Keyword search shared by the text preprocessors.
use vstd::prelude::*;

use crate::text::{first_occ, find_from, is_ascii_ws, occurs_at, ascii_ws};

verus! {

/// The character before `pos` is absent, ASCII whitespace or a comma.
pub open spec fn left_boundary(s: Seq<char>, pos: int) -> bool {
    pos == 0 || is_ascii_ws(s[pos - 1]) || s[pos - 1] == ','
}

/// The character at `end` is absent, ASCII whitespace or a semicolon.
pub open spec fn right_boundary(s: Seq<char>, end: int) -> bool {
    end == s.len() || is_ascii_ws(s[end]) || s[end] == ';'
}

pub proof fn lemma_first_occ_bounds(s: Seq<char>, pat: Seq<char>, start: int)
    ensures
        first_occ(s, pat, start) matches Some(p) ==> start <= p && occurs_at(s, p, pat),
    decreases s.len() + 1 - start,
{
    if start < 0 || start > s.len() {
    } else if occurs_at(s, start, pat) {
    } else {
        lemma_first_occ_bounds(s, pat, start + 1);
    }
}

/// The first occurrence of `needle` at or after `start` that stands between
/// keyword boundaries. An occurrence that fails the boundary test is skipped
/// together with its whole length before the search resumes.
pub open spec fn find_kw_from(s: Seq<char>, needle: Seq<char>, start: int) -> Option<int>
    decreases s.len() - start,
{
    if needle.len() == 0 || start < 0 || start >= s.len() {
        None
    } else {
        match first_occ(s, needle, start) {
            None => None,
            Some(pos) => {
                proof {
                    lemma_first_occ_bounds(s, needle, start);
                }
                if left_boundary(s, pos) && right_boundary(s, pos + needle.len()) {
                    Some(pos)
                } else {
                    find_kw_from(s, needle, pos + needle.len())
                }
            },
        }
    }
}

pub proof fn lemma_find_kw_bounds(s: Seq<char>, needle: Seq<char>, start: int)
    ensures
        find_kw_from(s, needle, start) matches Some(p) ==> start <= p && occurs_at(s, p, needle)
            && left_boundary(s, p) && right_boundary(s, p + needle.len()),
    decreases s.len() - start,
{
    if needle.len() == 0 || start < 0 || start >= s.len() {
    } else {
        lemma_first_occ_bounds(s, needle, start);
        match first_occ(s, needle, start) {
            None => {},
            Some(pos) => {
                if !(left_boundary(s, pos) && right_boundary(s, pos + needle.len())) {
                    lemma_find_kw_bounds(s, needle, pos + needle.len());
                }
            },
        }
    }
}

/// Keyword search: see [`find_kw_from`].
pub fn find_kw(s: &Vec<char>, needle: &Vec<char>, from: usize) -> (r: Option<usize>)
    requires
        needle.len() > 0,
    ensures
        r == (match find_kw_from(s@, needle@, from as int) {
            Some(p) => Some(p as usize),
            None => None::<usize>,
        }),
        r matches Some(p) ==> from <= p && p + needle.len() <= s.len(),
        find_kw_from(s@, needle@, from as int) matches Some(p) ==> from <= p && occurs_at(
            s@,
            p,
            needle@,
        ),
{
    proof {
        lemma_find_kw_bounds(s@, needle@, from as int);
    }
    let mut start = from;
    while start < s.len()
        invariant
            needle.len() > 0,
            from <= start,
            find_kw_from(s@, needle@, from as int) == find_kw_from(s@, needle@, start as int),
        decreases s.len() - start,
    {
        match find_from(s, needle, start) {
            None => {
                return None;
            },
            Some(pos) => {
                let end = pos + needle.len();
                let left_ok = pos == 0 || ascii_ws(s[pos - 1]) || s[pos - 1] == ',';
                let right_ok = end == s.len() || ascii_ws(s[end]) || s[end] == ';';
                if left_ok && right_ok {
                    return Some(pos);
                }
                start = end;
            },
        }
    }
    None
}

} // verus!
