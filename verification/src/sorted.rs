//! Texts in the order of `String`, and sorted lists of texts without
//! repeats (what a `BTreeSet<String>` iterates).
use vstd::prelude::*;

use crate::catalog::strings_view;
use crate::text::str_chars;

verus! {

/// `a` comes before `b` in the order of `String` (code point by code
/// point; a proper prefix first).
pub open spec fn text_lt(a: Seq<char>, b: Seq<char>) -> bool
    decreases a.len(),
{
    if a.len() == 0 {
        b.len() > 0
    } else if b.len() == 0 {
        false
    } else if a[0] != b[0] {
        a[0] < b[0]
    } else {
        text_lt(a.drop_first(), b.drop_first())
    }
}

/// Each text comes before every later one: sorted, no repeats.
pub open spec fn strictly_sorted(s: Seq<Seq<char>>) -> bool {
    forall|i: int, j: int| 0 <= i < j < s.len() ==> text_lt(#[trigger] s[i], #[trigger] s[j])
}

pub proof fn lemma_text_lt_irreflexive(a: Seq<char>)
    ensures
        !text_lt(a, a),
    decreases a.len(),
{
    if a.len() > 0 {
        lemma_text_lt_irreflexive(a.drop_first());
    }
}

pub proof fn lemma_text_lt_total(a: Seq<char>, b: Seq<char>)
    ensures
        text_lt(a, b) || a == b || text_lt(b, a),
    decreases a.len(),
{
    if a.len() == 0 {
        if b.len() == 0 {
            assert(a =~= b);
        }
    } else if b.len() == 0 {
    } else if a[0] != b[0] {
    } else {
        let (ta, tb) = (a.drop_first(), b.drop_first());
        lemma_text_lt_total(ta, tb);
        if ta == tb {
            assert(a.len() == b.len());
            assert forall|i: int| 0 <= i < a.len() implies a[i] == b[i] by {
                if i > 0 {
                    assert(a[i] == ta[i - 1]);
                    assert(b[i] == tb[i - 1]);
                }
            }
            assert(a =~= b);
        }
    }
}

pub proof fn lemma_text_lt_transitive(a: Seq<char>, b: Seq<char>, c: Seq<char>)
    requires
        text_lt(a, b),
        text_lt(b, c),
    ensures
        text_lt(a, c),
    decreases a.len(),
{
    if a.len() > 0 && a[0] == b[0] && b[0] == c[0] {
        lemma_text_lt_transitive(a.drop_first(), b.drop_first(), c.drop_first());
    }
}

/// Whether `a` comes before `b`.
pub fn text_less(a: &Vec<char>, b: &Vec<char>) -> (r: bool)
    ensures
        r == text_lt(a@, b@),
{
    let mut i: usize = 0;
    assert(a@.skip(0) =~= a@);
    assert(b@.skip(0) =~= b@);
    while i < a.len() && i < b.len()
        invariant
            i <= a.len(),
            i <= b.len(),
            text_lt(a@, b@) == text_lt(a@.skip(i as int), b@.skip(i as int)),
        decreases a.len() - i,
    {
        assert(a@.skip(i as int)[0] == a@[i as int]);
        assert(b@.skip(i as int)[0] == b@[i as int]);
        if a[i] != b[i] {
            return a[i] < b[i];
        }
        assert(a@.skip(i as int).drop_first() =~= a@.skip(i + 1));
        assert(b@.skip(i as int).drop_first() =~= b@.skip(i + 1));
        i = i + 1;
    }
    i == a.len() && i < b.len()
}

/// Add `s` to a sorted list of texts without repeats, keeping it so.
pub fn insert_sorted(set: &mut Vec<String>, s: String)
    requires
        strictly_sorted(strings_view(old(set)@)),
    ensures
        strictly_sorted(strings_view(final(set)@)),
        forall|x: Seq<char>|
            strings_view(final(set)@).contains(x) <==> (strings_view(old(set)@).contains(x) || x == s@),
{
    let ghost old_v = strings_view(set@);
    let sc = str_chars(s.as_str());
    let mut p: usize = 0;
    while p < set.len()
        invariant
            p <= set.len(),
            sc@ == s@,
            old_v == strings_view(set@),
            forall|k: int| 0 <= k < p ==> text_lt(#[trigger] old_v[k], s@),
        ensures
            p <= set.len(),
            forall|k: int| 0 <= k < p ==> text_lt(#[trigger] old_v[k], s@),
            p < set.len() ==> !text_lt(old_v[p as int], s@),
        decreases set.len() - p,
    {
        assert(old_v[p as int] == set@[p as int]@);
        if !text_less(&str_chars(set[p].as_str()), &sc) {
            break;
        }
        p = p + 1;
    }
    if p < set.len() {
        assert(old_v[p as int] == set@[p as int]@);
        if crate::preprocess::connect_by::same(&str_chars(set[p].as_str()), &sc) {
            assert(old_v.contains(s@));
            return;
        }
        proof {
            lemma_text_lt_total(old_v[p as int], s@);
        }
    }
    assert(p < old_v.len() ==> text_lt(sc@, old_v[p as int]));
    set.insert(p, s);
    let ghost new_v = strings_view(set@);
    assert(new_v =~= old_v.insert(p as int, sc@));
    proof {
        assert forall|i: int, j: int| 0 <= i < j < new_v.len() implies text_lt(
            #[trigger] new_v[i],
            #[trigger] new_v[j],
        ) by {
            if j < p {
            } else if j == p {
            } else if i < p {
                if j - 1 > p {
                    assert(text_lt(old_v[p as int], old_v[j - 1]));
                    lemma_text_lt_transitive(old_v[i], sc@, old_v[p as int]);
                    lemma_text_lt_transitive(old_v[i], old_v[p as int], old_v[j - 1]);
                } else {
                    lemma_text_lt_transitive(old_v[i], sc@, old_v[p as int]);
                }
            } else if i == p {
                if j - 1 > p {
                    assert(text_lt(old_v[p as int], old_v[j - 1]));
                    lemma_text_lt_transitive(sc@, old_v[p as int], old_v[j - 1]);
                }
            } else {
                assert(text_lt(old_v[i - 1], old_v[j - 1]));
            }
        }
        assert forall|x: Seq<char>| new_v.contains(x) <==> (old_v.contains(x) || x == s@) by {
            if new_v.contains(x) {
                let k = choose|k: int| 0 <= k < new_v.len() && new_v[k] == x;
                if k < p {
                    assert(old_v[k] == x);
                } else if k > p {
                    assert(old_v[k - 1] == x);
                }
            }
            if old_v.contains(x) {
                let k = choose|k: int| 0 <= k < old_v.len() && old_v[k] == x;
                if k < p {
                    assert(new_v[k] == x);
                } else {
                    assert(new_v[k + 1] == x);
                }
            }
            if x == s@ {
                assert(new_v[p as int] == x);
            }
        }
    }
}

} // verus!
