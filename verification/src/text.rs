//! Character-sequence helpers shared by the text-level passes.
//!
//! Strings are handled as sequences of `char`; ASCII case folding and the
//! character classes used by the passes are stated here once.
use vstd::prelude::*;

verus! {

broadcast use vstd::string::group_string_axioms;

/// ASCII upper-case of one character; every other character is unchanged.
pub open spec fn upper_char(c: char) -> char {
    if 'a' <= c && c <= 'z' {
        ((c as u32) - 32) as char
    } else {
        c
    }
}

/// ASCII lower-case of one character; every other character is unchanged.
pub open spec fn lower_char(c: char) -> char {
    if 'A' <= c && c <= 'Z' {
        ((c as u32) + 32) as char
    } else {
        c
    }
}

/// ASCII upper-case of a whole sequence.
pub open spec fn upper_seq(s: Seq<char>) -> Seq<char> {
    s.map_values(|c: char| upper_char(c))
}

/// ASCII lower-case of a whole sequence.
pub open spec fn lower_seq(s: Seq<char>) -> Seq<char> {
    s.map_values(|c: char| lower_char(c))
}

/// Two characters that are equal up to ASCII case.
pub open spec fn eq_ci(a: char, b: char) -> bool {
    lower_char(a) == lower_char(b)
}

/// Two sequences equal up to ASCII case.
pub open spec fn seq_eq_ci(a: Seq<char>, b: Seq<char>) -> bool {
    a.len() == b.len() && forall|k: int| 0 <= k < a.len() ==> eq_ci(#[trigger] a[k], b[k])
}

/// Every character of `s` is ASCII.
pub open spec fn all_ascii(s: Seq<char>) -> bool {
    forall|k: int| 0 <= k < s.len() ==> (#[trigger] s[k] as u32) < 128
}

pub open spec fn is_ascii_digit(c: char) -> bool {
    '0' <= c && c <= '9'
}

pub open spec fn is_ascii_alpha(c: char) -> bool {
    ('a' <= c && c <= 'z') || ('A' <= c && c <= 'Z')
}

pub open spec fn is_ascii_alnum(c: char) -> bool {
    is_ascii_alpha(c) || is_ascii_digit(c)
}

/// ASCII whitespace as `u8::is_ascii_whitespace` defines it.
pub open spec fn is_ascii_ws(c: char) -> bool {
    c == ' ' || c == '\t' || c == '\n' || c == '\x0C' || c == '\r'
}

/// Unicode `White_Space`, the class `char::is_whitespace` and `str::trim` use.
pub open spec fn is_unicode_ws(c: char) -> bool {
    ||| ('\t' <= c && c <= '\r')
    ||| c == ' '
    ||| c == '\u{85}'
    ||| c == '\u{A0}'
    ||| c == '\u{1680}'
    ||| ('\u{2000}' <= c && c <= '\u{200A}')
    ||| c == '\u{2028}'
    ||| c == '\u{2029}'
    ||| c == '\u{202F}'
    ||| c == '\u{205F}'
    ||| c == '\u{3000}'
}

/// `pat` occurs in `s` at position `i`.
pub open spec fn occurs_at(s: Seq<char>, i: int, pat: Seq<char>) -> bool {
    0 <= i && i + pat.len() <= s.len() && s.subrange(i, i + pat.len()) == pat
}

/// `pat` occurs in `s` at position `i`, up to ASCII case.
pub open spec fn occurs_at_ci(s: Seq<char>, i: int, pat: Seq<char>) -> bool {
    0 <= i && i + pat.len() <= s.len() && seq_eq_ci(s.subrange(i, i + pat.len()), pat)
}

/// `s` with leading characters of class `ws` removed.
pub open spec fn trim_start_by(s: Seq<char>) -> Seq<char>
    decreases s.len(),
{
    if s.len() > 0 && is_unicode_ws(s[0]) {
        trim_start_by(s.drop_first())
    } else {
        s
    }
}

/// `s` with trailing Unicode whitespace removed.
pub open spec fn trim_end_ws(s: Seq<char>) -> Seq<char>
    decreases s.len(),
{
    if s.len() > 0 && is_unicode_ws(s.last()) {
        trim_end_ws(s.drop_last())
    } else {
        s
    }
}

/// `str::trim`: leading and trailing Unicode whitespace removed.
pub open spec fn trim_ws(s: Seq<char>) -> Seq<char> {
    trim_end_ws(trim_start_by(s))
}

/// The characters of `s`, in order.
pub fn str_chars(s: &str) -> (r: Vec<char>)
    ensures
        r@ == s@,
{
    let mut v: Vec<char> = Vec::new();
    for c in it: s.chars()
        invariant
            it.seq() == s@,
            v@ == it.seq().take(it.index() as int),
    {
        v.push(c);
    }
    v
}

/// Builds a `String` holding exactly the characters of `v`
/// (`String::from_iter`).
#[verifier::external_body]
pub(crate) fn string_from_chars(v: Vec<char>) -> (r: String)
    ensures
        r@ == v@,
{
    String::from_iter(v)
}

pub fn upper(c: char) -> (r: char)
    ensures
        r == upper_char(c),
{
    if 'a' <= c && c <= 'z' {
        ((c as u8) - 32) as char
    } else {
        c
    }
}

pub fn lower(c: char) -> (r: char)
    ensures
        r == lower_char(c),
{
    if 'A' <= c && c <= 'Z' {
        ((c as u8) + 32) as char
    } else {
        c
    }
}

pub fn ascii_digit(c: char) -> (r: bool)
    ensures
        r == is_ascii_digit(c),
{
    '0' <= c && c <= '9'
}

pub fn ascii_alpha(c: char) -> (r: bool)
    ensures
        r == is_ascii_alpha(c),
{
    ('a' <= c && c <= 'z') || ('A' <= c && c <= 'Z')
}

pub fn ascii_alnum(c: char) -> (r: bool)
    ensures
        r == is_ascii_alnum(c),
{
    ascii_alpha(c) || ascii_digit(c)
}

pub fn ascii_ws(c: char) -> (r: bool)
    ensures
        r == is_ascii_ws(c),
{
    c == ' ' || c == '\t' || c == '\n' || c == '\x0C' || c == '\r'
}

pub fn unicode_ws(c: char) -> (r: bool)
    ensures
        r == is_unicode_ws(c),
{
    ('\t' <= c && c <= '\r') || c == ' ' || c == '\u{85}' || c == '\u{A0}' || c == '\u{1680}'
        || ('\u{2000}' <= c && c <= '\u{200A}') || c == '\u{2028}' || c == '\u{2029}'
        || c == '\u{202F}' || c == '\u{205F}' || c == '\u{3000}'
}

/// Whether every character of `v` is ASCII.
pub fn chars_all_ascii(v: &Vec<char>) -> (r: bool)
    ensures
        r == all_ascii(v@),
{
    let mut i: usize = 0;
    while i < v.len()
        invariant
            i <= v.len(),
            forall|k: int| 0 <= k < i ==> (#[trigger] v@[k] as u32) < 128,
        decreases v.len() - i,
    {
        if (v[i] as u32) >= 128 {
            return false;
        }
        i = i + 1;
    }
    true
}

/// Whether `pat` occurs in `s` at position `i`, up to ASCII case.
pub fn matches_ci_at(s: &Vec<char>, i: usize, pat: &Vec<char>) -> (r: bool)
    ensures
        r == occurs_at_ci(s@, i as int, pat@),
{
    if i > s.len() || pat.len() > s.len() - i {
        return false;
    }
    let mut k: usize = 0;
    while k < pat.len()
        invariant
            i + pat.len() <= s.len(),
            k <= pat.len(),
            forall|j: int| 0 <= j < k ==> eq_ci(#[trigger] s@[i + j], pat@[j]),
        decreases pat.len() - k,
    {
        if lower(s[i + k]) != lower(pat[k]) {
            assert(s@.subrange(i as int, i + pat.len())[k as int] == s@[i + k]);
            return false;
        }
        k = k + 1;
    }
    assert forall|j: int| 0 <= j < pat.len() implies eq_ci(
        #[trigger] s@.subrange(i as int, i + pat.len())[j],
        pat@[j],
    ) by {
        assert(s@.subrange(i as int, i + pat.len())[j] == s@[i + j]);
    }
    true
}

/// Whether `pat` occurs in `s` at position `i`, exactly.
pub fn matches_at(s: &Vec<char>, i: usize, pat: &Vec<char>) -> (r: bool)
    ensures
        r == occurs_at(s@, i as int, pat@),
{
    if i > s.len() || pat.len() > s.len() - i {
        return false;
    }
    let mut k: usize = 0;
    while k < pat.len()
        invariant
            i + pat.len() <= s.len(),
            k <= pat.len(),
            forall|j: int| 0 <= j < k ==> #[trigger] s@[i + j] == pat@[j],
        decreases pat.len() - k,
    {
        if s[i + k] != pat[k] {
            assert(s@.subrange(i as int, i + pat.len())[k as int] == s@[i + k]);
            return false;
        }
        k = k + 1;
    }
    assert(s@.subrange(i as int, i + pat.len()) =~= pat@) by {
        assert forall|j: int| 0 <= j < pat.len() implies #[trigger] s@.subrange(
            i as int,
            i + pat.len(),
        )[j] == pat@[j] by {
            assert(s@.subrange(i as int, i + pat.len())[j] == s@[i + j]);
        }
    }
    true
}

/// The characters `s[lo..hi]` as a new vector.
pub fn slice_chars(s: &Vec<char>, lo: usize, hi: usize) -> (r: Vec<char>)
    requires
        lo <= hi <= s.len(),
    ensures
        r@ == s@.subrange(lo as int, hi as int),
{
    let mut v: Vec<char> = Vec::new();
    let mut k = lo;
    while k < hi
        invariant
            lo <= k <= hi <= s.len(),
            v@ == s@.subrange(lo as int, k as int),
        decreases hi - k,
    {
        v.push(s[k]);
        k = k + 1;
        assert(v@ =~= s@.subrange(lo as int, k as int));
    }
    v
}

/// Appends all of `src` to `dst`.
pub fn push_all(dst: &mut Vec<char>, src: &Vec<char>)
    ensures
        final(dst)@ == old(dst)@ + src@,
{
    let ghost d0 = dst@;
    let mut k: usize = 0;
    while k < src.len()
        invariant
            k <= src.len(),
            dst@ == d0 + src@.take(k as int),
        decreases src.len() - k,
    {
        dst.push(src[k]);
        k = k + 1;
        assert(dst@ =~= d0 + src@.take(k as int));
    }
    assert(src@.take(src.len() as int) =~= src@);
}

/// The characters of `s` upper-cased by ASCII rules.
pub fn upper_vec(s: &Vec<char>) -> (r: Vec<char>)
    ensures
        r@ == upper_seq(s@),
{
    let mut v: Vec<char> = Vec::new();
    let mut k: usize = 0;
    while k < s.len()
        invariant
            k <= s.len(),
            v@ == upper_seq(s@.take(k as int)),
        decreases s.len() - k,
    {
        v.push(upper(s[k]));
        k = k + 1;
        assert(v@ =~= upper_seq(s@.take(k as int)));
    }
    assert(s@.take(s.len() as int) =~= s@);
    v
}

/// The characters of `s` lower-cased by ASCII rules.
pub fn lower_vec(s: &Vec<char>) -> (r: Vec<char>)
    ensures
        r@ == lower_seq(s@),
{
    let mut v: Vec<char> = Vec::new();
    let mut k: usize = 0;
    while k < s.len()
        invariant
            k <= s.len(),
            v@ == lower_seq(s@.take(k as int)),
        decreases s.len() - k,
    {
        v.push(lower(s[k]));
        k = k + 1;
        assert(v@ =~= lower_seq(s@.take(k as int)));
    }
    assert(s@.take(s.len() as int) =~= s@);
    v
}

/// `str::to_ascii_lowercase` on a string.
pub fn ascii_lowercase(s: &str) -> (r: String)
    ensures
        r@ == lower_seq(s@),
{
    let v = str_chars(s);
    string_from_chars(lower_vec(&v))
}

/// Whether `a` and `b` are equal up to ASCII case (`eq_ignore_ascii_case`).
pub fn eq_ignore_case(a: &Vec<char>, b: &Vec<char>) -> (r: bool)
    ensures
        r == seq_eq_ci(a@, b@),
{
    if a.len() != b.len() {
        return false;
    }
    let mut k: usize = 0;
    while k < a.len()
        invariant
            a.len() == b.len(),
            k <= a.len(),
            forall|j: int| 0 <= j < k ==> eq_ci(#[trigger] a@[j], b@[j]),
        decreases a.len() - k,
    {
        if lower(a[k]) != lower(b[k]) {
            return false;
        }
        k = k + 1;
    }
    true
}

/// Index of the first character after the leading Unicode whitespace.
pub fn skip_ws_start(s: &Vec<char>) -> (r: usize)
    ensures
        r <= s.len(),
        trim_start_by(s@) == s@.skip(r as int),
{
    let mut k: usize = 0;
    assert(s@.skip(0) =~= s@);
    while k < s.len() && unicode_ws(s[k])
        invariant
            k <= s.len(),
            trim_start_by(s@) == trim_start_by(s@.skip(k as int)),
        decreases s.len() - k,
    {
        assert(s@.skip(k as int).drop_first() =~= s@.skip(k + 1));
        k = k + 1;
    }
    k
}

/// Index just past the last non-whitespace character.
pub fn ws_end(s: &Vec<char>) -> (r: usize)
    ensures
        r <= s.len(),
        trim_end_ws(s@) == s@.take(r as int),
{
    let mut k: usize = s.len();
    assert(s@.take(k as int) =~= s@);
    while k > 0 && unicode_ws(s[k - 1])
        invariant
            k <= s.len(),
            trim_end_ws(s@) == trim_end_ws(s@.take(k as int)),
        decreases k,
    {
        assert(s@.take(k as int).drop_last() =~= s@.take(k - 1));
        k = k - 1;
    }
    k
}

/// `str::trim` on a character vector.
pub fn trim_chars(s: &Vec<char>) -> (r: Vec<char>)
    ensures
        r@ == trim_ws(s@),
        r.len() <= s.len(),
{
    let a = skip_ws_start(s);
    let t = slice_chars(s, a, s.len());
    assert(t@ =~= s@.skip(a as int));
    let b = ws_end(&t);
    slice_chars(&t, 0, b)
}

/// `pat` occurs somewhere in `s`.
pub open spec fn contains_seq(s: Seq<char>, pat: Seq<char>) -> bool {
    exists|i: int| occurs_at(s, i, pat)
}

/// Position of the first occurrence of `pat` in `s` at or after `from`.
pub fn find_from(s: &Vec<char>, pat: &Vec<char>, from: usize) -> (r: Option<usize>)
    requires
        from <= s.len(),
    ensures
        match r {
            Some(i) => from <= i && occurs_at(s@, i as int, pat@) && forall|j: int|
                from <= j < i ==> !occurs_at(s@, j, pat@),
            None => forall|j: int| from <= j ==> !occurs_at(s@, j, pat@),
        },
        r matches Some(i) ==> first_occ(s@, pat@, from as int) == Some(i as int),
        r is None ==> first_occ(s@, pat@, from as int) is None,
{
    let mut i = from;
    loop
        invariant
            from <= i <= s.len(),
            forall|j: int| from <= j < i ==> !occurs_at(s@, j, pat@),
        decreases s.len() - i,
    {
        if matches_at(s, i, pat) {
            proof {
                lemma_first_occ(s@, pat@, from as int, Some(i as int));
            }
            return Some(i);
        }
        if i == s.len() {
            proof {
                lemma_first_occ(s@, pat@, from as int, None);
            }
            return None;
        }
        i = i + 1;
    }
}

/// Whether `pat` occurs anywhere in `s` (`str::contains`).
pub fn contains_chars(s: &Vec<char>, pat: &Vec<char>) -> (r: bool)
    ensures
        r == contains_seq(s@, pat@),
{
    match find_from(s, pat, 0) {
        Some(i) => true,
        None => false,
    }
}

/// What `str::to_uppercase` returns for a string with characters `s`
/// (Unicode upper-case mapping; a character may map to several).
pub uninterp spec fn unicode_upper(s: Seq<char>) -> Seq<char>;

/// What `str::to_lowercase` returns for a string with characters `s`.
pub uninterp spec fn unicode_lower(s: Seq<char>) -> Seq<char>;

/// `str::to_uppercase`. Besides naming the result, states the one fact that
/// the Unicode tables give plainly: ASCII characters map to their ASCII
/// upper-case forms, so an all-ASCII string upper-cases character by
/// character.
#[verifier::external_body]
pub(crate) fn to_uppercase(s: &str) -> (r: String)
    ensures
        r@ == unicode_upper(s@),
        all_ascii(s@) ==> r@ == upper_seq(s@),
{
    s.to_uppercase()
}

/// `str::to_lowercase`; as with [`to_uppercase`], an all-ASCII string
/// lower-cases character by character.
#[verifier::external_body]
pub(crate) fn to_lowercase(s: &str) -> (r: String)
    ensures
        r@ == unicode_lower(s@),
        all_ascii(s@) ==> r@ == lower_seq(s@),
{
    s.to_lowercase()
}

/// The first position at or after `start` where `pat` occurs in `s`.
pub open spec fn first_occ(s: Seq<char>, pat: Seq<char>, start: int) -> Option<int>
    decreases s.len() + 1 - start,
{
    if start < 0 || start > s.len() {
        None
    } else if occurs_at(s, start, pat) {
        Some(start)
    } else {
        first_occ(s, pat, start + 1)
    }
}

/// `first_occ` agrees with a position that is an occurrence and has none
/// before it.
pub proof fn lemma_first_occ(s: Seq<char>, pat: Seq<char>, start: int, r: Option<int>)
    requires
        0 <= start <= s.len(),
        match r {
            Some(i) => start <= i && occurs_at(s, i, pat) && forall|j: int|
                start <= j < i ==> !occurs_at(s, j, pat),
            None => forall|j: int| start <= j ==> !occurs_at(s, j, pat),
        },
    ensures
        first_occ(s, pat, start) == r,
    decreases s.len() + 1 - start,
{
    if occurs_at(s, start, pat) {
    } else if start < s.len() {
        lemma_first_occ(s, pat, start + 1, r);
    } else {
        assert(first_occ(s, pat, start + 1) == None::<int>);
    }
}

/// The words of `s` as `str::split_whitespace` yields them: maximal runs of
/// non-whitespace characters, in order.
pub open spec fn ws_tokens(s: Seq<char>) -> Seq<Seq<char>>
    decreases s.len(),
{
    if s.len() == 0 {
        Seq::empty()
    } else if is_unicode_ws(s[0]) {
        ws_tokens(s.drop_first())
    } else {
        let n = word_len(s);
        proof {
            lemma_word_len(s);
        }
        seq![s.take(n)] + ws_tokens(s.skip(n))
    }
}

/// Length of the run of non-whitespace characters at the start of `s`.
pub open spec fn word_len(s: Seq<char>) -> int
    decreases s.len(),
{
    if s.len() == 0 || is_unicode_ws(s[0]) {
        0
    } else {
        1 + word_len(s.drop_first())
    }
}

pub proof fn lemma_word_len(s: Seq<char>)
    ensures
        0 <= word_len(s) <= s.len(),
        s.len() > 0 && !is_unicode_ws(s[0]) ==> word_len(s) > 0,
        forall|k: int| 0 <= k < word_len(s) ==> !is_unicode_ws(#[trigger] s[k]),
        word_len(s) < s.len() ==> is_unicode_ws(s[word_len(s)]),
    decreases s.len(),
{
    if s.len() > 0 && !is_unicode_ws(s[0]) {
        lemma_word_len(s.drop_first());
        assert forall|k: int| 0 <= k < word_len(s) implies !is_unicode_ws(#[trigger] s[k]) by {
            if k > 0 {
                assert(s[k] == s.drop_first()[k - 1]);
            }
        }
    }
}

/// A run of `m` non-whitespace characters ended by whitespace or the end is
/// the leading word.
pub proof fn lemma_word_len_exact(s: Seq<char>, m: int)
    requires
        0 <= m <= s.len(),
        forall|k: int| 0 <= k < m ==> !is_unicode_ws(#[trigger] s[k]),
        m == s.len() || is_unicode_ws(s[m]),
    ensures
        word_len(s) == m,
    decreases m,
{
    if m > 0 {
        let t = s.drop_first();
        assert forall|k: int| 0 <= k < m - 1 implies !is_unicode_ws(#[trigger] t[k]) by {
            assert(t[k] == s[k + 1]);
        }
        if m < s.len() {
            assert(t[m - 1] == s[m]);
        }
        lemma_word_len_exact(t, m - 1);
    }
}

/// `str::split_whitespace` on a character vector.
pub fn split_ws(s: &Vec<char>) -> (r: Vec<Vec<char>>)
    ensures
        r@.map_values(|v: Vec<char>| v@) == ws_tokens(s@),
{
    let mut out: Vec<Vec<char>> = Vec::new();
    let mut i: usize = 0;
    assert(s@.skip(0) =~= s@);
    while i < s.len()
        invariant
            i <= s.len(),
            ws_tokens(s@) == out@.map_values(|v: Vec<char>| v@) + ws_tokens(s@.skip(i as int)),
        decreases s.len() - i,
    {
        let ghost t = s@.skip(i as int);
        if unicode_ws(s[i]) {
            assert(t.drop_first() =~= s@.skip(i + 1));
            i = i + 1;
        } else {
            let mut j = i;
            while j < s.len() && !unicode_ws(s[j])
                invariant
                    i <= j <= s.len(),
                    forall|k: int| i <= k < j ==> !is_unicode_ws(#[trigger] s@[k]),
                decreases s.len() - j,
            {
                j = j + 1;
            }
            proof {
                assert forall|k: int| 0 <= k < j - i implies !is_unicode_ws(#[trigger] t[k]) by {
                    assert(t[k] == s@[i + k]);
                }
                if j < s.len() {
                    assert(t[j - i] == s@[j as int]);
                }
                lemma_word_len_exact(t, j - i);
            }
            let w = slice_chars(s, i, j);
            let ghost old_out = out@.map_values(|v: Vec<char>| v@);
            out.push(w);
            assert(w@ =~= t.take(word_len(t)));
            assert(t.skip(word_len(t)) =~= s@.skip(j as int));
            assert(out@.map_values(|v: Vec<char>| v@) =~= old_out + seq![w@]);
            i = j;
        }
    }
    assert(s@.skip(i as int) =~= Seq::<char>::empty());
    assert(out@.map_values(|v: Vec<char>| v@) + ws_tokens(s@.skip(i as int)) =~= out@.map_values(|v: Vec<char>| v@));
    out
}

/// The parts joined with `sep` between neighbours (`[T]::join`).
pub open spec fn join_seq(parts: Seq<Seq<char>>, sep: Seq<char>) -> Seq<char>
    decreases parts.len(),
{
    if parts.len() == 0 {
        Seq::empty()
    } else if parts.len() == 1 {
        parts[0]
    } else {
        join_seq(parts.drop_last(), sep) + sep + parts.last()
    }
}

/// `[T]::join` on character vectors.
pub fn join_chars(parts: &Vec<Vec<char>>, sep: &Vec<char>) -> (r: Vec<char>)
    ensures
        r@ == join_seq(parts@.map_values(|v: Vec<char>| v@), sep@),
{
    let ghost ps = parts@.map_values(|v: Vec<char>| v@);
    let mut out: Vec<char> = Vec::new();
    let mut i: usize = 0;
    while i < parts.len()
        invariant
            i <= parts.len(),
            ps == parts@.map_values(|v: Vec<char>| v@),
            out@ == join_seq(ps.take(i as int), sep@),
        decreases parts.len() - i,
    {
        assert(ps.take(i + 1).drop_last() =~= ps.take(i as int));
        if i > 0 {
            push_all(&mut out, sep);
        }
        push_all(&mut out, &parts[i]);
        i = i + 1;
        proof {
            if i == 1 {
                assert(out@ =~= ps.take(1)[0]);
            }
        }
    }
    assert(ps.take(parts.len() as int) =~= ps);
    out
}

/// `s` with every trailing `c` removed (`trim_end_matches(c)`).
pub open spec fn trim_end_char(s: Seq<char>, c: char) -> Seq<char>
    decreases s.len(),
{
    if s.len() > 0 && s.last() == c {
        trim_end_char(s.drop_last(), c)
    } else {
        s
    }
}

/// `trim_end_matches` with a single character.
pub fn trim_end_char_vec(s: &Vec<char>, c: char) -> (r: Vec<char>)
    ensures
        r@ == trim_end_char(s@, c),
{
    let mut k = s.len();
    assert(s@.take(k as int) =~= s@);
    while k > 0 && s[k - 1] == c
        invariant
            k <= s.len(),
            trim_end_char(s@, c) == trim_end_char(s@.take(k as int), c),
        decreases k,
    {
        assert(s@.take(k as int).drop_last() =~= s@.take(k - 1));
        k = k - 1;
    }
    slice_chars(s, 0, k)
}

/// The characters of `v` are exactly those of `s`.
pub fn equals_str(v: &Vec<char>, s: &str) -> (r: bool)
    ensures
        r == (v@ == s@),
{
    crate::preprocess::connect_by::same(v, &str_chars(s))
}

/// A text as `Debug` prints it: quoted, with escapes.
#[verifier::external_body]
pub(crate) fn debug_text(s: &str) -> String {
    format!("{s:?}")
}

/// Characters of a string literal, as a vector.
pub fn lit(s: &str) -> (r: Vec<char>)
    ensures
        r@ == s@,
{
    str_chars(s)
}

/// `str::replace`: every non-overlapping occurrence of `pat`, scanning left
/// to right, replaced by `rep`.
pub open spec fn replace_all(s: Seq<char>, pat: Seq<char>, rep: Seq<char>) -> Seq<char>
    decreases s.len(),
{
    if pat.len() == 0 {
        s
    } else {
        match first_occ(s, pat, 0) {
            None => s,
            Some(p) => {
                proof {
                    lemma_first_occ_range(s, pat, 0);
                }
                s.take(p) + rep + replace_all(s.skip(p + pat.len()), pat, rep)
            },
        }
    }
}

pub proof fn lemma_first_occ_range(s: Seq<char>, pat: Seq<char>, start: int)
    ensures
        first_occ(s, pat, start) matches Some(p) ==> start <= p && occurs_at(s, p, pat),
    decreases s.len() + 1 - start,
{
    if start < 0 || start > s.len() {
    } else if occurs_at(s, start, pat) {
    } else {
        lemma_first_occ_range(s, pat, start + 1);
    }
}

proof fn lemma_first_occ_shift(s: Seq<char>, pat: Seq<char>, from: int, j: int)
    requires
        0 <= from <= j <= s.len(),
        forall|k: int| from <= k < j ==> !occurs_at(s, k, pat),
    ensures
        first_occ(s.skip(from), pat, j - from) == match first_occ(s, pat, j) {
            Some(p) => Some(p - from),
            None => None::<int>,
        },
    decreases s.len() + 1 - j,
{
    let t = s.skip(from);
    assert(occurs_at(t, j - from, pat) == occurs_at(s, j, pat)) by {
        if j - from + pat.len() <= t.len() {
            assert(t.subrange(j - from, j - from + pat.len()) =~= s.subrange(j, j + pat.len()));
        }
    }
    if !occurs_at(s, j, pat) && j < s.len() {
        lemma_first_occ_shift(s, pat, from, j + 1);
    }
}

/// `str::replace` on character vectors.
pub fn replace_chars(s: &Vec<char>, pat: &Vec<char>, rep: &Vec<char>) -> (r: Vec<char>)
    requires
        pat.len() > 0,
    ensures
        r@ == replace_all(s@, pat@, rep@),
{
    let mut out: Vec<char> = Vec::new();
    let mut i: usize = 0;
    assert(s@.skip(0) =~= s@);
    loop
        invariant
            pat.len() > 0,
            i <= s.len(),
            replace_all(s@, pat@, rep@) == out@ + replace_all(s@.skip(i as int), pat@, rep@),
        decreases s.len() - i,
    {
        let ghost t = s@.skip(i as int);
        match find_from(s, pat, i) {
            None => {
                proof {
                    lemma_first_occ_shift(s@, pat@, i as int, i as int);
                    assert(t.skip(0) =~= t);
                }
                let rest = slice_chars(s, i, s.len());
                assert(rest@ =~= t);
                push_all(&mut out, &rest);
                return out;
            },
            Some(p) => {
                proof {
                    lemma_first_occ_shift(s@, pat@, i as int, i as int);
                    assert(t.skip(0) =~= t);
                }
                let before = slice_chars(s, i, p);
                assert(before@ =~= t.take(p - i));
                push_all(&mut out, &before);
                push_all(&mut out, rep);
                assert(t.skip(p - i + pat.len()) =~= s@.skip(p + pat.len()));
                i = p + pat.len();
            },
        }
    }
}

/// The pieces of `s` between occurrences of `c` (`str::split(c)`), which
/// always holds at least one piece.
pub open spec fn split_char(s: Seq<char>, c: char) -> Seq<Seq<char>>
    decreases s.len(),
{
    match first_occ(s, seq![c], 0) {
        None => seq![s],
        Some(p) => {
            proof {
                lemma_first_occ_range(s, seq![c], 0);
            }
            seq![s.take(p)] + split_char(s.skip(p + 1), c)
        },
    }
}

/// `str::split` by one character on a character vector.
pub fn split_chars(s: &Vec<char>, c: char) -> (r: Vec<Vec<char>>)
    ensures
        r@.map_values(|v: Vec<char>| v@) == split_char(s@, c),
{
    let mut pat: Vec<char> = Vec::new();
    pat.push(c);
    assert(pat@ =~= seq![c]);
    let mut out: Vec<Vec<char>> = Vec::new();
    let mut i: usize = 0;
    assert(s@.skip(0) =~= s@);
    loop
        invariant
            pat@ == seq![c],
            i <= s.len(),
            split_char(s@, c) == out@.map_values(|v: Vec<char>| v@) + split_char(s@.skip(i as int), c),
        decreases s.len() - i,
    {
        let ghost t = s@.skip(i as int);
        let ghost o = out@.map_values(|v: Vec<char>| v@);
        proof {
            lemma_first_occ_shift(s@, pat@, i as int, i as int);
            assert(t.skip(0) =~= t);
        }
        match find_from(s, &pat, i) {
            None => {
                let rest = slice_chars(s, i, s.len());
                assert(rest@ =~= t);
                out.push(rest);
                assert(out@.map_values(|v: Vec<char>| v@) =~= o + seq![t]);
                return out;
            },
            Some(p) => {
                let before = slice_chars(s, i, p);
                assert(before@ =~= t.take(p - i));
                out.push(before);
                assert(out@.map_values(|v: Vec<char>| v@) =~= o + seq![t.take(p - i)]);
                assert(t.skip(p - i + 1) =~= s@.skip(p + 1));
                i = p + 1;
            },
        }
    }
}

/// Number of non-overlapping occurrences of `pat` in `s`, scanning left to
/// right (`str::matches(pat).count()`).
pub open spec fn count_occ(s: Seq<char>, pat: Seq<char>) -> nat
    decreases s.len(),
{
    if pat.len() == 0 {
        0
    } else {
        match first_occ(s, pat, 0) {
            None => 0,
            Some(p) => {
                proof {
                    lemma_first_occ_range(s, pat, 0);
                }
                1 + count_occ(s.skip(p + pat.len()), pat)
            },
        }
    }
}

/// `str::matches(pat).count()` on a character vector.
pub fn count_chars(s: &Vec<char>, pat: &Vec<char>) -> (r: usize)
    requires
        pat.len() > 0,
    ensures
        r == count_occ(s@, pat@),
{
    let mut n: usize = 0;
    let mut i: usize = 0;
    assert(s@.skip(0) =~= s@);
    loop
        invariant
            pat.len() > 0,
            i <= s.len(),
            n <= i,
            count_occ(s@, pat@) == n + count_occ(s@.skip(i as int), pat@),
        decreases s.len() - i,
    {
        let ghost t = s@.skip(i as int);
        proof {
            lemma_first_occ_shift(s@, pat@, i as int, i as int);
            assert(t.skip(0) =~= t);
        }
        match find_from(s, pat, i) {
            None => {
                return n;
            },
            Some(p) => {
                assert(t.skip(p - i + pat.len()) =~= s@.skip(p + pat.len()));
                n = n + 1;
                i = p + pat.len();
            },
        }
    }
}

/// `s` ends with `pat`.
pub open spec fn ends_with(s: Seq<char>, pat: Seq<char>) -> bool {
    pat.len() <= s.len() && s.skip(s.len() - pat.len()) == pat
}

/// `s` starts with `pat`.
pub open spec fn starts_with(s: Seq<char>, pat: Seq<char>) -> bool {
    pat.len() <= s.len() && s.take(pat.len() as int) == pat
}

pub fn ends_with_chars(s: &Vec<char>, pat: &Vec<char>) -> (r: bool)
    ensures
        r == ends_with(s@, pat@),
{
    if pat.len() > s.len() {
        return false;
    }
    let r = matches_at(s, s.len() - pat.len(), pat);
    assert(s@.subrange(s.len() - pat.len(), s.len() - pat.len() + pat.len()) =~= s@.skip(
        s.len() - pat.len(),
    ));
    r
}

pub fn starts_with_chars(s: &Vec<char>, pat: &Vec<char>) -> (r: bool)
    ensures
        r == starts_with(s@, pat@),
{
    if pat.len() > s.len() {
        return false;
    }
    let r = matches_at(s, 0, pat);
    assert(s@.subrange(0, pat.len() as int) =~= s@.take(pat.len() as int));
    r
}

/// `s` with every trailing copy of `pat` removed (`trim_end_matches(pat)`).
pub open spec fn trim_end_pat(s: Seq<char>, pat: Seq<char>) -> Seq<char>
    decreases s.len(),
{
    if pat.len() > 0 && ends_with(s, pat) {
        trim_end_pat(s.take(s.len() - pat.len()), pat)
    } else {
        s
    }
}

pub fn trim_end_pat_vec(s: &Vec<char>, pat: &Vec<char>) -> (r: Vec<char>)
    ensures
        r@ == trim_end_pat(s@, pat@),
{
    let mut cur = slice_chars(s, 0, s.len());
    assert(cur@ =~= s@);
    while pat.len() > 0 && ends_with_chars(&cur, pat)
        invariant
            trim_end_pat(s@, pat@) == trim_end_pat(cur@, pat@),
        decreases cur.len(),
    {
        let n = cur.len() - pat.len();
        cur = slice_chars(&cur, 0, n);
    }
    cur
}

/// `l` without one trailing carriage return.
pub open spec fn strip_cr(l: Seq<char>) -> Seq<char> {
    if l.len() > 0 && l.last() == '\r' {
        l.drop_last()
    } else {
        l
    }
}

/// The lines of `s` as `str::lines` yields them: split after each `\n`, a
/// `\r` right before that `\n` dropped, and no empty last line after a
/// final line ending.
pub open spec fn lines_of(s: Seq<char>) -> Seq<Seq<char>>
    decreases s.len(),
{
    if s.len() == 0 {
        Seq::empty()
    } else {
        match first_occ(s, seq!['\n'], 0) {
            None => seq![s],
            Some(p) => {
                proof {
                    lemma_first_occ_range(s, seq!['\n'], 0);
                }
                seq![strip_cr(s.take(p))] + lines_of(s.skip(p + 1))
            },
        }
    }
}

/// `str::lines` on a character vector.
pub fn lines_vec(s: &Vec<char>) -> (r: Vec<Vec<char>>)
    ensures
        r@.map_values(|v: Vec<char>| v@) == lines_of(s@),
{
    let mut nl: Vec<char> = Vec::new();
    nl.push('\n');
    assert(nl@ =~= seq!['\n']);
    let mut out: Vec<Vec<char>> = Vec::new();
    let mut i: usize = 0;
    assert(s@.skip(0) =~= s@);
    while i < s.len()
        invariant
            nl@ == seq!['\n'],
            i <= s.len(),
            lines_of(s@) == out@.map_values(|v: Vec<char>| v@) + lines_of(s@.skip(i as int)),
        decreases s.len() - i,
    {
        let ghost t = s@.skip(i as int);
        let ghost o = out@.map_values(|v: Vec<char>| v@);
        proof {
            lemma_first_occ_shift(s@, nl@, i as int, i as int);
            assert(t.skip(0) =~= t);
        }
        match find_from(s, &nl, i) {
            None => {
                let rest = slice_chars(s, i, s.len());
                assert(rest@ =~= t);
                out.push(rest);
                assert(out@.map_values(|v: Vec<char>| v@) =~= o + seq![t]);
                assert(s@.skip(s.len() as int) =~= Seq::<char>::empty());
                i = s.len();
            },
            Some(p) => {
                let mut line = slice_chars(s, i, p);
                assert(line@ =~= t.take(p - i));
                if line.len() > 0 && line[line.len() - 1] == '\r' {
                    line.pop();
                    assert(line@ =~= t.take(p - i).drop_last());
                }
                out.push(line);
                assert(out@.map_values(|v: Vec<char>| v@) =~= o + seq![strip_cr(t.take(p - i))]);
                assert(t.skip(p - i + 1) =~= s@.skip(p + 1));
                i = p + 1;
            },
        }
    }
    assert(out@.map_values(|v: Vec<char>| v@) + lines_of(s@.skip(i as int)) =~= out@.map_values(|v: Vec<char>| v@));
    out
}

/// What `char::is_alphanumeric` returns (Unicode `Alphabetic` or `Numeric`).
pub uninterp spec fn char_alphanumeric(c: char) -> bool;

/// `char::is_alphanumeric`. Besides naming the result, states what the
/// documentation gives plainly for ASCII: exactly the letters and digits.
#[verifier::external_body]
pub(crate) fn is_alphanumeric(c: char) -> (r: bool)
    ensures
        r == char_alphanumeric(c),
        (c as u32) < 128 ==> r == is_ascii_alnum(c),
{
    c.is_alphanumeric()
}

/// `s` with leading Unicode whitespace removed (`str::trim_start`).
pub fn trim_start_chars(s: &Vec<char>) -> (r: Vec<char>)
    ensures
        r@ == trim_start_by(s@),
{
    let a = skip_ws_start(s);
    let t = slice_chars(s, a, s.len());
    assert(t@ =~= s@.skip(a as int));
    t
}

/// The ASCII digit of `d` (0..10).
pub open spec fn digit_char(d: nat) -> char {
    ((0x30 + d) as u8) as char
}

/// `n` written in decimal, without leading zeros.
pub open spec fn dec(n: nat) -> Seq<char>
    decreases n,
{
    if n < 10 {
        seq![digit_char(n)]
    } else {
        dec(n / 10) + seq![digit_char(n % 10)]
    }
}

/// `n` in decimal (`format!("{n}")`).
pub fn usize_text(n: usize) -> (r: Vec<char>)
    ensures
        r@ == dec(n as nat),
    decreases n,
{
    if n < 10 {
        let mut v: Vec<char> = Vec::new();
        v.push(((0x30usize + n) as u8) as char);
        v
    } else {
        let mut v = usize_text(n / 10);
        v.push(((0x30usize + n % 10) as u8) as char);
        v
    }
}

} // verus!
