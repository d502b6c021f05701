//! Translate PostgreSQL / GaussDB `to_char` / `to_date` / `to_timestamp`
//! format strings into Spark's `DateTimeFormatter` tokens.
//!
//! | PG token | Spark token | Meaning                  |
//! |----------|-------------|--------------------------|
//! | `YYYY`   | `yyyy`      | 4-digit year             |
//! | `YY`     | `yy`        | 2-digit year             |
//! | `MON`    | `MMM`       | abbreviated month name   |
//! | `MM`     | `MM`        | numeric month (same)     |
//! | `MI`     | `mm`        | minute                   |
//! | `DY`     | `EEE`       | day-of-week abbreviation |
//! | `DD`     | `dd`        | day of month             |
//! | `HH24`   | `HH`        | 24-hour                  |
//! | `HH12`   | `hh`        | 12-hour                  |
//! | `HH`     | `hh`        | 12-hour (PG default)     |
//! | `SS`     | `ss`        | seconds                  |
//! | `AM`/`PM`| `a`         | am/pm marker             |
//! | `FF<n>`  | `S`*n       | sub-second precision     |
use vstd::prelude::*;

use crate::text::{contains_chars, contains_seq, to_uppercase, unicode_upper, all_ascii, ascii_digit, is_ascii_digit, str_chars, string_from_chars, upper, upper_char};

verus! {

/// `p` is a prefix of `s` once `s` is upper-cased (ASCII rules).
pub open spec fn upper_prefix(s: Seq<char>, p: Seq<char>) -> bool {
    p.len() <= s.len() && forall|k: int| 0 <= k < p.len() ==> upper_char(#[trigger] s[k]) == p[k]
}

/// `n` copies of `c`.
pub open spec fn repeat_char(c: char, n: nat) -> Seq<char> {
    Seq::new(n, |_i: int| c)
}

/// The Spark replacement for the PG token at the start of `s`, and the number
/// of characters it consumes; `(empty, 0)` when no token starts there.
/// Longest match first, in the fixed order of the table above.
pub open spec fn fmt_token(s: Seq<char>) -> (Seq<char>, nat) {
    if upper_prefix(s, seq!['Y', 'Y', 'Y', 'Y']) {
        (seq!['y', 'y', 'y', 'y'], 4)
    } else if upper_prefix(s, seq!['Y', 'Y']) {
        (seq!['y', 'y'], 2)
    } else if upper_prefix(s, seq!['M', 'O', 'N']) {
        (seq!['M', 'M', 'M'], 3)
    } else if upper_prefix(s, seq!['M', 'I']) {
        (seq!['m', 'm'], 2)
    } else if upper_prefix(s, seq!['M', 'M']) {
        (seq!['M', 'M'], 2)
    } else if upper_prefix(s, seq!['D', 'Y']) {
        (seq!['E', 'E', 'E'], 2)
    } else if upper_prefix(s, seq!['D', 'D']) {
        (seq!['d', 'd'], 2)
    } else if upper_prefix(s, seq!['H', 'H', '2', '4']) {
        (seq!['H', 'H'], 4)
    } else if upper_prefix(s, seq!['H', 'H', '1', '2']) {
        (seq!['h', 'h'], 4)
    } else if upper_prefix(s, seq!['H', 'H']) {
        (seq!['h', 'h'], 2)
    } else if upper_prefix(s, seq!['S', 'S']) {
        (seq!['s', 's'], 2)
    } else if upper_prefix(s, seq!['A', 'M']) || upper_prefix(s, seq!['P', 'M']) {
        (seq!['a'], 2)
    } else if upper_prefix(s, seq!['F', 'F']) {
        if s.len() >= 3 && is_ascii_digit(s[2]) {
            (repeat_char('S', (s[2] as nat - '0' as nat) as nat), 3)
        } else {
            (seq!['S', 'S', 'S'], 2)
        }
    } else {
        (Seq::empty(), 0)
    }
}

/// The whole translation: tokens are replaced left to right, every other
/// character is copied unchanged.
pub open spec fn pg_date_format(s: Seq<char>) -> Seq<char>
    decreases s.len(),
{
    if s.len() == 0 {
        Seq::empty()
    } else {
        let (rep, n) = fmt_token(s);
        if 0 < n <= s.len() {
            rep + pg_date_format(s.skip(n as int))
        } else {
            seq![s[0]] + pg_date_format(s.skip(1))
        }
    }
}

/// A token never consumes more than what is there.
pub proof fn lemma_fmt_token_len(s: Seq<char>)
    ensures
        fmt_token(s).1 <= s.len(),
        fmt_token(s).1 <= 4,
{
}

fn upper_prefix_at(s: &Vec<char>, i: usize, p: &[char]) -> (r: bool)
    requires
        i <= s.len(),
    ensures
        r == upper_prefix(s@.skip(i as int), p@),
{
    if p.len() > s.len() - i {
        return false;
    }
    let mut k: usize = 0;
    while k < p.len()
        invariant
            i + p.len() <= s.len(),
            k <= p.len(),
            forall|j: int| 0 <= j < k ==> upper_char(#[trigger] s@.skip(i as int)[j]) == p@[j],
        decreases p.len() - k,
    {
        if upper(s[i + k]) != p[k] {
            assert(s@.skip(i as int)[k as int] == s@[i + k]);
            return false;
        }
        k = k + 1;
    }
    true
}

/// Pushes the replacement for the token at `i` and returns how many
/// characters it consumed (0 when none starts there).
fn token_at(s: &Vec<char>, i: usize, out: &mut Vec<char>) -> (n: usize)
    requires
        i < s.len(),
    ensures
        n == fmt_token(s@.skip(i as int)).1,
        final(out)@ == old(out)@ + fmt_token(s@.skip(i as int)).0,
{
    let ghost t = s@.skip(i as int);
    let ghost o = out@;
    if upper_prefix_at(s, i, &['Y', 'Y', 'Y', 'Y']) {
        out.push('y'); out.push('y'); out.push('y'); out.push('y');
        assert(out@ =~= o + seq!['y', 'y', 'y', 'y']);
        4
    } else if upper_prefix_at(s, i, &['Y', 'Y']) {
        out.push('y'); out.push('y');
        assert(out@ =~= o + seq!['y', 'y']);
        2
    } else if upper_prefix_at(s, i, &['M', 'O', 'N']) {
        out.push('M'); out.push('M'); out.push('M');
        assert(out@ =~= o + seq!['M', 'M', 'M']);
        3
    } else if upper_prefix_at(s, i, &['M', 'I']) {
        out.push('m'); out.push('m');
        assert(out@ =~= o + seq!['m', 'm']);
        2
    } else if upper_prefix_at(s, i, &['M', 'M']) {
        out.push('M'); out.push('M');
        assert(out@ =~= o + seq!['M', 'M']);
        2
    } else if upper_prefix_at(s, i, &['D', 'Y']) {
        out.push('E'); out.push('E'); out.push('E');
        assert(out@ =~= o + seq!['E', 'E', 'E']);
        2
    } else if upper_prefix_at(s, i, &['D', 'D']) {
        out.push('d'); out.push('d');
        assert(out@ =~= o + seq!['d', 'd']);
        2
    } else if upper_prefix_at(s, i, &['H', 'H', '2', '4']) {
        out.push('H'); out.push('H');
        assert(out@ =~= o + seq!['H', 'H']);
        4
    } else if upper_prefix_at(s, i, &['H', 'H', '1', '2']) {
        out.push('h'); out.push('h');
        assert(out@ =~= o + seq!['h', 'h']);
        4
    } else if upper_prefix_at(s, i, &['H', 'H']) {
        out.push('h'); out.push('h');
        assert(out@ =~= o + seq!['h', 'h']);
        2
    } else if upper_prefix_at(s, i, &['S', 'S']) {
        out.push('s'); out.push('s');
        assert(out@ =~= o + seq!['s', 's']);
        2
    } else if upper_prefix_at(s, i, &['A', 'M']) || upper_prefix_at(s, i, &['P', 'M']) {
        out.push('a');
        assert(out@ =~= o + seq!['a']);
        2
    } else if upper_prefix_at(s, i, &['F', 'F']) {
        if s.len() - i >= 3 && ascii_digit(s[i + 2]) {
            assert(t[2] == s@[i + 2]);
            let d = (s[i + 2] as u32) - ('0' as u32);
            let mut k: u32 = 0;
            while k < d
                invariant
                    k <= d,
                    d == t[2] as nat - '0' as nat,
                    out@ == o + repeat_char('S', k as nat),
                decreases d - k,
            {
                out.push('S');
                k = k + 1;
                assert(out@ =~= o + repeat_char('S', k as nat));
            }
            3
        } else {
            out.push('S'); out.push('S'); out.push('S');
            assert(out@ =~= o + seq!['S', 'S', 'S']);
            2
        }
    } else {
        assert(out@ =~= o + Seq::<char>::empty());
        0
    }
}

/// Translate a PG/GaussDB format string into its Spark equivalent.
///
/// Unrecognized characters are copied verbatim. Matching is
/// case-insensitive on the PG side (ASCII letters) but produces the
/// canonical Spark casing.
pub fn translate_pg_date_format(pg: &str) -> (r: String)
    ensures
        r@ == pg_date_format(pg@),
{
    let s = str_chars(pg);
    let mut out: Vec<char> = Vec::new();
    let mut i: usize = 0;
    assert(s@.skip(0) =~= s@);
    while i < s.len()
        invariant
            i <= s.len(),
            pg_date_format(s@) == out@ + pg_date_format(s@.skip(i as int)),
        decreases s.len() - i,
    {
        let ghost t = s@.skip(i as int);
        let ghost o = out@;
        proof {
            lemma_fmt_token_len(t);
        }
        let n = token_at(&s, i, &mut out);
        if n > 0 {
            assert(t.skip(n as int) =~= s@.skip(i + n));
            i = i + n;
        } else {
            out.push(s[i]);
            assert(out@ =~= o + seq![t[0]]);
            assert(t.skip(1) =~= s@.skip(i + 1));
            i = i + 1;
        }
    }
    string_from_chars(out)
}

/// The PG tokens whose presence marks a date/time format.
pub open spec fn date_tokens() -> Seq<Seq<char>> {
    seq![
        seq!['Y', 'Y', 'Y', 'Y'], seq!['Y', 'Y'], seq!['M', 'M'], seq!['D', 'D'],
        seq!['H', 'H'], seq!['M', 'I'], seq!['S', 'S'], seq!['M', 'O', 'N'],
        seq!['D', 'Y'], seq!['F', 'F'], seq!['A', 'M'], seq!['P', 'M'],
    ]
}

fn date_token(k: usize) -> (r: Vec<char>)
    requires
        k < 12,
    ensures
        r@ == date_tokens()[k as int],
{
    let mut v: Vec<char> = Vec::new();
    if k == 0 {
        v.push('Y'); v.push('Y'); v.push('Y'); v.push('Y');
    } else if k == 1 {
        v.push('Y'); v.push('Y');
    } else if k == 2 {
        v.push('M'); v.push('M');
    } else if k == 3 {
        v.push('D'); v.push('D');
    } else if k == 4 {
        v.push('H'); v.push('H');
    } else if k == 5 {
        v.push('M'); v.push('I');
    } else if k == 6 {
        v.push('S'); v.push('S');
    } else if k == 7 {
        v.push('M'); v.push('O'); v.push('N');
    } else if k == 8 {
        v.push('D'); v.push('Y');
    } else if k == 9 {
        v.push('F'); v.push('F');
    } else if k == 10 {
        v.push('A'); v.push('M');
    } else {
        v.push('P'); v.push('M');
    }
    assert(v@ =~= date_tokens()[k as int]);
    v
}

/// Whether a format holds one of the date/time tokens (after
/// `str::to_uppercase`).
pub open spec fn has_date_token(fmt: Seq<char>) -> bool {
    exists|k: int| 0 <= k < 12 && #[trigger] contains_seq(unicode_upper(fmt), date_tokens()[k])
}

/// Heuristic: does the format string contain any date/time token? Decides
/// whether `to_char(expr, fmt)` is a date format or a numeric one such as
/// `fm999.99`. The format is upper-cased with `str::to_uppercase` first.
pub fn contains_date_format_token(fmt: &str) -> (r: bool)
    ensures
        r == has_date_token(fmt@),
{
    let u = str_chars(&to_uppercase(fmt));
    let mut k: usize = 0;
    while k < 12
        invariant
            k <= 12,
            u@ == unicode_upper(fmt@),
            forall|j: int| 0 <= j < k ==> !#[trigger] contains_seq(u@, date_tokens()[j]),
        decreases 12 - k,
    {
        let t = date_token(k);
        if contains_chars(&u, &t) {
            return true;
        }
        k = k + 1;
    }
    false
}

} // verus!
