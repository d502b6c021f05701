//! Hive type strings (`BIGINT`, `DECIMAL(10,4)`, `ARRAY<INT>`,
//! `MAP<STRING,DOUBLE>`, `STRUCT<a:INT,b:STRING>`, ...) read as Avro types.
use vstd::prelude::*;

use crate::schema::avro::{nullable, AvroField, AvroRecord, AvroType};
use crate::text::{
    equals_str, first_occ, find_from, is_ascii_digit, lit, slice_chars, str_chars, string_from_chars, trim_chars, trim_ws,
    upper_seq, upper_vec,
};

verus! {

// ---------------------------------------------------------------------------
// Hive type strings
// ---------------------------------------------------------------------------

/// Index of the first `(` or `<`, or the length.
pub open spec fn head_stop(s: Seq<char>, i: int) -> int
    decreases s.len() - i,
{
    if i < 0 || i >= s.len() {
        s.len() as int
    } else if s[i] == '(' || s[i] == '<' {
        i
    } else {
        head_stop(s, i + 1)
    }
}

/// The type name of a trimmed type string: upper-cased (ASCII), up to the
/// first `(` or `<`, trimmed.
pub open spec fn type_head(t: Seq<char>) -> Seq<char> {
    let u = upper_seq(t);
    trim_ws(u.take(head_stop(u, 0)))
}

/// The last index of `c` in `s`.
pub open spec fn last_index(s: Seq<char>, c: char, i: int) -> Option<int>
    decreases i,
{
    if i <= 0 || i > s.len() {
        None
    } else if s[i - 1] == c {
        Some(i - 1)
    } else {
        last_index(s, c, i - 1)
    }
}

/// The text between the first `<` and the last `>`, when the `>` comes
/// after the `<`.
pub open spec fn angle_inner(t: Seq<char>) -> Option<Seq<char>> {
    match (first_occ(t, seq!['<'], 0), last_index(t, '>', t.len() as int)) {
        (Some(open), Some(close)) => if close > open {
            Some(t.subrange(open + 1, close))
        } else {
            None
        },
        _ => None,
    }
}

/// The character-level state of a comma split at angle-bracket depth 0:
/// pieces so far, the current piece, the depth.
pub open spec fn comma_state(s: Seq<char>) -> (Seq<Seq<char>>, Seq<char>, int)
    decreases s.len(),
{
    if s.len() == 0 {
        (Seq::empty(), Seq::empty(), 0)
    } else {
        let (out, cur, depth) = comma_state(s.drop_last());
        let c = s.last();
        if c == '<' {
            (out, cur.push(c), depth + 1)
        } else if c == '>' {
            (out, cur.push(c), depth - 1)
        } else if c == ',' && depth == 0 {
            (out.push(trim_ws(cur)), Seq::empty(), depth)
        } else {
            (out, cur.push(c), depth)
        }
    }
}

/// Split at commas outside angle brackets, each piece trimmed; a
/// non-empty last piece is kept.
pub open spec fn split_top_level_comma(s: Seq<char>) -> Seq<Seq<char>> {
    let (out, cur, _) = comma_state(s);
    if cur.len() > 0 {
        out.push(trim_ws(cur))
    } else {
        out
    }
}

/// `str::parse::<u32>`: an optional `+`, then one or more ASCII digits,
/// the value at most `u32::MAX`.
pub open spec fn digits_value(s: Seq<char>) -> int
    decreases s.len(),
{
    if s.len() == 0 {
        0
    } else {
        digits_value(s.drop_last()) * 10 + (s.last() as int - '0' as int)
    }
}

/// The text after an optional leading `+`.
pub open spec fn unsigned_part(s: Seq<char>) -> Seq<char> {
    if s.len() > 0 && s[0] == '+' {
        s.drop_first()
    } else {
        s
    }
}

pub open spec fn all_digits(d: Seq<char>) -> bool {
    forall|i: int| 0 <= i < d.len() ==> is_ascii_digit(#[trigger] d[i])
}

pub open spec fn parse_u32_spec(s: Seq<char>) -> Option<u32> {
    let d = unsigned_part(s);
    if d.len() > 0 && all_digits(d) && digits_value(d) <= u32::MAX {
        Some(digits_value(d) as u32)
    } else {
        None
    }
}

fn parse_u32(s: &Vec<char>) -> (r: Option<u32>)
    ensures
        r == parse_u32_spec(s@),
{
    let start: usize = if s.len() > 0 && s[0] == '+' {
        1
    } else {
        0
    };
    let ghost d = unsigned_part(s@);
    assert(d =~= s@.skip(start as int));
    if start == s.len() {
        return None;
    }
    let mut v: u64 = 0;
    let mut i: usize = start;
    while i < s.len()
        invariant
            start <= i <= s.len(),
            d == s@.skip(start as int),
            d == unsigned_part(s@),
            v == digits_value(s@.subrange(start as int, i as int)),
            v <= u32::MAX,
            forall|k: int| start <= k < i ==> is_ascii_digit(#[trigger] s@[k]),
        decreases s.len() - i,
    {
        let c = s[i];
        assert(s@.subrange(start as int, i + 1).drop_last() =~= s@.subrange(start as int, i as int));
        if !('0' <= c && c <= '9') {
            assert(d[i - start] == c);
            assert(!is_ascii_digit(d[i - start]));
            assert(!all_digits(d));
            return None;
        }
        let nv = v * 10 + (c as u64 - '0' as u64);
        assert(nv == digits_value(s@.subrange(start as int, i + 1)));
        if nv > 0xffff_ffff {
            proof {
                if all_digits(d) {
                    lemma_digits_monotone(d, (i - start + 1) as int);
                    assert(d.take(i - start + 1) =~= s@.subrange(start as int, i + 1));
                }
            }
            return None;
        }
        v = nv;
        i = i + 1;
    }
    assert(s@.subrange(start as int, s.len() as int) =~= d);
    Some(v as u32)
}

/// A prefix of a digit string has no larger value.
proof fn lemma_digits_monotone(d: Seq<char>, k: int)
    requires
        0 <= k <= d.len(),
        forall|i: int| 0 <= i < d.len() ==> is_ascii_digit(#[trigger] d[i]),
    ensures
        digits_value(d.take(k)) <= digits_value(d),
        digits_value(d.take(k)) >= 0,
    decreases d.len(),
{
    if d.len() > 0 {
        if k == d.len() {
            assert(d.take(k) =~= d);
            lemma_digits_nonneg(d);
        } else {
            lemma_digits_monotone(d.drop_last(), k);
            assert(d.drop_last().take(k) =~= d.take(k));
            lemma_digits_nonneg(d.drop_last());
        }
    } else {
        assert(d.take(k) =~= d);
    }
}

proof fn lemma_digits_nonneg(d: Seq<char>)
    requires
        forall|i: int| 0 <= i < d.len() ==> is_ascii_digit(#[trigger] d[i]),
    ensures
        digits_value(d) >= 0,
    decreases d.len(),
{
    if d.len() > 0 {
        lemma_digits_nonneg(d.drop_last());
    }
}

/// `DECIMAL(p, s)` parameters: the text between the first `(` and the
/// last `)`, split at commas, each trimmed; the precision must parse, the
/// scale defaults to 0. A `)` before the `(` gives none.
pub open spec fn decimal_params(t: Seq<char>) -> Option<(u32, u32)> {
    match (first_occ(t, seq!['('], 0), last_index(t, ')', t.len() as int)) {
        (Some(open), Some(close)) => if close < open + 1 {
            None
        } else {
            let pieces = crate::text::split_char(t.subrange(open + 1, close), ',');
            match parse_u32_spec(trim_ws(pieces[0])) {
                None => None,
                Some(p) => {
                    let sc = if pieces.len() > 1 {
                        match parse_u32_spec(trim_ws(pieces[1])) {
                            Some(x) => x,
                            None => 0u32,
                        }
                    } else {
                        0u32
                    };
                    Some((p, sc))
                },
            }
        },
        _ => None,
    }
}

fn last_index_of(s: &Vec<char>, c: char) -> (r: Option<usize>)
    ensures
        match r {
            Some(i) => last_index(s@, c, s.len() as int) == Some(i as int) && i < s.len(),
            None => last_index(s@, c, s.len() as int) is None,
        },
{
    let mut i: usize = s.len();
    while i > 0
        invariant
            i <= s.len(),
            last_index(s@, c, s.len() as int) == last_index(s@, c, i as int),
        decreases i,
    {
        if s[i - 1] == c {
            return Some(i - 1);
        }
        i = i - 1;
    }
    None
}

fn decimal_params_exec(t: &Vec<char>) -> (r: Option<(u32, u32)>)
    ensures
        r == decimal_params(t@),
{
    let mut open_pat: Vec<char> = Vec::new();
    open_pat.push('(');
    assert(open_pat@ =~= seq!['(']);
    let open = match find_from(t, &open_pat, 0) {
        Some(o) => o,
        None => {
            return None;
        },
    };
    let close = match last_index_of(t, ')') {
        Some(c) => c,
        None => {
            return None;
        },
    };
    if close < open + 1 {
        return None;
    }
    let params = slice_chars(t, open + 1, close);
    let pieces = crate::text::split_chars(&params, ',');
    proof {
        lemma_split_nonempty(params@, ',');
    }
    assert(pieces@.map_values(|v: Vec<char>| v@)[0] == pieces@[0]@);
    let p = match parse_u32(&trim_chars(&pieces[0])) {
        Some(p) => p,
        None => {
            return None;
        },
    };
    let sc = if pieces.len() > 1 {
        assert(pieces@.map_values(|v: Vec<char>| v@)[1] == pieces@[1]@);
        match parse_u32(&trim_chars(&pieces[1])) {
            Some(x) => x,
            None => 0,
        }
    } else {
        0
    };
    Some((p, sc))
}

/// Splitting yields at least one piece.
proof fn lemma_split_nonempty(s: Seq<char>, c: char)
    ensures
        crate::text::split_char(s, c).len() >= 1,
{
    match first_occ(s, seq![c], 0) {
        None => {},
        Some(p) => {
            crate::text::lemma_first_occ_range(s, seq![c], 0);
        },
    }
}

fn angle_inner_exec(t: &Vec<char>) -> (r: Option<Vec<char>>)
    ensures
        match (r, angle_inner(t@)) {
            (Some(a), Some(b)) => a@ == b && a.len() + 2 <= t.len(),
            (None, None) => true,
            _ => false,
        },
{
    let mut lt: Vec<char> = Vec::new();
    lt.push('<');
    assert(lt@ =~= seq!['<']);
    let open = match find_from(t, &lt, 0) {
        Some(o) => o,
        None => {
            return None;
        },
    };
    let close = match last_index_of(t, '>') {
        Some(c) => c,
        None => {
            return None;
        },
    };
    if close <= open {
        return None;
    }
    Some(slice_chars(t, open + 1, close))
}

fn split_top_level_comma_exec(s: &Vec<char>) -> (r: Vec<Vec<char>>)
    ensures
        r@.map_values(|v: Vec<char>| v@) == split_top_level_comma(s@),
        forall|i: int| 0 <= i < r.len() ==> (#[trigger] r@[i]).len() <= s.len(),
{
    let mut out: Vec<Vec<char>> = Vec::new();
    let mut cur: Vec<char> = Vec::new();
    let mut opens: usize = 0;
    let mut closes: usize = 0;
    let mut i: usize = 0;
    while i < s.len()
        invariant
            i <= s.len(),
            opens <= i,
            closes <= i,
            cur.len() <= i,
            forall|k: int| 0 <= k < out.len() ==> (#[trigger] out@[k]).len() <= i,
            ({
                let st = comma_state(s@.take(i as int));
                &&& out@.map_values(|v: Vec<char>| v@) == st.0
                &&& cur@ == st.1
                &&& opens - closes == st.2
            }),
        decreases s.len() - i,
    {
        let c = s[i];
        assert(s@.take(i + 1).drop_last() =~= s@.take(i as int));
        assert(s@.take(i + 1).last() == c);
        if c == '<' {
            opens = opens + 1;
            cur.push(c);
        } else if c == '>' {
            closes = closes + 1;
            cur.push(c);
        } else if c == ',' && opens == closes {
            let piece = trim_chars(&cur);
            let ghost o = out@;
            out.push(piece);
            assert(out@.map_values(|v: Vec<char>| v@) =~= o.map_values(|v: Vec<char>| v@).push(piece@));
            cur = Vec::new();
        } else {
            cur.push(c);
        }
        i = i + 1;
    }
    assert(s@.take(s.len() as int) =~= s@);
    if cur.len() > 0 {
        let piece = trim_chars(&cur);
        let ghost o = out@;
        out.push(piece);
        assert(out@.map_values(|v: Vec<char>| v@) =~= o.map_values(|v: Vec<char>| v@).push(piece@));
    }
    out
}

/// Name and type of a `STRUCT` member `name:type`: both trimmed; without a
/// `:`, the whole text is the name and the type is absent (taken as
/// `STRING`).
pub open spec fn member_name(p: Seq<char>) -> Seq<char> {
    match first_occ(p, seq![':'], 0) {
        Some(k) => trim_ws(p.take(k)),
        None => trim_ws(p),
    }
}

pub open spec fn member_type(p: Seq<char>) -> Option<Seq<char>> {
    match first_occ(p, seq![':'], 0) {
        Some(k) => Some(trim_ws(p.skip(k + 1))),
        None => None,
    }
}

/// `a` is the Avro type of the Hive type string `t0`.
pub open spec fn hive_avro(t0: Seq<char>, a: AvroType) -> bool
    decreases a, 1nat,
{
    let t = trim_ws(t0);
    let h = type_head(t);
    if h == "BOOLEAN"@ || h == "BOOL"@ {
        a == AvroType::Boolean
    } else if h == "TINYINT"@ || h == "SMALLINT"@ || h == "INT"@ || h == "INT4"@ || h == "INT2"@ || h == "INTEGER"@ {
        a == AvroType::Int
    } else if h == "BIGINT"@ || h == "INT8"@ || h == "LONG"@ {
        a == AvroType::Long
    } else if h == "FLOAT"@ || h == "REAL"@ || h == "FLOAT4"@ {
        a == AvroType::Float
    } else if h == "DOUBLE"@ || h == "DOUBLE PRECISION"@ || h == "FLOAT8"@ {
        a == AvroType::Double
    } else if h == "DECIMAL"@ || h == "NUMERIC"@ || h == "DEC"@ {
        let (p, s) = match decimal_params(t) {
            Some(x) => x,
            None => (18u32, 2u32),
        };
        a == AvroType::Decimal { precision: p, scale: s }
    } else if h == "STRING"@ || h == "VARCHAR"@ || h == "CHAR"@ || h == "TEXT"@ || h == "UUID"@ || h == "JSON"@
        || h == "JSONB"@ {
        a == AvroType::String
    } else if h == "BINARY"@ || h == "VARBINARY"@ || h == "BYTEA"@ || h == "BLOB"@ {
        a == AvroType::Bytes
    } else if h == "DATE"@ {
        a == AvroType::Date
    } else if h == "TIMESTAMP"@ || h == "TIMESTAMPTZ"@ || h == "TIMESTAMP WITH TIME ZONE"@ || h == "DATETIME"@ {
        a == AvroType::TimestampMillis
    } else if h == "ARRAY"@ {
        match angle_inner(t) {
            Some(inner) => a matches AvroType::Array(x) && hive_avro(inner, *x),
            None => a == AvroType::Array(Box::new(AvroType::String)),
        }
    } else if h == "MAP"@ {
        match angle_inner(t) {
            Some(inner) => {
                let parts = split_top_level_comma(inner);
                a matches AvroType::MapOf(x) && if parts.len() > 1 {
                    hive_avro(parts[1], *x)
                } else {
                    *x == AvroType::String
                }
            },
            None => a == AvroType::MapOf(Box::new(AvroType::String)),
        }
    } else if h == "STRUCT"@ {
        match angle_inner(t) {
            Some(inner) => a matches AvroType::Record(r) && r.name@ == "_struct"@ && r.namespace is None
                && struct_fields(split_top_level_comma(inner), r.fields@),
            None => a == AvroType::String,
        }
    } else {
        a == AvroType::String
    }
}

/// Each field is a `STRUCT` member: its name, its type made optional, no
/// doc.
pub open spec fn struct_fields(parts: Seq<Seq<char>>, fs: Seq<AvroField>) -> bool
    decreases fs, 0nat,
{
    if fs.len() != parts.len() {
        false
    } else if fs.len() == 0 {
        true
    } else {
        let f = fs[0];
        &&& f.name@ == member_name(parts[0])
        &&& f.doc is None
        &&& f.avro_type matches AvroType::Nullable(x) && match member_type(parts[0]) {
            Some(ty) => hive_avro(ty, *x),
            None => *x == AvroType::String,
        }
        &&& struct_fields(parts.drop_first(), fs.drop_first())
    }
}

/// Appending one well-formed member keeps the fields in step with the
/// members.
proof fn lemma_struct_fields_push(ps: Seq<Seq<char>>, fs: Seq<AvroField>, p: Seq<char>, f: AvroField)
    requires
        struct_fields(ps, fs),
        f.name@ == member_name(p),
        f.doc is None,
        f.avro_type matches AvroType::Nullable(x) && match member_type(p) {
            Some(ty) => hive_avro(ty, *x),
            None => *x == AvroType::String,
        },
    ensures
        struct_fields(ps.push(p), fs.push(f)),
    decreases fs.len(),
{
    if fs.len() == 0 {
        assert(ps.len() == 0);
        assert(ps.push(p).drop_first() =~= Seq::<Seq<char>>::empty());
        assert(fs.push(f).drop_first() =~= Seq::<AvroField>::empty());
        assert(struct_fields(Seq::<Seq<char>>::empty(), Seq::<AvroField>::empty()));
        assert(ps.push(p)[0] == p);
        assert(fs.push(f)[0] == f);
    } else {
        lemma_struct_fields_push(ps.drop_first(), fs.drop_first(), p, f);
        assert(ps.push(p).drop_first() =~= ps.drop_first().push(p));
        assert(fs.push(f).drop_first() =~= fs.drop_first().push(f));
        assert(ps.push(p)[0] == ps[0]);
        assert(fs.push(f)[0] == fs[0]);
    }
}

/// A Hive type never maps to an optional Avro type.
pub proof fn lemma_hive_not_nullable(t: Seq<char>, a: AvroType)
    requires
        hive_avro(t, a),
    ensures
        !(a is Nullable),
{
}

fn head_stop_exec(u: &Vec<char>) -> (r: usize)
    ensures
        r == head_stop(u@, 0),
        r <= u.len(),
{
    let mut i: usize = 0;
    while i < u.len()
        invariant
            i <= u.len(),
            head_stop(u@, i as int) == head_stop(u@, 0),
        decreases u.len() - i,
    {
        if u[i] == '(' || u[i] == '<' {
            return i;
        }
        i = i + 1;
    }
    i
}

/// A `STRUCT` member split at its first `:` into trimmed name and type.
fn member_parts(p: &Vec<char>) -> (r: (Vec<char>, Option<Vec<char>>))
    ensures
        r.0@ == member_name(p@),
        match (r.1, member_type(p@)) {
            (Some(a), Some(b)) => a@ == b && a.len() <= p.len(),
            (None, None) => true,
            _ => false,
        },
{
    let mut colon: Vec<char> = Vec::new();
    colon.push(':');
    assert(colon@ =~= seq![':']);
    match find_from(p, &colon, 0) {
        Some(k) => {
            let name = trim_chars(&slice_chars(p, 0, k));
            let ty = trim_chars(&slice_chars(p, k + 1, p.len()));
            assert(p@.take(k as int) =~= p@.subrange(0, k as int));
            assert(p@.skip(k + 1) =~= p@.subrange(k + 1, p.len() as int));
            (name, Some(ty))
        },
        None => (trim_chars(p), None),
    }
}

/// The Avro type of a Hive type string such as `BIGINT`, `DECIMAL(18,2)`,
/// `ARRAY<INT>`, `MAP<STRING,DOUBLE>` or `STRUCT<a:INT,b:STRING>`; an
/// unknown name gives `STRING`.
#[verifier::rlimit(40)]
pub fn hive_type_to_avro(t0: &Vec<char>) -> (a: AvroType)
    ensures
        hive_avro(t0@, a),
    decreases t0.len(),
{
    let t = trim_chars(t0);
    let u = upper_vec(&t);
    let stop = head_stop_exec(&u);
    let h = trim_chars(&slice_chars(&u, 0, stop));
    assert(u@.take(stop as int) =~= u@.subrange(0, stop as int));
    assert(h@ == type_head(t@));
    if equals_str(&h, "BOOLEAN") || equals_str(&h, "BOOL") {
        AvroType::Boolean
    } else if equals_str(&h, "TINYINT") || equals_str(&h, "SMALLINT") || equals_str(&h, "INT") || equals_str(
        &h,
        "INT4",
    ) || equals_str(&h, "INT2") || equals_str(&h, "INTEGER") {
        AvroType::Int
    } else if equals_str(&h, "BIGINT") || equals_str(&h, "INT8") || equals_str(&h, "LONG") {
        AvroType::Long
    } else if equals_str(&h, "FLOAT") || equals_str(&h, "REAL") || equals_str(&h, "FLOAT4") {
        AvroType::Float
    } else if equals_str(&h, "DOUBLE") || equals_str(&h, "DOUBLE PRECISION") || equals_str(&h, "FLOAT8") {
        AvroType::Double
    } else if equals_str(&h, "DECIMAL") || equals_str(&h, "NUMERIC") || equals_str(&h, "DEC") {
        let (p, s) = match decimal_params_exec(&t) {
            Some(x) => x,
            None => (18u32, 2u32),
        };
        AvroType::Decimal { precision: p, scale: s }
    } else if equals_str(&h, "STRING") || equals_str(&h, "VARCHAR") || equals_str(&h, "CHAR") || equals_str(
        &h,
        "TEXT",
    ) || equals_str(&h, "UUID") || equals_str(&h, "JSON") || equals_str(&h, "JSONB") {
        AvroType::String
    } else if equals_str(&h, "BINARY") || equals_str(&h, "VARBINARY") || equals_str(&h, "BYTEA") || equals_str(
        &h,
        "BLOB",
    ) {
        AvroType::Bytes
    } else if equals_str(&h, "DATE") {
        AvroType::Date
    } else if equals_str(&h, "TIMESTAMP") || equals_str(&h, "TIMESTAMPTZ") || equals_str(
        &h,
        "TIMESTAMP WITH TIME ZONE",
    ) || equals_str(&h, "DATETIME") {
        AvroType::TimestampMillis
    } else if equals_str(&h, "ARRAY") {
        match angle_inner_exec(&t) {
            Some(inner) => AvroType::Array(Box::new(hive_type_to_avro(&inner))),
            None => AvroType::Array(Box::new(AvroType::String)),
        }
    } else if equals_str(&h, "MAP") {
        match angle_inner_exec(&t) {
            Some(inner) => {
                let parts = split_top_level_comma_exec(&inner);
                if parts.len() > 1 {
                    assert(parts@.map_values(|v: Vec<char>| v@)[1] == parts@[1]@);
                    AvroType::MapOf(Box::new(hive_type_to_avro(&parts[1])))
                } else {
                    AvroType::MapOf(Box::new(AvroType::String))
                }
            },
            None => AvroType::MapOf(Box::new(AvroType::String)),
        }
    } else if equals_str(&h, "STRUCT") {
        match angle_inner_exec(&t) {
            Some(inner) => {
                let parts = split_top_level_comma_exec(&inner);
                let ghost ps = parts@.map_values(|v: Vec<char>| v@);
                let mut fields: Vec<AvroField> = Vec::new();
                let mut i: usize = 0;
                while i < parts.len()
                    invariant
                        i <= parts.len(),
                        ps == parts@.map_values(|v: Vec<char>| v@),
                        forall|k: int| 0 <= k < parts.len() ==> (#[trigger] parts@[k]).len() <= inner.len(),
                        inner.len() + 2 <= t0.len(),
                        struct_fields(ps.take(i as int), fields@),
                    decreases parts.len() - i,
                {
                    assert(ps[i as int] == parts@[i as int]@);
                    let (name, ty) = member_parts(&parts[i]);
                    let inner_ty = match &ty {
                        Some(ty) => hive_type_to_avro(ty),
                        None => AvroType::String,
                    };
                    proof {
                        if let Some(ty) = ty {
                            lemma_hive_not_nullable(ty@, inner_ty);
                        }
                    }
                    let f = AvroField { name: string_from_chars(name), avro_type: nullable(inner_ty), doc: None };
                    proof {
                        lemma_struct_fields_push(ps.take(i as int), fields@, ps[i as int], f);
                        assert(ps.take(i + 1) =~= ps.take(i as int).push(ps[i as int]));
                    }
                    fields.push(f);
                    i = i + 1;
                }
                assert(ps.take(parts.len() as int) =~= ps);
                AvroType::Record(
                    Box::new(AvroRecord { name: string_from_chars(lit("_struct")), namespace: None, fields }),
                )
            },
            None => AvroType::String,
        }
    } else {
        AvroType::String
    }
}

/// Every timestamp type (`TIMESTAMP`, `TIMESTAMPTZ`, `TIMESTAMP WITH TIME
/// ZONE`, `DATETIME`, in any case) becomes Avro timestamp-millis, and Avro
/// date is what `DATE`, and only `DATE`, becomes: no time of day is
/// dropped.
pub proof fn law_timestamps_keep_the_time(t0: Seq<char>, a: AvroType)
    requires
        hive_avro(t0, a),
    ensures
        ({
            let h = type_head(trim_ws(t0));
            &&& (h == "TIMESTAMP"@ || h == "TIMESTAMPTZ"@ || h == "TIMESTAMP WITH TIME ZONE"@ || h == "DATETIME"@)
                ==> a == AvroType::TimestampMillis
            &&& a == AvroType::Date <==> h == "DATE"@
        }),
{
    reveal_strlit("BOOLEAN");
    reveal_strlit("BOOL");
    reveal_strlit("TINYINT");
    reveal_strlit("SMALLINT");
    reveal_strlit("INT");
    reveal_strlit("INT4");
    reveal_strlit("INT2");
    reveal_strlit("INTEGER");
    reveal_strlit("BIGINT");
    reveal_strlit("INT8");
    reveal_strlit("LONG");
    reveal_strlit("FLOAT");
    reveal_strlit("REAL");
    reveal_strlit("FLOAT4");
    reveal_strlit("DOUBLE");
    reveal_strlit("DOUBLE PRECISION");
    reveal_strlit("FLOAT8");
    reveal_strlit("DECIMAL");
    reveal_strlit("NUMERIC");
    reveal_strlit("DEC");
    reveal_strlit("STRING");
    reveal_strlit("VARCHAR");
    reveal_strlit("CHAR");
    reveal_strlit("TEXT");
    reveal_strlit("UUID");
    reveal_strlit("JSON");
    reveal_strlit("JSONB");
    reveal_strlit("BINARY");
    reveal_strlit("VARBINARY");
    reveal_strlit("BYTEA");
    reveal_strlit("BLOB");
    reveal_strlit("DATE");
    reveal_strlit("TIMESTAMP");
    reveal_strlit("TIMESTAMPTZ");
    reveal_strlit("TIMESTAMP WITH TIME ZONE");
    reveal_strlit("DATETIME");
    let h = type_head(trim_ws(t0));
    if h == "TIMESTAMP"@ {
        assert("TIMESTAMP"@.len() != "BOOLEAN"@.len());
        assert("TIMESTAMP"@.len() != "BOOL"@.len());
        assert("TIMESTAMP"@.len() != "TINYINT"@.len());
        assert("TIMESTAMP"@.len() != "SMALLINT"@.len());
        assert("TIMESTAMP"@.len() != "INT"@.len());
        assert("TIMESTAMP"@.len() != "INT4"@.len());
        assert("TIMESTAMP"@.len() != "INT2"@.len());
        assert("TIMESTAMP"@.len() != "INTEGER"@.len());
        assert("TIMESTAMP"@.len() != "BIGINT"@.len());
        assert("TIMESTAMP"@.len() != "INT8"@.len());
        assert("TIMESTAMP"@.len() != "LONG"@.len());
        assert("TIMESTAMP"@.len() != "FLOAT"@.len());
        assert("TIMESTAMP"@.len() != "REAL"@.len());
        assert("TIMESTAMP"@.len() != "FLOAT4"@.len());
        assert("TIMESTAMP"@.len() != "DOUBLE"@.len());
        assert("TIMESTAMP"@.len() != "DOUBLE PRECISION"@.len());
        assert("TIMESTAMP"@.len() != "FLOAT8"@.len());
        assert("TIMESTAMP"@.len() != "DECIMAL"@.len());
        assert("TIMESTAMP"@.len() != "NUMERIC"@.len());
        assert("TIMESTAMP"@.len() != "DEC"@.len());
        assert("TIMESTAMP"@.len() != "STRING"@.len());
        assert("TIMESTAMP"@.len() != "VARCHAR"@.len());
        assert("TIMESTAMP"@.len() != "CHAR"@.len());
        assert("TIMESTAMP"@.len() != "TEXT"@.len());
        assert("TIMESTAMP"@.len() != "UUID"@.len());
        assert("TIMESTAMP"@.len() != "JSON"@.len());
        assert("TIMESTAMP"@.len() != "JSONB"@.len());
        assert("TIMESTAMP"@.len() != "BINARY"@.len());
        assert("TIMESTAMP"@[0] != "VARBINARY"@[0]);
        assert("TIMESTAMP"@.len() != "BYTEA"@.len());
        assert("TIMESTAMP"@.len() != "BLOB"@.len());
        assert("TIMESTAMP"@.len() != "DATE"@.len());
    }
    if h == "TIMESTAMPTZ"@ {
        assert("TIMESTAMPTZ"@.len() != "BOOLEAN"@.len());
        assert("TIMESTAMPTZ"@.len() != "BOOL"@.len());
        assert("TIMESTAMPTZ"@.len() != "TINYINT"@.len());
        assert("TIMESTAMPTZ"@.len() != "SMALLINT"@.len());
        assert("TIMESTAMPTZ"@.len() != "INT"@.len());
        assert("TIMESTAMPTZ"@.len() != "INT4"@.len());
        assert("TIMESTAMPTZ"@.len() != "INT2"@.len());
        assert("TIMESTAMPTZ"@.len() != "INTEGER"@.len());
        assert("TIMESTAMPTZ"@.len() != "BIGINT"@.len());
        assert("TIMESTAMPTZ"@.len() != "INT8"@.len());
        assert("TIMESTAMPTZ"@.len() != "LONG"@.len());
        assert("TIMESTAMPTZ"@.len() != "FLOAT"@.len());
        assert("TIMESTAMPTZ"@.len() != "REAL"@.len());
        assert("TIMESTAMPTZ"@.len() != "FLOAT4"@.len());
        assert("TIMESTAMPTZ"@.len() != "DOUBLE"@.len());
        assert("TIMESTAMPTZ"@.len() != "DOUBLE PRECISION"@.len());
        assert("TIMESTAMPTZ"@.len() != "FLOAT8"@.len());
        assert("TIMESTAMPTZ"@.len() != "DECIMAL"@.len());
        assert("TIMESTAMPTZ"@.len() != "NUMERIC"@.len());
        assert("TIMESTAMPTZ"@.len() != "DEC"@.len());
        assert("TIMESTAMPTZ"@.len() != "STRING"@.len());
        assert("TIMESTAMPTZ"@.len() != "VARCHAR"@.len());
        assert("TIMESTAMPTZ"@.len() != "CHAR"@.len());
        assert("TIMESTAMPTZ"@.len() != "TEXT"@.len());
        assert("TIMESTAMPTZ"@.len() != "UUID"@.len());
        assert("TIMESTAMPTZ"@.len() != "JSON"@.len());
        assert("TIMESTAMPTZ"@.len() != "JSONB"@.len());
        assert("TIMESTAMPTZ"@.len() != "BINARY"@.len());
        assert("TIMESTAMPTZ"@.len() != "VARBINARY"@.len());
        assert("TIMESTAMPTZ"@.len() != "BYTEA"@.len());
        assert("TIMESTAMPTZ"@.len() != "BLOB"@.len());
        assert("TIMESTAMPTZ"@.len() != "DATE"@.len());
    }
    if h == "TIMESTAMP WITH TIME ZONE"@ {
        assert("TIMESTAMP WITH TIME ZONE"@.len() != "BOOLEAN"@.len());
        assert("TIMESTAMP WITH TIME ZONE"@.len() != "BOOL"@.len());
        assert("TIMESTAMP WITH TIME ZONE"@.len() != "TINYINT"@.len());
        assert("TIMESTAMP WITH TIME ZONE"@.len() != "SMALLINT"@.len());
        assert("TIMESTAMP WITH TIME ZONE"@.len() != "INT"@.len());
        assert("TIMESTAMP WITH TIME ZONE"@.len() != "INT4"@.len());
        assert("TIMESTAMP WITH TIME ZONE"@.len() != "INT2"@.len());
        assert("TIMESTAMP WITH TIME ZONE"@.len() != "INTEGER"@.len());
        assert("TIMESTAMP WITH TIME ZONE"@.len() != "BIGINT"@.len());
        assert("TIMESTAMP WITH TIME ZONE"@.len() != "INT8"@.len());
        assert("TIMESTAMP WITH TIME ZONE"@.len() != "LONG"@.len());
        assert("TIMESTAMP WITH TIME ZONE"@.len() != "FLOAT"@.len());
        assert("TIMESTAMP WITH TIME ZONE"@.len() != "REAL"@.len());
        assert("TIMESTAMP WITH TIME ZONE"@.len() != "FLOAT4"@.len());
        assert("TIMESTAMP WITH TIME ZONE"@.len() != "DOUBLE"@.len());
        assert("TIMESTAMP WITH TIME ZONE"@.len() != "DOUBLE PRECISION"@.len());
        assert("TIMESTAMP WITH TIME ZONE"@.len() != "FLOAT8"@.len());
        assert("TIMESTAMP WITH TIME ZONE"@.len() != "DECIMAL"@.len());
        assert("TIMESTAMP WITH TIME ZONE"@.len() != "NUMERIC"@.len());
        assert("TIMESTAMP WITH TIME ZONE"@.len() != "DEC"@.len());
        assert("TIMESTAMP WITH TIME ZONE"@.len() != "STRING"@.len());
        assert("TIMESTAMP WITH TIME ZONE"@.len() != "VARCHAR"@.len());
        assert("TIMESTAMP WITH TIME ZONE"@.len() != "CHAR"@.len());
        assert("TIMESTAMP WITH TIME ZONE"@.len() != "TEXT"@.len());
        assert("TIMESTAMP WITH TIME ZONE"@.len() != "UUID"@.len());
        assert("TIMESTAMP WITH TIME ZONE"@.len() != "JSON"@.len());
        assert("TIMESTAMP WITH TIME ZONE"@.len() != "JSONB"@.len());
        assert("TIMESTAMP WITH TIME ZONE"@.len() != "BINARY"@.len());
        assert("TIMESTAMP WITH TIME ZONE"@.len() != "VARBINARY"@.len());
        assert("TIMESTAMP WITH TIME ZONE"@.len() != "BYTEA"@.len());
        assert("TIMESTAMP WITH TIME ZONE"@.len() != "BLOB"@.len());
        assert("TIMESTAMP WITH TIME ZONE"@.len() != "DATE"@.len());
    }
    if h == "DATETIME"@ {
        assert("DATETIME"@.len() != "BOOLEAN"@.len());
        assert("DATETIME"@.len() != "BOOL"@.len());
        assert("DATETIME"@.len() != "TINYINT"@.len());
        assert("DATETIME"@[0] != "SMALLINT"@[0]);
        assert("DATETIME"@.len() != "INT"@.len());
        assert("DATETIME"@.len() != "INT4"@.len());
        assert("DATETIME"@.len() != "INT2"@.len());
        assert("DATETIME"@.len() != "INTEGER"@.len());
        assert("DATETIME"@.len() != "BIGINT"@.len());
        assert("DATETIME"@.len() != "INT8"@.len());
        assert("DATETIME"@.len() != "LONG"@.len());
        assert("DATETIME"@.len() != "FLOAT"@.len());
        assert("DATETIME"@.len() != "REAL"@.len());
        assert("DATETIME"@.len() != "FLOAT4"@.len());
        assert("DATETIME"@.len() != "DOUBLE"@.len());
        assert("DATETIME"@.len() != "DOUBLE PRECISION"@.len());
        assert("DATETIME"@.len() != "FLOAT8"@.len());
        assert("DATETIME"@.len() != "DECIMAL"@.len());
        assert("DATETIME"@.len() != "NUMERIC"@.len());
        assert("DATETIME"@.len() != "DEC"@.len());
        assert("DATETIME"@.len() != "STRING"@.len());
        assert("DATETIME"@.len() != "VARCHAR"@.len());
        assert("DATETIME"@.len() != "CHAR"@.len());
        assert("DATETIME"@.len() != "TEXT"@.len());
        assert("DATETIME"@.len() != "UUID"@.len());
        assert("DATETIME"@.len() != "JSON"@.len());
        assert("DATETIME"@.len() != "JSONB"@.len());
        assert("DATETIME"@.len() != "BINARY"@.len());
        assert("DATETIME"@.len() != "VARBINARY"@.len());
        assert("DATETIME"@.len() != "BYTEA"@.len());
        assert("DATETIME"@.len() != "BLOB"@.len());
        assert("DATETIME"@.len() != "DATE"@.len());
    }
    if h == "DATE"@ {
        assert("DATE"@.len() != "BOOLEAN"@.len());
        assert("DATE"@[0] != "BOOL"@[0]);
        assert("DATE"@.len() != "TINYINT"@.len());
        assert("DATE"@.len() != "SMALLINT"@.len());
        assert("DATE"@.len() != "INT"@.len());
        assert("DATE"@[0] != "INT4"@[0]);
        assert("DATE"@[0] != "INT2"@[0]);
        assert("DATE"@.len() != "INTEGER"@.len());
        assert("DATE"@.len() != "BIGINT"@.len());
        assert("DATE"@[0] != "INT8"@[0]);
        assert("DATE"@[0] != "LONG"@[0]);
        assert("DATE"@.len() != "FLOAT"@.len());
        assert("DATE"@[0] != "REAL"@[0]);
        assert("DATE"@.len() != "FLOAT4"@.len());
        assert("DATE"@.len() != "DOUBLE"@.len());
        assert("DATE"@.len() != "DOUBLE PRECISION"@.len());
        assert("DATE"@.len() != "FLOAT8"@.len());
        assert("DATE"@.len() != "DECIMAL"@.len());
        assert("DATE"@.len() != "NUMERIC"@.len());
        assert("DATE"@.len() != "DEC"@.len());
        assert("DATE"@.len() != "STRING"@.len());
        assert("DATE"@.len() != "VARCHAR"@.len());
        assert("DATE"@[0] != "CHAR"@[0]);
        assert("DATE"@[0] != "TEXT"@[0]);
        assert("DATE"@[0] != "UUID"@[0]);
        assert("DATE"@[0] != "JSON"@[0]);
        assert("DATE"@.len() != "JSONB"@.len());
        assert("DATE"@.len() != "BINARY"@.len());
        assert("DATE"@.len() != "VARBINARY"@.len());
        assert("DATE"@.len() != "BYTEA"@.len());
        assert("DATE"@[0] != "BLOB"@[0]);
    }
}

} // verus!
