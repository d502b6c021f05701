//! Incremental form of a query: for a query over N base-table references,
//! the `UNION ALL` of the 2^N - 1 variants in which a non-empty subset of
//! the tables is replaced by its delta table (the last name part with a
//! suffix, `_delta` by default). Table references are numbered in the order
//! the parser's visitor meets them; CTE names count as tables.
use vstd::prelude::*;

use crate::sql::ast::{parse_sql_text, parse_count, statement_text};
use crate::sql::relations::{own_relation_count, object_name_parts, relation_names, rename_relations, set_last_name_part};
use crate::text::{dec, join_chars, join_seq, push_all, str_chars, string_from_chars, usize_text};
use sqlparser::ast::{ObjectName, Statement};

verus! {

/// At most this many base-table references are expanded (four give 15
/// branches).
pub const MAX_TABLES: usize = 4;

/// Why a query has no incremental form.
#[derive(Debug)]
pub enum IncrementalError {
    /// The text did not parse; the parser's message.
    Parse(String),
    /// More base-table references than [`MAX_TABLES`].
    TooManyTables(usize),
    /// No base table to make incremental.
    NoTables,
}

impl IncrementalError {
    /// The message the error displays.
    pub fn message(&self) -> (r: String)
        ensures
            r@ == match self {
                IncrementalError::Parse(m) => "parse error: "@ + m@,
                IncrementalError::TooManyTables(n) => "too many base-table references ("@ + dec(*n as nat)
                    + "); incremental expansion is capped at 4 tables"@,
                IncrementalError::NoTables => "no base tables found in input — nothing to make incremental"@,
            },
    {
        match self {
            IncrementalError::Parse(m) => {
                let mut out = str_chars("parse error: ");
                push_all(&mut out, &str_chars(m.as_str()));
                string_from_chars(out)
            },
            IncrementalError::TooManyTables(n) => {
                let mut out = str_chars("too many base-table references (");
                push_all(&mut out, &usize_text(*n));
                push_all(&mut out, &str_chars("); incremental expansion is capped at 4 tables"));
                string_from_chars(out)
            },
            IncrementalError::NoTables => string_from_chars(
                str_chars("no base tables found in input — nothing to make incremental"),
            ),
        }
    }
}

/// `2^n`.
pub open spec fn two_pow(n: nat) -> nat
    decreases n,
{
    if n == 0 {
        1
    } else {
        2 * two_pow((n - 1) as nat)
    }
}

/// Table `idx` (in visiting order) belongs to the subset `mask`.
pub open spec fn in_subset(mask: u32, idx: u32) -> bool {
    idx < 32 && (mask >> idx) & 1u32 == 1u32
}

/// A rename pass in progress: which tables take the suffix, how many
/// tables it has met, and how many of the statement's own relations (not
/// tables of its query) are still to come.
pub struct DeltaState {
    pub mask: u32,
    pub visited: u32,
    pub skip_own: usize,
    pub suffix: String,
}

/// One step of a rename pass, at one relation: the statement's own
/// relation is passed over; table number `visited` takes the suffix on its
/// last name part when it is in the subset.
pub fn delta_step(st: &mut DeltaState, n: &mut ObjectName) -> (r: core::ops::ControlFlow<()>)
    ensures
        final(st).mask == old(st).mask,
        final(st).suffix == old(st).suffix,
        final(st).skip_own == if old(st).skip_own > 0 { old(st).skip_own - 1 } else { 0 },
        final(st).visited == if old(st).skip_own > 0 || old(st).visited == u32::MAX {
            old(st).visited
        } else {
            (old(st).visited + 1) as u32
        },
{
    if st.skip_own > 0 {
        st.skip_own = st.skip_own - 1;
        return core::ops::ControlFlow::Continue(());
    }
    let idx = st.visited;
    if st.visited < u32::MAX {
        st.visited = st.visited + 1;
    }
    if subset_has(st.mask, idx) {
        let parts = object_name_parts(n);
        if parts.len() > 0 {
            let mut v = str_chars(parts[parts.len() - 1].as_str());
            push_all(&mut v, &str_chars(st.suffix.as_str()));
            set_last_name_part(n, string_from_chars(v));
        }
    }
    core::ops::ControlFlow::Continue(())
}

pub fn subset_has(mask: u32, idx: u32) -> (r: bool)
    ensures
        r == in_subset(mask, idx),
{
    idx < 32 && (mask >> idx) & 1u32 == 1u32
}

/// The number of base-table references among a statement's relations:
/// all of them, less the statement's own relations (which come first).
fn table_count(names: &Vec<Vec<String>>, own: usize) -> (r: usize)
    ensures
        r == if own <= names.len() { names.len() - own } else { 0 },
{
    if own <= names.len() {
        names.len() - own
    } else {
        0
    }
}

/// No tables is an error, more than [`MAX_TABLES`] too.
pub fn check_table_count(n: usize) -> (r: Result<u32, IncrementalError>)
    ensures
        n == 0 ==> r matches Err(IncrementalError::NoTables),
        n > MAX_TABLES ==> (r matches Err(IncrementalError::TooManyTables(m)) && m == n),
        1 <= n <= MAX_TABLES ==> r == Ok::<u32, IncrementalError>(n as u32),
{
    if n == 0 {
        Err(IncrementalError::NoTables)
    } else if n > MAX_TABLES {
        Err(IncrementalError::TooManyTables(n))
    } else {
        Ok(n as u32)
    }
}

/// Every non-empty subset of `n` tables, once each, as the masks
/// `1 .. 2^n` in increasing order.
pub fn subset_masks(n: u32) -> (r: Vec<u32>)
    requires
        n <= MAX_TABLES,
    ensures
        r.len() == two_pow(n as nat) - 1,
        forall|i: int| 0 <= i < r.len() ==> r@[i] == i + 1,
{
    proof {
        reveal_with_fuel(two_pow, 5);
    }
    let mut limit: u32 = 1;
    let mut k: u32 = 0;
    while k < n
        invariant
            k <= n <= 4,
            limit == two_pow(k as nat),
            two_pow(0) == 1 && two_pow(1) == 2 && two_pow(2) == 4 && two_pow(3) == 8 && two_pow(4) == 16,
        decreases n - k,
    {
        limit = limit * 2;
        k = k + 1;
    }
    let mut out: Vec<u32> = Vec::new();
    let mut mask: u32 = 1;
    while mask < limit
        invariant
            1 <= mask <= limit || limit == 0,
            limit >= 1,
            out.len() == mask - 1,
            forall|i: int| 0 <= i < out.len() ==> out@[i] == i + 1,
        decreases limit - mask,
    {
        out.push(mask);
        mask = mask + 1;
    }
    out
}

/// The separator between the branches.
pub open spec fn union_sep() -> Seq<char> {
    "\nUNION ALL\n"@
}

/// How many branches `1..=MAX_TABLES` tables give.
pub open spec fn is_branch_count(k: nat) -> bool {
    exists|n: nat| 1 <= n <= MAX_TABLES && k == two_pow(n) - 1
}

/// The incremental form with the delta suffix `_delta`.
pub fn incremental_sql(sql: &str) -> (r: Result<String, IncrementalError>)
    ensures
        parse_count(sql@) is None <==> r matches Err(IncrementalError::Parse(_)),
        parse_count(sql@) == Some(0nat) ==> r matches Err(IncrementalError::NoTables),
        r matches Err(IncrementalError::TooManyTables(n)) ==> n > MAX_TABLES,
        r matches Ok(s) ==> exists|bs: Seq<Seq<char>>| #[trigger] join_seq(bs, union_sep()) == s@ && is_branch_count(bs.len()),
{
    incremental_sql_with(sql, "_delta")
}

/// The incremental form of the first statement of `sql`, with
/// `delta_suffix` appended to the last name part of each delta table.
pub fn incremental_sql_with(sql: &str, delta_suffix: &str) -> (r: Result<String, IncrementalError>)
    ensures
        parse_count(sql@) is None <==> r matches Err(IncrementalError::Parse(_)),
        parse_count(sql@) == Some(0nat) ==> r matches Err(IncrementalError::NoTables),
        r matches Err(IncrementalError::TooManyTables(n)) ==> n > MAX_TABLES,
        r matches Ok(s) ==> exists|bs: Seq<Seq<char>>| #[trigger] join_seq(bs, union_sep()) == s@ && is_branch_count(bs.len()),
{
    let stmts = match parse_sql_text(sql) {
        Ok(s) => s,
        Err(e) => {
            return Err(IncrementalError::Parse(e));
        },
    };
    if stmts.len() == 0 {
        return Err(IncrementalError::NoTables);
    }
    let first = &stmts[0];
    let n = match check_table_count(table_count(&relation_names(first), own_relation_count(first))) {
        Ok(n) => n,
        Err(e) => {
            return Err(e);
        },
    };
    let masks = subset_masks(n);
    let own = own_relation_count(first);
    let mut branches: Vec<Vec<char>> = Vec::new();
    let mut i: usize = 0;
    while i < masks.len()
        invariant
            i <= masks.len(),
            branches.len() == i,
        decreases masks.len() - i,
    {
        let mut clone = first.clone();
        let mut st = DeltaState {
            mask: masks[i],
            visited: 0,
            skip_own: own,
            suffix: string_from_chars(str_chars(delta_suffix)),
        };
        rename_relations(&mut clone, &mut st);
        branches.push(str_chars(statement_text(&clone).as_str()));
        i = i + 1;
    }
    let sep = str_chars("\nUNION ALL\n");
    let joined = join_chars(&branches, &sep);
    let ghost bs = branches@.map_values(|v: Vec<char>| v@);
    assert(bs.len() == two_pow(n as nat) - 1);
    assert(1 <= n as nat <= MAX_TABLES);
    assert(is_branch_count(bs.len()));
    assert(join_seq(bs, union_sep()) == joined@);
    let out = string_from_chars(joined);
    assert(join_seq(bs, union_sep()) == out@);
    Ok(out)
}

/// Table `idx` takes the delta suffix in the branch of `mask` exactly when
/// bit `idx` of the mask is set: the quotient of the mask by `2^idx` is
/// odd. So distinct masks pick distinct sets of tables.
pub proof fn law_subset_is_bit(mask: u32, idx: u32)
    ensures
        in_subset(mask, idx) <==> idx < 32 && (mask as nat / vstd::arithmetic::power2::pow2(idx as nat)) % 2 == 1,
{
    if idx < 32 {
        vstd::bits::lemma_u32_shr_is_div(mask, idx);
        let s: u32 = mask >> idx;
        assert((s & 1u32 == 1u32) == (s % 2 == 1)) by (bit_vector);
    }
}

/// Distinct masks pick distinct sets of tables, and a non-zero mask picks
/// at least one table: the branches of the masks `1 .. 2^n` are distinct
/// non-empty subsets.
pub proof fn law_masks_pick_distinct_nonempty_subsets(m1: u32, m2: u32)
    ensures
        m1 != m2 ==> exists|idx: u32| idx < 32 && #[trigger] in_subset(m1, idx) != in_subset(m2, idx),
        m1 != 0 ==> exists|idx: u32| idx < 32 && #[trigger] in_subset(m1, idx),
{
    if m1 != m2 && !(exists|idx: u32| idx < 32 && #[trigger] in_subset(m1, idx) != in_subset(m2, idx)) {
        lemma_all_bits_equal(m1, m2);
    }
    if m1 != 0 && !(exists|idx: u32| idx < 32 && #[trigger] in_subset(m1, idx)) {
        lemma_no_bit_set(m1);
    }
}

proof fn lemma_all_bits_equal(m1: u32, m2: u32)
    requires
        forall|idx: u32| idx < 32 ==> #[trigger] in_subset(m1, idx) == in_subset(m2, idx),
    ensures
        m1 == m2,
{
    assert(in_subset(m1, 0u32) == in_subset(m2, 0u32));
    assert(in_subset(m1, 1u32) == in_subset(m2, 1u32));
    assert(in_subset(m1, 2u32) == in_subset(m2, 2u32));
    assert(in_subset(m1, 3u32) == in_subset(m2, 3u32));
    assert(in_subset(m1, 4u32) == in_subset(m2, 4u32));
    assert(in_subset(m1, 5u32) == in_subset(m2, 5u32));
    assert(in_subset(m1, 6u32) == in_subset(m2, 6u32));
    assert(in_subset(m1, 7u32) == in_subset(m2, 7u32));
    assert(in_subset(m1, 8u32) == in_subset(m2, 8u32));
    assert(in_subset(m1, 9u32) == in_subset(m2, 9u32));
    assert(in_subset(m1, 10u32) == in_subset(m2, 10u32));
    assert(in_subset(m1, 11u32) == in_subset(m2, 11u32));
    assert(in_subset(m1, 12u32) == in_subset(m2, 12u32));
    assert(in_subset(m1, 13u32) == in_subset(m2, 13u32));
    assert(in_subset(m1, 14u32) == in_subset(m2, 14u32));
    assert(in_subset(m1, 15u32) == in_subset(m2, 15u32));
    assert(in_subset(m1, 16u32) == in_subset(m2, 16u32));
    assert(in_subset(m1, 17u32) == in_subset(m2, 17u32));
    assert(in_subset(m1, 18u32) == in_subset(m2, 18u32));
    assert(in_subset(m1, 19u32) == in_subset(m2, 19u32));
    assert(in_subset(m1, 20u32) == in_subset(m2, 20u32));
    assert(in_subset(m1, 21u32) == in_subset(m2, 21u32));
    assert(in_subset(m1, 22u32) == in_subset(m2, 22u32));
    assert(in_subset(m1, 23u32) == in_subset(m2, 23u32));
    assert(in_subset(m1, 24u32) == in_subset(m2, 24u32));
    assert(in_subset(m1, 25u32) == in_subset(m2, 25u32));
    assert(in_subset(m1, 26u32) == in_subset(m2, 26u32));
    assert(in_subset(m1, 27u32) == in_subset(m2, 27u32));
    assert(in_subset(m1, 28u32) == in_subset(m2, 28u32));
    assert(in_subset(m1, 29u32) == in_subset(m2, 29u32));
    assert(in_subset(m1, 30u32) == in_subset(m2, 30u32));
    assert(in_subset(m1, 31u32) == in_subset(m2, 31u32));
    assert(((((m1 >> 0u32) & 1u32 == 1u32) == ((m2 >> 0u32) & 1u32 == 1u32)) && (((m1 >> 1u32) & 1u32 == 1u32) == ((m2 >> 1u32) & 1u32 == 1u32)) && (((m1 >> 2u32) & 1u32 == 1u32) == ((m2 >> 2u32) & 1u32 == 1u32)) && (((m1 >> 3u32) & 1u32 == 1u32) == ((m2 >> 3u32) & 1u32 == 1u32)) && (((m1 >> 4u32) & 1u32 == 1u32) == ((m2 >> 4u32) & 1u32 == 1u32)) && (((m1 >> 5u32) & 1u32 == 1u32) == ((m2 >> 5u32) & 1u32 == 1u32)) && (((m1 >> 6u32) & 1u32 == 1u32) == ((m2 >> 6u32) & 1u32 == 1u32)) && (((m1 >> 7u32) & 1u32 == 1u32) == ((m2 >> 7u32) & 1u32 == 1u32)) && (((m1 >> 8u32) & 1u32 == 1u32) == ((m2 >> 8u32) & 1u32 == 1u32)) && (((m1 >> 9u32) & 1u32 == 1u32) == ((m2 >> 9u32) & 1u32 == 1u32)) && (((m1 >> 10u32) & 1u32 == 1u32) == ((m2 >> 10u32) & 1u32 == 1u32)) && (((m1 >> 11u32) & 1u32 == 1u32) == ((m2 >> 11u32) & 1u32 == 1u32)) && (((m1 >> 12u32) & 1u32 == 1u32) == ((m2 >> 12u32) & 1u32 == 1u32)) && (((m1 >> 13u32) & 1u32 == 1u32) == ((m2 >> 13u32) & 1u32 == 1u32)) && (((m1 >> 14u32) & 1u32 == 1u32) == ((m2 >> 14u32) & 1u32 == 1u32)) && (((m1 >> 15u32) & 1u32 == 1u32) == ((m2 >> 15u32) & 1u32 == 1u32)) && (((m1 >> 16u32) & 1u32 == 1u32) == ((m2 >> 16u32) & 1u32 == 1u32)) && (((m1 >> 17u32) & 1u32 == 1u32) == ((m2 >> 17u32) & 1u32 == 1u32)) && (((m1 >> 18u32) & 1u32 == 1u32) == ((m2 >> 18u32) & 1u32 == 1u32)) && (((m1 >> 19u32) & 1u32 == 1u32) == ((m2 >> 19u32) & 1u32 == 1u32)) && (((m1 >> 20u32) & 1u32 == 1u32) == ((m2 >> 20u32) & 1u32 == 1u32)) && (((m1 >> 21u32) & 1u32 == 1u32) == ((m2 >> 21u32) & 1u32 == 1u32)) && (((m1 >> 22u32) & 1u32 == 1u32) == ((m2 >> 22u32) & 1u32 == 1u32)) && (((m1 >> 23u32) & 1u32 == 1u32) == ((m2 >> 23u32) & 1u32 == 1u32)) && (((m1 >> 24u32) & 1u32 == 1u32) == ((m2 >> 24u32) & 1u32 == 1u32)) && (((m1 >> 25u32) & 1u32 == 1u32) == ((m2 >> 25u32) & 1u32 == 1u32)) && (((m1 >> 26u32) & 1u32 == 1u32) == ((m2 >> 26u32) & 1u32 == 1u32)) && (((m1 >> 27u32) & 1u32 == 1u32) == ((m2 >> 27u32) & 1u32 == 1u32)) && (((m1 >> 28u32) & 1u32 == 1u32) == ((m2 >> 28u32) & 1u32 == 1u32)) && (((m1 >> 29u32) & 1u32 == 1u32) == ((m2 >> 29u32) & 1u32 == 1u32)) && (((m1 >> 30u32) & 1u32 == 1u32) == ((m2 >> 30u32) & 1u32 == 1u32)) && (((m1 >> 31u32) & 1u32 == 1u32) == ((m2 >> 31u32) & 1u32 == 1u32))) ==> m1 == m2) by (bit_vector);
}

proof fn lemma_no_bit_set(m: u32)
    requires
        forall|idx: u32| idx < 32 ==> !#[trigger] in_subset(m, idx),
    ensures
        m == 0,
{
    assert(!in_subset(m, 0u32));
    assert(!in_subset(m, 1u32));
    assert(!in_subset(m, 2u32));
    assert(!in_subset(m, 3u32));
    assert(!in_subset(m, 4u32));
    assert(!in_subset(m, 5u32));
    assert(!in_subset(m, 6u32));
    assert(!in_subset(m, 7u32));
    assert(!in_subset(m, 8u32));
    assert(!in_subset(m, 9u32));
    assert(!in_subset(m, 10u32));
    assert(!in_subset(m, 11u32));
    assert(!in_subset(m, 12u32));
    assert(!in_subset(m, 13u32));
    assert(!in_subset(m, 14u32));
    assert(!in_subset(m, 15u32));
    assert(!in_subset(m, 16u32));
    assert(!in_subset(m, 17u32));
    assert(!in_subset(m, 18u32));
    assert(!in_subset(m, 19u32));
    assert(!in_subset(m, 20u32));
    assert(!in_subset(m, 21u32));
    assert(!in_subset(m, 22u32));
    assert(!in_subset(m, 23u32));
    assert(!in_subset(m, 24u32));
    assert(!in_subset(m, 25u32));
    assert(!in_subset(m, 26u32));
    assert(!in_subset(m, 27u32));
    assert(!in_subset(m, 28u32));
    assert(!in_subset(m, 29u32));
    assert(!in_subset(m, 30u32));
    assert(!in_subset(m, 31u32));
    assert((!((m >> 0u32) & 1u32 == 1u32) && !((m >> 1u32) & 1u32 == 1u32) && !((m >> 2u32) & 1u32 == 1u32) && !((m >> 3u32) & 1u32 == 1u32) && !((m >> 4u32) & 1u32 == 1u32) && !((m >> 5u32) & 1u32 == 1u32) && !((m >> 6u32) & 1u32 == 1u32) && !((m >> 7u32) & 1u32 == 1u32) && !((m >> 8u32) & 1u32 == 1u32) && !((m >> 9u32) & 1u32 == 1u32) && !((m >> 10u32) & 1u32 == 1u32) && !((m >> 11u32) & 1u32 == 1u32) && !((m >> 12u32) & 1u32 == 1u32) && !((m >> 13u32) & 1u32 == 1u32) && !((m >> 14u32) & 1u32 == 1u32) && !((m >> 15u32) & 1u32 == 1u32) && !((m >> 16u32) & 1u32 == 1u32) && !((m >> 17u32) & 1u32 == 1u32) && !((m >> 18u32) & 1u32 == 1u32) && !((m >> 19u32) & 1u32 == 1u32) && !((m >> 20u32) & 1u32 == 1u32) && !((m >> 21u32) & 1u32 == 1u32) && !((m >> 22u32) & 1u32 == 1u32) && !((m >> 23u32) & 1u32 == 1u32) && !((m >> 24u32) & 1u32 == 1u32) && !((m >> 25u32) & 1u32 == 1u32) && !((m >> 26u32) & 1u32 == 1u32) && !((m >> 27u32) & 1u32 == 1u32) && !((m >> 28u32) & 1u32 == 1u32) && !((m >> 29u32) & 1u32 == 1u32) && !((m >> 30u32) & 1u32 == 1u32) && !((m >> 31u32) & 1u32 == 1u32)) ==> m == 0u32) by (bit_vector);
}

} // verus!
