//! Optional catalog layer.
//!
//! The pure translation pipeline is text to text; a catalog lets callers
//! check that referenced tables and columns exist. Tables are registered in
//! the `{db: {table: ["col|hive_type", ...]}}` shape, looked up without
//! regard to ASCII case, and unknown columns come with "did you mean?"
//! suggestions (Levenshtein distance at most 2).
use vstd::prelude::*;

use crate::text::{
    ascii_lowercase, eq_ci, eq_ignore_case, first_occ, find_from, lower, lower_seq, seq_eq_ci,
    slice_chars, str_chars, string_from_chars,
};

use crate::sql::ast::{expr_parts, ident_value, positional_arg, ExprParts};
use crate::sql::query::{
    from_item_parts, join_conditions, order_by_parts, query_parts, select_item_parts, select_parts,
    set_expr_parts, statement_parts, table_factor_parts, GroupByParts, SelectItemParts, SetExprParts,
    StatementParts, TableFactorParts,
};
use sqlparser::ast::{Expr, Query, Select, SetExpr, Statement, TableFactor};
use crate::validation_frame::keeps_frame;

verus! {

/// A source of table schemas. Lookups are case-insensitive; the column names
/// come back in the catalog's canonical case. Implementations may cache,
/// hence `&mut self`.
pub trait Catalog {
    /// The column names of `db.table`, or `None` if the table is unknown.
    fn columns_of(&mut self, db: &str, table: &str) -> Option<Vec<String>>;
}

/// Name and type parts of a `"column_name|hive_type"` entry: the text before
/// the first `|`, and the text after it (empty when there is no `|`).
pub open spec fn column_name_part(s: Seq<char>) -> Seq<char> {
    match first_occ(s, seq!['|'], 0) {
        Some(p) => s.take(p),
        None => s,
    }
}

pub open spec fn column_type_part(s: Seq<char>) -> Seq<char> {
    match first_occ(s, seq!['|'], 0) {
        Some(p) => s.skip(p + 1),
        None => Seq::empty(),
    }
}

pub open spec fn strings_view(v: Seq<String>) -> Seq<Seq<char>> {
    v.map_values(|s: String| s@)
}

/// Columns and their types, index by index.
pub struct TableSchema {
    pub columns: Vec<String>,
    pub column_types: Vec<String>,
}

struct CatalogEntry {
    db: Vec<char>,
    table: Vec<char>,
    schema: TableSchema,
}

/// In-memory catalog: `{db: {table: ["col|type", ...]}}`.
pub struct InMemoryCatalog {
    entries: Vec<CatalogEntry>,
}

/// The key and value one registration contributes.
spec fn entry_key(e: CatalogEntry) -> (Seq<char>, Seq<char>) {
    (e.db@, e.table@)
}

spec fn entry_value(e: CatalogEntry) -> (Seq<Seq<char>>, Seq<Seq<char>>) {
    (strings_view(e.schema.columns@), strings_view(e.schema.column_types@))
}

/// Registrations applied in order; a later one replaces an earlier one for
/// the same key.
spec fn entries_map(es: Seq<CatalogEntry>) -> Map<(Seq<char>, Seq<char>), (Seq<Seq<char>>, Seq<Seq<char>>)>
    decreases es.len(),
{
    if es.len() == 0 {
        Map::empty()
    } else {
        entries_map(es.drop_last()).insert(entry_key(es.last()), entry_value(es.last()))
    }
}

impl View for InMemoryCatalog {
    /// (lower-cased db, lower-cased table) to (column names, column types).
    type V = Map<(Seq<char>, Seq<char>), (Seq<Seq<char>>, Seq<Seq<char>>)>;

    closed spec fn view(&self) -> Self::V {
        entries_map(self.entries@)
    }
}

impl InMemoryCatalog {
    /// An empty catalog.
    pub fn new() -> (r: Self)
        ensures
            r@ == Map::<(Seq<char>, Seq<char>), (Seq<Seq<char>>, Seq<Seq<char>>)>::empty(),
    {
        InMemoryCatalog { entries: Vec::new() }
    }

    /// Convenience constructor from `(db, table, &["col|type", ...])`
    /// triples, registered in order.
    pub fn from_pairs(entries: &[(&str, &str, &[&str])]) -> (r: Self)
        ensures
            r@ == pairs_map(entries@),
    {
        let mut me = Self::new();
        let mut i: usize = 0;
        while i < entries.len()
            invariant
                i <= entries.len(),
                me@ == pairs_map(entries@.take(i as int)),
            decreases entries.len() - i,
        {
            let (db, table, cols) = entries[i];
            let mut owned: Vec<String> = Vec::new();
            let mut k: usize = 0;
            while k < cols.len()
                invariant
                    k <= cols.len(),
                    owned.len() == k,
                    forall|j: int| 0 <= j < k ==> #[trigger] owned@[j]@ == cols@[j]@,
                decreases cols.len() - k,
            {
                owned.push(string_from_chars(str_chars(cols[k])));
                k = k + 1;
            }
            assert(strings_view(owned@) =~= cols@.map_values(|s: &str| s@));
            me.add_table(db, table, owned);
            assert(entries@.take(i + 1).drop_last() =~= entries@.take(i as int));
            i = i + 1;
        }
        assert(entries@.take(entries.len() as int) =~= entries@);
        me
    }

    /// Register a table. Entries are `"column_name|hive_type"`; db and table
    /// names are stored lower-cased, column names keep their case. A table
    /// registered again replaces the earlier registration.
    pub fn add_table(&mut self, db: &str, table: &str, col_type_pairs: Vec<String>)
        ensures
            final(self)@ == old(self)@.insert(
                (lower_seq(db@), lower_seq(table@)),
                (
                    strings_view(col_type_pairs@).map_values(|s: Seq<char>| column_name_part(s)),
                    strings_view(col_type_pairs@).map_values(|s: Seq<char>| column_type_part(s)),
                ),
            ),
    {
        let db_key = str_chars(&ascii_lowercase(db));
        let table_key = str_chars(&ascii_lowercase(table));
        let mut bar: Vec<char> = Vec::new();
        bar.push('|');
        assert(bar@ =~= seq!['|']);
        let ghost pv = strings_view(col_type_pairs@);
        let mut columns: Vec<String> = Vec::new();
        let mut column_types: Vec<String> = Vec::new();
        let mut i: usize = 0;
        while i < col_type_pairs.len()
            invariant
                bar@ == seq!['|'],
                i <= col_type_pairs.len(),
                pv == strings_view(col_type_pairs@),
                columns.len() == i,
                column_types.len() == i,
                forall|j: int| 0 <= j < i ==> #[trigger] columns@[j]@ == column_name_part(pv[j]),
                forall|j: int| 0 <= j < i ==> #[trigger] column_types@[j]@ == column_type_part(pv[j]),
            decreases col_type_pairs.len() - i,
        {
            let s = str_chars(col_type_pairs[i].as_str());
            assert(s@ == pv[i as int]);
            match find_from(&s, &bar, 0) {
                Some(p) => {
                    assert(p < s.len());
                    let a = slice_chars(&s, 0, p);
                    let b = slice_chars(&s, p + 1, s.len());
                    assert(a@ =~= s@.take(p as int));
                    assert(b@ =~= s@.skip(p + 1));
                    columns.push(string_from_chars(a));
                    column_types.push(string_from_chars(b));
                },
                None => {
                    columns.push(string_from_chars(s));
                    column_types.push(string_from_chars(Vec::new()));
                },
            }
            i = i + 1;
        }
        assert(strings_view(columns@) =~= pv.map_values(|s: Seq<char>| column_name_part(s)));
        assert(strings_view(column_types@) =~= pv.map_values(|s: Seq<char>| column_type_part(s)));
        let ghost es = self.entries@;
        self.entries.push(CatalogEntry { db: db_key, table: table_key, schema: TableSchema { columns, column_types } });
        assert(self.entries@.drop_last() =~= es);
    }

    fn find(&self, db: &str, table: &str) -> (r: Option<usize>)
        ensures
            match r {
                Some(i) => i < self.entries.len() && self@.contains_key((lower_seq(db@), lower_seq(table@)))
                    && self@[(lower_seq(db@), lower_seq(table@))] == entry_value(self.entries@[i as int]),
                None => !self@.contains_key((lower_seq(db@), lower_seq(table@))),
            },
    {
        let d = str_chars(&ascii_lowercase(db));
        let t = str_chars(&ascii_lowercase(table));
        let ghost key = (lower_seq(db@), lower_seq(table@));
        let mut found: Option<usize> = None;
        let mut i: usize = 0;
        while i < self.entries.len()
            invariant
                i <= self.entries.len(),
                key == (d@, t@),
                match found {
                    Some(j) => j < i && entries_map(self.entries@.take(i as int)).contains_key(key)
                        && entries_map(self.entries@.take(i as int))[key] == entry_value(self.entries@[j as int]),
                    None => !entries_map(self.entries@.take(i as int)).contains_key(key),
                },
            decreases self.entries.len() - i,
        {
            assert(self.entries@.take(i + 1).drop_last() =~= self.entries@.take(i as int));
            if crate::preprocess::connect_by::same(&self.entries[i].db, &d)
                && crate::preprocess::connect_by::same(&self.entries[i].table, &t) {
                found = Some(i);
            }
            i = i + 1;
        }
        assert(self.entries@.take(self.entries.len() as int) =~= self.entries@);
        found
    }

    /// The original-case column names of a table, if it is registered.
    pub fn columns(&self, db: &str, table: &str) -> (r: Option<&[String]>)
        ensures
            match r {
                Some(cs) => self@.contains_key((lower_seq(db@), lower_seq(table@))) && strings_view(cs@)
                    == self@[(lower_seq(db@), lower_seq(table@))].0,
                None => !self@.contains_key((lower_seq(db@), lower_seq(table@))),
            },
    {
        match self.find(db, table) {
            Some(i) => Some(self.entries[i].schema.columns.as_slice()),
            None => None,
        }
    }

    /// Column names and column types (same index), if the table is registered.
    pub fn column_types(&self, db: &str, table: &str) -> (r: Option<(&[String], &[String])>)
        ensures
            match r {
                Some((cs, ts)) => self@.contains_key((lower_seq(db@), lower_seq(table@)))
                    && strings_view(cs@) == self@[(lower_seq(db@), lower_seq(table@))].0
                    && strings_view(ts@) == self@[(lower_seq(db@), lower_seq(table@))].1,
                None => !self@.contains_key((lower_seq(db@), lower_seq(table@))),
            },
    {
        match self.find(db, table) {
            Some(i) => Some(
                (
                    self.entries[i].schema.columns.as_slice(),
                    self.entries[i].schema.column_types.as_slice(),
                ),
            ),
            None => None,
        }
    }
}

impl Catalog for InMemoryCatalog {
    /// The registered columns, the catalog unchanged.
    fn columns_of(&mut self, db: &str, table: &str) -> (r: Option<Vec<String>>)
        ensures
            final(self)@ == old(self)@,
            match r {
                Some(cs) => old(self)@.contains_key((lower_seq(db@), lower_seq(table@))) && strings_view(cs@)
                    == old(self)@[(lower_seq(db@), lower_seq(table@))].0,
                None => !old(self)@.contains_key((lower_seq(db@), lower_seq(table@))),
            },
    {
        match self.columns(db, table) {
            Some(cs) => {
                let mut out: Vec<String> = Vec::new();
                let mut i: usize = 0;
                while i < cs.len()
                    invariant
                        i <= cs.len(),
                        out.len() == i,
                        forall|j: int| 0 <= j < i ==> #[trigger] out@[j]@ == cs@[j]@,
                    decreases cs.len() - i,
                {
                    out.push(cs[i].clone());
                    i = i + 1;
                }
                assert(strings_view(out@) =~= strings_view(cs@));
                Some(out)
            },
            None => None,
        }
    }
}

/// The catalog `from_pairs` builds: each triple registered in order.
pub open spec fn pairs_map(es: Seq<(&str, &str, &[&str])>) -> Map<(Seq<char>, Seq<char>), (Seq<Seq<char>>, Seq<Seq<char>>)>
    decreases es.len(),
{
    if es.len() == 0 {
        Map::empty()
    } else {
        let (db, table, cols) = es.last();
        let cv = cols@.map_values(|s: &str| s@);
        pairs_map(es.drop_last()).insert(
            (lower_seq(db@), lower_seq(table@)),
            (cv.map_values(|s: Seq<char>| column_name_part(s)), cv.map_values(|s: Seq<char>| column_type_part(s))),
        )
    }
}

// ---------------------------------------------------------------------------
// "Did you mean?" suggestions
// ---------------------------------------------------------------------------

/// The cost of aligning two characters: 0 when equal up to ASCII case.
pub open spec fn lev_cost(a: char, b: char) -> nat {
    if eq_ci(a, b) {
        0
    } else {
        1
    }
}

pub open spec fn min3(x: nat, y: nat, z: nat) -> nat {
    let m = if x <= y { x } else { y };
    if m <= z {
        m
    } else {
        z
    }
}

/// Edit distance between the first `i` characters of `a` and the first `j`
/// of `b` (insertions, deletions, substitutions; ASCII case ignored).
pub open spec fn lev_dist(a: Seq<char>, b: Seq<char>, i: nat, j: nat) -> nat
    decreases i + j,
{
    if i == 0 {
        j
    } else if j == 0 {
        i
    } else {
        min3(
            lev_dist(a, b, i, (j - 1) as nat) + 1,
            lev_dist(a, b, (i - 1) as nat, j) + 1,
            lev_dist(a, b, (i - 1) as nat, (j - 1) as nat) + lev_cost(a[i - 1], b[j - 1]),
        )
    }
}

/// Levenshtein distance, ASCII case ignored.
pub open spec fn levenshtein(a: Seq<char>, b: Seq<char>) -> nat {
    lev_dist(a, b, a.len(), b.len())
}

proof fn lemma_lev_dist_symmetric(a: Seq<char>, b: Seq<char>, i: nat, j: nat)
    ensures
        lev_dist(a, b, i, j) == lev_dist(b, a, j, i),
    decreases i + j,
{
    if i > 0 && j > 0 {
        lemma_lev_dist_symmetric(a, b, i, (j - 1) as nat);
        lemma_lev_dist_symmetric(a, b, (i - 1) as nat, j);
        lemma_lev_dist_symmetric(a, b, (i - 1) as nat, (j - 1) as nat);
        assert(lev_cost(a[i - 1], b[j - 1]) == lev_cost(b[j - 1], a[i - 1]));
    }
}

proof fn lemma_lev_dist_same(a: Seq<char>, i: nat)
    ensures
        lev_dist(a, a, i, i) == 0,
    decreases i,
{
    if i > 0 {
        lemma_lev_dist_same(a, (i - 1) as nat);
    }
}

/// The distance between two names does not depend on their order.
pub proof fn law_levenshtein_symmetric(a: Seq<char>, b: Seq<char>)
    ensures
        levenshtein(a, b) == levenshtein(b, a),
{
    lemma_lev_dist_symmetric(a, b, a.len(), b.len());
}

/// A name is at distance 0 from itself.
pub proof fn law_levenshtein_same_name(a: Seq<char>)
    ensures
        levenshtein(a, a) == 0,
{
    lemma_lev_dist_same(a, a.len());
}

proof fn lemma_lev_bound(a: Seq<char>, b: Seq<char>, i: nat, j: nat)
    ensures
        lev_dist(a, b, i, j) <= if i >= j { i } else { j },
    decreases i + j,
{
    if i > 0 && j > 0 {
        lemma_lev_bound(a, b, (i - 1) as nat, (j - 1) as nat);
    }
}

/// Levenshtein distance between two names, ASCII case ignored.
pub fn lev(a: &str, b: &str) -> (r: usize)
    requires
        a@.len() < usize::MAX,
        b@.len() < usize::MAX,
    ensures
        r == levenshtein(a@, b@),
{
    let a = str_chars(a);
    let b = str_chars(b);
    let n = a.len();
    let m = b.len();
    if n == 0 {
        return m;
    }
    if m == 0 {
        return n;
    }
    let mut prev: Vec<usize> = Vec::new();
    let mut j: usize = 0;
    while j <= m
        invariant
            j <= m + 1,
            m == b.len(),
            m < usize::MAX,
            prev.len() == j,
            forall|k: int| 0 <= k < j ==> prev@[k] == k,
        decreases m + 1 - j,
    {
        prev.push(j);
        j = j + 1;
    }
    let mut curr: Vec<usize> = Vec::new();
    let mut j: usize = 0;
    while j <= m
        invariant
            j <= m + 1,
            m < usize::MAX,
            curr.len() == j,
        decreases m + 1 - j,
    {
        curr.push(0);
        j = j + 1;
    }
    let mut i: usize = 1;
    while i <= n
        invariant
            1 <= i <= n + 1,
            n == a.len(),
            m == b.len(),
            n < usize::MAX,
            m < usize::MAX,
            m > 0,
            prev.len() == m + 1,
            curr.len() == m + 1,
            forall|k: int| 0 <= k <= m ==> #[trigger] prev@[k] == lev_dist(a@, b@, (i - 1) as nat, k as nat),
        decreases n + 1 - i,
    {
        curr.set(0, i);
        let mut j: usize = 1;
        while j <= m
            invariant
                1 <= i <= n,
                1 <= j <= m + 1,
                n == a.len(),
                m == b.len(),
                n < usize::MAX,
                m < usize::MAX,
                prev.len() == m + 1,
                curr.len() == m + 1,
                forall|k: int| 0 <= k <= m ==> #[trigger] prev@[k] == lev_dist(a@, b@, (i - 1) as nat, k as nat),
                forall|k: int| 0 <= k < j ==> #[trigger] curr@[k] == lev_dist(a@, b@, i as nat, k as nat),
            decreases m + 1 - j,
        {
            proof {
                lemma_lev_bound(a@, b@, i as nat, (j - 1) as nat);
                lemma_lev_bound(a@, b@, (i - 1) as nat, j as nat);
                lemma_lev_bound(a@, b@, (i - 1) as nat, (j - 1) as nat);
            }
            let cost: usize = if lower(a[i - 1]) == lower(b[j - 1]) {
                0
            } else {
                1
            };
            let x = curr[j - 1] + 1;
            let y = prev[j] + 1;
            let z = prev[j - 1] + cost;
            let mut best = if x <= y {
                x
            } else {
                y
            };
            if z < best {
                best = z;
            }
            curr.set(j, best);
            j = j + 1;
        }
        std::mem::swap(&mut prev, &mut curr);
        i = i + 1;
    }
    prev[m]
}

/// The closest candidate at distance at most 2 among the first `k`, with
/// its distance; the first one wins a tie.
pub open spec fn best_prefix(t: Seq<char>, cs: Seq<Seq<char>>, k: nat) -> Option<(Seq<char>, nat)>
    decreases k,
{
    if k == 0 || k > cs.len() {
        None
    } else {
        let prev = best_prefix(t, cs, (k - 1) as nat);
        let d = levenshtein(t, cs[k - 1]);
        if d > 2 {
            prev
        } else {
            match prev {
                None => Some((cs[k - 1], d)),
                Some((c, pd)) => if d < pd {
                    Some((cs[k - 1], d))
                } else {
                    prev
                },
            }
        }
    }
}

/// The closest candidate (Levenshtein distance at most 2, ASCII case
/// ignored), the first one on a tie.
pub open spec fn best_match_spec(t: Seq<char>, cs: Seq<Seq<char>>) -> Option<Seq<char>> {
    match best_prefix(t, cs, cs.len()) {
        Some((c, _)) => Some(c),
        None => None,
    }
}

/// The closest column name for a "did you mean?" suggestion.
pub fn best_match(target: &str, candidates: &[String]) -> (r: Option<String>)
    requires
        target@.len() < usize::MAX,
        forall|i: int| 0 <= i < candidates.len() ==> (#[trigger] candidates@[i])@.len() < usize::MAX,
    ensures
        match (r, best_match_spec(target@, strings_view(candidates@))) {
            (Some(a), Some(b)) => a@ == b,
            (None, None) => true,
            _ => false,
        },
{
    let ghost cs = strings_view(candidates@);
    let mut best: Option<(usize, usize)> = None;
    let mut k: usize = 0;
    while k < candidates.len()
        invariant
            k <= candidates.len(),
            cs == strings_view(candidates@),
            target@.len() < usize::MAX,
            forall|i: int| 0 <= i < candidates.len() ==> (#[trigger] candidates@[i])@.len() < usize::MAX,
            match (best, best_prefix(target@, cs, k as nat)) {
                (Some((i, d)), Some((c, pd))) => i < k && cs[i as int] == c && d == pd,
                (None, None) => true,
                _ => false,
            },
        decreases candidates.len() - k,
    {
        let d = lev(target, candidates[k].as_str());
        if d <= 2 {
            match best {
                None => {
                    best = Some((k, d));
                },
                Some((_, pd)) => {
                    if d < pd {
                        best = Some((k, d));
                    }
                },
            }
        }
        k = k + 1;
    }
    match best {
        Some((i, _)) => Some(candidates[i].clone()),
        None => None,
    }
}

// ---------------------------------------------------------------------------
// Validating a statement against a catalog
// ---------------------------------------------------------------------------

/// Soft warnings: an unknown table, or an unknown column of a known table
/// (with the closest column name when one is within distance 2).
#[derive(Debug, Clone, PartialEq, Eq)]
pub enum ValidationIssue {
    UnknownTable { db: String, table: String },
    UnknownColumn { db: String, table: String, column: String, did_you_mean: Option<String> },
}

/// A table visible in a query's `FROM`: its database, name, and the handle
/// a qualified column uses (the alias, else the table name).
pub struct TableRef {
    pub db: String,
    pub table: String,
    pub handle: String,
}

/// The database and table a name refers to: a one-part name is in
/// `default`; otherwise the last two parts.
pub open spec fn split_db_table(parts: Seq<Seq<char>>) -> Option<(Seq<char>, Seq<char>)> {
    if parts.len() == 0 {
        None
    } else if parts.len() == 1 {
        Some(("default"@, parts[0]))
    } else {
        Some((parts[parts.len() - 2], parts[parts.len() - 1]))
    }
}

/// The table a `FROM` relation names, with its handle.
pub fn table_ref(parts: &Vec<String>, alias: &Option<String>) -> (r: Option<TableRef>)
    ensures
        match (r, split_db_table(strings_view(parts@))) {
            (Some(t), Some((db, table))) => t.db@ == db && t.table@ == table && t.handle@ == match alias {
                Some(a) => a@,
                None => table,
            },
            (None, None) => true,
            _ => false,
        },
{
    let n = parts.len();
    if n == 0 {
        return None;
    }
    let (db, table) = if n == 1 {
        (string_from_chars(str_chars("default")), parts[0].clone())
    } else {
        (parts[n - 2].clone(), parts[n - 1].clone())
    };
    let handle = match alias {
        Some(a) => a.clone(),
        None => table.clone(),
    };
    Some(TableRef { db, table, handle })
}

/// The issue a qualified column reference raises, given the columns the
/// catalog reported for the table its qualifier resolved to: none when the
/// table is a CTE, the catalog does not know it, or it has the column
/// (ASCII case ignored); otherwise an unknown column with a suggestion.
pub open spec fn column_issue_spec(
    db: Seq<char>,
    table: Seq<char>,
    column: Seq<char>,
    is_cte: bool,
    columns: Option<Seq<Seq<char>>>,
) -> Option<(Seq<char>, Seq<char>, Seq<char>, Option<Seq<char>>)> {
    if is_cte {
        None
    } else {
        match columns {
            None => None,
            Some(cs) => if exists|i: int| 0 <= i < cs.len() && seq_eq_ci(#[trigger] cs[i], column) {
                None
            } else {
                Some((db, table, column, best_match_spec(column, cs)))
            },
        }
    }
}

pub open spec fn issue_view(i: ValidationIssue) -> (Seq<char>, Seq<char>, Seq<char>, Option<Seq<char>>) {
    match i {
        ValidationIssue::UnknownColumn { db, table, column, did_you_mean } => (
            db@,
            table@,
            column@,
            match did_you_mean {
                Some(s) => Some(s@),
                None => None,
            },
        ),
        ValidationIssue::UnknownTable { db, table } => (db@, table@, Seq::empty(), None),
    }
}

pub fn column_issue(t: &TableRef, column: &str, is_cte: bool, columns: Option<Vec<String>>) -> (r: Option<ValidationIssue>)
    requires
        column@.len() < usize::MAX,
        columns matches Some(cs) ==> forall|i: int| 0 <= i < cs.len() ==> (#[trigger] cs@[i])@.len() < usize::MAX,
    ensures
        match (r, column_issue_spec(t.db@, t.table@, column@, is_cte, match columns {
            Some(cs) => Some(strings_view(cs@)),
            None => None,
        })) {
            (Some(i), Some(v)) => i is UnknownColumn && issue_view(i) == v,
            (None, None) => true,
            _ => false,
        },
{
    if is_cte {
        return None;
    }
    let cols = match columns {
        Some(cs) => cs,
        None => {
            return None;
        },
    };
    let ghost cv = strings_view(cols@);
    let col = str_chars(column);
    let mut k: usize = 0;
    while k < cols.len()
        invariant
            k <= cols.len(),
            cv == strings_view(cols@),
            columns == Some(cols),
            !is_cte,
            col@ == column@,
            forall|i: int| 0 <= i < k ==> !seq_eq_ci(#[trigger] cv[i], column@),
        decreases cols.len() - k,
    {
        if eq_ignore_case(&str_chars(cols[k].as_str()), &col) {
            assert(seq_eq_ci(cv[k as int], column@));
            return None;
        }
        k = k + 1;
    }
    let suggestion = best_match(column, cols.as_slice());
    Some(
        ValidationIssue::UnknownColumn {
            db: t.db.clone(),
            table: t.table.clone(),
            column: string_from_chars(col),
            did_you_mean: suggestion,
        },
    )
}

/// Whether `name` is one of the visible CTE names (ASCII case ignored).
pub fn is_cte(cte_names: &Vec<String>, name: &str) -> (r: bool)
    ensures
        r == exists|i: int| 0 <= i < cte_names.len() && seq_eq_ci((#[trigger] cte_names@[i])@, name@),
{
    let n = str_chars(name);
    let mut k: usize = 0;
    while k < cte_names.len()
        invariant
            k <= cte_names.len(),
            n@ == name@,
            forall|i: int| 0 <= i < k ==> !seq_eq_ci((#[trigger] cte_names@[i])@, name@),
        decreases cte_names.len() - k,
    {
        if eq_ignore_case(&str_chars(cte_names[k].as_str()), &n) {
            return true;
        }
        k = k + 1;
    }
    false
}

/// The walk's state: issues found so far, the `FROM` scopes of the
/// enclosing queries (innermost last), and the visible CTE names.
pub struct ValidationState {
    pub issues: Vec<ValidationIssue>,
    pub scopes: Vec<Vec<TableRef>>,
    pub cte_names: Vec<String>,
}

fn char_len_ok(s: &str) -> (r: bool)
    ensures
        r == (s@.len() < usize::MAX),
{
    str_chars(s).len() < usize::MAX
}

fn all_len_ok(cs: &Vec<String>) -> (r: bool)
    ensures
        r == forall|i: int| 0 <= i < cs.len() ==> (#[trigger] cs@[i])@.len() < usize::MAX,
{
    let mut k: usize = 0;
    while k < cs.len()
        invariant
            k <= cs.len(),
            forall|i: int| 0 <= i < k ==> (#[trigger] cs@[i])@.len() < usize::MAX,
        decreases cs.len() - k,
    {
        if !char_len_ok(cs[k].as_str()) {
            return false;
        }
        k = k + 1;
    }
    true
}

/// The first table of a scope whose handle is `q` (ASCII case ignored).
pub open spec fn handle_in(tabs: Seq<TableRef>, q: Seq<char>) -> Option<TableRef>
    decreases tabs.len(),
{
    if tabs.len() == 0 {
        None
    } else if seq_eq_ci(tabs[0].handle@, q) {
        Some(tabs[0])
    } else {
        handle_in(tabs.drop_first(), q)
    }
}

/// The table a qualifier resolves to: searched in the innermost scope
/// (the last) first, then outwards.
pub open spec fn resolve_qualifier(scopes: Seq<Vec<TableRef>>, q: Seq<char>) -> Option<TableRef>
    decreases scopes.len(),
{
    if scopes.len() == 0 {
        None
    } else {
        match handle_in(scopes.last()@, q) {
            Some(t) => Some(t),
            None => resolve_qualifier(scopes.drop_last(), q),
        }
    }
}

/// Whether `name` is one of the visible CTE names (ASCII case ignored).
pub open spec fn is_cte_name(cte_names: Seq<String>, name: Seq<char>) -> bool {
    exists|i: int| 0 <= i < cte_names.len() && seq_eq_ci((#[trigger] cte_names[i])@, name)
}

broadcast use {crate::validation_frame::lemma_keeps_frame_refl, crate::validation_frame::lemma_keeps_frame_trans};

/// Check `qualifier.column` against the scopes, innermost first: the first
/// table whose handle matches the qualifier decides; a qualifier that
/// matches no table is accepted silently. The issue, if any, is the
/// unknown column of that table, with the suggestion drawn from the
/// columns the catalog answered.
pub fn check_qualified<C: Catalog>(st: &mut ValidationState, catalog: &mut C, qualifier: &str, column: &str)
    ensures
        keeps_frame(*old(st), *final(st)),
        match resolve_qualifier(old(st).scopes@, qualifier@) {
            None => final(st).issues@ == old(st).issues@,
            Some(t) => {
                ||| final(st).issues@ == old(st).issues@
                ||| {
                    &&& !is_cte_name(old(st).cte_names@, t.table@)
                    &&& final(st).issues@.len() == old(st).issues@.len() + 1
                    &&& final(st).issues@.take(old(st).issues@.len() as int) == old(st).issues@
                    &&& final(st).issues@.last() is UnknownColumn
                    &&& exists|cs: Seq<Seq<char>>| #[trigger] column_issue_spec(t.db@, t.table@, column@, false, Some(cs))
                        == Some(issue_view(final(st).issues@.last()))
                }
            },
        },
{
    let q = str_chars(qualifier);
    let ghost sc = st.scopes@;
    let mut s = st.scopes.len();
    assert(sc.take(sc.len() as int) =~= sc);
    while s > 0
        invariant
            s <= st.scopes.len(),
            st.scopes@ == sc,
            q@ == qualifier@,
            resolve_qualifier(sc, qualifier@) == resolve_qualifier(sc.take(s as int), qualifier@),
            st.issues@ == old(st).issues@,
            st.cte_names@ == old(st).cte_names@,
            sc == old(st).scopes@,
        decreases s,
    {
        s = s - 1;
        let ghost tabs = sc[s as int]@;
        proof {
            assert(sc.take(s + 1).last() == sc[s as int]);
            assert(sc.take(s + 1).drop_last() =~= sc.take(s as int));
            assert(tabs.skip(0) =~= tabs);
        }
        let mut k: usize = 0;
        while k < st.scopes[s].len()
            invariant
                s < st.scopes.len(),
                st.scopes@ == sc,
                tabs == sc[s as int]@,
                q@ == qualifier@,
                k <= tabs.len(),
                resolve_qualifier(sc, qualifier@) == resolve_qualifier(sc.take(s + 1), qualifier@),
                sc.take(s + 1).last() == sc[s as int],
                sc.take(s + 1).drop_last() == sc.take(s as int),
                handle_in(tabs, qualifier@) == handle_in(tabs.skip(k as int), qualifier@),
                st.issues@ == old(st).issues@,
                st.cte_names@ == old(st).cte_names@,
                sc == old(st).scopes@,
            decreases tabs.len() - k,
        {
            assert(tabs.skip(k as int)[0] == tabs[k as int]);
            if eq_ignore_case(&str_chars(st.scopes[s][k].handle.as_str()), &q) {
                let ghost t = tabs[k as int];
                assert(handle_in(tabs, qualifier@) == Some(t));
                assert(resolve_qualifier(sc, qualifier@) == Some(t));
                let cte = is_cte(&st.cte_names, st.scopes[s][k].table.as_str());
                let cols = if cte {
                    None
                } else {
                    catalog.columns_of(st.scopes[s][k].db.as_str(), st.scopes[s][k].table.as_str())
                };
                let ok = match &cols {
                    Some(cs) => all_len_ok(cs),
                    None => true,
                };
                if ok && char_len_ok(column) {
                    let ghost cv: Option<Seq<Seq<char>>> = match &cols {
                        Some(cs) => Some(strings_view(cs@)),
                        None => None,
                    };
                    if let Some(issue) = column_issue(&st.scopes[s][k], column, cte, cols) {
                        st.issues.push(issue);
                        proof {
                            assert(st.issues@.take(old(st).issues@.len() as int) =~= old(st).issues@);
                            assert(column_issue_spec(t.db@, t.table@, column@, false, Some(cv->0))
                                == Some(issue_view(st.issues@.last())));
                        }
                    }
                }
                assert(st.issues@.take(old(st).issues@.len() as int) =~= old(st).issues@);
                return;
            }
            assert(tabs.skip(k as int).drop_first() =~= tabs.skip(k + 1));
            k = k + 1;
        }
        assert(handle_in(tabs.skip(k as int), qualifier@) == None::<TableRef>);
    }
    assert(sc.take(0) =~= Seq::<Vec<TableRef>>::empty());
    assert(st.issues@.take(old(st).issues@.len() as int) =~= old(st).issues@);
}

/// Whether a table reference's database and table are those
/// [`split_db_table`] reads from some name.
pub open spec fn is_table_ref(t: TableRef) -> bool {
    exists|parts: Seq<Seq<char>>| #[trigger] split_db_table(parts) == Some((t.db@, t.table@))
}

/// The tables a query's own `FROM` shows (not those of nested queries),
/// each the reference of a named table.
pub fn collect_tables(q: &crate::sql::query::QueryParts) -> (r: Vec<TableRef>)
    ensures
        forall|k: int| 0 <= k < r.len() ==> is_table_ref(#[trigger] r@[k]),
{
    let mut out: Vec<TableRef> = Vec::new();
    if let SetExprParts::SelectBody(sel) = set_expr_parts(&q.body) {
        let parts = select_parts(&sel);
        let mut i: usize = 0;
        while i < parts.from.len()
            invariant
                i <= parts.from.len(),
                forall|k: int| 0 <= k < out.len() ==> is_table_ref(#[trigger] out@[k]),
            decreases parts.from.len() - i,
        {
            let (relation, joins) = from_item_parts(&parts.from[i]);
            if let TableFactorParts::Table(names, _, alias) = table_factor_parts(&relation) {
                if let Some(t) = table_ref(&names, &alias) {
                    assert(split_db_table(strings_view(names@)) == Some((t.db@, t.table@)));
                    out.push(t);
                }
            }
            let mut j: usize = 0;
            while j < joins.len()
                invariant
                    j <= joins.len(),
                    forall|k: int| 0 <= k < out.len() ==> is_table_ref(#[trigger] out@[k]),
                decreases joins.len() - j,
            {
                if let TableFactorParts::Table(names, _, alias) = table_factor_parts(&joins[j].1) {
                    if let Some(t) = table_ref(&names, &alias) {
                        assert(split_db_table(strings_view(names@)) == Some((t.db@, t.table@)));
                        out.push(t);
                    }
                }
                j = j + 1;
            }
            i = i + 1;
        }
    }
    out
}

/// How deep the validation walk goes.
pub const VALIDATION_DEPTH: u64 = 1_000_000;

/// Validate one query: report its unknown tables (CTEs aside), then walk
/// its CTEs, body, `ORDER BY` and `LIMIT` with its `FROM` tables in scope.
/// Issues are only added; the scopes and CTE names are left as they were.
pub fn validate_query<C: Catalog>(st: &mut ValidationState, catalog: &mut C, q: &Query, depth: u64)
    ensures
        keeps_frame(*old(st), *final(st)),
    decreases depth,
{
    let ghost st0 = *st;
    if depth == 0 {
        return;
    }
    let d = depth - 1;
    let parts = query_parts(q);
    let mut i: usize = 0;
    while i < parts.ctes.len()
        invariant
            i <= parts.ctes.len(),
            st.scopes@ == st0.scopes@,
            st.issues@ == st0.issues@,
            st.cte_names@.len() == st0.cte_names@.len() + i,
            st.cte_names@.take(st0.cte_names@.len() as int) == st0.cte_names@,
        decreases parts.ctes.len() - i,
    {
        let ghost before = st.cte_names@;
        st.cte_names.push(parts.ctes[i].0.clone());
        assert(st.cte_names@.take(st0.cte_names@.len() as int) =~= before.take(st0.cte_names@.len() as int));
        i = i + 1;
    }
    let ghost st1 = *st;
    let scope = collect_tables(&parts);
    let mut i: usize = 0;
    while i < scope.len()
        invariant
            i <= scope.len(),
            keeps_frame(st1, *st),
        decreases scope.len() - i,
    {
        let t = &scope[i];
        if !is_cte(&st.cte_names, t.table.as_str()) {
            if catalog.columns_of(t.db.as_str(), t.table.as_str()).is_none() {
                let ghost before = st.issues@;
                st.issues.push(ValidationIssue::UnknownTable { db: t.db.clone(), table: t.table.clone() });
                assert(st.issues@.take(st1.issues@.len() as int) =~= before.take(st1.issues@.len() as int));
            }
        }
        i = i + 1;
    }
    st.scopes.push(scope);
    let ghost st2 = *st;
    let mut i: usize = 0;
    while i < parts.ctes.len()
        invariant
            d < depth,
            i <= parts.ctes.len(),
            keeps_frame(st2, *st),
        decreases parts.ctes.len() - i,
    {
        validate_query(st, catalog, &parts.ctes[i].1, d);
        i = i + 1;
    }
    validate_set_expr(st, catalog, &parts.body, d);
    if let Some(keys) = &parts.order_by {
        let mut i: usize = 0;
        while i < keys.len()
            invariant
                d < depth,
                i <= keys.len(),
                keeps_frame(st2, *st),
            decreases keys.len() - i,
        {
            let (e, _) = order_by_parts(&keys[i]);
            validate_expr(st, catalog, &e, d);
            i = i + 1;
        }
    }
    if let Some(l) = &parts.limit {
        validate_expr(st, catalog, l, d);
    }
    st.scopes.pop();
    let n = st.cte_names.len();
    let added = parts.ctes.len();
    st.cte_names.truncate(if n >= added { n - added } else { 0 });
    proof {
        assert(st.scopes@ =~= st0.scopes@);
        assert(st.cte_names@ =~= st0.cte_names@);
        assert(st.issues@.take(st0.issues@.len() as int) =~= st.issues@.take(st2.issues@.len() as int).take(
            st0.issues@.len() as int,
        ));
        assert(st2.issues@.take(st0.issues@.len() as int) =~= st0.issues@);
    }
}

fn validate_set_expr<C: Catalog>(st: &mut ValidationState, catalog: &mut C, s: &SetExpr, depth: u64)
    ensures
        keeps_frame(*old(st), *final(st)),
    decreases depth,
{
    if depth == 0 {
        return;
    }
    let d = depth - 1;
    match set_expr_parts(s) {
        SetExprParts::SelectBody(sel) => validate_select(st, catalog, &sel, d),
        SetExprParts::SetOperation(_, l, r) => {
            validate_set_expr(st, catalog, &l, d);
            validate_set_expr(st, catalog, &r, d);
        },
        SetExprParts::Nested(q) => validate_query(st, catalog, &q, d),
        _ => {},
    }
}

fn validate_exprs<C: Catalog>(st: &mut ValidationState, catalog: &mut C, es: &Vec<Expr>, depth: u64)
    ensures
        keeps_frame(*old(st), *final(st)),
    decreases depth,
{
    let ghost st0 = *st;
    if depth == 0 {
        return;
    }
    let d = depth - 1;
    let mut i: usize = 0;
    while i < es.len()
        invariant
            d < depth,
            i <= es.len(),
            keeps_frame(st0, *st),
        decreases es.len() - i,
    {
        validate_expr(st, catalog, &es[i], d);
        i = i + 1;
    }
}

fn validate_select<C: Catalog>(st: &mut ValidationState, catalog: &mut C, sel: &Select, depth: u64)
    ensures
        keeps_frame(*old(st), *final(st)),
    decreases depth,
{
    let ghost st0 = *st;
    if depth == 0 {
        return;
    }
    let d = depth - 1;
    let parts = select_parts(sel);
    if let Some(keys) = &parts.distinct_on {
        validate_exprs(st, catalog, keys, d);
    }
    let mut i: usize = 0;
    while i < parts.projection.len()
        invariant
            d < depth,
            i <= parts.projection.len(),
            keeps_frame(st0, *st),
        decreases parts.projection.len() - i,
    {
        match select_item_parts(&parts.projection[i]) {
            SelectItemParts::Unnamed(e) => validate_expr(st, catalog, &e, d),
            SelectItemParts::WithAlias(e, _) => validate_expr(st, catalog, &e, d),
            _ => {},
        }
        i = i + 1;
    }
    let mut i: usize = 0;
    while i < parts.from.len()
        invariant
            d < depth,
            i <= parts.from.len(),
            keeps_frame(st0, *st),
        decreases parts.from.len() - i,
    {
        let (relation, joins) = from_item_parts(&parts.from[i]);
        let conditions = join_conditions(&parts.from[i]);
        validate_relation(st, catalog, &relation, d);
        let mut j: usize = 0;
        while j < joins.len()
            invariant
                d < depth,
                j <= joins.len(),
                keeps_frame(st0, *st),
            decreases joins.len() - j,
        {
            validate_relation(st, catalog, &joins[j].1, d);
            if j < conditions.len() {
                if let Some(c) = &conditions[j] {
                    validate_expr(st, catalog, c, d);
                }
            }
            j = j + 1;
        }
        i = i + 1;
    }
    if let Some(w) = &parts.selection {
        validate_expr(st, catalog, w, d);
    }
    if let GroupByParts::Expressions(es) = &parts.group_by {
        validate_exprs(st, catalog, es, d);
    }
    if let Some(h) = &parts.having {
        validate_expr(st, catalog, h, d);
    }
}

fn validate_relation<C: Catalog>(st: &mut ValidationState, catalog: &mut C, t: &TableFactor, depth: u64)
    ensures
        keeps_frame(*old(st), *final(st)),
    decreases depth,
{
    if depth == 0 {
        return;
    }
    if let TableFactorParts::Derived(q, _) = table_factor_parts(t) {
        validate_query(st, catalog, &q, depth - 1);
    }
}

/// Walk an expression, parents before children, checking each
/// `qualifier.column` reference.
fn validate_expr<C: Catalog>(st: &mut ValidationState, catalog: &mut C, e: &Expr, depth: u64)
    ensures
        keeps_frame(*old(st), *final(st)),
    decreases depth,
{
    let ghost st0 = *st;
    if depth == 0 {
        return;
    }
    let d = depth - 1;
    match expr_parts(e) {
        ExprParts::Compound(ids) => {
            if ids.len() == 2 {
                let q = ident_value(&ids[0]);
                let c = ident_value(&ids[1]);
                check_qualified(st, catalog, q.as_str(), c.as_str());
            }
        },
        ExprParts::BinaryOp(l, _, _, r) => {
            validate_expr(st, catalog, &l, d);
            validate_expr(st, catalog, &r, d);
        },
        ExprParts::UnaryOp(_, x) => validate_expr(st, catalog, &x, d),
        ExprParts::Function(_, _, args) => {
            let mut i: usize = 0;
            while i < args.len()
                invariant
                    d < depth,
                    i <= args.len(),
                    keeps_frame(st0, *st),
                decreases args.len() - i,
            {
                if let Some(x) = positional_arg(&args[i]) {
                    validate_expr(st, catalog, &x, d);
                }
                i = i + 1;
            }
        },
        ExprParts::Cast(x, _) => validate_expr(st, catalog, &x, d),
        ExprParts::Case(conditions, results, else_result) => {
            validate_exprs(st, catalog, &conditions, d);
            validate_exprs(st, catalog, &results, d);
            if let Some(x) = else_result {
                validate_expr(st, catalog, &x, d);
            }
        },
        ExprParts::Subquery(q) => validate_query(st, catalog, &q, d),
        ExprParts::IsNull(x) => validate_expr(st, catalog, &x, d),
        ExprParts::IsNotNull(x) => validate_expr(st, catalog, &x, d),
        ExprParts::Nested(x) => validate_expr(st, catalog, &x, d),
        ExprParts::InList(x, list) => {
            validate_expr(st, catalog, &x, d);
            validate_exprs(st, catalog, &list, d);
        },
        ExprParts::Between(x, lo, hi) => {
            validate_expr(st, catalog, &x, d);
            validate_expr(st, catalog, &lo, d);
            validate_expr(st, catalog, &hi, d);
        },
        ExprParts::InSubquery(x, q) => {
            validate_expr(st, catalog, &x, d);
            validate_query(st, catalog, &q, d);
        },
        ExprParts::Exists(q) => validate_query(st, catalog, &q, d),
        _ => {},
    }
}

/// Every issue `catalog` flags in a statement: unknown tables, and unknown
/// columns of `qualifier.column` references; advisory only.
pub fn validate_against<C: Catalog>(stmt: &Statement, catalog: &mut C) -> Vec<ValidationIssue> {
    let mut st = ValidationState { issues: Vec::new(), scopes: Vec::new(), cte_names: Vec::new() };
    match statement_parts(stmt) {
        StatementParts::Plain(q) => validate_query(&mut st, catalog, &q, VALIDATION_DEPTH),
        StatementParts::Insert(_, Some(q)) => validate_query(&mut st, catalog, &q, VALIDATION_DEPTH),
        StatementParts::CreateView(_, _, q) => validate_query(&mut st, catalog, &q, VALIDATION_DEPTH),
        _ => {},
    }
    st.issues
}

} // verus!
