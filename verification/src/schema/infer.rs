//! Inference: the output columns of a view (or a plain `SELECT`), typed from
//! the catalog's column types, literals, casts, operators and function
//! names. Every column comes out optional.
use vstd::prelude::*;

use crate::catalog::{strings_view, InMemoryCatalog};
use crate::schema::avro::{nullable, numeric_rank, strip_nullable, widen_numeric, AvroField, AvroRecord, AvroType};
use crate::schema::hive_type::{hive_avro, hive_type_to_avro, lemma_hive_not_nullable};
use crate::sql::ast::{
    expr_parts, ident_value, parse_sql_text, parse_count, type_class, type_kind, value_parts, bin_op_class,
    BinOpClass, DecimalInfo, ExprParts, TypeClass, ValueParts,
};
use crate::sql::query::{
    from_item_parts, select_item_parts, select_parts, set_expr_debug, set_expr_parts, statement_parts,
    table_factor_parts, SelectItemParts, SetExprParts, StatementParts, TableFactorParts,
};
use crate::text::{
    ascii_lowercase, dec, eq_ignore_case, equals_str, lower_seq, push_all, seq_eq_ci, str_chars,
    string_from_chars, usize_text,
};
use sqlparser::ast::{Expr, Query, Select, SelectItem, SetExpr, Statement, TableWithJoins};

verus! {

// ---------------------------------------------------------------------------
// Typed catalogs
// ---------------------------------------------------------------------------

/// A catalog that knows column types as well as column names. Type strings
/// follow the Hive syntax: `BIGINT`, `VARCHAR`, `ARRAY<INT>`,
/// `MAP<STRING, DOUBLE>`, `DECIMAL(18,2)`, `STRUCT<f1:INT, f2:STRING>`.
pub trait TypedCatalog {
    /// The type string the catalog holds for `db.table.column`.
    spec fn type_of(&self, db: Seq<char>, table: Seq<char>, column: Seq<char>) -> Option<Seq<char>>;

    /// The columns the catalog holds for `db.table`, in declaration order.
    spec fn columns_spec(&self, db: Seq<char>, table: Seq<char>) -> Option<Seq<Seq<char>>>;

    /// The type string of `db.table.column`, or `None` if the column is
    /// unknown.
    fn column_type(&self, db: &str, table: &str, column: &str) -> (r: Option<String>)
        ensures
            match r {
                Some(t) => self.type_of(db@, table@, column@) == Some(t@),
                None => self.type_of(db@, table@, column@) is None,
            },
    ;

    /// All columns of `db.table`, in declaration order.
    fn columns(&self, db: &str, table: &str) -> (r: Option<Vec<String>>)
        ensures
            match r {
                Some(cs) => self.columns_spec(db@, table@) == Some(strings_view(cs@)),
                None => self.columns_spec(db@, table@) is None,
            },
    ;
}

/// The first index from `i` on whose name equals `c` up to ASCII case.
pub open spec fn ci_index_from(cs: Seq<Seq<char>>, c: Seq<char>, i: int) -> Option<int>
    decreases cs.len() - i,
{
    if i < 0 || i >= cs.len() {
        None
    } else if seq_eq_ci(cs[i], c) {
        Some(i)
    } else {
        ci_index_from(cs, c, i + 1)
    }
}

/// The type of the first column named `column` (ASCII case ignored) of a
/// registered table.
pub open spec fn in_memory_type(
    m: Map<(Seq<char>, Seq<char>), (Seq<Seq<char>>, Seq<Seq<char>>)>,
    db: Seq<char>,
    table: Seq<char>,
    column: Seq<char>,
) -> Option<Seq<char>> {
    let k = (lower_seq(db), lower_seq(table));
    if m.contains_key(k) {
        let (cols, types) = m[k];
        match ci_index_from(cols, column, 0) {
            Some(i) => if i < types.len() {
                Some(types[i])
            } else {
                None
            },
            None => None,
        }
    } else {
        None
    }
}

impl TypedCatalog for InMemoryCatalog {
    open spec fn type_of(&self, db: Seq<char>, table: Seq<char>, column: Seq<char>) -> Option<Seq<char>> {
        in_memory_type(self@, db, table, column)
    }

    open spec fn columns_spec(&self, db: Seq<char>, table: Seq<char>) -> Option<Seq<Seq<char>>> {
        let k = (lower_seq(db), lower_seq(table));
        if self@.contains_key(k) {
            Some(self@[k].0)
        } else {
            None
        }
    }

    fn column_type(&self, db: &str, table: &str, column: &str) -> (r: Option<String>) {
        match self.column_types(db, table) {
            None => None,
            Some((cols, types)) => {
                let c = str_chars(column);
                let ghost cv = strings_view(cols@);
                let mut i: usize = 0;
                let ghost k = (lower_seq(db@), lower_seq(table@));
                while i < cols.len()
                    invariant
                        i <= cols.len(),
                        c@ == column@,
                        cv == strings_view(cols@),
                        self@.contains_key(k),
                        cv == self@[k].0,
                        strings_view(types@) == self@[k].1,
                        k == (lower_seq(db@), lower_seq(table@)),
                        ci_index_from(cv, c@, i as int) == ci_index_from(cv, c@, 0),
                    decreases cols.len() - i,
                {
                    assert(cv[i as int] == cols@[i as int]@);
                    if eq_ignore_case(&str_chars(cols[i].as_str()), &c) {
                        if i < types.len() {
                            assert(strings_view(types@)[i as int] == types@[i as int]@);
                            let t = types[i].clone();
                            assert(t@ == types@[i as int]@);
                            return Some(t);
                        } else {
                            return None;
                        }
                    }
                    i = i + 1;
                }
                None
            },
        }
    }

    fn columns(&self, db: &str, table: &str) -> (r: Option<Vec<String>>) {
        match InMemoryCatalog::columns(self, db, table) {
            Some(cs) => {
                let mut out: Vec<String> = Vec::new();
                let mut i: usize = 0;
                while i < cs.len()
                    invariant
                        i <= cs.len(),
                        out.len() == i,
                        forall|j: int| 0 <= j < i ==> #[trigger] out@[j]@ == cs@[j]@,
                    decreases cs.len() - i,
                {
                    out.push(cs[i].clone());
                    i = i + 1;
                }
                assert(strings_view(out@) =~= strings_view(cs@));
                Some(out)
            },
            None => None,
        }
    }
}

// ---------------------------------------------------------------------------
// Errors
// ---------------------------------------------------------------------------

/// Why a view's schema could not be inferred.
#[derive(Debug)]
pub enum SchemaError {
    /// The text did not parse; the parser's message.
    Parse(String),
    /// The text is not exactly one `CREATE VIEW .. AS SELECT` or `SELECT`.
    NoSelect,
    /// The query body has a shape inference does not read.
    Unsupported(String),
    /// A catalog failed.
    Catalog(String),
}

/// The message a schema error displays.
pub open spec fn schema_error_text(e: SchemaError) -> Seq<char> {
    match e {
        SchemaError::Parse(m) => "parse error: "@ + m@,
        SchemaError::NoSelect => "no SELECT statement found — expected CREATE VIEW ... AS SELECT or plain SELECT"@,
        SchemaError::Unsupported(m) => "unsupported SELECT shape: "@ + m@,
        SchemaError::Catalog(m) => "catalog error: "@ + m@,
    }
}

impl SchemaError {
    /// The message the error displays.
    pub fn message(&self) -> (r: String)
        ensures
            r@ == schema_error_text(*self),
    {
        let (prefix, m) = match self {
            SchemaError::Parse(m) => ("parse error: ", m.as_str()),
            SchemaError::NoSelect => (
                "no SELECT statement found — expected CREATE VIEW ... AS SELECT or plain SELECT",
                "",
            ),
            SchemaError::Unsupported(m) => ("unsupported SELECT shape: ", m.as_str()),
            SchemaError::Catalog(m) => ("catalog error: ", m.as_str()),
        };
        let mut out = str_chars(prefix);
        push_all(&mut out, &str_chars(m));
        proof {
            if self is NoSelect {
                reveal_strlit("");
                assert(out@ =~= prefix@);
            }
        }
        string_from_chars(out)
    }
}

// ---------------------------------------------------------------------------
// Literals, casts, operators and functions
// ---------------------------------------------------------------------------

/// The Avro type of a literal: a number with `.`, `e` or `E` is a double,
/// another number a long; text is a string, `TRUE`/`FALSE` a boolean, and
/// `NULL` and anything else a string.
pub open spec fn literal_avro_spec(v: ValueParts) -> AvroType {
    match v {
        ValueParts::Number(s) => if s@.contains('.') || s@.contains('e') || s@.contains('E') {
            AvroType::Double
        } else {
            AvroType::Long
        },
        ValueParts::Boolean => AvroType::Boolean,
        _ => AvroType::String,
    }
}

fn has_char(s: &Vec<char>, c: char) -> (r: bool)
    ensures
        r == s@.contains(c),
{
    let mut i: usize = 0;
    while i < s.len()
        invariant
            i <= s.len(),
            forall|j: int| 0 <= j < i ==> s@[j] != c,
        decreases s.len() - i,
    {
        if s[i] == c {
            assert(s@[i as int] == c);
            return true;
        }
        i = i + 1;
    }
    false
}

pub fn literal_avro(v: &ValueParts) -> (r: AvroType)
    ensures
        r == literal_avro_spec(*v),
{
    match v {
        ValueParts::Number(s) => {
            let cs = str_chars(s.as_str());
            if has_char(&cs, '.') || has_char(&cs, 'e') || has_char(&cs, 'E') {
                AvroType::Double
            } else {
                AvroType::Long
            }
        },
        ValueParts::Boolean => AvroType::Boolean,
        _ => AvroType::String,
    }
}

/// The Avro type of a cast target: a `DECIMAL` without parameters is
/// `(18, 2)`, with a precision alone the scale is 0; the parameters are
/// cut to 32 bits.
pub open spec fn class_avro(c: TypeClass) -> AvroType {
    match c {
        TypeClass::Int => AvroType::Int,
        TypeClass::Long => AvroType::Long,
        TypeClass::Float => AvroType::Float,
        TypeClass::Double => AvroType::Double,
        TypeClass::Boolean => AvroType::Boolean,
        TypeClass::Bytes => AvroType::Bytes,
        TypeClass::Date => AvroType::Date,
        TypeClass::Timestamp => AvroType::TimestampMillis,
        TypeClass::Decimal(info) => match info {
            DecimalInfo::Unspecified => AvroType::Decimal { precision: 18, scale: 2 },
            DecimalInfo::Precision(p) => AvroType::Decimal { precision: p as u32, scale: 0 },
            DecimalInfo::PrecisionAndScale(p, s) => AvroType::Decimal { precision: p as u32, scale: s as u32 },
        },
        TypeClass::Other => AvroType::String,
    }
}

pub fn data_type_avro(c: &TypeClass) -> (r: AvroType)
    ensures
        r == class_avro(*c),
{
    match c {
        TypeClass::Int => AvroType::Int,
        TypeClass::Long => AvroType::Long,
        TypeClass::Float => AvroType::Float,
        TypeClass::Double => AvroType::Double,
        TypeClass::Boolean => AvroType::Boolean,
        TypeClass::Bytes => AvroType::Bytes,
        TypeClass::Date => AvroType::Date,
        TypeClass::Timestamp => AvroType::TimestampMillis,
        TypeClass::Decimal(info) => match info {
            DecimalInfo::Unspecified => AvroType::Decimal { precision: 18, scale: 2 },
            DecimalInfo::Precision(p) => AvroType::Decimal { precision: *p as u32, scale: 0 },
            DecimalInfo::PrecisionAndScale(p, s) => AvroType::Decimal { precision: *p as u32, scale: *s as u32 },
        },
        TypeClass::Other => AvroType::String,
    }
}

/// The type of `l op r`: comparisons and `AND`/`OR` are boolean,
/// arithmetic takes the wider operand (optional operands read as their
/// inner type), anything else (`||` among them) is a string.
pub open spec fn binary_avro_spec(class: BinOpClass, l: AvroType, r: AvroType) -> AvroType {
    match class {
        BinOpClass::Boolean => AvroType::Boolean,
        BinOpClass::Arithmetic => {
            let (a, b) = (strip_spec(l), strip_spec(r));
            if numeric_rank(a) >= numeric_rank(b) {
                a
            } else {
                b
            }
        },
        BinOpClass::Other => AvroType::String,
    }
}

/// The type inside an optional type; other types as they are.
pub open spec fn strip_spec(t: AvroType) -> AvroType {
    match t {
        AvroType::Nullable(inner) => *inner,
        _ => t,
    }
}

pub fn binary_avro(class: &BinOpClass, l: AvroType, r: AvroType) -> (t: AvroType)
    ensures
        t == binary_avro_spec(*class, l, r),
{
    let a = strip_nullable(l);
    let b = strip_nullable(r);
    match class {
        BinOpClass::Boolean => AvroType::Boolean,
        BinOpClass::Arithmetic => widen_numeric(a, b),
        BinOpClass::Other => AvroType::String,
    }
}

/// The functions whose result schema inference types as `Long`.
pub open spec fn returns_long(n: Seq<char>) -> bool {
    n == "count"@ || n == "crc32"@
}

/// The functions whose result schema inference types as `Double`.
pub open spec fn returns_double(n: Seq<char>) -> bool {
    n == "sum"@ || n == "avg"@ || n == "stddev"@ || n == "variance"@ || n == "stddev_pop"@ || n == "stddev_samp"@ || n == "var_pop"@ || n == "var_samp"@ || n == "min"@ || n == "max"@ || n == "first_value"@ || n == "last_value"@ || n == "nth_value"@ || n == "abs"@ || n == "ceil"@ || n == "ceiling"@ || n == "floor"@ || n == "round"@ || n == "bround"@ || n == "exp"@ || n == "ln"@ || n == "log"@ || n == "log10"@ || n == "log2"@ || n == "pow"@ || n == "power"@ || n == "sqrt"@ || n == "cbrt"@ || n == "sign"@ || n == "sin"@ || n == "cos"@ || n == "tan"@ || n == "asin"@ || n == "acos"@ || n == "atan"@ || n == "atan2"@ || n == "degrees"@ || n == "radians"@ || n == "mod"@ || n == "pmod"@ || n == "rand"@ || n == "random"@
}

/// The functions whose result schema inference types as `Date`.
pub open spec fn returns_date(n: Seq<char>) -> bool {
    n == "date_add"@ || n == "date_sub"@ || n == "current_date"@ || n == "to_date"@
}

/// The functions whose result schema inference types as `TimestampMillis`.
pub open spec fn returns_timestamp(n: Seq<char>) -> bool {
    n == "current_timestamp"@ || n == "now"@ || n == "sysdate"@ || n == "to_timestamp"@ || n == "from_unixtime"@
}

/// The functions whose result schema inference types as `Int`.
pub open spec fn returns_int(n: Seq<char>) -> bool {
    n == "year"@ || n == "month"@ || n == "day"@ || n == "hour"@ || n == "minute"@ || n == "second"@ || n == "quarter"@ || n == "dayofmonth"@ || n == "weekofyear"@ || n == "length"@ || n == "character_length"@ || n == "octet_length"@ || n == "ascii"@
}

/// The result type of a function, by its lower-cased name; unknown names
/// give `STRING`.
pub open spec fn function_avro_spec(n: Seq<char>) -> AvroType {
    if returns_long(n) {
        AvroType::Long
    } else if returns_double(n) {
        AvroType::Double
    } else if returns_date(n) {
        AvroType::Date
    } else if returns_timestamp(n) {
        AvroType::TimestampMillis
    } else if returns_int(n) {
        AvroType::Int
    } else {
        AvroType::String
    }
}

fn is_long_function(n: &Vec<char>) -> (r: bool)
    ensures
        r == returns_long(n@),
{
    equals_str(n, "count") || equals_str(n, "crc32")
}

fn is_double_function(n: &Vec<char>) -> (r: bool)
    ensures
        r == returns_double(n@),
{
    equals_str(n, "sum") || equals_str(n, "avg") || equals_str(n, "stddev") || equals_str(n, "variance") || equals_str(n, "stddev_pop") || equals_str(n, "stddev_samp") || equals_str(n, "var_pop") || equals_str(n, "var_samp") || equals_str(n, "min") || equals_str(n, "max") || equals_str(n, "first_value") || equals_str(n, "last_value") || equals_str(n, "nth_value") || equals_str(n, "abs") || equals_str(n, "ceil") || equals_str(n, "ceiling") || equals_str(n, "floor") || equals_str(n, "round") || equals_str(n, "bround") || equals_str(n, "exp") || equals_str(n, "ln") || equals_str(n, "log") || equals_str(n, "log10") || equals_str(n, "log2") || equals_str(n, "pow") || equals_str(n, "power") || equals_str(n, "sqrt") || equals_str(n, "cbrt") || equals_str(n, "sign") || equals_str(n, "sin") || equals_str(n, "cos") || equals_str(n, "tan") || equals_str(n, "asin") || equals_str(n, "acos") || equals_str(n, "atan") || equals_str(n, "atan2") || equals_str(n, "degrees") || equals_str(n, "radians") || equals_str(n, "mod") || equals_str(n, "pmod") || equals_str(n, "rand") || equals_str(n, "random")
}

fn is_date_function(n: &Vec<char>) -> (r: bool)
    ensures
        r == returns_date(n@),
{
    equals_str(n, "date_add") || equals_str(n, "date_sub") || equals_str(n, "current_date") || equals_str(n, "to_date")
}

fn is_timestamp_function(n: &Vec<char>) -> (r: bool)
    ensures
        r == returns_timestamp(n@),
{
    equals_str(n, "current_timestamp") || equals_str(n, "now") || equals_str(n, "sysdate") || equals_str(n, "to_timestamp") || equals_str(n, "from_unixtime")
}

fn is_int_function(n: &Vec<char>) -> (r: bool)
    ensures
        r == returns_int(n@),
{
    equals_str(n, "year") || equals_str(n, "month") || equals_str(n, "day") || equals_str(n, "hour") || equals_str(n, "minute") || equals_str(n, "second") || equals_str(n, "quarter") || equals_str(n, "dayofmonth") || equals_str(n, "weekofyear") || equals_str(n, "length") || equals_str(n, "character_length") || equals_str(n, "octet_length") || equals_str(n, "ascii")
}

/// The result type of a call, by the last part of its name, lower-cased
/// (ASCII); a call without a name part is typed as an unknown name.
pub fn function_avro(name: &Option<String>) -> (r: AvroType)
    ensures
        r == function_avro_spec(
            match name {
                Some(n) => lower_seq(n@),
                None => Seq::empty(),
            },
        ),
{
    let lowered = match name {
        Some(n) => str_chars(ascii_lowercase(n.as_str()).as_str()),
        None => Vec::new(),
    };
    let n = &lowered;
    if is_long_function(n) {
        AvroType::Long
    } else if is_double_function(n) {
        AvroType::Double
    } else if is_date_function(n) {
        AvroType::Date
    } else if is_timestamp_function(n) {
        AvroType::TimestampMillis
    } else if is_int_function(n) {
        AvroType::Int
    } else {
        AvroType::String
    }
}

// ---------------------------------------------------------------------------
// Scope
// ---------------------------------------------------------------------------

/// A table of the `FROM` clause: the name it is referred to by, its
/// database and its table name.
pub struct FromEntry {
    pub alias: String,
    pub db: String,
    pub table: String,
}

pub open spec fn entry_view(e: FromEntry) -> (Seq<char>, Seq<char>, Seq<char>) {
    (e.alias@, e.db@, e.table@)
}

pub open spec fn scope_view(s: Seq<FromEntry>) -> Seq<(Seq<char>, Seq<char>, Seq<char>)> {
    s.map_values(|e: FromEntry| entry_view(e))
}

/// The scope entry of a named table: a one-part name is in `default`;
/// with more parts the first is the database and the last the table; the
/// alias defaults to the table.
pub open spec fn scope_entry_spec(parts: Seq<Seq<char>>, alias: Option<Seq<char>>) -> Option<
    (Seq<char>, Seq<char>, Seq<char>),
> {
    if parts.len() == 0 {
        None
    } else {
        let db = if parts.len() == 1 {
            "default"@
        } else {
            parts[0]
        };
        let table = parts.last();
        Some(
            (
                match alias {
                    Some(a) => a,
                    None => table,
                },
                db,
                table,
            ),
        )
    }
}

pub fn scope_entry(parts: &Vec<String>, alias: &Option<String>) -> (r: Option<FromEntry>)
    ensures
        match (r, scope_entry_spec(strings_view(parts@), opt_view(*alias))) {
            (Some(e), Some(v)) => entry_view(e) == v,
            (None, None) => true,
            _ => false,
        },
{
    if parts.len() == 0 {
        return None;
    }
    let db = if parts.len() == 1 {
        string_from_chars(str_chars("default"))
    } else {
        assert(strings_view(parts@)[0] == parts@[0]@);
        parts[0].clone()
    };
    let last = parts.len() - 1;
    assert(strings_view(parts@)[last as int] == parts@[last as int]@);
    let table = parts[last].clone();
    let alias_name = match alias {
        Some(a) => a.clone(),
        None => table.clone(),
    };
    Some(FromEntry { alias: alias_name, db, table })
}

pub open spec fn opt_view(o: Option<String>) -> Option<Seq<char>> {
    match o {
        Some(s) => Some(s@),
        None => None,
    }
}

/// Whether an entry is the scope entry of some named table.
pub open spec fn is_scope_entry(e: FromEntry) -> bool {
    exists|parts: Seq<Seq<char>>, alias: Option<Seq<char>>|
        #[trigger] scope_entry_spec(parts, alias) == Some(entry_view(e))
}

/// The named tables of the `FROM` items and their joins, in order: each
/// entry is the scope entry of a named table.
fn build_scope(from: &Vec<TableWithJoins>) -> (r: Vec<FromEntry>)
    ensures
        forall|k: int| 0 <= k < r.len() ==> is_scope_entry(#[trigger] r@[k]),
{
    let mut out: Vec<FromEntry> = Vec::new();
    let mut i: usize = 0;
    while i < from.len()
        invariant
            forall|k: int| 0 <= k < out.len() ==> is_scope_entry(#[trigger] out@[k]),
        decreases from.len() - i,
    {
        let (relation, joins) = from_item_parts(&from[i]);
        push_table(&mut out, &relation);
        let mut j: usize = 0;
        while j < joins.len()
            invariant
                forall|k: int| 0 <= k < out.len() ==> is_scope_entry(#[trigger] out@[k]),
            decreases joins.len() - j,
        {
            push_table(&mut out, &joins[j].1);
            j = j + 1;
        }
        i = i + 1;
    }
    out
}

/// Add the scope entry of a relation that names a table; other relations
/// add nothing.
fn push_table(out: &mut Vec<FromEntry>, t: &sqlparser::ast::TableFactor)
    ensures
        final(out)@ == old(out)@ || {
            &&& final(out)@ == old(out)@.push(final(out)@.last())
            &&& is_scope_entry(final(out)@.last())
        },
{
    if let TableFactorParts::Table(parts, _, alias) = table_factor_parts(t) {
        if let Some(e) = scope_entry(&parts, &alias) {
            let ghost v = entry_view(e);
            out.push(e);
            proof {
                assert(scope_entry_spec(strings_view(parts@), opt_view(alias)) == Some(v));
            }
        }
    }
}

// ---------------------------------------------------------------------------
// Column lookup
// ---------------------------------------------------------------------------

/// The type string of `column` in the first table of the scope whose
/// catalog entry has it.
pub open spec fn bare_type<C: TypedCatalog>(
    cat: &C,
    scope: Seq<(Seq<char>, Seq<char>, Seq<char>)>,
    column: Seq<char>,
) -> Option<Seq<char>>
    decreases scope.len(),
{
    if scope.len() == 0 {
        None
    } else {
        match cat.type_of(scope[0].1, scope[0].2, column) {
            Some(t) => Some(t),
            None => bare_type(cat, scope.drop_first(), column),
        }
    }
}

/// The first table of the scope whose alias or table name is `q` (ASCII
/// case ignored).
pub open spec fn qualified_entry(scope: Seq<(Seq<char>, Seq<char>, Seq<char>)>, q: Seq<char>) -> Option<
    (Seq<char>, Seq<char>, Seq<char>),
>
    decreases scope.len(),
{
    if scope.len() == 0 {
        None
    } else if seq_eq_ci(scope[0].0, q) || seq_eq_ci(scope[0].2, q) {
        Some(scope[0])
    } else {
        qualified_entry(scope.drop_first(), q)
    }
}

/// `r` is the Avro type of the type string `t`, if there is one.
pub open spec fn typed(t: Option<Seq<char>>, r: Option<AvroType>) -> bool {
    match (r, t) {
        (Some(a), Some(s)) => hive_avro(s, a),
        (None, None) => true,
        _ => false,
    }
}

/// The type of an unqualified column: the first table in scope that has
/// it decides.
pub fn lookup_bare_column<C: TypedCatalog>(col: &str, scope: &Vec<FromEntry>, catalog: &C) -> (r: Option<
    AvroType,
>)
    ensures
        typed(bare_type(catalog, scope_view(scope@), col@), r),
{
    let ghost sv = scope_view(scope@);
    assert(sv.skip(0) =~= sv);
    let mut i: usize = 0;
    while i < scope.len()
        invariant
            i <= scope.len(),
            sv == scope_view(scope@),
            bare_type(catalog, sv, col@) == bare_type(catalog, sv.skip(i as int), col@),
        decreases scope.len() - i,
    {
        let e = &scope[i];
        assert(sv.skip(i as int)[0] == entry_view(*e));
        match catalog.column_type(e.db.as_str(), e.table.as_str(), col) {
            Some(t) => {
                let a = hive_type_to_avro(&str_chars(t.as_str()));
                return Some(a);
            },
            None => {},
        }
        assert(sv.skip(i + 1) =~= sv.skip(i as int).drop_first());
        i = i + 1;
    }
    None
}

/// The type of `qualifier.column`: the first table whose alias or name is
/// the qualifier decides.
pub fn lookup_qualified_column<C: TypedCatalog>(
    qualifier: &str,
    col: &str,
    scope: &Vec<FromEntry>,
    catalog: &C,
) -> (r: Option<AvroType>)
    ensures
        typed(
            match qualified_entry(scope_view(scope@), qualifier@) {
                Some(e) => catalog.type_of(e.1, e.2, col@),
                None => None,
            },
            r,
        ),
{
    let ghost sv = scope_view(scope@);
    let q = str_chars(qualifier);
    assert(sv.skip(0) =~= sv);
    let mut i: usize = 0;
    while i < scope.len()
        invariant
            i <= scope.len(),
            q@ == qualifier@,
            sv == scope_view(scope@),
            qualified_entry(sv, qualifier@) == qualified_entry(sv.skip(i as int), qualifier@),
        decreases scope.len() - i,
    {
        let e = &scope[i];
        assert(sv.skip(i as int)[0] == entry_view(*e));
        if eq_ignore_case(&str_chars(e.alias.as_str()), &q) || eq_ignore_case(&str_chars(e.table.as_str()), &q) {
            return match catalog.column_type(e.db.as_str(), e.table.as_str(), col) {
                Some(t) => Some(hive_type_to_avro(&str_chars(t.as_str()))),
                None => None,
            };
        }
        assert(sv.skip(i + 1) =~= sv.skip(i as int).drop_first());
        i = i + 1;
    }
    None
}

// ---------------------------------------------------------------------------
// Expressions and projection items
// ---------------------------------------------------------------------------

/// How deep inference follows nested expressions.
pub const INFER_DEPTH: u64 = 1_000_000;

/// The type of an expression before it is made optional: columns from the
/// catalog (a `STRING` when unknown), literals by kind, casts by target,
/// operators by class, unary operators as their operand, `CASE` as its
/// first result, calls by name, anything else a `STRING`.
fn infer_type_inner<C: TypedCatalog>(e: &Expr, scope: &Vec<FromEntry>, catalog: &C, depth: u64) -> (r: AvroType)
    ensures
        !(r is Nullable),
    decreases depth,
{
    if depth == 0 {
        return AvroType::String;
    }
    match expr_parts(e) {
        ExprParts::Identifier(id) => {
            let name = ident_value(&id);
            match lookup_bare_column(name.as_str(), scope, catalog) {
                Some(a) => {
                    proof {
                        lemma_hive_not_nullable(bare_type(catalog, scope_view(scope@), name@)->0, a);
                    }
                    a
                },
                None => AvroType::String,
            }
        },
        ExprParts::Compound(ids) => {
            if ids.len() == 2 {
                let q = ident_value(&ids[0]);
                let c = ident_value(&ids[1]);
                match lookup_qualified_column(q.as_str(), c.as_str(), scope, catalog) {
                    Some(a) => {
                        proof {
                            let t = match qualified_entry(scope_view(scope@), q@) {
                                Some(en) => catalog.type_of(en.1, en.2, c@),
                                None => None,
                            };
                            lemma_hive_not_nullable(t->0, a);
                        }
                        a
                    },
                    None => AvroType::String,
                }
            } else {
                AvroType::String
            }
        },
        ExprParts::Literal(v) => literal_avro(&value_parts(v)),
        ExprParts::Cast(_, dt) => data_type_avro(&type_class(type_kind(&dt))),
        ExprParts::BinaryOp(l, _, kind, r) => {
            let class = bin_op_class(&kind);
            let lt = infer_type_inner(&l, scope, catalog, depth - 1);
            let rt = infer_type_inner(&r, scope, catalog, depth - 1);
            binary_avro(&class, lt, rt)
        },
        ExprParts::UnaryOp(_, x) => infer_type_inner(&x, scope, catalog, depth - 1),
        ExprParts::Case(_, results, _) => {
            if results.len() > 0 {
                infer_type_inner(&results[0], scope, catalog, depth - 1)
            } else {
                AvroType::String
            }
        },
        ExprParts::Function(_, last, _) => function_avro(&last),
        _ => AvroType::String,
    }
}

/// The field name an expression gives by itself: a column's name (the last
/// part of a qualified one).
fn infer_name(e: &Expr) -> Option<String> {
    match expr_parts(e) {
        ExprParts::Identifier(id) => Some(ident_value(&id)),
        ExprParts::Compound(ids) => {
            if ids.len() > 0 {
                Some(ident_value(&ids[ids.len() - 1]))
            } else {
                None
            }
        },
        _ => None,
    }
}

/// The name of the field at `index` that has no name of its own.
pub fn col_name(index: usize) -> (r: String)
    ensures
        r@ == "col"@ + dec(index as nat),
{
    let mut out = str_chars("col");
    push_all(&mut out, &usize_text(index));
    string_from_chars(out)
}

/// The field of projection item `index`: its alias or column name (else
/// `col<index>`) and its type made optional; a wildcard stands as one
/// optional `STRING` field.
fn project_field<C: TypedCatalog>(item: &SelectItem, index: usize, scope: &Vec<FromEntry>, catalog: &C) -> (r: (
    String,
    AvroType,
))
    ensures
        r.1 is Nullable,
{
    match select_item_parts(item) {
        SelectItemParts::Unnamed(e) => {
            let ty = nullable(infer_type_inner(&e, scope, catalog, INFER_DEPTH));
            let name = match infer_name(&e) {
                Some(n) => n,
                None => col_name(index),
            };
            (name, ty)
        },
        SelectItemParts::WithAlias(e, alias) => {
            (ident_value(&alias), nullable(infer_type_inner(&e, scope, catalog, INFER_DEPTH)))
        },
        _ => (col_name(index), AvroType::Nullable(Box::new(AvroType::String))),
    }
}

// ---------------------------------------------------------------------------
// Statements
// ---------------------------------------------------------------------------

/// The view name and query of a statement: a `CREATE VIEW` gives the last
/// part of its name, a plain query the name `view`; anything else has no
/// select.
pub fn view_from_parts(p: StatementParts) -> (r: Result<(String, Query), SchemaError>)
    ensures
        match p {
            StatementParts::CreateView(_, last, q) => r matches Ok((n, q2)) && q2 == q && n@ == match last {
                Some(l) => l@,
                None => Seq::empty(),
            },
            StatementParts::Plain(q) => r matches Ok((n, q2)) && q2 == q && n@ == "view"@,
            _ => r matches Err(SchemaError::NoSelect),
        },
{
    match p {
        StatementParts::CreateView(_, last, q) => {
            let name = match last {
                Some(l) => l,
                None => string_from_chars(Vec::new()),
            };
            Ok((name, q))
        },
        StatementParts::Plain(q) => Ok((string_from_chars(str_chars("view")), q)),
        _ => Err(SchemaError::NoSelect),
    }
}

/// Exactly one statement, a view or a query; else no select.
fn extract_view(stmts: &Vec<Statement>) -> (r: Result<(String, Query), SchemaError>)
    ensures
        stmts.len() != 1 ==> r matches Err(SchemaError::NoSelect),
        r matches Err(e) ==> e is NoSelect,
{
    if stmts.len() != 1 {
        return Err(SchemaError::NoSelect);
    }
    view_from_parts(statement_parts(&stmts[0]))
}

/// The error for a query body inference does not read.
pub fn unsupported_body(debug: String) -> (r: SchemaError)
    ensures
        r matches SchemaError::Unsupported(m) && m@ == "SELECT body: "@ + debug@,
{
    let mut out = str_chars("SELECT body: ");
    push_all(&mut out, &str_chars(debug.as_str()));
    SchemaError::Unsupported(string_from_chars(out))
}

/// The select whose columns a body has: a select itself, or the left
/// branch of a set operation (the branches of a `UNION` line up).
fn select_of_body(s: &SetExpr, depth: u64) -> (r: Result<Select, SchemaError>)
    ensures
        r matches Err(e) ==> e is Unsupported,
    decreases depth,
{
    match set_expr_parts(s) {
        SetExprParts::SelectBody(sel) => Ok(sel),
        SetExprParts::SetOperation(_, left, _) => {
            if depth == 0 {
                Err(unsupported_body(set_expr_debug(s)))
            } else {
                select_of_body(&left, depth - 1)
            }
        },
        _ => Err(unsupported_body(set_expr_debug(s))),
    }
}

// ---------------------------------------------------------------------------
// Entry point
// ---------------------------------------------------------------------------

/// The Avro record of a view: `CREATE [OR REPLACE] VIEW name AS SELECT ..`
/// or a bare `SELECT ..` (named `view`), one optional field per projection
/// item.
pub fn to_avro_record<C: TypedCatalog>(sql: &str, catalog: &C) -> (r: Result<AvroRecord, SchemaError>)
    ensures
        parse_count(sql@) is None <==> r matches Err(SchemaError::Parse(_)),
        parse_count(sql@) matches Some(n) && n != 1 ==> r matches Err(SchemaError::NoSelect),
        r matches Ok(rec) ==> rec.namespace is None && forall|i: int|
            0 <= i < rec.fields.len() ==> (#[trigger] rec.fields@[i]).avro_type is Nullable
                && rec.fields@[i].doc is None,
{
    let stmts = match parse_sql_text(sql) {
        Ok(s) => s,
        Err(e) => {
            return Err(SchemaError::Parse(e));
        },
    };
    let (view_name, query) = match extract_view(&stmts) {
        Ok(x) => x,
        Err(e) => {
            return Err(e);
        },
    };
    let body = crate::sql::query::query_parts(&query).body;
    let select = match select_of_body(&body, INFER_DEPTH) {
        Ok(s) => s,
        Err(e) => {
            return Err(e);
        },
    };
    let parts = select_parts(&select);
    let scope = build_scope(&parts.from);
    let mut fields: Vec<AvroField> = Vec::new();
    let mut i: usize = 0;
    while i < parts.projection.len()
        invariant
            i <= parts.projection.len(),
            forall|k: int|
                0 <= k < fields.len() ==> (#[trigger] fields@[k]).avro_type is Nullable && fields@[k].doc is None,
        decreases parts.projection.len() - i,
    {
        let (name, ty) = project_field(&parts.projection[i], i, &scope, catalog);
        fields.push(AvroField { name, avro_type: ty, doc: None });
        i = i + 1;
    }
    Ok(AvroRecord { name: view_name, namespace: None, fields })
}

} // verus!
