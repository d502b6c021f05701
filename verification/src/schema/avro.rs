//! Avro types, records and fields: what schema inference produces.
//! `Nullable(t)` stands for the Avro union `["null", t]`.
use vstd::prelude::*;

verus! {

/// An Avro primitive, logical or complex type.
#[derive(Debug, PartialEq)]
pub enum AvroType {
    Boolean,
    Int,
    Long,
    Float,
    Double,
    Bytes,
    String,
    /// `int` with logical type `date`.
    Date,
    /// `long` with logical type `timestamp-millis`.
    TimestampMillis,
    /// `bytes` with logical type `decimal`.
    Decimal { precision: u32, scale: u32 },
    Array(Box<AvroType>),
    /// An Avro `map` with the given value type.
    MapOf(Box<AvroType>),
    Record(Box<AvroRecord>),
    /// The union with `null`.
    Nullable(Box<AvroType>),
}

/// A named record of fields.
#[derive(Debug, PartialEq)]
pub struct AvroRecord {
    pub name: String,
    pub namespace: Option<String>,
    pub fields: Vec<AvroField>,
}

/// One field of a record.
#[derive(Debug, PartialEq)]
pub struct AvroField {
    pub name: String,
    pub avro_type: AvroType,
    pub doc: Option<String>,
}

// ---------------------------------------------------------------------------
// Nullability and numeric widening
// ---------------------------------------------------------------------------

/// `t` made optional: the union with null, unless it is one already.
pub fn nullable(t: AvroType) -> (r: AvroType)
    ensures
        r == nullable_spec(t),
{
    match t {
        AvroType::Nullable(_) => t,
        _ => AvroType::Nullable(Box::new(t)),
    }
}

/// The type inside an optional type; other types as they are.
pub fn strip_nullable(t: AvroType) -> (r: AvroType)
    ensures
        match t {
            AvroType::Nullable(inner) => r == *inner,
            _ => r == t,
        },
{
    match t {
        AvroType::Nullable(inner) => *inner,
        other => other,
    }
}

/// How wide a numeric type is: boolean, int, long, float, double or
/// decimal, and anything else widest.
pub open spec fn numeric_rank(t: AvroType) -> nat {
    match t {
        AvroType::Boolean => 0,
        AvroType::Int => 1,
        AvroType::Long => 2,
        AvroType::Float => 3,
        AvroType::Double => 4,
        AvroType::Decimal { .. } => 4,
        _ => 5,
    }
}

fn rank(t: &AvroType) -> (r: u8)
    ensures
        r == numeric_rank(*t),
{
    match t {
        AvroType::Boolean => 0,
        AvroType::Int => 1,
        AvroType::Long => 2,
        AvroType::Float => 3,
        AvroType::Double => 4,
        AvroType::Decimal { .. } => 4,
        _ => 5,
    }
}

/// The wider of two operand types (the left one on a tie).
pub fn widen_numeric(l: AvroType, r: AvroType) -> (w: AvroType)
    ensures
        w == if numeric_rank(l) >= numeric_rank(r) { l } else { r },
{
    if rank(&l) >= rank(&r) {
        l
    } else {
        r
    }
}

/// `t` made optional, as [`nullable`] computes it.
pub open spec fn nullable_spec(t: AvroType) -> AvroType {
    match t {
        AvroType::Nullable(_) => t,
        _ => AvroType::Nullable(Box::new(t)),
    }
}

/// Making a type optional twice is making it optional once, and the type
/// inside is the type made optional, or the inner type of an optional one.
pub proof fn law_nullable_idempotent(t: AvroType)
    ensures
        nullable_spec(nullable_spec(t)) == nullable_spec(t),
        nullable_spec(t) matches AvroType::Nullable(inner) && (*inner == t || t is Nullable),
{
}

/// The widened type is as wide as both operands, and is one of them.
pub proof fn law_widen_is_widest(l: AvroType, r: AvroType)
    ensures
        ({
            let w = if numeric_rank(l) >= numeric_rank(r) {
                l
            } else {
                r
            };
            &&& numeric_rank(w) >= numeric_rank(l)
            &&& numeric_rank(w) >= numeric_rank(r)
            &&& (w == l || w == r)
        }),
{
}

} // verus!
