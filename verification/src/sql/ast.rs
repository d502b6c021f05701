//! The SQL syntax tree of `sqlparser`, as the library sees it.
//!
//! The tree types are declared opaque: Verus sees no field of them. The
//! functions below either parse and print, or take one node apart (one level
//! deep, children handed out as opaque values) or put one together. They make
//! no decisions; every rewrite rule of the library is a verified function
//! over what these hand out.
use vstd::prelude::*;

use sqlparser::ast::{
    BinaryOperator, CastKind, DataType, ExactNumberInfo, Expr, Function, FunctionArg, FunctionArgExpr,
    FunctionArgumentList, FunctionArguments, Ident, ObjectName, OrderByExpr, Query, Select,
    SelectItem, Statement, TimezoneInfo, UnaryOperator, Value,
};
use sqlparser::parser::ParserError;

use crate::text::{contains_chars, contains_seq, str_chars, string_from_chars, upper_seq, upper_vec};

verus! {

#[verifier::external_type_specification]
#[verifier::external_body]
pub struct ExStatement(sqlparser::ast::Statement);

#[verifier::external_type_specification]
#[verifier::external_body]
pub struct ExQuery(sqlparser::ast::Query);

#[verifier::external_type_specification]
#[verifier::external_body]
pub struct ExSelect(sqlparser::ast::Select);

#[verifier::external_type_specification]
#[verifier::external_body]
pub struct ExSelectItem(sqlparser::ast::SelectItem);

#[verifier::external_type_specification]
#[verifier::external_body]
pub struct ExExpr(sqlparser::ast::Expr);

#[verifier::external_type_specification]
#[verifier::external_body]
pub struct ExFunctionArg(sqlparser::ast::FunctionArg);

#[verifier::external_type_specification]
#[verifier::external_body]
pub struct ExDataType(sqlparser::ast::DataType);

#[verifier::external_type_specification]
#[verifier::external_body]
pub struct ExOrderByExpr(sqlparser::ast::OrderByExpr);

#[verifier::external_type_specification]
#[verifier::external_body]
pub struct ExIdent(sqlparser::ast::Ident);

#[verifier::external_type_specification]
#[verifier::external_body]
pub struct ExParserError(sqlparser::parser::ParserError);

#[verifier::external_type_specification]
#[verifier::external_body]
pub struct ExBinaryOperator(sqlparser::ast::BinaryOperator);

#[verifier::external_type_specification]
#[verifier::external_body]
pub struct ExCastKind(sqlparser::ast::CastKind);

#[verifier::external_type_specification]
#[verifier::external_body]
pub struct ExFunctionArguments(sqlparser::ast::FunctionArguments);

#[verifier::external_type_specification]
#[verifier::external_body]
pub struct ExValue(sqlparser::ast::Value);

#[verifier::external_type_specification]
#[verifier::external_body]
pub struct ExFunctionArgumentList(sqlparser::ast::FunctionArgumentList);

#[verifier::external_type_specification]
#[verifier::external_body]
pub struct ExExactNumberInfo(sqlparser::ast::ExactNumberInfo);

#[verifier::external_type_specification]
#[verifier::external_body]
pub struct ExTimezoneInfo(sqlparser::ast::TimezoneInfo);

// The tree types derive `Clone`, which copies a node field by field: a
// clone is the same value.

pub assume_specification[ <Expr as Clone>::clone ](e: &Expr) -> (r: Expr)
    ensures
        r == *e,
;

pub assume_specification[ <FunctionArg as Clone>::clone ](a: &FunctionArg) -> (r: FunctionArg)
    ensures
        r == *a,
;

pub assume_specification[ <DataType as Clone>::clone ](t: &DataType) -> (r: DataType)
    ensures
        r == *t,
;

pub assume_specification[ <SelectItem as Clone>::clone ](i: &SelectItem) -> (r: SelectItem)
    ensures
        r == *i,
;

pub assume_specification[ <OrderByExpr as Clone>::clone ](o: &OrderByExpr) -> (r: OrderByExpr)
    ensures
        r == *o,
;

pub assume_specification[ <sqlparser::ast::Statement as Clone>::clone ](s: &sqlparser::ast::Statement) -> (r: sqlparser::ast::Statement)
    ensures
        r == *s,
;

pub assume_specification[ <sqlparser::ast::Query as Clone>::clone ](q: &sqlparser::ast::Query) -> (r: sqlparser::ast::Query)
    ensures
        r == *q,
;

pub assume_specification[ <sqlparser::ast::Select as Clone>::clone ](s: &sqlparser::ast::Select) -> (r: sqlparser::ast::Select)
    ensures
        r == *s,
;

pub assume_specification[ <sqlparser::ast::Ident as Clone>::clone ](i: &sqlparser::ast::Ident) -> (r: sqlparser::ast::Ident)
    ensures
        r == *i,
;

// ---------------------------------------------------------------------------
// Parsing and printing
// ---------------------------------------------------------------------------

/// How many statements `Parser::parse_sql` with the PostgreSQL dialect
/// reads from a text, or `None` when it rejects the text.
pub uninterp spec fn parsed_statement_count(sql: Seq<char>) -> Option<nat>;

/// Texts the parser is handed. `Parser::parse_sql` panics on some
/// clauses it reads with an unchecked identifier parse: `GRANTED BY <x>` in
/// `GRANT` / `REVOKE`, and `FOR CHANNEL <x>` in MySQL's `FLUSH RELAY LOGS`,
/// when `<x>` is not an identifier. Texts holding the word `GRANTED` or
/// `CHANNEL` (ASCII case ignored) are therefore never handed to it.
pub open spec fn parse_guarded(sql: Seq<char>) -> bool {
    !contains_seq(upper_seq(sql), "GRANTED"@) && !contains_seq(upper_seq(sql), "CHANNEL"@)
}

/// How many statements a text parses into, or `None` when it is refused:
/// by the guard above, or by the parser.
pub open spec fn parse_count(sql: Seq<char>) -> Option<nat> {
    if parse_guarded(sql) {
        parsed_statement_count(sql)
    } else {
        None
    }
}

/// Whether a text may be handed to the parser.
pub fn is_parse_guarded(sql: &str) -> (r: bool)
    ensures
        r == parse_guarded(sql@),
{
    let up = upper_vec(&str_chars(sql));
    let g = str_chars("GRANTED");
    let c = str_chars("CHANNEL");
    !contains_chars(&up, &g) && !contains_chars(&up, &c)
}

/// Parse a text into statements; the error is a message. A text the guard
/// refuses gets its own message; one the parser rejects gets the parser's.
pub fn parse_sql_text(sql: &str) -> (r: Result<Vec<Statement>, String>)
    ensures
        match r {
            Ok(v) => parse_count(sql@) == Some(v.len() as nat),
            Err(_) => parse_count(sql@) is None,
        },
{
    if !is_parse_guarded(sql) {
        return Err(string_from_chars(str_chars("sql parser error: GRANTED BY and FOR CHANNEL clauses are not accepted")));
    }
    match parse_postgres(sql) {
        Ok(v) => Ok(v),
        Err(e) => Err(parser_error_text(&e)),
    }
}

/// `Parser::parse_sql` with the PostgreSQL dialect. The contract names how
/// many statements come back (or that the text is rejected); what the
/// statements hold is not stated. The texts on which it panics are left
/// out.
#[verifier::external_body]
pub(crate) fn parse_postgres(sql: &str) -> (r: Result<Vec<Statement>, ParserError>)
    requires
        parse_guarded(sql@),
    ensures
        match r {
            Ok(v) => parsed_statement_count(sql@) == Some(v.len() as nat),
            Err(_) => parsed_statement_count(sql@) is None,
        },
{
    sqlparser::parser::Parser::parse_sql(&sqlparser::dialect::PostgreSqlDialect {}, sql)
}

/// The message of a parser error (its `Display`).
#[verifier::external_body]
pub(crate) fn parser_error_text(e: &ParserError) -> String {
    e.to_string()
}

/// A statement printed as SQL (its `Display`).
#[verifier::external_body]
pub(crate) fn statement_text(s: &Statement) -> String {
    s.to_string()
}

/// A data type printed as SQL (its `Display`).
#[verifier::external_body]
pub(crate) fn data_type_text(t: &DataType) -> String {
    t.to_string()
}

/// An expression printed as SQL (its `Display`).
#[verifier::external_body]
pub(crate) fn expr_text(e: &Expr) -> String {
    e.to_string()
}

/// The value of an identifier, without quotes.
#[verifier::external_body]
pub(crate) fn ident_value(i: &Ident) -> String {
    i.value.clone()
}

// ---------------------------------------------------------------------------
// Expressions: taking one node apart
// ---------------------------------------------------------------------------

/// The operators of `BinaryOp` nodes that the rewrites tell apart.
pub enum BinOpTag {
    RegexMatch,
    RegexIMatch,
    RegexNotMatch,
    RegexNotIMatch,
    Custom(String),
    Other,
}

/// `left op right` of a `BinaryOp` node.
#[verifier::external_body]
pub(crate) fn as_binary_op(e: &Expr) -> Option<(Expr, BinOpTag, Expr)> {
    match e {
        Expr::BinaryOp { left, op, right } => Some(((**left).clone(), binary_op_tag(op), (**right).clone())),
        _ => None,
    }
}

#[verifier::external_body]
fn binary_op_tag(op: &BinaryOperator) -> BinOpTag {
    match op {
        BinaryOperator::PGRegexMatch => BinOpTag::RegexMatch,
        BinaryOperator::PGRegexIMatch => BinOpTag::RegexIMatch,
        BinaryOperator::PGRegexNotMatch => BinOpTag::RegexNotMatch,
        BinaryOperator::PGRegexNotIMatch => BinOpTag::RegexNotIMatch,
        BinaryOperator::Custom(s) => BinOpTag::Custom(s.clone()),
        _ => BinOpTag::Other,
    }
}

/// The parts of a function call node that the rewrites read: the value of
/// the last part of its name (`None` for an empty name) and its arguments.
pub struct CallParts {
    pub name_last: Option<String>,
    pub args: CallArgs,
}

/// The argument list of a call: none (`CURRENT_TIMESTAMP`), a bare
/// subquery, or a parenthesised list.
pub enum CallArgs {
    NoList,
    Subquery,
    List(Vec<FunctionArg>),
}

/// The name and arguments of a `Function` node.
#[verifier::external_body]
pub(crate) fn as_call(e: &Expr) -> Option<CallParts> {
    match e {
        Expr::Function(f) => Some(CallParts { name_last: f.name.0.last().map(|i| i.value.clone()), args: call_args(&f.args) }),
        _ => None,
    }
}

#[verifier::external_body]
fn call_args(a: &FunctionArguments) -> CallArgs {
    match a {
        FunctionArguments::None => CallArgs::NoList,
        FunctionArguments::Subquery(_) => CallArgs::Subquery,
        FunctionArguments::List(list) => CallArgs::List(list.args.clone()),
    }
}

/// The expression of an unnamed argument (`f(x)`), `None` for a named
/// argument or a wildcard.
#[verifier::external_body]
pub(crate) fn positional_arg(a: &FunctionArg) -> Option<Expr> {
    match a {
        FunctionArg::Unnamed(FunctionArgExpr::Expr(e)) => Some(e.clone()),
        _ => None,
    }
}

/// The value of a single-quoted string literal.
#[verifier::external_body]
pub(crate) fn single_quoted_value(e: &Expr) -> Option<String> {
    match e {
        Expr::Value(Value::SingleQuotedString(s)) => Some(s.clone()),
        _ => None,
    }
}

/// An unnamed argument `e`.
#[verifier::external_body]
pub(crate) fn unnamed_arg(e: Expr) -> FunctionArg {
    FunctionArg::Unnamed(FunctionArgExpr::Expr(e))
}

/// The kind of a `Cast` node.
pub enum CastTag {
    Cast,
    TryCast,
    SafeCast,
    DoubleColon,
}

/// The kind and target type of a `Cast` node.
#[verifier::external_body]
pub(crate) fn as_cast(e: &Expr) -> Option<(CastTag, DataType)> {
    match e {
        Expr::Cast { kind, data_type, .. } => Some((cast_tag(kind), data_type.clone())),
        _ => None,
    }
}

#[verifier::external_body]
fn cast_tag(k: &CastKind) -> CastTag {
    match k {
        CastKind::Cast => CastTag::Cast,
        CastKind::TryCast => CastTag::TryCast,
        CastKind::SafeCast => CastTag::SafeCast,
        CastKind::DoubleColon => CastTag::DoubleColon,
    }
}

/// The kinds of binary operator that type inference tells apart.
pub enum BinOpClass {
    /// `=`, `<>`, `<`, `<=`, `>`, `>=`, `AND`, `OR`.
    Boolean,
    /// `+`, `-`, `*`, `/`, `%`.
    Arithmetic,
    Other,
}

/// A literal, one variant per kind of literal (a number with its text).
pub enum ValueKind {
    Number(String),
    SingleQuoted,
    DoubleQuoted,
    Escaped,
    DollarQuoted,
    National,
    Hex,
    SingleQuotedBytes,
    DoubleQuotedBytes,
    Boolean,
    Null,
    Other,
}

/// A binary operator, one variant per operator that type inference tells
/// apart.
pub enum BinOpKind {
    Eq,
    NotEq,
    Lt,
    LtEq,
    Gt,
    GtEq,
    And,
    Or,
    Plus,
    Minus,
    Multiply,
    Divide,
    Modulo,
    Other,
}

/// The class of an operator: comparisons and `AND` / `OR` give booleans,
/// `+ - * / %` are arithmetic.
pub open spec fn bin_op_class_spec(k: BinOpKind) -> BinOpClass {
    match k {
        BinOpKind::Eq | BinOpKind::NotEq | BinOpKind::Lt | BinOpKind::LtEq | BinOpKind::Gt | BinOpKind::GtEq
        | BinOpKind::And | BinOpKind::Or => BinOpClass::Boolean,
        BinOpKind::Plus | BinOpKind::Minus | BinOpKind::Multiply | BinOpKind::Divide | BinOpKind::Modulo => BinOpClass::Arithmetic,
        BinOpKind::Other => BinOpClass::Other,
    }
}

pub fn bin_op_class(k: &BinOpKind) -> (r: BinOpClass)
    ensures
        r == bin_op_class_spec(*k),
{
    match k {
        BinOpKind::Eq | BinOpKind::NotEq | BinOpKind::Lt | BinOpKind::LtEq | BinOpKind::Gt | BinOpKind::GtEq
        | BinOpKind::And | BinOpKind::Or => BinOpClass::Boolean,
        BinOpKind::Plus | BinOpKind::Minus | BinOpKind::Multiply | BinOpKind::Divide | BinOpKind::Modulo => BinOpClass::Arithmetic,
        BinOpKind::Other => BinOpClass::Other,
    }
}

/// The literal kinds type inference tells apart: every quoted string form
/// (plain, escaped, dollar, national, hex, byte strings) is text.
pub open spec fn value_parts_spec(k: ValueKind) -> ValueParts {
    match k {
        ValueKind::Number(s) => ValueParts::Number(s),
        ValueKind::SingleQuoted | ValueKind::DoubleQuoted | ValueKind::Escaped | ValueKind::DollarQuoted
        | ValueKind::National | ValueKind::Hex | ValueKind::SingleQuotedBytes | ValueKind::DoubleQuotedBytes => ValueParts::Text,
        ValueKind::Boolean => ValueParts::Boolean,
        ValueKind::Null => ValueParts::Null,
        ValueKind::Other => ValueParts::Other,
    }
}

pub fn value_parts(k: ValueKind) -> (r: ValueParts)
    ensures
        r == value_parts_spec(k),
{
    match k {
        ValueKind::Number(s) => ValueParts::Number(s),
        ValueKind::SingleQuoted | ValueKind::DoubleQuoted | ValueKind::Escaped | ValueKind::DollarQuoted
        | ValueKind::National | ValueKind::Hex | ValueKind::SingleQuotedBytes | ValueKind::DoubleQuotedBytes => ValueParts::Text,
        ValueKind::Boolean => ValueParts::Boolean,
        ValueKind::Null => ValueParts::Null,
        ValueKind::Other => ValueParts::Other,
    }
}

/// The kinds of literal that type inference tells apart.
pub enum ValueParts {
    /// A number literal, with its text.
    Number(String),
    /// Any string-like literal.
    Text,
    Boolean,
    Null,
    Other,
}

/// An expression, by kind, with its children.
pub enum ExprParts {
    Identifier(Ident),
    Compound(Vec<Ident>),
    Literal(ValueKind),
    /// `left op right`, with the operator as printed and its kind.
    BinaryOp(Expr, String, BinOpKind, Expr),
    /// `op e`, with the operator as printed.
    UnaryOp(String, Expr),
    /// A call: its printed name, the value of the last name part, and the
    /// arguments of its parenthesised list (none when there is no list).
    Function(String, Option<String>, Vec<FunctionArg>),
    Cast(Expr, DataType),
    /// `CASE`: conditions, results and the `ELSE` result.
    Case(Vec<Expr>, Vec<Expr>, Option<Expr>),
    Subquery(Query),
    IsNull(Expr),
    IsNotNull(Expr),
    /// `(e)`.
    Nested(Expr),
    /// `e [NOT] IN (list)`.
    InList(Expr, Vec<Expr>),
    /// `e [NOT] BETWEEN low AND high`.
    Between(Expr, Expr, Expr),
    /// `e [NOT] IN (subquery)`.
    InSubquery(Expr, Query),
    /// `[NOT] EXISTS (subquery)`.
    Exists(Query),
    Other,
}

#[verifier::external_body]
pub(crate) fn expr_parts(e: &Expr) -> ExprParts {
    match e {
        Expr::Identifier(i) => ExprParts::Identifier(i.clone()),
        Expr::CompoundIdentifier(ids) => ExprParts::Compound(ids.clone()),
        Expr::Value(v) => ExprParts::Literal(value_kind(v)),
        Expr::BinaryOp { left, op, right } => ExprParts::BinaryOp((**left).clone(), op.to_string(), bin_op_kind(op), (**right).clone()),
        Expr::UnaryOp { op, expr } => ExprParts::UnaryOp(op.to_string(), (**expr).clone()),
        Expr::Function(f) => ExprParts::Function(f.name.to_string(), f.name.0.last().map(|i| i.value.clone()), list_args(&f.args)),
        _ => expr_parts_more(e),
    }
}

#[verifier::external_body]
fn expr_parts_more(e: &Expr) -> ExprParts {
    match e {
        Expr::Cast { expr, data_type, .. } => ExprParts::Cast((**expr).clone(), data_type.clone()),
        Expr::Case { conditions, results, else_result, .. } => ExprParts::Case(conditions.clone(), results.clone(), else_result.as_ref().map(|b| (**b).clone())),
        Expr::Subquery(q) => ExprParts::Subquery((**q).clone()),
        Expr::IsNull(i) => ExprParts::IsNull((**i).clone()),
        Expr::IsNotNull(i) => ExprParts::IsNotNull((**i).clone()),
        _ => expr_parts_rest(e),
    }
}

#[verifier::external_body]
fn expr_parts_rest(e: &Expr) -> ExprParts {
    match e {
        Expr::Nested(x) => ExprParts::Nested((**x).clone()),
        Expr::InList { expr, list, .. } => ExprParts::InList((**expr).clone(), list.clone()),
        Expr::Between { expr, low, high, .. } => ExprParts::Between((**expr).clone(), (**low).clone(), (**high).clone()),
        Expr::InSubquery { expr, subquery, .. } => ExprParts::InSubquery((**expr).clone(), (**subquery).clone()),
        Expr::Exists { subquery, .. } => ExprParts::Exists((**subquery).clone()),
        _ => ExprParts::Other,
    }
}

#[verifier::external_body]
fn list_args(a: &FunctionArguments) -> Vec<FunctionArg> {
    match a {
        FunctionArguments::List(list) => list.args.clone(),
        _ => vec![],
    }
}

#[verifier::external_body]
fn bin_op_kind(op: &BinaryOperator) -> BinOpKind {
    match op {
        BinaryOperator::Eq => BinOpKind::Eq, BinaryOperator::NotEq => BinOpKind::NotEq, BinaryOperator::Lt => BinOpKind::Lt,
        BinaryOperator::LtEq => BinOpKind::LtEq, BinaryOperator::Gt => BinOpKind::Gt, BinaryOperator::GtEq => BinOpKind::GtEq,
        BinaryOperator::And => BinOpKind::And, BinaryOperator::Or => BinOpKind::Or, BinaryOperator::Plus => BinOpKind::Plus,
        BinaryOperator::Minus => BinOpKind::Minus, BinaryOperator::Multiply => BinOpKind::Multiply,
        BinaryOperator::Divide => BinOpKind::Divide, BinaryOperator::Modulo => BinOpKind::Modulo,
        _ => BinOpKind::Other,
    }
}

#[verifier::external_body]
fn value_kind(v: &Value) -> ValueKind {
    match v {
        Value::Number(s, _) => ValueKind::Number(s.clone()), Value::SingleQuotedString(_) => ValueKind::SingleQuoted,
        Value::DoubleQuotedString(_) => ValueKind::DoubleQuoted, Value::EscapedStringLiteral(_) => ValueKind::Escaped,
        Value::DollarQuotedString(_) => ValueKind::DollarQuoted, Value::NationalStringLiteral(_) => ValueKind::National,
        Value::HexStringLiteral(_) => ValueKind::Hex, Value::SingleQuotedByteStringLiteral(_) => ValueKind::SingleQuotedBytes,
        Value::DoubleQuotedByteStringLiteral(_) => ValueKind::DoubleQuotedBytes,
        Value::Boolean(_) => ValueKind::Boolean, Value::Null => ValueKind::Null, _ => ValueKind::Other,
    }
}

/// The expression kinds a predicate classification tells apart.
pub enum ExprTag {
    Function,
    Substring,
    Trim,
    Position,
    Extract,
    Ceil,
    Floor,
    Convert,
    Overlay,
    Collate,
    Case,
    Cast,
    Subquery,
    Exists,
    InSubquery,
    Other,
}

#[verifier::external_body]
pub(crate) fn expr_tag(e: &Expr) -> ExprTag {
    match e {
        Expr::Function(_) => ExprTag::Function, Expr::Substring { .. } => ExprTag::Substring,
        Expr::Trim { .. } => ExprTag::Trim, Expr::Position { .. } => ExprTag::Position,
        Expr::Extract { .. } => ExprTag::Extract, Expr::Ceil { .. } => ExprTag::Ceil,
        Expr::Floor { .. } => ExprTag::Floor, Expr::Convert { .. } => ExprTag::Convert,
        Expr::Overlay { .. } => ExprTag::Overlay, Expr::Collate { .. } => ExprTag::Collate,
        Expr::Case { .. } => ExprTag::Case, Expr::Cast { .. } => ExprTag::Cast,
        Expr::Subquery(_) => ExprTag::Subquery, Expr::Exists { .. } => ExprTag::Exists,
        Expr::InSubquery { .. } => ExprTag::InSubquery, _ => ExprTag::Other,
    }
}

/// Whether a walk over every expression of the statements (`visit_expressions`)
/// meets one where [`crate::spark::plan::complication_step`] stops.
#[verifier::external_body]
pub(crate) fn any_complicated_expr(stmts: &Vec<Statement>) -> bool {
    sqlparser::ast::visit_expressions(stmts, |e| crate::spark::plan::complication_step(e)).is_break()
}

/// The lower-cased names of the calls in the statements, in the order a
/// walk over every expression (`visit_expressions`) meets them.
#[verifier::external_body]
pub(crate) fn collect_call_names(stmts: &Vec<Statement>) -> Vec<String> {
    let mut names: Vec<String> = Vec::new();
    let _ = sqlparser::ast::visit_expressions(stmts, |e| crate::translator::record_call_name(&mut names, e));
    names
}

/// A function argument printed as SQL.
#[verifier::external_body]
pub(crate) fn function_arg_text(a: &FunctionArg) -> String {
    a.to_string()
}

// ---------------------------------------------------------------------------
// Expressions: changing one node in place
// ---------------------------------------------------------------------------

/// Turn a `::` cast into `CAST(.. AS ..)` (a no-op on other nodes).
#[verifier::external_body]
pub(crate) fn set_cast_kind_standard(e: &mut Expr) {
    if let Expr::Cast { kind, .. } = e {
        *kind = CastKind::Cast;
    }
}

/// Replace the target type of a `Cast` node (a no-op on other nodes).
#[verifier::external_body]
pub(crate) fn set_cast_type(e: &mut Expr, t: DataType) {
    if let Expr::Cast { data_type, .. } = e {
        *data_type = t;
    }
}

/// Rename a function call to the single-part name `name`, keeping its
/// arguments and clauses (a no-op on other nodes).
#[verifier::external_body]
pub(crate) fn set_call_name(e: &mut Expr, name: &str) {
    if let Expr::Function(f) = e {
        f.name = ObjectName(vec![Ident::new(name)]);
    }
}

/// Drop the argument list of a function call (`NOW()` becomes `NOW`).
#[verifier::external_body]
pub(crate) fn clear_call_args(e: &mut Expr) {
    if let Expr::Function(f) = e {
        f.args = FunctionArguments::None;
    }
}

/// Give a function call a fresh, empty argument list `()`.
#[verifier::external_body]
pub(crate) fn set_call_args_empty(e: &mut Expr) {
    if let Expr::Function(f) = e {
        f.args = FunctionArguments::List(FunctionArgumentList { duplicate_treatment: None, args: vec![], clauses: vec![] });
    }
}

/// Replace the arguments inside a call's parenthesised list, keeping the
/// list's `DISTINCT` and trailing clauses (a no-op when there is no list).
#[verifier::external_body]
pub(crate) fn set_call_list_args(e: &mut Expr, args: Vec<FunctionArg>) {
    if let Expr::Function(Function { args: FunctionArguments::List(list), .. }) = e {
        list.args = args;
    }
}

// ---------------------------------------------------------------------------
// Expressions: building new nodes
// ---------------------------------------------------------------------------

/// `name(a1, .., an)` with unnamed arguments.
#[verifier::external_body]
pub(crate) fn call_expr(name: &str, args: Vec<Expr>) -> Expr {
    let args = args.into_iter().map(|a| FunctionArg::Unnamed(FunctionArgExpr::Expr(a))).collect();
    let list = FunctionArgumentList { duplicate_treatment: None, args, clauses: vec![] };
    call_with_list(name, list)
}

/// `name(DISTINCT a)`.
#[verifier::external_body]
pub(crate) fn call_distinct_expr(name: &str, a: Expr) -> Expr {
    let list = FunctionArgumentList {
        duplicate_treatment: Some(sqlparser::ast::DuplicateTreatment::Distinct),
        args: vec![FunctionArg::Unnamed(FunctionArgExpr::Expr(a))],
        clauses: vec![],
    };
    call_with_list(name, list)
}

#[verifier::external_body]
fn call_with_list(name: &str, list: FunctionArgumentList) -> Expr {
    Expr::Function(Function {
        name: ObjectName(vec![Ident::new(name)]),
        parameters: FunctionArguments::None,
        args: FunctionArguments::List(list),
        filter: None,
        null_treatment: None,
        over: None,
        within_group: vec![],
    })
}

/// The binary operators the rewrites build.
pub enum BinOpNew {
    Eq,
    Plus,
    Modulo,
    /// The custom operator `RLIKE`.
    Rlike,
}

/// `left op right`.
#[verifier::external_body]
pub(crate) fn binary_expr(left: Expr, op: BinOpNew, right: Expr) -> Expr {
    let op = match op {
        BinOpNew::Eq => BinaryOperator::Eq,
        BinOpNew::Plus => BinaryOperator::Plus,
        BinOpNew::Modulo => BinaryOperator::Modulo,
        BinOpNew::Rlike => BinaryOperator::Custom("RLIKE".to_string()),
    };
    Expr::BinaryOp { left: Box::new(left), op, right: Box::new(right) }
}

/// `NOT e`.
#[verifier::external_body]
pub(crate) fn not_expr(e: Expr) -> Expr {
    Expr::UnaryOp { op: UnaryOperator::Not, expr: Box::new(e) }
}

/// `-e`.
#[verifier::external_body]
pub(crate) fn neg_expr(e: Expr) -> Expr {
    Expr::UnaryOp { op: UnaryOperator::Minus, expr: Box::new(e) }
}

/// `(e)`.
#[verifier::external_body]
pub(crate) fn nested_expr(e: Expr) -> Expr {
    Expr::Nested(Box::new(e))
}

/// `e IS NOT NULL`.
#[verifier::external_body]
pub(crate) fn is_not_null_expr(e: Expr) -> Expr {
    Expr::IsNotNull(Box::new(e))
}

/// `CASE WHEN c1 THEN r1 .. [ELSE d] END` (no operand).
#[verifier::external_body]
pub(crate) fn case_expr(conditions: Vec<Expr>, results: Vec<Expr>, else_result: Option<Expr>) -> Expr {
    Expr::Case { operand: None, conditions, results, else_result: else_result.map(Box::new) }
}

/// `CAST(e AS t)`.
#[verifier::external_body]
pub(crate) fn cast_expr(e: Expr, t: DataType) -> Expr {
    Expr::Cast { kind: CastKind::Cast, expr: Box::new(e), data_type: t, format: None }
}

/// The string literal `'s'`.
#[verifier::external_body]
pub(crate) fn string_literal(s: &str) -> Expr {
    Expr::Value(Value::SingleQuotedString(s.to_string()))
}

/// The number literal `n`.
#[verifier::external_body]
pub(crate) fn number_literal(n: &str) -> Expr {
    Expr::Value(Value::Number(n.to_string(), false))
}

/// The bare identifier `name`.
#[verifier::external_body]
pub(crate) fn identifier_expr(name: Ident) -> Expr {
    Expr::Identifier(name)
}

/// An unquoted identifier.
#[verifier::external_body]
pub(crate) fn new_ident(name: &str) -> Ident {
    Ident::new(name)
}

// ---------------------------------------------------------------------------
// Data types
// ---------------------------------------------------------------------------

/// The time-zone clause of a `TIMESTAMP` type, one variant each.
pub enum TzKind {
    NoClause,
    WithTimeZone,
    WithoutTimeZone,
    Tz,
}

#[verifier::external_body]
fn tz_kind(tz: &TimezoneInfo) -> TzKind {
    match tz {
        TimezoneInfo::None => TzKind::NoClause, TimezoneInfo::WithTimeZone => TzKind::WithTimeZone,
        TimezoneInfo::WithoutTimeZone => TzKind::WithoutTimeZone, TimezoneInfo::Tz => TzKind::Tz,
    }
}

/// The data types the type rewrites tell apart.
pub enum TypeTag {
    Json,
    Jsonb,
    Uuid,
    Bytea,
    /// `TIMESTAMP`, with its time-zone clause.
    Timestamp(TzKind),
    Regclass,
    Text,
    Int2,
    Int4,
    Int8,
    Float4,
    Float8,
    Float,
    Binary,
    Blob,
    /// The `STRING` type keyword.
    StringKw,
    /// A type the parser did not know: the value of the last part of its
    /// name (`None` for an empty name).
    Custom(Option<String>),
    Other,
}

#[verifier::external_body]
pub(crate) fn type_tag(t: &DataType) -> TypeTag {
    match t {
        DataType::JSON => TypeTag::Json, DataType::JSONB => TypeTag::Jsonb, DataType::Uuid => TypeTag::Uuid,
        DataType::Bytea => TypeTag::Bytea, DataType::Timestamp(_, tz) => TypeTag::Timestamp(tz_kind(tz)),
        DataType::Regclass => TypeTag::Regclass, DataType::Text => TypeTag::Text,
        DataType::Custom(name, _) => TypeTag::Custom(name.0.last().map(|i| i.value.clone())),
        _ => numeric_type_tag(t),
    }
}

#[verifier::external_body]
fn numeric_type_tag(t: &DataType) -> TypeTag {
    match t {
        DataType::Int2(_) => TypeTag::Int2, DataType::Int4(_) => TypeTag::Int4, DataType::Int8(_) => TypeTag::Int8,
        DataType::Float4 => TypeTag::Float4, DataType::Float8 => TypeTag::Float8, DataType::Float(_) => TypeTag::Float,
        DataType::Binary(_) => TypeTag::Binary, DataType::Blob(_) => TypeTag::Blob, DataType::String(_) => TypeTag::StringKw,
        _ => TypeTag::Other,
    }
}

/// The precision and scale a `DECIMAL` type was written with.
pub enum DecimalInfo {
    Unspecified,
    Precision(u64),
    PrecisionAndScale(u64, u64),
}

/// The data types schema inference tells apart.
pub enum TypeClass {
    /// The integer types up to 32 bits.
    Int,
    /// The 64-bit integer types.
    Long,
    Float,
    Double,
    Boolean,
    Bytes,
    Date,
    /// `TIMESTAMP` and `DATETIME`.
    Timestamp,
    /// `DECIMAL`, `NUMERIC`, `BIGNUMERIC`, `DEC`.
    Decimal(DecimalInfo),
    Other,
}

/// A data type, one variant per type that schema inference tells apart
/// (decimals with how they were written).
pub enum TypeKind {
    TinyInt,
    UnsignedTinyInt,
    SmallInt,
    UnsignedSmallInt,
    Int,
    Integer,
    UnsignedInt,
    UnsignedInteger,
    Int4,
    Int2,
    BigInt,
    UnsignedBigInt,
    Int8,
    Real,
    Float4,
    Double,
    DoublePrecision,
    Float8,
    Float,
    Boolean,
    Bool,
    Binary,
    Varbinary,
    Blob,
    Bytes,
    Date,
    Timestamp,
    Datetime,
    Decimal(DecimalInfo),
    Numeric(DecimalInfo),
    BigNumeric(DecimalInfo),
    Dec(DecimalInfo),
    Other,
}

#[verifier::external_body]
pub(crate) fn type_kind(t: &DataType) -> TypeKind {
    match t {
        DataType::TinyInt(_) => TypeKind::TinyInt, DataType::UnsignedTinyInt(_) => TypeKind::UnsignedTinyInt,
        DataType::SmallInt(_) => TypeKind::SmallInt, DataType::UnsignedSmallInt(_) => TypeKind::UnsignedSmallInt,
        DataType::Int(_) => TypeKind::Int, DataType::Integer(_) => TypeKind::Integer,
        DataType::UnsignedInt(_) => TypeKind::UnsignedInt, DataType::UnsignedInteger(_) => TypeKind::UnsignedInteger,
        DataType::Int4(_) => TypeKind::Int4, DataType::Int2(_) => TypeKind::Int2,
        DataType::BigInt(_) => TypeKind::BigInt, DataType::UnsignedBigInt(_) => TypeKind::UnsignedBigInt,
        _ => type_kind_more(t),
    }
}

#[verifier::external_body]
fn type_kind_more(t: &DataType) -> TypeKind {
    match t {
        DataType::Int8(_) => TypeKind::Int8, DataType::Real => TypeKind::Real, DataType::Float4 => TypeKind::Float4,
        DataType::Double => TypeKind::Double, DataType::DoublePrecision => TypeKind::DoublePrecision,
        DataType::Float8 => TypeKind::Float8, DataType::Float(_) => TypeKind::Float, DataType::Boolean => TypeKind::Boolean,
        DataType::Bool => TypeKind::Bool, DataType::Binary(_) => TypeKind::Binary,
        DataType::Varbinary(_) => TypeKind::Varbinary, DataType::Blob(_) => TypeKind::Blob,
        _ => type_kind_rest(t),
    }
}

#[verifier::external_body]
fn type_kind_rest(t: &DataType) -> TypeKind {
    match t {
        DataType::Bytes(_) => TypeKind::Bytes, DataType::Date => TypeKind::Date,
        DataType::Timestamp(_, _) => TypeKind::Timestamp, DataType::Datetime(_) => TypeKind::Datetime,
        DataType::Decimal(i) => TypeKind::Decimal(decimal_info(i)), DataType::Numeric(i) => TypeKind::Numeric(decimal_info(i)),
        DataType::BigNumeric(i) => TypeKind::BigNumeric(decimal_info(i)), DataType::Dec(i) => TypeKind::Dec(decimal_info(i)),
        _ => TypeKind::Other,
    }
}

#[verifier::external_body]
fn decimal_info(i: &ExactNumberInfo) -> DecimalInfo {
    match i {
        ExactNumberInfo::None => DecimalInfo::Unspecified,
        ExactNumberInfo::Precision(p) => DecimalInfo::Precision(*p),
        ExactNumberInfo::PrecisionAndScale(p, s) => DecimalInfo::PrecisionAndScale(*p, *s),
    }
}

/// The class schema inference gives a data type: the integer types up to
/// 32 bits are `Int`, the 64-bit ones `Long`, `REAL`/`FLOAT4` `Float`,
/// the double types `Double`, the binary types `Bytes`, `TIMESTAMP` and
/// `DATETIME` `Timestamp`, the decimal types `Decimal`.
pub open spec fn type_class_spec(k: TypeKind) -> TypeClass {
    match k {
        TypeKind::TinyInt | TypeKind::UnsignedTinyInt | TypeKind::SmallInt | TypeKind::UnsignedSmallInt
        | TypeKind::Int | TypeKind::Integer | TypeKind::UnsignedInt | TypeKind::UnsignedInteger
        | TypeKind::Int4 | TypeKind::Int2 => TypeClass::Int,
        TypeKind::BigInt | TypeKind::UnsignedBigInt | TypeKind::Int8 => TypeClass::Long,
        TypeKind::Real | TypeKind::Float4 => TypeClass::Float,
        TypeKind::Double | TypeKind::DoublePrecision | TypeKind::Float8 | TypeKind::Float => TypeClass::Double,
        TypeKind::Boolean | TypeKind::Bool => TypeClass::Boolean,
        TypeKind::Binary | TypeKind::Varbinary | TypeKind::Blob | TypeKind::Bytes => TypeClass::Bytes,
        TypeKind::Date => TypeClass::Date,
        TypeKind::Timestamp | TypeKind::Datetime => TypeClass::Timestamp,
        TypeKind::Decimal(i) | TypeKind::Numeric(i) | TypeKind::BigNumeric(i) | TypeKind::Dec(i) => TypeClass::Decimal(i),
        TypeKind::Other => TypeClass::Other,
    }
}

pub fn type_class(k: TypeKind) -> (r: TypeClass)
    ensures
        r == type_class_spec(k),
{
    match k {
        TypeKind::TinyInt | TypeKind::UnsignedTinyInt | TypeKind::SmallInt | TypeKind::UnsignedSmallInt
        | TypeKind::Int | TypeKind::Integer | TypeKind::UnsignedInt | TypeKind::UnsignedInteger
        | TypeKind::Int4 | TypeKind::Int2 => TypeClass::Int,
        TypeKind::BigInt | TypeKind::UnsignedBigInt | TypeKind::Int8 => TypeClass::Long,
        TypeKind::Real | TypeKind::Float4 => TypeClass::Float,
        TypeKind::Double | TypeKind::DoublePrecision | TypeKind::Float8 | TypeKind::Float => TypeClass::Double,
        TypeKind::Boolean | TypeKind::Bool => TypeClass::Boolean,
        TypeKind::Binary | TypeKind::Varbinary | TypeKind::Blob | TypeKind::Bytes => TypeClass::Bytes,
        TypeKind::Date => TypeClass::Date,
        TypeKind::Timestamp | TypeKind::Datetime => TypeClass::Timestamp,
        TypeKind::Decimal(i) | TypeKind::Numeric(i) | TypeKind::BigNumeric(i) | TypeKind::Dec(i) => TypeClass::Decimal(i),
        TypeKind::Other => TypeClass::Other,
    }
}

/// The data types the rewrites build.
pub enum TypeNew {
    /// A type written by its name (Spark's `STRING`).
    Custom(&'static str),
    Binary,
    SmallInt,
    Int,
    BigInt,
    Real,
    Double,
    Timestamp,
    Date,
    Varbinary,
    Varchar,
}

#[verifier::external_body]
pub(crate) fn build_type(t: TypeNew) -> DataType {
    match t {
        TypeNew::Custom(name) => DataType::Custom(ObjectName(vec![Ident::new(name)]), vec![]),
        TypeNew::Binary => DataType::Binary(None), TypeNew::SmallInt => DataType::SmallInt(None),
        TypeNew::Int => DataType::Int(None), TypeNew::BigInt => DataType::BigInt(None),
        TypeNew::Real => DataType::Real, TypeNew::Double => DataType::Double,
        TypeNew::Timestamp => DataType::Timestamp(None, TimezoneInfo::None), TypeNew::Date => DataType::Date,
        TypeNew::Varbinary => DataType::Varbinary(None), TypeNew::Varchar => DataType::Varchar(None),
    }
}

/// A `TIMESTAMP` type with its time-zone clause dropped (its precision
/// kept); other types come back unchanged.
#[verifier::external_body]
pub(crate) fn without_timezone(t: DataType) -> DataType {
    match t {
        DataType::Timestamp(p, _) => DataType::Timestamp(p, TimezoneInfo::None),
        other => other,
    }
}

// ---------------------------------------------------------------------------
// Statements
// ---------------------------------------------------------------------------

/// The column types of a `CREATE TABLE` statement, in order (`None` for
/// other statements).
#[verifier::external_body]
pub(crate) fn create_table_column_types(s: &Statement) -> Option<Vec<DataType>> {
    match s {
        Statement::CreateTable(ct) => Some(ct.columns.iter().map(|c| c.data_type.clone()).collect()),
        _ => None,
    }
}

/// Replace the type of column `i` of a `CREATE TABLE` statement (a no-op
/// on other statements or when there is no such column).
#[verifier::external_body]
pub(crate) fn set_create_table_column_type(s: &mut Statement, i: usize, t: DataType) {
    if let Statement::CreateTable(ct) = s {
        if let Some(c) = ct.columns.get_mut(i) {
            c.data_type = t;
        }
    }
}

// ---------------------------------------------------------------------------
// Walking every expression of a statement, children before parents
// (`visit_expressions_mut`), each with one verified rewrite step
// ---------------------------------------------------------------------------

#[verifier::external_body]
pub(crate) fn visit_spark_functions(s: &mut Statement) {
    let _ = sqlparser::ast::visit_expressions_mut(s, |e| crate::rewrite::functions::rewrite_expr(e));
}

#[verifier::external_body]
pub(crate) fn visit_spark_types(s: &mut Statement) {
    let _ = sqlparser::ast::visit_expressions_mut(s, |e| crate::rewrite::types::rewrite_expr(e));
}

#[verifier::external_body]
pub(crate) fn visit_trino_functions(s: &mut Statement) {
    let _ = sqlparser::ast::visit_expressions_mut(s, |e| crate::rewrite::trino_functions::rewrite_expr(e));
}

#[verifier::external_body]
pub(crate) fn visit_trino_types(s: &mut Statement) {
    let _ = sqlparser::ast::visit_expressions_mut(s, |e| crate::rewrite::trino_types::rewrite_expr(e));
}

} // verus!
