//! New expression nodes, planned as plain values and then built.
//!
//! A rewrite decides which node replaces an old one by returning a
//! [`NewExpr`]; its leaves are the old (opaque) subexpressions it keeps.
//! [`build`] turns the plan into a parser node.
use vstd::prelude::*;

use crate::sql::ast::{
    binary_expr, call_distinct_expr, call_expr, case_expr, cast_expr, is_not_null_expr,
    nested_expr, neg_expr, not_expr, number_literal, string_literal, BinOpNew, TypeNew, build_type,
};
use sqlparser::ast::Expr;

verus! {

/// A planned expression.
pub enum NewExpr {
    /// An existing expression, kept as it is.
    Old(Expr),
    /// `name(e1, .., en)` over existing expressions.
    CallOld(&'static str, Vec<Expr>),
    /// `name(a)`.
    Call1(&'static str, Box<NewExpr>),
    /// `name(a, b)`.
    Call2(&'static str, Box<NewExpr>, Box<NewExpr>),
    /// `name(a, b, c)`.
    Call3(&'static str, Box<NewExpr>, Box<NewExpr>, Box<NewExpr>),
    /// `name(DISTINCT e)`.
    CallDistinct(&'static str, Expr),
    /// `a op b`.
    Binary(Box<NewExpr>, BinOpNew, Box<NewExpr>),
    /// `NOT a`.
    Not(Box<NewExpr>),
    /// `-a`.
    Neg(Box<NewExpr>),
    /// `(a)`.
    Nested(Box<NewExpr>),
    /// `CASE WHEN a IS NOT NULL THEN b ELSE c END`.
    NullCase(Expr, Expr, Expr),
    /// `CASE WHEN x = k1 THEN r1 .. [ELSE d] END`, keys and results pairwise.
    Decode(Expr, Vec<Expr>, Vec<Expr>, Option<Expr>),
    /// `CAST(a AS t)`.
    CastTo(Box<NewExpr>, TypeNew),
    /// The string literal `'s'`.
    Str(&'static str),
    /// The string literal with the given (computed) value.
    StrOwned(String),
    /// The number literal `n`.
    Num(&'static str),
}

/// A planned expression as a value: names as character sequences, lists
/// as sequences.
pub enum NewExprS {
    Old(Expr),
    CallOld(Seq<char>, Seq<Expr>),
    Call1(Seq<char>, Box<NewExprS>),
    Call2(Seq<char>, Box<NewExprS>, Box<NewExprS>),
    Call3(Seq<char>, Box<NewExprS>, Box<NewExprS>, Box<NewExprS>),
    CallDistinct(Seq<char>, Expr),
    Binary(Box<NewExprS>, BinOpNew, Box<NewExprS>),
    Not(Box<NewExprS>),
    Neg(Box<NewExprS>),
    Nested(Box<NewExprS>),
    NullCase(Expr, Expr, Expr),
    Decode(Expr, Seq<Expr>, Seq<Expr>, Option<Expr>),
    CastTo(Box<NewExprS>, TypeNew),
    Str(Seq<char>),
    StrOwned(Seq<char>),
    Num(Seq<char>),
}

impl NewExpr {
    pub open spec fn view_s(&self) -> NewExprS
        decreases self,
    {
        match self {
            NewExpr::Old(e) => NewExprS::Old(*e),
            NewExpr::CallOld(n, v) => NewExprS::CallOld(n@, v@),
            NewExpr::Call1(n, a) => NewExprS::Call1(n@, Box::new(a.view_s())),
            NewExpr::Call2(n, a, b) => NewExprS::Call2(n@, Box::new(a.view_s()), Box::new(b.view_s())),
            NewExpr::Call3(n, a, b, c) => NewExprS::Call3(n@, Box::new(a.view_s()), Box::new(b.view_s()), Box::new(c.view_s())),
            NewExpr::CallDistinct(n, e) => NewExprS::CallDistinct(n@, *e),
            NewExpr::Binary(a, op, b) => NewExprS::Binary(Box::new(a.view_s()), *op, Box::new(b.view_s())),
            NewExpr::Not(a) => NewExprS::Not(Box::new(a.view_s())),
            NewExpr::Neg(a) => NewExprS::Neg(Box::new(a.view_s())),
            NewExpr::Nested(a) => NewExprS::Nested(Box::new(a.view_s())),
            NewExpr::NullCase(a, b, c) => NewExprS::NullCase(*a, *b, *c),
            NewExpr::Decode(x, k, r, d) => NewExprS::Decode(*x, k@, r@, *d),
            NewExpr::CastTo(a, t) => NewExprS::CastTo(Box::new(a.view_s()), *t),
            NewExpr::Str(s) => NewExprS::Str(s@),
            NewExpr::StrOwned(s) => NewExprS::StrOwned(s@),
            NewExpr::Num(n) => NewExprS::Num(n@),
        }
    }
}

impl View for NewExpr {
    type V = NewExprS;

    open spec fn view(&self) -> NewExprS {
        self.view_s()
    }
}

/// Builds the planned node.
pub fn build(p: NewExpr) -> (r: Expr)
    ensures
        p matches NewExpr::Old(e) ==> r == e,
    decreases p,
{
    match p {
        NewExpr::Old(e) => e,
        NewExpr::CallOld(name, args) => call_expr(name, args),
        NewExpr::Call1(name, a) => {
            let mut args: Vec<Expr> = Vec::new();
            args.push(build(*a));
            call_expr(name, args)
        },
        NewExpr::Call2(name, a, b) => {
            let mut args: Vec<Expr> = Vec::new();
            args.push(build(*a));
            args.push(build(*b));
            call_expr(name, args)
        },
        NewExpr::Call3(name, a, b, c) => {
            let mut args: Vec<Expr> = Vec::new();
            args.push(build(*a));
            args.push(build(*b));
            args.push(build(*c));
            call_expr(name, args)
        },
        NewExpr::CallDistinct(name, e) => call_distinct_expr(name, e),
        NewExpr::Binary(a, op, b) => binary_expr(build(*a), op, build(*b)),
        NewExpr::Not(a) => not_expr(build(*a)),
        NewExpr::Neg(a) => neg_expr(build(*a)),
        NewExpr::Nested(a) => nested_expr(build(*a)),
        NewExpr::NullCase(a, b, c) => {
            let mut conditions: Vec<Expr> = Vec::new();
            conditions.push(is_not_null_expr(a));
            let mut results: Vec<Expr> = Vec::new();
            results.push(b);
            case_expr(conditions, results, Some(c))
        },
        NewExpr::Decode(x, keys, results, default) => {
            let mut conditions: Vec<Expr> = Vec::new();
            let mut i: usize = 0;
            while i < keys.len()
                invariant
                    i <= keys.len(),
                decreases keys.len() - i,
            {
                conditions.push(binary_expr(x.clone(), BinOpNew::Eq, keys[i].clone()));
                i = i + 1;
            }
            case_expr(conditions, results, default)
        },
        NewExpr::CastTo(a, t) => cast_expr(build(*a), build_type(t)),
        NewExpr::Str(s) => string_literal(s),
        NewExpr::StrOwned(s) => string_literal(s.as_str()),
        NewExpr::Num(n) => number_literal(n),
    }
}

/// SQL's integer remainder `x % y` (as Trino and Spark compute it): the
/// remainder of the truncating division, which has the sign of `x` and a
/// magnitude below `|y|`.
pub open spec fn sql_rem(x: int, y: int) -> int {
    let d = if y < 0 { -y } else { y };
    if d == 0 {
        0
    } else if x >= 0 {
        x % d
    } else {
        -((-x) % d)
    }
}

/// The integer value of a planned arithmetic expression, given the values
/// `env` of the old expressions it keeps: `+` adds, `%` is SQL's
/// remainder, parentheses change nothing. (Other nodes are not integers;
/// they count as 0.)
pub open spec fn int_value(p: NewExprS, env: spec_fn(Expr) -> int) -> int
    decreases p,
{
    match p {
        NewExprS::Old(e) => env(e),
        NewExprS::Nested(x) => int_value(*x, env),
        NewExprS::Neg(x) => -int_value(*x, env),
        NewExprS::Binary(l, op, r) => match op {
            BinOpNew::Plus => int_value(*l, env) + int_value(*r, env),
            BinOpNew::Modulo => sql_rem(int_value(*l, env), int_value(*r, env)),
            _ => 0,
        },
        _ => 0,
    }
}

} // verus!
