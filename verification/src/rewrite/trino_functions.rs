//! Function rewrites for the Trino target, run after the Spark ones.
//!
//! | Spark                    | Trino                                      |
//! |--------------------------|--------------------------------------------|
//! | `RAND()` / `RAND_INTEGER(n)` | `RANDOM()`                             |
//! | `GET_JSON_OBJECT(j, p)`  | `JSON_EXTRACT(j, p)`                       |
//! | `ARRAY_CONTAINS(a, v)`   | `CONTAINS(a, v)`                           |
//! | `BASE64` / `UNBASE64`    | `TO_BASE64` / `FROM_BASE64`                |
//! | `HEX` / `UNHEX`          | `TO_HEX` / `FROM_HEX`                      |
//! | `INSTR(s, p)`            | `STRPOS(s, p)`                             |
//! | `x RLIKE y`              | `REGEXP_LIKE(x, y)`                        |
//! | `PMOD(a, b)`             | `((a % b) + b) % b`                        |
//! | `DATE_ADD(d, n)`         | `DATE_ADD('day', n, CAST(d AS DATE))`      |
//! | `DATE_SUB(d, n)`         | `DATE_ADD('day', -n, CAST(d AS DATE))`     |
//! | `DATEDIFF(a, b)`         | `DATE_DIFF('day', CAST(b AS DATE), CAST(a AS DATE))` |
//! | `COLLECT_LIST(x)`        | `ARRAY_AGG(x)`                             |
//! | `COLLECT_SET(x)`         | `ARRAY_AGG(DISTINCT x)`                    |
//! | `TO_DATE(s)`             | `DATE(CAST(s AS TIMESTAMP))`               |
use vstd::prelude::*;

use crate::rewrite::args::{
    failed_take, failed_take_rewrite, lower_name, name_is, take_args, take_spec, view_args, ArgsView,
    CallRewrite, CallRewriteS, Taken, TakenS,
};
use crate::rewrite::functions::apply_call_rewrite;
use crate::sql::ast::{as_binary_op, as_call, BinOpNew, BinOpTag, TypeNew};
use crate::sql::plan::{build, int_value, sql_rem, NewExpr, NewExprS};
use crate::text::{seq_eq_ci, str_chars};
use core::ops::ControlFlow;
use sqlparser::ast::Expr;

verus! {

/// `x RLIKE y` (the custom operator, any ASCII case) to `REGEXP_LIKE(x, y)`.
pub open spec fn rlike_spec(l: Expr, op: BinOpTag, r: Expr) -> Option<NewExprS> {
    match op {
        BinOpTag::Custom(s) => if seq_eq_ci(s@, "RLIKE"@) {
            Some(NewExprS::CallOld("REGEXP_LIKE"@, seq![l, r]))
        } else {
            None
        },
        _ => None,
    }
}

pub fn rlike_rewrite(l: Expr, op: BinOpTag, r: Expr) -> (p: Option<NewExpr>)
    ensures
        match p {
            Some(x) => rlike_spec(l, op, r) == Some(x@),
            None => rlike_spec(l, op, r) is None,
        },
{
    match op {
        BinOpTag::Custom(s) => {
            if crate::text::eq_ignore_case(&str_chars(s.as_str()), &str_chars("RLIKE")) {
                let mut v: Vec<Expr> = Vec::new();
                v.push(l);
                v.push(r);
                assert(v@ =~= seq![l, r]);
                Some(NewExpr::CallOld("REGEXP_LIKE", v))
            } else {
                None
            }
        },
        _ => None,
    }
}

/// `COLLECT_SET(x)` to `ARRAY_AGG(DISTINCT x)`; another argument count is
/// rebuilt as a plain `COLLECT_SET(..)` call.
pub open spec fn collect_set_spec(args: ArgsView) -> CallRewriteS {
    match take_spec(args, None) {
        TakenS::Got(es) => if es.len() == 1 {
            CallRewriteS::Replace(NewExprS::CallDistinct("ARRAY_AGG"@, es[0]))
        } else {
            CallRewriteS::Replace(NewExprS::CallOld("COLLECT_SET"@, es))
        },
        t => failed_take(t),
    }
}

/// `PMOD(a, b)` to `((a % b) + b) % b`.
pub open spec fn pmod_plan(a: Expr, b: Expr) -> NewExprS {
    let inner = NewExprS::Binary(Box::new(NewExprS::Old(a)), BinOpNew::Modulo, Box::new(NewExprS::Old(b)));
    let plus = NewExprS::Binary(Box::new(NewExprS::Nested(Box::new(inner))), BinOpNew::Plus, Box::new(NewExprS::Old(b)));
    NewExprS::Binary(Box::new(NewExprS::Nested(Box::new(plus))), BinOpNew::Modulo, Box::new(NewExprS::Old(b)))
}

pub open spec fn pmod_spec(args: ArgsView) -> CallRewriteS {
    match take_spec(args, Some(2)) {
        TakenS::Got(es) => CallRewriteS::Replace(pmod_plan(es[0], es[1])),
        t => failed_take(t),
    }
}

/// `DATE_ADD(d, n)` / `DATE_SUB(d, n)` to `DATE_ADD('day', ±n, CAST(d AS DATE))`.
pub open spec fn date_add_spec(args: ArgsView, negate: bool) -> CallRewriteS {
    match take_spec(args, Some(2)) {
        TakenS::Got(es) => CallRewriteS::Replace(
            NewExprS::Call3(
                "DATE_ADD"@,
                Box::new(NewExprS::Str("day"@)),
                Box::new(if negate { NewExprS::Neg(Box::new(NewExprS::Old(es[1]))) } else { NewExprS::Old(es[1]) }),
                Box::new(NewExprS::CastTo(Box::new(NewExprS::Old(es[0])), TypeNew::Date)),
            ),
        ),
        t => failed_take(t),
    }
}

/// `DATEDIFF(a, b)` to `DATE_DIFF('day', CAST(b AS DATE), CAST(a AS DATE))`.
pub open spec fn datediff_spec(args: ArgsView) -> CallRewriteS {
    match take_spec(args, Some(2)) {
        TakenS::Got(es) => CallRewriteS::Replace(
            NewExprS::Call3(
                "DATE_DIFF"@,
                Box::new(NewExprS::Str("day"@)),
                Box::new(NewExprS::CastTo(Box::new(NewExprS::Old(es[1])), TypeNew::Date)),
                Box::new(NewExprS::CastTo(Box::new(NewExprS::Old(es[0])), TypeNew::Date)),
            ),
        ),
        t => failed_take(t),
    }
}

/// `TO_DATE(s)` to `DATE(CAST(s AS TIMESTAMP))`; another argument count is
/// rebuilt as a plain `TO_DATE(..)` call.
pub open spec fn to_date_spec(args: ArgsView) -> CallRewriteS {
    match take_spec(args, None) {
        TakenS::Got(es) => if es.len() == 1 {
            CallRewriteS::Replace(
                NewExprS::Call1("DATE"@, Box::new(NewExprS::CastTo(Box::new(NewExprS::Old(es[0])), TypeNew::Timestamp))),
            )
        } else {
            CallRewriteS::Replace(NewExprS::CallOld("TO_DATE"@, es))
        },
        t => failed_take(t),
    }
}

/// What the Trino rules do to a call, by its lower-cased name.
pub open spec fn trino_call_spec(name: Option<Seq<char>>, args: ArgsView) -> CallRewriteS {
    match name {
        None => CallRewriteS::Keep,
        Some(n) => if n == "rand"@ || n == "rand_integer"@ {
            CallRewriteS::RenameEmptyArgs("RANDOM"@)
        } else if n == "get_json_object"@ {
            CallRewriteS::Rename("JSON_EXTRACT"@)
        } else if n == "array_contains"@ {
            CallRewriteS::Rename("CONTAINS"@)
        } else if n == "base64"@ {
            CallRewriteS::Rename("TO_BASE64"@)
        } else if n == "unbase64"@ {
            CallRewriteS::Rename("FROM_BASE64"@)
        } else if n == "hex"@ {
            CallRewriteS::Rename("TO_HEX"@)
        } else if n == "unhex"@ {
            CallRewriteS::Rename("FROM_HEX"@)
        } else if n == "instr"@ {
            CallRewriteS::Rename("STRPOS"@)
        } else if n == "collect_list"@ {
            CallRewriteS::Rename("ARRAY_AGG"@)
        } else if n == "collect_set"@ {
            collect_set_spec(args)
        } else if n == "pmod"@ {
            pmod_spec(args)
        } else if n == "date_add"@ {
            date_add_spec(args, false)
        } else if n == "date_sub"@ {
            date_add_spec(args, true)
        } else if n == "datediff"@ {
            datediff_spec(args)
        } else if n == "to_date"@ {
            to_date_spec(args)
        } else {
            CallRewriteS::Keep
        },
    }
}

fn collect_set_rule(args: &ArgsView) -> (r: CallRewrite)
    ensures
        r@ == collect_set_spec(*args),
{
    match take_args(args, None) {
        Taken::Got(es) => if es.len() == 1 {
            let x = es[0].clone();
            CallRewrite::Replace(NewExpr::CallDistinct("ARRAY_AGG", x))
        } else {
            CallRewrite::Replace(NewExpr::CallOld("COLLECT_SET", es))
        },
        t => failed_take_rewrite(t),
    }
}

fn pmod_rule(args: &ArgsView) -> (r: CallRewrite)
    ensures
        r@ == pmod_spec(*args),
{
    match take_args(args, Some(2)) {
        Taken::Got(es) => {
            let a = es[0].clone();
            let b = es[1].clone();
            let inner = NewExpr::Binary(Box::new(NewExpr::Old(a)), BinOpNew::Modulo, Box::new(NewExpr::Old(b.clone())));
            let plus = NewExpr::Binary(Box::new(NewExpr::Nested(Box::new(inner))), BinOpNew::Plus, Box::new(NewExpr::Old(b.clone())));
            proof {
                reveal_with_fuel(NewExpr::view_s, 6);
            }
            CallRewrite::Replace(NewExpr::Binary(Box::new(NewExpr::Nested(Box::new(plus))), BinOpNew::Modulo, Box::new(NewExpr::Old(b))))
        },
        t => failed_take_rewrite(t),
    }
}

fn date_add_rule(args: &ArgsView, negate: bool) -> (r: CallRewrite)
    ensures
        r@ == date_add_spec(*args, negate),
{
    match take_args(args, Some(2)) {
        Taken::Got(es) => {
            let d = es[0].clone();
            let n = es[1].clone();
            let signed = if negate {
                NewExpr::Neg(Box::new(NewExpr::Old(n)))
            } else {
                NewExpr::Old(n)
            };
            proof {
                reveal_with_fuel(NewExpr::view_s, 3);
            }
            CallRewrite::Replace(
                NewExpr::Call3(
                    "DATE_ADD",
                    Box::new(NewExpr::Str("day")),
                    Box::new(signed),
                    Box::new(NewExpr::CastTo(Box::new(NewExpr::Old(d)), TypeNew::Date)),
                ),
            )
        },
        t => failed_take_rewrite(t),
    }
}

fn datediff_rule(args: &ArgsView) -> (r: CallRewrite)
    ensures
        r@ == datediff_spec(*args),
{
    match take_args(args, Some(2)) {
        Taken::Got(es) => {
            let a = es[0].clone();
            let b = es[1].clone();
            proof {
                reveal_with_fuel(NewExpr::view_s, 3);
            }
            CallRewrite::Replace(
                NewExpr::Call3(
                    "DATE_DIFF",
                    Box::new(NewExpr::Str("day")),
                    Box::new(NewExpr::CastTo(Box::new(NewExpr::Old(b)), TypeNew::Date)),
                    Box::new(NewExpr::CastTo(Box::new(NewExpr::Old(a)), TypeNew::Date)),
                ),
            )
        },
        t => failed_take_rewrite(t),
    }
}

fn to_date_rule(args: &ArgsView) -> (r: CallRewrite)
    ensures
        r@ == to_date_spec(*args),
{
    match take_args(args, None) {
        Taken::Got(es) => if es.len() == 1 {
            let s = es[0].clone();
            proof {
                reveal_with_fuel(NewExpr::view_s, 3);
            }
            CallRewrite::Replace(
                NewExpr::Call1("DATE", Box::new(NewExpr::CastTo(Box::new(NewExpr::Old(s)), TypeNew::Timestamp))),
            )
        } else {
            CallRewrite::Replace(NewExpr::CallOld("TO_DATE", es))
        },
        t => failed_take_rewrite(t),
    }
}

/// The Trino rule for one call.
pub fn trino_call_rewrite(name: &Option<Vec<char>>, args: &ArgsView) -> (r: CallRewrite)
    ensures
        r@ == trino_call_spec(
            match name {
                Some(n) => Some(n@),
                None => None,
            },
            *args,
        ),
{
    if name_is(name, "rand") || name_is(name, "rand_integer") {
        CallRewrite::RenameEmptyArgs("RANDOM")
    } else if name_is(name, "get_json_object") {
        CallRewrite::Rename("JSON_EXTRACT")
    } else if name_is(name, "array_contains") {
        CallRewrite::Rename("CONTAINS")
    } else if name_is(name, "base64") {
        CallRewrite::Rename("TO_BASE64")
    } else if name_is(name, "unbase64") {
        CallRewrite::Rename("FROM_BASE64")
    } else if name_is(name, "hex") {
        CallRewrite::Rename("TO_HEX")
    } else if name_is(name, "unhex") {
        CallRewrite::Rename("FROM_HEX")
    } else if name_is(name, "instr") {
        CallRewrite::Rename("STRPOS")
    } else if name_is(name, "collect_list") {
        CallRewrite::Rename("ARRAY_AGG")
    } else if name_is(name, "collect_set") {
        collect_set_rule(args)
    } else if name_is(name, "pmod") {
        pmod_rule(args)
    } else if name_is(name, "date_add") {
        date_add_rule(args, false)
    } else if name_is(name, "date_sub") {
        date_add_rule(args, true)
    } else if name_is(name, "datediff") {
        datediff_rule(args)
    } else if name_is(name, "to_date") {
        to_date_rule(args)
    } else {
        CallRewrite::Keep
    }
}

/// One step of the Trino function pass on one node.
pub fn rewrite_expr(e: &mut Expr) -> (r: ControlFlow<()>)
    ensures
        r == ControlFlow::<()>::Continue(()),
{
    if let Some((l, op, r)) = as_binary_op(e) {
        if let Some(p) = rlike_rewrite(l, op, r) {
            *e = build(p);
            return ControlFlow::Continue(());
        }
    }
    if let Some(parts) = as_call(e) {
        let args = view_args(parts.args);
        let name = lower_name(parts.name_last);
        let r = trino_call_rewrite(&name, &args);
        apply_call_rewrite(e, r);
    }
    ControlFlow::Continue(())
}

/// The Trino function pass.
pub struct TrinoFunctionRewriter;

impl TrinoFunctionRewriter {
    /// Run the pass over a statement.
    pub fn rewrite(&self, stmt: &mut sqlparser::ast::Statement) {
        crate::sql::ast::visit_trino_functions(stmt);
    }
}

proof fn lemma_sql_rem(x: int, y: int)
    requires
        y != 0,
    ensures
        ({
            let d = if y < 0 { -y } else { y };
            &&& -d < sql_rem(x, y) < d
            &&& x >= 0 ==> sql_rem(x, y) >= 0
            &&& x - sql_rem(x, y) == sql_quot(x, y) * d
        }),
{
    let d = if y < 0 { -y } else { y };
    assert(d > 0);
    if x >= 0 {
        vstd::arithmetic::div_mod::lemma_fundamental_div_mod(x, d);
        vstd::arithmetic::div_mod::lemma_mod_bound(x, d);
        assert(x - sql_rem(x, y) == (x / d) * d) by (nonlinear_arith)
            requires
                x == d * (x / d) + (x % d),
                sql_rem(x, y) == x % d,
        ;
    } else {
        vstd::arithmetic::div_mod::lemma_fundamental_div_mod(-x, d);
        vstd::arithmetic::div_mod::lemma_mod_bound(-x, d);
        assert(x - sql_rem(x, y) == (-((-x) / d)) * d) by (nonlinear_arith)
            requires
                -x == d * ((-x) / d) + ((-x) % d),
                sql_rem(x, y) == -((-x) % d),
        ;
    }
}

/// The quotient of SQL's truncating division of `x` by `|y|`.
spec fn sql_quot(x: int, y: int) -> int {
    let d = if y < 0 { -y } else { y };
    if x >= 0 {
        x / d
    } else {
        -((-x) / d)
    }
}

/// `PMOD(a, b)` becomes an expression whose value is the positive modulus:
/// for a positive `b` it lies in `[0, b)`, and for every non-zero `b` it is
/// congruent to `a` modulo `b` (it differs from `a` by a multiple of `b`).
pub proof fn law_pmod_is_positive_modulus(args: ArgsView, env: spec_fn(Expr) -> int)
    ensures
        pmod_spec(args) matches CallRewriteS::Replace(p) ==> (take_spec(args, Some(2)) matches TakenS::Got(es) && ({
            let a = env(es[0]);
            let b = env(es[1]);
            let v = int_value(p, env);
            &&& b > 0 ==> 0 <= v < b
            &&& b != 0 ==> exists|q: int| v - a == #[trigger] (q * b)
        })),
{
    if let TakenS::Got(es) = take_spec(args, Some(2)) {
        let a = env(es[0]);
        let b = env(es[1]);
        let p = pmod_plan(es[0], es[1]);
        reveal_with_fuel(int_value, 7);
        let r1 = sql_rem(a, b);
        let s = r1 + b;
        let v = sql_rem(s, b);
        assert(int_value(p, env) == v);
        if b != 0 {
            lemma_sql_rem(a, b);
            lemma_sql_rem(s, b);
            let q1 = sql_quot(a, b);
            let q2 = sql_quot(s, b);
            if b > 0 {
                assert(s > 0);
                assert(v - a == (1 - q1 - q2) * b) by (nonlinear_arith)
                    requires
                        a - r1 == q1 * b,
                        s - v == q2 * b,
                        s == r1 + b,
                ;
            } else {
                assert(v - a == (q1 + q2 + 1) * b) by (nonlinear_arith)
                    requires
                        a - r1 == q1 * (-b),
                        s - v == q2 * (-b),
                        s == r1 + b,
                ;
            }
        }
    }
}

} // verus!
