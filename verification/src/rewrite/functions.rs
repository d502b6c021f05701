//! Function and operator rewrites toward Spark SQL.
//!
//! | input                     | output                                      |
//! |---------------------------|---------------------------------------------|
//! | `NVL(a, b)`               | `COALESCE(a, b)`                            |
//! | `NVL2(a, b, c)`           | `CASE WHEN a IS NOT NULL THEN b ELSE c END` |
//! | `DECODE(x, k1, v1, .., d)`| `CASE WHEN x = k1 THEN v1 .. ELSE d END`    |
//! | `SUBSTR(x, s, l)`         | `SUBSTRING(x, s, l)`                        |
//! | `MOD(a, b)`               | `a % b`                                     |
//! | `x::INT`                  | `CAST(x AS INT)`                            |
//! | `x ~ p`                   | `x RLIKE p`                                 |
//! | `x ~* p`                  | `LOWER(x) RLIKE LOWER(p)`                   |
//! | `x !~ p` / `x !~* p`      | `NOT` of the above                          |
//! | `SYSDATE` / `NOW()`       | `CURRENT_TIMESTAMP`                         |
//! | `RANDOM()`                | `RAND()`                                    |
//!
//! The rules apply to every expression, children before parents, so nested
//! calls are rewritten from the inside out.
use vstd::prelude::*;

use crate::date_format::{contains_date_format_token, has_date_token, pg_date_format, translate_pg_date_format};
use crate::function_catalog::{lookup, lookup_spec, Disposition};
use crate::rewrite::args::{
    all_positional, failed_take, failed_take_rewrite, lower_name, name_is, peek_spec, take_args, take_spec,
    view_args, ArgView, ArgsView, CallRewrite, CallRewriteS, Taken, TakenS,
};
use crate::text::{slice_chars, str_chars, string_from_chars};
use crate::sql::ast::{
    as_binary_op, as_call, as_cast, clear_call_args, set_call_list_args, set_call_name,
    set_cast_kind_standard, BinOpNew, BinOpTag, CastTag,
};
use crate::sql::plan::{build, NewExpr, NewExprS};
use core::ops::ControlFlow;
use sqlparser::ast::Expr;

verus! {

/// The replacement of a PostgreSQL regular-expression match.
pub open spec fn regex_spec(l: Expr, op: BinOpTag, r: Expr) -> Option<NewExprS> {
    let plain = NewExprS::Binary(Box::new(NewExprS::Old(l)), BinOpNew::Rlike, Box::new(NewExprS::Old(r)));
    let folded = NewExprS::Binary(
        Box::new(NewExprS::Call1("LOWER"@, Box::new(NewExprS::Old(l)))),
        BinOpNew::Rlike,
        Box::new(NewExprS::Call1("LOWER"@, Box::new(NewExprS::Old(r)))),
    );
    match op {
        BinOpTag::RegexMatch => Some(plain),
        BinOpTag::RegexIMatch => Some(folded),
        BinOpTag::RegexNotMatch => Some(NewExprS::Not(Box::new(NewExprS::Nested(Box::new(plain))))),
        BinOpTag::RegexNotIMatch => Some(NewExprS::Not(Box::new(NewExprS::Nested(Box::new(folded))))),
        _ => None,
    }
}

/// `x ~ p` to `x RLIKE p`, `x ~* p` to `LOWER(x) RLIKE LOWER(p)`, and their
/// negations to `NOT (..)`; `None` for any other operator.
pub fn regex_rewrite(l: Expr, op: BinOpTag, r: Expr) -> (p: Option<NewExpr>)
    ensures
        match p {
            Some(x) => regex_spec(l, op, r) == Some(x@),
            None => regex_spec(l, op, r) is None,
        },
{
    let (negated, folded) = match op {
        BinOpTag::RegexMatch => (false, false),
        BinOpTag::RegexIMatch => (false, true),
        BinOpTag::RegexNotMatch => (true, false),
        BinOpTag::RegexNotIMatch => (true, true),
        _ => {
            return None;
        },
    };
    let (a, b) = if folded {
        (NewExpr::Call1("LOWER", Box::new(NewExpr::Old(l))), NewExpr::Call1("LOWER", Box::new(NewExpr::Old(r))))
    } else {
        (NewExpr::Old(l), NewExpr::Old(r))
    };
    let m = NewExpr::Binary(Box::new(a), BinOpNew::Rlike, Box::new(b));
    proof {
        reveal_with_fuel(NewExpr::view_s, 5);
    }
    if negated {
        Some(NewExpr::Not(Box::new(NewExpr::Nested(Box::new(m)))))
    } else {
        Some(m)
    }
}

/// `DECODE(x, k1, v1, k2, v2, .., [d])`: the keys and results after `x`,
/// pairwise, and the default when the count after `x` is odd.
pub open spec fn decode_keys(rest: Seq<Expr>) -> Seq<Expr> {
    Seq::new((rest.len() / 2) as nat, |i: int| rest[2 * i])
}

pub open spec fn decode_results(rest: Seq<Expr>) -> Seq<Expr> {
    Seq::new((rest.len() / 2) as nat, |i: int| rest[2 * i + 1])
}

pub open spec fn decode_default(rest: Seq<Expr>) -> Option<Expr> {
    if rest.len() % 2 == 1 {
        Some(rest.last())
    } else {
        None
    }
}

pub open spec fn decode_plan(es: Seq<Expr>) -> NewExprS
    recommends
        es.len() >= 1,
{
    let rest = es.drop_first();
    NewExprS::Decode(es[0], decode_keys(rest), decode_results(rest), decode_default(rest))
}

fn decode_new(es: Vec<Expr>) -> (p: NewExpr)
    requires
        es.len() >= 1,
    ensures
        p@ == decode_plan(es@),
{
    let ghost rest = es@.drop_first();
    let n = es.len() - 1;
    let pairs = n / 2;
    let mut keys: Vec<Expr> = Vec::new();
    let mut results: Vec<Expr> = Vec::new();
    let mut i: usize = 0;
    while i < pairs
        invariant
            es.len() >= 1,
            rest == es@.drop_first(),
            n == rest.len(),
            n == es.len() - 1,
            pairs == n / 2,
            i <= pairs,
            keys@ == decode_keys(rest).take(i as int),
            results@ == decode_results(rest).take(i as int),
        decreases pairs - i,
    {
        assert(2 * i + 2 <= n) by (nonlinear_arith)
            requires
                i < pairs,
                pairs == n / 2,
        ;
        keys.push(es[1 + 2 * i].clone());
        results.push(es[2 + 2 * i].clone());
        assert(keys@ =~= decode_keys(rest).take(i + 1));
        assert(results@ =~= decode_results(rest).take(i + 1));
        i = i + 1;
    }
    assert(keys@ =~= decode_keys(rest));
    assert(results@ =~= decode_results(rest));
    let default = if n % 2 == 1 {
        Some(es[n].clone())
    } else {
        None
    };
    NewExpr::Decode(es[0].clone(), keys, results, default)
}

/// `NVL(a, b)` to `COALESCE(a, b)`.
pub open spec fn nvl_spec(args: ArgsView) -> CallRewriteS {
    match take_spec(args, Some(2)) {
        TakenS::Got(es) => CallRewriteS::Replace(NewExprS::CallOld("COALESCE"@, es)),
        t => failed_take(t),
    }
}

/// `NVL2(a, b, c)` to `CASE WHEN a IS NOT NULL THEN b ELSE c END`.
pub open spec fn nvl2_spec(args: ArgsView) -> CallRewriteS {
    match take_spec(args, Some(3)) {
        TakenS::Got(es) => CallRewriteS::Replace(NewExprS::NullCase(es[0], es[1], es[2])),
        t => failed_take(t),
    }
}

/// `DECODE(x, k1, v1, .., [d])` to a `CASE`; with fewer than three
/// arguments the call is left as it is.
pub open spec fn decode_spec(args: ArgsView) -> CallRewriteS {
    match take_spec(args, None) {
        TakenS::Got(es) => if es.len() >= 3 {
            CallRewriteS::Replace(decode_plan(es))
        } else {
            CallRewriteS::Keep
        },
        t => failed_take(t),
    }
}

/// `MOD(a, b)` to `a % b`.
pub open spec fn mod_spec(args: ArgsView) -> CallRewriteS {
    match take_spec(args, Some(2)) {
        TakenS::Got(es) => CallRewriteS::Replace(
            NewExprS::Binary(Box::new(NewExprS::Old(es[0])), BinOpNew::Modulo, Box::new(NewExprS::Old(es[1]))),
        ),
        t => failed_take(t),
    }
}

pub open spec fn pos(a: ArgView) -> Expr
    recommends
        a.positional is Some,
{
    a.positional->Some_0
}

/// `POSITION(needle, haystack)` to `INSTR(haystack, needle)`.
pub open spec fn position_spec(args: ArgsView) -> CallRewriteS {
    match peek_spec(args) {
        Some(l) => if l.len() == 2 {
            CallRewriteS::Replace(NewExprS::CallOld("INSTR"@, seq![pos(l[1]), pos(l[0])]))
        } else {
            CallRewriteS::Keep
        },
        None => CallRewriteS::Keep,
    }
}

/// `STRING_AGG(x, sep)` to `CONCAT_WS(sep, COLLECT_LIST(x))`.
pub open spec fn string_agg_spec(args: ArgsView) -> CallRewriteS {
    match peek_spec(args) {
        Some(l) => if l.len() == 2 {
            CallRewriteS::Replace(
                NewExprS::Call2(
                    "CONCAT_WS"@,
                    Box::new(NewExprS::Old(pos(l[1]))),
                    Box::new(NewExprS::Call1("COLLECT_LIST"@, Box::new(NewExprS::Old(pos(l[0]))))),
                ),
            )
        } else {
            CallRewriteS::Keep
        },
        None => CallRewriteS::Keep,
    }
}

/// `TRUNC(d, 'unit')` to `DATE_TRUNC('unit', d)`; with a non-literal
/// second argument (a numeric `TRUNC`) the call stays.
pub open spec fn trunc_spec(args: ArgsView) -> CallRewriteS {
    match peek_spec(args) {
        Some(l) => if l.len() == 2 && l[1].literal is Some {
            CallRewriteS::Replace(NewExprS::CallOld("DATE_TRUNC"@, seq![pos(l[1]), pos(l[0])]))
        } else {
            CallRewriteS::Keep
        },
        None => CallRewriteS::Keep,
    }
}

/// `REGEXP_SUBSTR(s, p, ..)` to `REGEXP_EXTRACT(s, p, 0)`; position and
/// occurrence arguments are dropped.
pub open spec fn regexp_substr_spec(args: ArgsView) -> CallRewriteS {
    match peek_spec(args) {
        Some(l) => if l.len() >= 2 {
            CallRewriteS::Replace(
                NewExprS::Call3(
                    "REGEXP_EXTRACT"@,
                    Box::new(NewExprS::Old(pos(l[0]))),
                    Box::new(NewExprS::Old(pos(l[1]))),
                    Box::new(NewExprS::Num("0"@)),
                ),
            )
        } else {
            CallRewriteS::Keep
        },
        None => CallRewriteS::Keep,
    }
}

/// `TO_CHAR(d, 'fmt')` with a date format to `DATE_FORMAT(d, 'fmt'')`,
/// the format's tokens translated; numeric formats stay.
pub open spec fn to_char_spec(args: ArgsView) -> CallRewriteS {
    match peek_spec(args) {
        Some(l) => if l.len() == 2 && l[1].literal is Some && has_date_token(l[1].literal->Some_0@) {
            CallRewriteS::Replace(
                NewExprS::Call2(
                    "DATE_FORMAT"@,
                    Box::new(NewExprS::Old(pos(l[0]))),
                    Box::new(NewExprS::StrOwned(pg_date_format(l[1].literal->Some_0@))),
                ),
            )
        } else {
            CallRewriteS::Keep
        },
        None => CallRewriteS::Keep,
    }
}

/// `TO_DATE(s, 'fmt')` / `TO_TIMESTAMP(s, 'fmt')`: the name stays, the
/// format literal's tokens are translated.
pub open spec fn format_arg_spec(args: ArgsView) -> CallRewriteS {
    match peek_spec(args) {
        Some(l) => if l.len() == 2 && l[1].literal is Some {
            CallRewriteS::SetListPositional(
                seq![NewExprS::Old(pos(l[0])), NewExprS::StrOwned(pg_date_format(l[1].literal->Some_0@))],
            )
        } else {
            CallRewriteS::Keep
        },
        None => CallRewriteS::Keep,
    }
}

/// A name the function registry maps to another name is renamed.
pub open spec fn registry_rename_spec(n: Seq<char>) -> CallRewriteS {
    match lookup_spec(n) {
        Some(e) => match e.disposition {
            Disposition::Rename(new) => CallRewriteS::Rename(new@),
            _ => CallRewriteS::Keep,
        },
        None => CallRewriteS::Keep,
    }
}

/// What the Spark rules do to a call, given its lower-cased name and its
/// arguments: the call-shape rules by name, else the registry's rename.
pub open spec fn spark_call_spec(name: Option<Seq<char>>, args: ArgsView) -> CallRewriteS {
    match name {
        None => CallRewriteS::Keep,
        Some(n) => if n == "nvl"@ {
            nvl_spec(args)
        } else if n == "nvl2"@ {
            nvl2_spec(args)
        } else if n == "decode"@ {
            decode_spec(args)
        } else if n == "mod"@ {
            mod_spec(args)
        } else if n == "sysdate"@ || n == "now"@ {
            CallRewriteS::RenameNoArgs("CURRENT_TIMESTAMP"@)
        } else if n == "position"@ {
            position_spec(args)
        } else if n == "string_agg"@ {
            string_agg_spec(args)
        } else if n == "trunc"@ {
            trunc_spec(args)
        } else if n == "regexp_substr"@ {
            regexp_substr_spec(args)
        } else if n == "to_char"@ {
            to_char_spec(args)
        } else if n == "to_date"@ || n == "to_timestamp"@ {
            format_arg_spec(args)
        } else {
            registry_rename_spec(n)
        },
    }
}

fn nvl_rule(args: &ArgsView) -> (r: CallRewrite)
    ensures
        r@ == nvl_spec(*args),
{
    match take_args(args, Some(2)) {
        Taken::Got(es) => CallRewrite::Replace(NewExpr::CallOld("COALESCE", es)),
        t => failed_take_rewrite(t),
    }
}

fn nvl2_rule(args: &ArgsView) -> (r: CallRewrite)
    ensures
        r@ == nvl2_spec(*args),
{
    match take_args(args, Some(3)) {
        Taken::Got(es) => {
            let a = es[0].clone();
            let b = es[1].clone();
            let c = es[2].clone();
            CallRewrite::Replace(NewExpr::NullCase(a, b, c))
        },
        t => failed_take_rewrite(t),
    }
}

fn decode_rule(args: &ArgsView) -> (r: CallRewrite)
    ensures
        r@ == decode_spec(*args),
{
    match take_args(args, None) {
        Taken::Got(es) => if es.len() >= 3 {
            CallRewrite::Replace(decode_new(es))
        } else {
            CallRewrite::Keep
        },
        t => failed_take_rewrite(t),
    }
}

fn mod_rule(args: &ArgsView) -> (r: CallRewrite)
    ensures
        r@ == mod_spec(*args),
{
    match take_args(args, Some(2)) {
        Taken::Got(es) => {
            let a = es[0].clone();
            let b = es[1].clone();
            proof {
                reveal_with_fuel(NewExpr::view_s, 2);
            }
            CallRewrite::Replace(NewExpr::Binary(Box::new(NewExpr::Old(a)), BinOpNew::Modulo, Box::new(NewExpr::Old(b))))
        },
        t => failed_take_rewrite(t),
    }
}

fn peek(args: &ArgsView) -> (r: Option<&Vec<ArgView>>)
    ensures
        match (r, peek_spec(*args)) {
            (Some(l), Some(s)) => l@ == s,
            (None, None) => true,
            _ => false,
        },
        r matches Some(l) ==> forall|i: int| 0 <= i < l.len() ==> (#[trigger] l@[i]).positional is Some,
{
    match args {
        ArgsView::List(l) => if all_positional(l) {
            Some(l)
        } else {
            None
        },
        _ => None,
    }
}

fn arg_expr(a: &ArgView) -> (r: Expr)
    requires
        a.positional is Some,
    ensures
        r == pos(*a),
{
    match &a.positional {
        Some(e) => e.clone(),
        None => {
            assert(false);
            a.positional.clone().unwrap()
        },
    }
}

fn position_rule(args: &ArgsView) -> (r: CallRewrite)
    ensures
        r@ == position_spec(*args),
{
    match peek(args) {
        Some(l) => if l.len() == 2 {
            let mut v: Vec<Expr> = Vec::new();
            v.push(arg_expr(&l[1]));
            v.push(arg_expr(&l[0]));
            assert(v@ =~= seq![pos(l@[1]), pos(l@[0])]);
            CallRewrite::Replace(NewExpr::CallOld("INSTR", v))
        } else {
            CallRewrite::Keep
        },
        None => CallRewrite::Keep,
    }
}

fn string_agg_rule(args: &ArgsView) -> (r: CallRewrite)
    ensures
        r@ == string_agg_spec(*args),
{
    match peek(args) {
        Some(l) => if l.len() == 2 {
            proof {
                reveal_with_fuel(NewExpr::view_s, 3);
            }
            CallRewrite::Replace(
                NewExpr::Call2(
                    "CONCAT_WS",
                    Box::new(NewExpr::Old(arg_expr(&l[1]))),
                    Box::new(NewExpr::Call1("COLLECT_LIST", Box::new(NewExpr::Old(arg_expr(&l[0]))))),
                ),
            )
        } else {
            CallRewrite::Keep
        },
        None => CallRewrite::Keep,
    }
}

fn trunc_rule(args: &ArgsView) -> (r: CallRewrite)
    ensures
        r@ == trunc_spec(*args),
{
    match peek(args) {
        Some(l) => if l.len() == 2 && l[1].literal.is_some() {
            let mut v: Vec<Expr> = Vec::new();
            v.push(arg_expr(&l[1]));
            v.push(arg_expr(&l[0]));
            assert(v@ =~= seq![pos(l@[1]), pos(l@[0])]);
            CallRewrite::Replace(NewExpr::CallOld("DATE_TRUNC", v))
        } else {
            CallRewrite::Keep
        },
        None => CallRewrite::Keep,
    }
}

fn regexp_substr_rule(args: &ArgsView) -> (r: CallRewrite)
    ensures
        r@ == regexp_substr_spec(*args),
{
    match peek(args) {
        Some(l) => if l.len() >= 2 {
            proof {
                reveal_with_fuel(NewExpr::view_s, 2);
            }
            CallRewrite::Replace(
                NewExpr::Call3(
                    "REGEXP_EXTRACT",
                    Box::new(NewExpr::Old(arg_expr(&l[0]))),
                    Box::new(NewExpr::Old(arg_expr(&l[1]))),
                    Box::new(NewExpr::Num("0")),
                ),
            )
        } else {
            CallRewrite::Keep
        },
        None => CallRewrite::Keep,
    }
}

fn to_char_rule(args: &ArgsView) -> (r: CallRewrite)
    ensures
        r@ == to_char_spec(*args),
{
    match peek(args) {
        Some(l) => if l.len() == 2 {
            match &l[1].literal {
                Some(f) => {
                    if contains_date_format_token(f.as_str()) {
                        proof {
                            reveal_with_fuel(NewExpr::view_s, 2);
                        }
                        let fmt = translate_pg_date_format(f.as_str());
                        CallRewrite::Replace(
                            NewExpr::Call2("DATE_FORMAT", Box::new(NewExpr::Old(arg_expr(&l[0]))), Box::new(NewExpr::StrOwned(fmt))),
                        )
                    } else {
                        CallRewrite::Keep
                    }
                },
                None => CallRewrite::Keep,
            }
        } else {
            CallRewrite::Keep
        },
        None => CallRewrite::Keep,
    }
}

fn format_arg_rule(args: &ArgsView) -> (r: CallRewrite)
    ensures
        r@ == format_arg_spec(*args),
{
    match peek(args) {
        Some(l) => if l.len() == 2 {
            match &l[1].literal {
                Some(f) => {
                    let fmt = translate_pg_date_format(f.as_str());
                    let mut v: Vec<NewExpr> = Vec::new();
                    v.push(NewExpr::Old(arg_expr(&l[0])));
                    v.push(NewExpr::StrOwned(fmt));
                    let r = CallRewrite::SetListPositional(v);
                    assert(v@.map_values(|p: NewExpr| p@) =~= seq![
                        NewExprS::Old(pos(l@[0])),
                        NewExprS::StrOwned(pg_date_format(l@[1].literal->Some_0@)),
                    ]);
                    r
                },
                None => CallRewrite::Keep,
            }
        } else {
            CallRewrite::Keep
        },
        None => CallRewrite::Keep,
    }
}

fn registry_rename(n: &Vec<char>) -> (r: CallRewrite)
    ensures
        r@ == registry_rename_spec(n@),
{
    let copy = slice_chars(n, 0, n.len());
    assert(copy@ =~= n@);
    match lookup(string_from_chars(copy).as_str()) {
        Some(e) => match e.disposition {
            Disposition::Rename(new) => CallRewrite::Rename(new),
            _ => CallRewrite::Keep,
        },
        None => CallRewrite::Keep,
    }
}

/// The Spark rule for one call.
pub fn spark_call_rewrite(name: &Option<Vec<char>>, args: &ArgsView) -> (r: CallRewrite)
    ensures
        r@ == spark_call_spec(
            match name {
                Some(n) => Some(n@),
                None => None,
            },
            *args,
        ),
{
    if name_is(name, "nvl") {
        nvl_rule(args)
    } else if name_is(name, "nvl2") {
        nvl2_rule(args)
    } else if name_is(name, "decode") {
        decode_rule(args)
    } else if name_is(name, "mod") {
        mod_rule(args)
    } else if name_is(name, "sysdate") || name_is(name, "now") {
        CallRewrite::RenameNoArgs("CURRENT_TIMESTAMP")
    } else if name_is(name, "position") {
        position_rule(args)
    } else if name_is(name, "string_agg") {
        string_agg_rule(args)
    } else if name_is(name, "trunc") {
        trunc_rule(args)
    } else if name_is(name, "regexp_substr") {
        regexp_substr_rule(args)
    } else if name_is(name, "to_char") {
        to_char_rule(args)
    } else if name_is(name, "to_date") || name_is(name, "to_timestamp") {
        format_arg_rule(args)
    } else {
        match name {
            Some(n) => registry_rename(n),
            None => CallRewrite::Keep,
        }
    }
}

/// Carry out a call rewrite on the node.
pub fn apply_call_rewrite(e: &mut Expr, r: CallRewrite) {
    match r {
        CallRewrite::Keep => {},
        CallRewrite::SetListArgs(a) => set_call_list_args(e, a),
        CallRewrite::Rename(n) => set_call_name(e, n),
        CallRewrite::RenameNoArgs(n) => {
            set_call_name(e, n);
            clear_call_args(e);
        },
        CallRewrite::RenameEmptyArgs(n) => {
            set_call_name(e, n);
            crate::sql::ast::set_call_args_empty(e);
        },
        CallRewrite::SetListPositional(ps) => {
            let mut args: Vec<sqlparser::ast::FunctionArg> = Vec::new();
            let mut ps = ps;
            let n = ps.len();
            let mut i: usize = 0;
            while i < n
                invariant
                    ps.len() == n - i,
                    i <= n,
                decreases n - i,
            {
                let p = ps.remove(0);
                args.push(crate::sql::ast::unnamed_arg(build(p)));
                i = i + 1;
            }
            set_call_list_args(e, args);
        },
        CallRewrite::Replace(p) => {
            *e = build(p);
        },
    }
}

/// One step of the Spark function pass on one node: a `::` cast becomes
/// `CAST`, a regular-expression match becomes `RLIKE`, and a call goes
/// through [`spark_call_rewrite`].
pub fn rewrite_expr(e: &mut Expr) -> (r: ControlFlow<()>)
    ensures
        r == ControlFlow::<()>::Continue(()),
{
    if let Some((CastTag::DoubleColon, _)) = as_cast(e) {
        set_cast_kind_standard(e);
    }
    if let Some((l, op, r)) = as_binary_op(e) {
        if let Some(p) = regex_rewrite(l, op, r) {
            *e = build(p);
            return ControlFlow::Continue(());
        }
    }
    if let Some(parts) = as_call(e) {
        let args = view_args(parts.args);
        let name = lower_name(parts.name_last);
        let r = spark_call_rewrite(&name, &args);
        apply_call_rewrite(e, r);
    }
    ControlFlow::Continue(())
}

/// The Spark function and operator pass.
pub struct FunctionRewriter;

impl FunctionRewriter {
    /// Run the pass over a statement.
    pub fn rewrite(&self, stmt: &mut sqlparser::ast::Statement) {
        crate::sql::ast::visit_spark_functions(stmt);
    }
}

} // verus!
