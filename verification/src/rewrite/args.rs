//! Function calls as the rewrites see them: the lower-cased last part of
//! the name, and the arguments, each with its expression when it is an
//! unnamed (positional) argument.
use vstd::prelude::*;

use crate::sql::ast::{positional_arg, single_quoted_value, CallArgs};
use crate::sql::plan::{NewExpr, NewExprS};
use crate::text::{str_chars, unicode_lower};
use sqlparser::ast::{Expr, FunctionArg};

verus! {

/// One argument: the parser's node, and its expression when it is an
/// unnamed `f(x)` argument.
pub struct ArgView {
    pub raw: FunctionArg,
    pub positional: Option<Expr>,
    /// The value of the argument when it is a single-quoted string
    /// literal.
    pub literal: Option<String>,
}

/// The argument list of a call.
pub enum ArgsView {
    NoList,
    Subquery,
    List(Vec<ArgView>),
}

/// Pair each argument of a list with its positional expression.
pub fn view_args(a: CallArgs) -> (r: ArgsView)
    ensures
        match (a, r) {
            (CallArgs::NoList, ArgsView::NoList) => true,
            (CallArgs::Subquery, ArgsView::Subquery) => true,
            (CallArgs::List(raw), ArgsView::List(v)) => v.len() == raw.len() && forall|i: int|
                0 <= i < v.len() ==> #[trigger] v@[i].raw == raw@[i],
            _ => false,
        },
{
    match a {
        CallArgs::NoList => ArgsView::NoList,
        CallArgs::Subquery => ArgsView::Subquery,
        CallArgs::List(raw) => {
            let mut v: Vec<ArgView> = Vec::new();
            let mut i: usize = 0;
            while i < raw.len()
                invariant
                    i <= raw.len(),
                    v.len() == i,
                    forall|j: int| 0 <= j < i ==> #[trigger] v@[j].raw == raw@[j],
                decreases raw.len() - i,
            {
                let p = positional_arg(&raw[i]);
                let literal = match &p {
                    Some(e) => single_quoted_value(e),
                    None => None,
                };
                v.push(ArgView { raw: raw[i].clone(), positional: p, literal });
                i = i + 1;
            }
            ArgsView::List(v)
        },
    }
}

/// The lower-cased (`str::to_lowercase`) last part of a call's name.
pub fn lower_name(name_last: Option<String>) -> (r: Option<Vec<char>>)
    ensures
        match (name_last, r) {
            (Some(n), Some(l)) => l@ == unicode_lower(n@),
            (None, None) => true,
            _ => false,
        },
{
    match name_last {
        Some(n) => Some(str_chars(&crate::text::to_lowercase(n.as_str()))),
        None => None,
    }
}

/// Whether the lower-cased name is the literal `lit`.
pub fn name_is(name: &Option<Vec<char>>, lit: &str) -> (r: bool)
    ensures
        r == (name matches Some(n) && n@ == lit@),
{
    match name {
        Some(n) => crate::preprocess::connect_by::same(n, &str_chars(lit)),
        None => false,
    }
}

/// The first argument, at or after `start`, that is not positional.
pub open spec fn first_non_positional(l: Seq<ArgView>, start: int) -> Option<int>
    decreases l.len() - start,
{
    if start < 0 || start >= l.len() {
        None
    } else if l[start].positional is None {
        Some(start)
    } else {
        first_non_positional(l, start + 1)
    }
}

/// The expressions of a list whose arguments are all positional.
pub open spec fn positionals(l: Seq<ArgView>) -> Seq<Expr> {
    l.map_values(|a: ArgView| a.positional->Some_0)
}

/// What taking the positional arguments out of a call leaves.
pub enum Taken {
    /// Every argument was positional; these are their expressions (the
    /// list is left empty).
    Got(Vec<Expr>),
    /// An argument was not positional: it is what is left in the list
    /// (the arguments taken before it are gone).
    Left(FunctionArg),
    /// The call was not touched (no list, or not `n` arguments).
    Untouched,
}

/// The outcome of taking the arguments out of a call, as values.
pub enum TakenS {
    Got(Seq<Expr>),
    Left(FunctionArg),
    Untouched,
}

impl View for Taken {
    type V = TakenS;

    open spec fn view(&self) -> TakenS {
        match self {
            Taken::Got(v) => TakenS::Got(v@),
            Taken::Left(a) => TakenS::Left(*a),
            Taken::Untouched => TakenS::Untouched,
        }
    }
}

/// Taking the positional arguments out of a call's list: all of them
/// (`n` is `None`), or exactly `n` of them (a list of another length is
/// left alone). The arguments move out one by one; at the first one that
/// is not positional the move stops (the caller then leaves the call as
/// it is).
pub open spec fn take_spec(args: ArgsView, n: Option<nat>) -> TakenS {
    match args {
        ArgsView::List(l) => if n matches Some(k) && l.len() != k {
            TakenS::Untouched
        } else {
            match first_non_positional(l@, 0) {
                Some(i) => TakenS::Left(l@[i].raw),
                None => TakenS::Got(positionals(l@)),
            }
        },
        _ => TakenS::Untouched,
    }
}

pub fn take_args(args: &ArgsView, n: Option<usize>) -> (r: Taken)
    ensures
        r@ == take_spec(*args, match n {
            Some(k) => Some(k as nat),
            None => None,
        }),
{
    match args {
        ArgsView::List(l) => {
            if let Some(k) = n {
                if l.len() != k {
                    return Taken::Untouched;
                }
            }
            let mut out: Vec<Expr> = Vec::new();
            let mut i: usize = 0;
            while i < l.len()
                invariant
                    *args == ArgsView::List(*l),
                    n matches Some(k) ==> l.len() == k,
                    i <= l.len(),
                    out.len() == i,
                    forall|j: int| 0 <= j < i ==> (#[trigger] l@[j]).positional is Some,
                    forall|j: int| 0 <= j < i ==> #[trigger] out@[j] == l@[j].positional->Some_0,
                    first_non_positional(l@, 0) == first_non_positional(l@, i as int),
                decreases l.len() - i,
            {
                match &l[i].positional {
                    Some(e) => {
                        out.push(e.clone());
                        assert(first_non_positional(l@, i as int) == first_non_positional(l@, i + 1));
                    },
                    None => {
                        assert(first_non_positional(l@, i as int) == Some(i as int));
                        return Taken::Left(l[i].raw.clone());
                    },
                }
                i = i + 1;
            }
            assert(out@ =~= positionals(l@));
            assert(first_non_positional(l@, i as int) is None);
            Taken::Got(out)
        },
        _ => Taken::Untouched,
    }
}

/// What a rewrite does to a function call node.
pub enum CallRewrite {
    Keep,
    /// Replace the arguments inside the call's list.
    SetListArgs(Vec<FunctionArg>),
    /// Rename the call (single-part name).
    Rename(&'static str),
    /// Rename the call and drop its argument list.
    RenameNoArgs(&'static str),
    /// Rename the call and give it a fresh empty list `()`.
    RenameEmptyArgs(&'static str),
    /// Replace the arguments inside the call's list by these unnamed ones.
    SetListPositional(Vec<NewExpr>),
    /// Replace the whole node.
    Replace(NewExpr),
}

/// What a rewrite does to a call, as a value.
pub enum CallRewriteS {
    Keep,
    SetListArgs(Seq<FunctionArg>),
    Rename(Seq<char>),
    RenameNoArgs(Seq<char>),
    RenameEmptyArgs(Seq<char>),
    SetListPositional(Seq<NewExprS>),
    Replace(NewExprS),
}

impl View for CallRewrite {
    type V = CallRewriteS;

    open spec fn view(&self) -> CallRewriteS {
        match self {
            CallRewrite::Keep => CallRewriteS::Keep,
            CallRewrite::SetListArgs(v) => CallRewriteS::SetListArgs(v@),
            CallRewrite::Rename(n) => CallRewriteS::Rename(n@),
            CallRewrite::RenameNoArgs(n) => CallRewriteS::RenameNoArgs(n@),
            CallRewrite::RenameEmptyArgs(n) => CallRewriteS::RenameEmptyArgs(n@),
            CallRewrite::SetListPositional(v) => CallRewriteS::SetListPositional(v@.map_values(|p: NewExpr| p@)),
            CallRewrite::Replace(p) => CallRewriteS::Replace(p@),
        }
    }
}

/// The arguments of a call whose list holds only positional arguments,
/// read without taking them out.
pub open spec fn peek_spec(args: ArgsView) -> Option<Seq<ArgView>> {
    match args {
        ArgsView::List(l) => if first_non_positional(l@, 0) is None {
            Some(l@)
        } else {
            None
        },
        _ => None,
    }
}

/// When no argument from `start` on is non-positional, all of them are
/// positional.
pub proof fn lemma_no_non_positional(l: Seq<ArgView>, start: int)
    requires
        0 <= start,
        first_non_positional(l, start) is None,
    ensures
        forall|i: int| start <= i < l.len() ==> (#[trigger] l[i]).positional is Some,
    decreases l.len() - start,
{
    if start < l.len() {
        lemma_no_non_positional(l, start + 1);
    }
}

pub fn all_positional(l: &Vec<ArgView>) -> (r: bool)
    ensures
        r == (first_non_positional(l@, 0) is None),
        r ==> forall|i: int| 0 <= i < l.len() ==> (#[trigger] l@[i]).positional is Some,
{
    let mut i: usize = 0;
    while i < l.len()
        invariant
            i <= l.len(),
            first_non_positional(l@, 0) == first_non_positional(l@, i as int),
        decreases l.len() - i,
    {
        if l[i].positional.is_none() {
            return false;
        }
        i = i + 1;
    }
    proof {
        lemma_no_non_positional(l@, 0);
    }
    true
}

/// What a call becomes when taking its arguments failed (a list of
/// another length, or an argument that is not positional): the arguments
/// are put back and the call stays as it is.
pub open spec fn failed_take(t: TakenS) -> CallRewriteS {
    CallRewriteS::Keep
}

pub fn failed_take_rewrite(t: Taken) -> (r: CallRewrite)
    ensures
        r@ == failed_take(t@),
{
    CallRewrite::Keep
}

} // verus!
