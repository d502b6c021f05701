//! The output dialect the translator emits for.
//!
//! All translation pipelines parse their input the same way and run the same
//! structural rewrites; they diverge only in function mappings, type names
//! and a few syntactic quirks, selected by [`Target`].
use vstd::prelude::*;

use crate::text::{lower_seq, str_chars, string_from_chars, trim_chars, trim_ws, lower_vec};

verus! {

/// Which SQL dialect the translator should emit.
#[derive(Debug, Clone, Copy, PartialEq, Eq, Hash)]
pub enum Target {
    /// Spark SQL (default).
    Spark,
    /// Trino SQL.
    Trino,
}

pub open spec fn spark_name() -> Seq<char> {
    seq!['s', 'p', 'a', 'r', 'k']
}

pub open spec fn trino_name() -> Seq<char> {
    seq!['t', 'r', 'i', 'n', 'o']
}

pub open spec fn presto_name() -> Seq<char> {
    seq!['p', 'r', 'e', 's', 't', 'o']
}

/// The target a (trimmed, lower-cased) name selects.
pub open spec fn target_of_name(n: Seq<char>) -> Option<Target> {
    if n == spark_name() {
        Some(Target::Spark)
    } else if n == trino_name() || n == presto_name() {
        Some(Target::Trino)
    } else {
        None
    }
}

/// The target a CLI-style string selects: surrounding whitespace is ignored
/// and letters are compared without regard to ASCII case.
pub open spec fn parse_target(s: Seq<char>) -> Option<Target> {
    target_of_name(lower_seq(trim_ws(s)))
}

/// The canonical name of a target.
pub open spec fn target_name(t: Target) -> Seq<char> {
    match t {
        Target::Spark => spark_name(),
        Target::Trino => trino_name(),
    }
}

fn same_chars(v: &Vec<char>, w: &[char]) -> (r: bool)
    ensures
        r == (v@ == w@),
{
    if v.len() != w.len() {
        return false;
    }
    let mut k: usize = 0;
    while k < v.len()
        invariant
            v.len() == w.len(),
            k <= v.len(),
            forall|j: int| 0 <= j < k ==> v@[j] == w@[j],
        decreases v.len() - k,
    {
        if v[k] != w[k] {
            return false;
        }
        k = k + 1;
    }
    assert(v@ =~= w@);
    true
}

impl Target {
    /// Parse a target from a CLI-style string (case-insensitive):
    /// `spark` selects Spark, `trino` and `presto` select Trino.
    pub fn parse(s: &str) -> (r: Option<Target>)
        ensures
            r == parse_target(s@),
    {
        let chars = str_chars(s);
        let name = lower_vec(&trim_chars(&chars));
        let spark = ['s', 'p', 'a', 'r', 'k'];
        let trino = ['t', 'r', 'i', 'n', 'o'];
        let presto = ['p', 'r', 'e', 's', 't', 'o'];
        assert(spark@ =~= spark_name());
        assert(trino@ =~= trino_name());
        assert(presto@ =~= presto_name());
        if same_chars(&name, &spark) {
            Some(Target::Spark)
        } else if same_chars(&name, &trino) || same_chars(&name, &presto) {
            Some(Target::Trino)
        } else {
            None
        }
    }

    /// Human-readable name for logs and help text.
    pub fn as_str(self) -> (r: &'static str)
        ensures
            r@ == target_name(self),
    {
        match self {
            Target::Spark => {
                proof {
                    reveal_strlit("spark");
                }
                "spark"
            },
            Target::Trino => {
                proof {
                    reveal_strlit("trino");
                }
                "trino"
            },
        }
    }

    /// The name as an owned string (the text a `Display` of it gives).
    pub fn to_string(self) -> (r: String)
        ensures
            r@ == target_name(self),
    {
        let mut v: Vec<char> = Vec::new();
        match self {
            Target::Spark => {
                v.push('s'); v.push('p'); v.push('a'); v.push('r'); v.push('k');
            },
            Target::Trino => {
                v.push('t'); v.push('r'); v.push('i'); v.push('n'); v.push('o');
            },
        }
        assert(v@ =~= target_name(self));
        string_from_chars(v)
    }
}

/// Every target's name parses back to that target.
pub proof fn lemma_parse_name_roundtrip(t: Target)
    ensures
        parse_target(target_name(t)) == Some(t),
{
    let n = target_name(t);
    assert(trim_ws(n) == n) by {
        reveal_with_fuel(crate::text::trim_start_by, 2);
        reveal_with_fuel(crate::text::trim_end_ws, 2);
    }
    assert(lower_seq(n) =~= n);
}

} // verus!
