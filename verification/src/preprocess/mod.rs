//! Text-level preprocessors that run before the SQL parser sees the input.
//!
//! The parser's PostgreSQL dialect accepts neither `START WITH ... CONNECT BY`
//! hierarchical queries nor Oracle `(+)` outer-join markers; both are
//! rewritten here into portable SQL.
use vstd::prelude::*;

pub mod connect_by;
pub mod keyword;
pub mod oracle_outer_join;

pub use connect_by::rewrite_connect_by;
pub use oracle_outer_join::rewrite_oracle_outer_join;

use crate::text::{contains_seq, upper_seq};
use connect_by::{connect_by_spec, kw_connect_by};
use keyword::find_kw_from;
use oracle_outer_join::outer_join_spec;

verus! {

/// Both text rewrites, hierarchical queries first.
pub open spec fn preprocess_spec(s: Seq<char>) -> Seq<char> {
    outer_join_spec(connect_by_spec(s))
}

/// Run every text preprocessor in order: `CONNECT BY`, then `(+)`.
pub fn preprocess(sql: &str) -> (r: String)
    ensures
        r@ == preprocess_spec(sql@),
{
    let s = rewrite_connect_by(sql);
    rewrite_oracle_outer_join(s.as_str())
}

/// Text without a `CONNECT BY` keyword and without a `(+)` marker passes
/// through the preprocessors unchanged.
pub proof fn lemma_preprocess_plain_sql_unchanged(s: Seq<char>)
    requires
        find_kw_from(upper_seq(s), kw_connect_by(), 0) is None,
        !contains_seq(s, "(+)"@),
    ensures
        preprocess_spec(s) == s,
{
}

} // verus!
