//! Errors of the translation pipeline.
use vstd::prelude::*;

use crate::text::{push_all, str_chars, string_from_chars};

verus! {

/// Errors that can occur during translation.
#[derive(Debug)]
pub enum CoralError {
    /// The input failed to parse as PostgreSQL-compatible SQL.
    Parse(String),
    /// A rewrite rule met a construct it cannot translate safely.
    Unsupported(String),
}

/// The message an error displays.
pub open spec fn coral_error_text(e: CoralError) -> Seq<char> {
    match e {
        CoralError::Parse(m) => "parse error: "@ + m@,
        CoralError::Unsupported(m) => "unsupported construct: "@ + m@,
    }
}

impl CoralError {
    /// The message the error displays: `parse error: ..` or
    /// `unsupported construct: ..`.
    pub fn message(&self) -> (r: String)
        ensures
            r@ == coral_error_text(*self),
    {
        let (prefix, m) = match self {
            CoralError::Parse(m) => ("parse error: ", m),
            CoralError::Unsupported(m) => ("unsupported construct: ", m),
        };
        let mut out = str_chars(prefix);
        push_all(&mut out, &str_chars(m.as_str()));
        string_from_chars(out)
    }
}

/// Errors of the Pig Latin front end.
#[derive(Debug)]
pub enum PigError {
    /// The SQL it was given failed to parse; holds the parser's message.
    Parse(String),
    /// The input held no SELECT.
    NoSelect,
    /// The SELECT has a shape that cannot be expressed.
    Unsupported(String),
}

/// The message a Pig front-end error displays.
pub open spec fn pig_error_text(e: PigError) -> Seq<char> {
    match e {
        PigError::Parse(m) => "parse error: "@ + m@,
        PigError::NoSelect => "no SELECT found in input"@,
        PigError::Unsupported(m) => "unsupported shape: "@ + m@,
    }
}

impl PigError {
    /// The message the error displays: `parse error: ..`,
    /// `no SELECT found in input` or `unsupported shape: ..`.
    pub fn message(&self) -> (r: String)
        ensures
            r@ == pig_error_text(*self),
    {
        let (prefix, m) = match self {
            PigError::Parse(m) => ("parse error: ", m.as_str()),
            PigError::NoSelect => ("no SELECT found in input", ""),
            PigError::Unsupported(m) => ("unsupported shape: ", m.as_str()),
        };
        let mut out = str_chars(prefix);
        push_all(&mut out, &str_chars(m));
        proof {
            if self is NoSelect {
                reveal_strlit("");
                assert(out@ =~= prefix@);
            }
        }
        string_from_chars(out)
    }
}

} // verus!
