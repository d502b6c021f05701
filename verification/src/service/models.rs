//! Request and response shapes of the HTTP surface (field names as the
//! JSON carries them, in camelCase).
use vstd::prelude::*;

verus! {

/// `POST /api/translations/translate`.
#[derive(Debug, Clone)]
pub struct TranslateRequest {
    /// The SQL to translate.
    pub query: String,
    /// `hive`, `spark`, `trino` or `gaussdb`; accepted and not read.
    pub source_language: Option<String>,
    /// `spark` (the default), `trino` or `presto`.
    pub target_language: Option<String>,
    /// Reserved (`INCREMENTAL`, `DATAMASKING`); not read.
    pub rewrite_type: Option<String>,
}

/// The answer to a translation: the SQL (empty on error), the target's
/// name, validation issues, and the error.
#[derive(Debug, Clone)]
pub struct TranslateResponse {
    pub translated: String,
    pub target: String,
    pub issues: Vec<String>,
    pub error: Option<String>,
}

/// `POST /api/translations/validate`.
#[derive(Debug, Clone)]
pub struct ValidateRequest {
    pub query: String,
}

/// Whether the text parses, into how many statements, and the parser's
/// message when it does not.
#[derive(Debug, Clone)]
pub struct ValidateResponse {
    pub parses: bool,
    pub statement_count: usize,
    pub parse_error: Option<String>,
}

/// `POST /api/visualizations/generategraphs`.
#[derive(Debug, Clone)]
pub struct VisualizeRequest {
    pub query: String,
    /// `dot` (the default) or `plantuml`.
    pub format: Option<String>,
}

/// The id under which the graph source was stored, and its format.
#[derive(Debug, Clone)]
pub struct VisualizeResponse {
    pub graph_id: String,
    pub format: String,
}

/// `GET /api/functions`.
#[derive(Debug, Clone)]
pub struct FunctionListResponse {
    pub total: usize,
    pub entries: Vec<FunctionEntryDto>,
}

/// One registry entry as the service lists it.
#[derive(Debug, Clone)]
pub struct FunctionEntryDto {
    pub name: String,
    pub disposition: String,
    pub category: String,
    pub notes: String,
}

/// `GET /api/health`.
#[derive(Debug, Clone)]
pub struct HealthResponse {
    pub status: &'static str,
    pub version: &'static str,
}

} // verus!
