//! Avro schema inference for SQL views: the output columns of a view (or a
//! plain `SELECT`), typed from the catalog's column types, literals, casts
//! and function names.
pub mod avro;
pub mod hive_type;
pub mod infer;
