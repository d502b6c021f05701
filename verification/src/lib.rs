use vstd::prelude::*;

pub mod text;
pub mod sorted;
pub mod target;
pub mod date_format;
pub mod function_catalog;
pub mod preprocess;
pub mod format;
pub mod catalog;
pub mod validation_frame;
pub mod hive_catalog;
pub mod sql;
pub mod rewrite;
pub mod error;
pub mod translator;
pub mod viz;
pub mod spark;
pub mod schema;
pub mod incremental;
pub mod service;
pub mod cli;

verus! {
} // verus!
