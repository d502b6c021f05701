//! Spark-side helpers: predicate push-down analysis of plan text, and the
//! preparation of a view for a Spark driver.
pub mod plan;
pub mod view;
