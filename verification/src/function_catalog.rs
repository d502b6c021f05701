//! Exhaustive known-function registry.
//!
//! For each Hive / GaussDB function the translator knows about, records what
//! the function rewriter does with it: pass it through, rename it, rewrite
//! its call shape, or pass it through although Spark has no equivalent.
//! The registry is declarative only; the rewriting itself lives in
//! `rewrite::functions`.
use vstd::prelude::*;

use crate::text::{ascii_lowercase, eq_ignore_case, lower_seq, str_chars};

verus! {

/// What the translator does with a given function call.
#[derive(Debug, Clone, Copy, PartialEq, Eq)]
pub enum Disposition {
    /// Emit the call unchanged; Spark supports the name natively.
    Passthrough,
    /// Rename the function; the argument layout is preserved.
    Rename(&'static str),
    /// The rewriter changes the call shape (argument order, wrapping,
    /// expansion into a CASE expression, ...).
    CustomRewrite,
    /// Known function without a Spark equivalent; passed through anyway.
    UnsupportedBySpark,
}

/// An entry in the registry.
#[derive(Debug, Clone, Copy)]
pub struct FunctionEntry {
    pub lower_name: &'static str,
    pub disposition: Disposition,
    pub category: Category,
    /// Short human-readable note explaining the decision.
    pub notes: &'static str,
}

#[derive(Debug, Clone, Copy, PartialEq, Eq, Hash)]
pub enum Category {
    Aggregate,
    String,
    Math,
    DateTime,
    Collection,
    Json,
    Hash,
    Bitwise,
    Window,
    Cast,
    Null,
    Conditional,
    Xpath,
    Udtf,
    Context,
    GaussDbSpecific,
    Misc,
}

/// The entry value the registry table is written with.
pub open spec fn ent(
    name: &'static str,
    disposition: Disposition,
    category: Category,
    notes: &'static str,
) -> FunctionEntry {
    FunctionEntry { lower_name: name, disposition, category, notes }
}

/// Shorthand for constructing a registry entry.
fn e(
    name: &'static str,
    disposition: Disposition,
    category: Category,
    notes: &'static str,
) -> (r: FunctionEntry)
    ensures
        r == ent(name, disposition, category, notes),
{
    FunctionEntry { lower_name: name, disposition, category, notes }
}

/// Every entry of the registry, ordered roughly by category.
pub open spec fn registry_spec() -> Seq<FunctionEntry> {
    seq![
        ent("sum", Disposition::Passthrough, Category::Aggregate, "Spark-native"),
        ent("avg", Disposition::Passthrough, Category::Aggregate, "Spark-native"),
        ent("min", Disposition::Passthrough, Category::Aggregate, "Spark-native"),
        ent("max", Disposition::Passthrough, Category::Aggregate, "Spark-native"),
        ent("count", Disposition::Passthrough, Category::Aggregate, "Spark-native"),
        ent("collect_list", Disposition::Passthrough, Category::Aggregate, "Spark-native"),
        ent("collect_set", Disposition::Passthrough, Category::Aggregate, "Spark-native"),
        ent("array_agg", Disposition::Rename("COLLECT_LIST"), Category::Aggregate, "Rewritten by FunctionRewriter"),
        ent("string_agg", Disposition::CustomRewrite, Category::Aggregate, "-> CONCAT_WS(sep, COLLECT_LIST(x))"),
        ent("bool_and", Disposition::Rename("EVERY"), Category::Aggregate, "Rewritten"),
        ent("bool_or", Disposition::Rename("SOME"), Category::Aggregate, "Rewritten"),
        ent("context_ngrams", Disposition::Passthrough, Category::Aggregate, "Spark-native (hive-compat)"),
        ent("ngrams", Disposition::Passthrough, Category::Aggregate, "Spark-native (hive-compat)"),
        ent("sentences", Disposition::Passthrough, Category::Aggregate, "Spark-native"),
        ent("row_number", Disposition::Passthrough, Category::Window, "Spark-native"),
        ent("rank", Disposition::Passthrough, Category::Window, "Spark-native"),
        ent("dense_rank", Disposition::Passthrough, Category::Window, "Spark-native"),
        ent("coalesce", Disposition::Passthrough, Category::Null, "Spark-native"),
        ent("nvl", Disposition::Rename("COALESCE"), Category::Null, "Rewritten"),
        ent("nvl2", Disposition::CustomRewrite, Category::Null, "-> CASE WHEN a IS NOT NULL THEN b ELSE c END"),
        ent("decode", Disposition::CustomRewrite, Category::Null, "-> CASE WHEN x = k1 THEN v1 ... END"),
        ent("greatest", Disposition::Passthrough, Category::Conditional, "Spark-native"),
        ent("least", Disposition::Passthrough, Category::Conditional, "Spark-native"),
        ent("if", Disposition::Passthrough, Category::Conditional, "Spark-native"),
        ent("ascii", Disposition::Passthrough, Category::String, "Spark-native"),
        ent("base64", Disposition::Passthrough, Category::String, "Spark-native"),
        ent("unbase64", Disposition::Passthrough, Category::String, "Spark-native"),
        ent("character_length", Disposition::Passthrough, Category::String, "Spark-native (length)"),
        ent("chr", Disposition::Passthrough, Category::String, "Spark-native"),
        ent("concat", Disposition::Passthrough, Category::String, "Spark-native"),
        ent("concat_ws", Disposition::Passthrough, Category::String, "Spark-native"),
        ent("elt", Disposition::Passthrough, Category::String, "Spark-native"),
        ent("encode", Disposition::Passthrough, Category::String, "Spark-native"),
        ent("field", Disposition::Passthrough, Category::String, "Spark-native"),
        ent("find_in_set", Disposition::Passthrough, Category::String, "Spark-native"),
        ent("format_number", Disposition::Passthrough, Category::String, "Spark-native"),
        ent("initcap", Disposition::Passthrough, Category::String, "Spark-native"),
        ent("instr", Disposition::Passthrough, Category::String, "Spark-native"),
        ent("length", Disposition::Passthrough, Category::String, "Spark-native"),
        ent("levenshtein", Disposition::Passthrough, Category::String, "Spark-native"),
        ent("locate", Disposition::Passthrough, Category::String, "Spark-native"),
        ent("lower", Disposition::Passthrough, Category::String, "Spark-native"),
        ent("lcase", Disposition::Rename("LOWER"), Category::String, "Hive alias"),
        ent("upper", Disposition::Passthrough, Category::String, "Spark-native"),
        ent("ucase", Disposition::Rename("UPPER"), Category::String, "Hive alias"),
        ent("lpad", Disposition::Passthrough, Category::String, "Spark-native"),
        ent("rpad", Disposition::Passthrough, Category::String, "Spark-native"),
        ent("ltrim", Disposition::Passthrough, Category::String, "Spark-native"),
        ent("rtrim", Disposition::Passthrough, Category::String, "Spark-native"),
        ent("trim", Disposition::Passthrough, Category::String, "Spark-native"),
        ent("octet_length", Disposition::Passthrough, Category::String, "Spark-native"),
        ent("parse_url", Disposition::Passthrough, Category::String, "Spark-native"),
        ent("position", Disposition::CustomRewrite, Category::String, "-> INSTR(haystack, needle) (arg swap)"),
        ent("printf", Disposition::Passthrough, Category::String, "Spark-native"),
        ent("repeat", Disposition::Passthrough, Category::String, "Spark-native"),
        ent("reverse", Disposition::Passthrough, Category::String, "Spark-native"),
        ent("regexp_extract", Disposition::Passthrough, Category::String, "Spark-native"),
        ent("regexp_replace", Disposition::Passthrough, Category::String, "Spark-native"),
        ent("regexp_substr", Disposition::CustomRewrite, Category::String, "-> REGEXP_EXTRACT(s, p, 0)"),
        ent("soundex", Disposition::Passthrough, Category::String, "Spark-native"),
        ent("space", Disposition::Passthrough, Category::String, "Spark-native"),
        ent("split", Disposition::Passthrough, Category::String, "Spark-native"),
        ent("split_part", Disposition::Passthrough, Category::String, "Spark 3.3+"),
        ent("str_to_map", Disposition::Passthrough, Category::String, "Spark-native"),
        ent("substr", Disposition::Rename("SUBSTRING"), Category::String, "Rewritten"),
        ent("substring", Disposition::Passthrough, Category::String, "Spark-native"),
        ent("substring_index", Disposition::Passthrough, Category::String, "Spark-native"),
        ent("translate", Disposition::Passthrough, Category::String, "Spark-native"),
        ent("abs", Disposition::Passthrough, Category::Math, "Spark-native"),
        ent("acos", Disposition::Passthrough, Category::Math, "Spark-native"),
        ent("asin", Disposition::Passthrough, Category::Math, "Spark-native"),
        ent("atan", Disposition::Passthrough, Category::Math, "Spark-native"),
        ent("atan2", Disposition::Passthrough, Category::Math, "Spark-native"),
        ent("bround", Disposition::Passthrough, Category::Math, "Spark-native"),
        ent("cbrt", Disposition::Passthrough, Category::Math, "Spark-native"),
        ent("ceil", Disposition::Passthrough, Category::Math, "Spark-native"),
        ent("ceiling", Disposition::Rename("CEIL"), Category::Math, "Hive alias"),
        ent("conv", Disposition::Passthrough, Category::Math, "Spark-native"),
        ent("cos", Disposition::Passthrough, Category::Math, "Spark-native"),
        ent("cosh", Disposition::Passthrough, Category::Math, "Spark-native"),
        ent("degrees", Disposition::Passthrough, Category::Math, "Spark-native"),
        ent("e", Disposition::Passthrough, Category::Math, "Spark-native"),
        ent("exp", Disposition::Passthrough, Category::Math, "Spark-native"),
        ent("factorial", Disposition::Passthrough, Category::Math, "Spark-native"),
        ent("floor", Disposition::Passthrough, Category::Math, "Spark-native"),
        ent("hex", Disposition::Passthrough, Category::Math, "Spark-native"),
        ent("ln", Disposition::Passthrough, Category::Math, "Spark-native"),
        ent("log", Disposition::Passthrough, Category::Math, "Spark-native"),
        ent("log10", Disposition::Passthrough, Category::Math, "Spark-native"),
        ent("log2", Disposition::Passthrough, Category::Math, "Spark-native"),
        ent("mod", Disposition::CustomRewrite, Category::Math, "-> a % b"),
        ent("negative", Disposition::Passthrough, Category::Math, "Spark-native"),
        ent("pi", Disposition::Passthrough, Category::Math, "Spark-native"),
        ent("pmod", Disposition::Passthrough, Category::Math, "Spark-native"),
        ent("positive", Disposition::Passthrough, Category::Math, "Spark-native"),
        ent("pow", Disposition::Rename("POWER"), Category::Math, "Hive alias"),
        ent("power", Disposition::Passthrough, Category::Math, "Spark-native"),
        ent("radians", Disposition::Passthrough, Category::Math, "Spark-native"),
        ent("rand", Disposition::Passthrough, Category::Math, "Spark-native"),
        ent("random", Disposition::Rename("RAND"), Category::Math, "Rewritten"),
        ent("round", Disposition::Passthrough, Category::Math, "Spark-native"),
        ent("sign", Disposition::Passthrough, Category::Math, "Spark-native"),
        ent("sin", Disposition::Passthrough, Category::Math, "Spark-native"),
        ent("sinh", Disposition::Passthrough, Category::Math, "Spark-native"),
        ent("sqrt", Disposition::Passthrough, Category::Math, "Spark-native"),
        ent("tan", Disposition::Passthrough, Category::Math, "Spark-native"),
        ent("tanh", Disposition::Passthrough, Category::Math, "Spark-native"),
        ent("unhex", Disposition::Passthrough, Category::Math, "Spark-native"),
        ent("width_bucket", Disposition::Passthrough, Category::Math, "Spark 3+"),
        ent("shiftleft", Disposition::Passthrough, Category::Bitwise, "Spark-native"),
        ent("shiftright", Disposition::Passthrough, Category::Bitwise, "Spark-native"),
        ent("shiftrightunsigned", Disposition::Passthrough, Category::Bitwise, "Spark-native"),
        ent("add_months", Disposition::Passthrough, Category::DateTime, "Spark-native"),
        ent("current_date", Disposition::Passthrough, Category::DateTime, "Spark-native"),
        ent("current_timestamp", Disposition::Passthrough, Category::DateTime, "Spark-native"),
        ent("date", Disposition::Passthrough, Category::DateTime, "Spark-native"),
        ent("date_add", Disposition::Passthrough, Category::DateTime, "Spark-native"),
        ent("date_format", Disposition::Passthrough, Category::DateTime, "Spark-native"),
        ent("date_sub", Disposition::Passthrough, Category::DateTime, "Spark-native"),
        ent("datediff", Disposition::Passthrough, Category::DateTime, "Spark-native"),
        ent("day", Disposition::Passthrough, Category::DateTime, "Spark-native"),
        ent("dayofmonth", Disposition::Passthrough, Category::DateTime, "Spark-native"),
        ent("dayofweek", Disposition::Passthrough, Category::DateTime, "Spark-native"),
        ent("dayofyear", Disposition::Passthrough, Category::DateTime, "Spark-native"),
        ent("from_unixtime", Disposition::Passthrough, Category::DateTime, "Spark-native"),
        ent("from_unixtime_nanos", Disposition::UnsupportedBySpark, Category::DateTime, "No Spark equivalent"),
        ent("from_utc_timestamp", Disposition::Passthrough, Category::DateTime, "Spark-native"),
        ent("hour", Disposition::Passthrough, Category::DateTime, "Spark-native"),
        ent("last_day", Disposition::Passthrough, Category::DateTime, "Spark-native"),
        ent("minute", Disposition::Passthrough, Category::DateTime, "Spark-native"),
        ent("month", Disposition::Passthrough, Category::DateTime, "Spark-native"),
        ent("months_between", Disposition::Passthrough, Category::DateTime, "Spark-native"),
        ent("next_day", Disposition::Passthrough, Category::DateTime, "Spark-native"),
        ent("now", Disposition::CustomRewrite, Category::DateTime, "-> CURRENT_TIMESTAMP"),
        ent("quarter", Disposition::Passthrough, Category::DateTime, "Spark-native"),
        ent("second", Disposition::Passthrough, Category::DateTime, "Spark-native"),
        ent("sysdate", Disposition::CustomRewrite, Category::DateTime, "-> CURRENT_TIMESTAMP"),
        ent("to_date", Disposition::CustomRewrite, Category::DateTime, "Format literal PG->Spark tokens"),
        ent("to_timestamp", Disposition::CustomRewrite, Category::DateTime, "Format literal PG->Spark tokens"),
        ent("to_char", Disposition::CustomRewrite, Category::DateTime, "Rewrites to DATE_FORMAT for date-ish formats"),
        ent("to_unixtime", Disposition::Passthrough, Category::DateTime, "Spark 3+"),
        ent("to_utc_timestamp", Disposition::Passthrough, Category::DateTime, "Spark-native"),
        ent("trunc", Disposition::CustomRewrite, Category::DateTime, "-> DATE_TRUNC for string unit"),
        ent("unix_timestamp", Disposition::Passthrough, Category::DateTime, "Spark-native"),
        ent("weekofyear", Disposition::Passthrough, Category::DateTime, "Spark-native"),
        ent("year", Disposition::Passthrough, Category::DateTime, "Spark-native"),
        ent("at_timezone", Disposition::Passthrough, Category::DateTime, "Spark 3+"),
        ent("with_timezone", Disposition::Passthrough, Category::DateTime, "Spark 3+"),
        ent("array", Disposition::Passthrough, Category::Collection, "Spark-native"),
        ent("array_contains", Disposition::Passthrough, Category::Collection, "Spark-native"),
        ent("map", Disposition::Passthrough, Category::Collection, "Spark-native"),
        ent("map_keys", Disposition::Passthrough, Category::Collection, "Spark-native"),
        ent("map_values", Disposition::Passthrough, Category::Collection, "Spark-native"),
        ent("size", Disposition::Passthrough, Category::Collection, "Spark-native"),
        ent("sort_array", Disposition::Passthrough, Category::Collection, "Spark-native"),
        ent("struct", Disposition::Passthrough, Category::Collection, "Spark-native"),
        ent("named_struct", Disposition::Passthrough, Category::Collection, "Spark-native"),
        ent("sequence", Disposition::Passthrough, Category::Collection, "Spark-native"),
        ent("generate_series", Disposition::Rename("SEQUENCE"), Category::Collection, "Rewritten"),
        ent("explode", Disposition::Passthrough, Category::Udtf, "Spark-native"),
        ent("posexplode", Disposition::Passthrough, Category::Udtf, "Spark-native"),
        ent("inline", Disposition::Passthrough, Category::Udtf, "Spark-native"),
        ent("stack", Disposition::Passthrough, Category::Udtf, "Spark-native"),
        ent("get_json_object", Disposition::Passthrough, Category::Json, "Spark-native"),
        ent("json_tuple", Disposition::Passthrough, Category::Json, "Spark-native"),
        ent("to_json", Disposition::Passthrough, Category::Json, "Spark 2.2+"),
        ent("from_json", Disposition::Passthrough, Category::Json, "Spark 2.2+"),
        ent("crc32", Disposition::Passthrough, Category::Hash, "Spark-native"),
        ent("md5", Disposition::Passthrough, Category::Hash, "Spark-native"),
        ent("sha", Disposition::Rename("SHA1"), Category::Hash, "Hive alias"),
        ent("sha1", Disposition::Passthrough, Category::Hash, "Spark-native"),
        ent("sha2", Disposition::Passthrough, Category::Hash, "Spark-native"),
        ent("hash", Disposition::Passthrough, Category::Hash, "Spark-native"),
        ent("xpath", Disposition::Passthrough, Category::Xpath, "Spark-native"),
        ent("xpath_boolean", Disposition::Passthrough, Category::Xpath, "Spark-native"),
        ent("xpath_double", Disposition::Passthrough, Category::Xpath, "Spark-native"),
        ent("xpath_float", Disposition::Passthrough, Category::Xpath, "Spark-native"),
        ent("xpath_int", Disposition::Passthrough, Category::Xpath, "Spark-native"),
        ent("xpath_long", Disposition::Passthrough, Category::Xpath, "Spark-native"),
        ent("xpath_number", Disposition::Passthrough, Category::Xpath, "Spark-native"),
        ent("xpath_short", Disposition::Passthrough, Category::Xpath, "Spark-native"),
        ent("xpath_string", Disposition::Passthrough, Category::Xpath, "Spark-native"),
        ent("binary", Disposition::Passthrough, Category::Cast, "Spark-native (as CAST AS BINARY)"),
        ent("boolean", Disposition::Passthrough, Category::Cast, "Spark cast helper"),
        ent("int", Disposition::Passthrough, Category::Cast, "Spark cast helper"),
        ent("bigint", Disposition::Passthrough, Category::Cast, "Spark cast helper"),
        ent("double", Disposition::Passthrough, Category::Cast, "Spark cast helper"),
        ent("float", Disposition::Passthrough, Category::Cast, "Spark cast helper"),
        ent("smallint", Disposition::Passthrough, Category::Cast, "Spark cast helper"),
        ent("tinyint", Disposition::Passthrough, Category::Cast, "Spark cast helper"),
        ent("string", Disposition::Passthrough, Category::Cast, "Spark cast helper"),
        ent("current_user", Disposition::Passthrough, Category::Context, "Spark-native"),
        ent("current_database", Disposition::Passthrough, Category::Context, "Spark-native"),
        ent("logged_in_user", Disposition::UnsupportedBySpark, Category::Context, "Hive-specific"),
        ent("in_file", Disposition::UnsupportedBySpark, Category::Misc, "Hive-specific"),
        ent("extract_union", Disposition::UnsupportedBySpark, Category::Misc, "Hive union type"),
        ent("coalesce_struct", Disposition::Passthrough, Category::Misc, "Spark-native"),
        ent("li_groot_cast_nullability", Disposition::UnsupportedBySpark, Category::Misc, "LinkedIn-internal UDF"),
        ent("case", Disposition::Passthrough, Category::Conditional, "Spark-native control flow"),
        ent("when", Disposition::Passthrough, Category::Conditional, "Spark-native control flow"),
        ent("in", Disposition::Passthrough, Category::Conditional, "Spark-native control flow"),
        ent("between", Disposition::Passthrough, Category::Conditional, "Spark-native control flow"),
        ent("nullif", Disposition::Passthrough, Category::Null, "Spark-native"),
        ent("isnull", Disposition::Passthrough, Category::Null, "Spark-native"),
        ent("isnotnull", Disposition::Passthrough, Category::Null, "Spark-native"),
        ent("tok_isnull", Disposition::Passthrough, Category::Null, "Hive parser token for IS [NOT] NULL"),
        ent("tok_isnotnull", Disposition::Passthrough, Category::Null, "Hive parser token for IS [NOT] NULL"),
        ent("cume_dist", Disposition::Passthrough, Category::Window, "Spark-native"),
        ent("percent_rank", Disposition::Passthrough, Category::Window, "Spark-native"),
        ent("first_value", Disposition::Passthrough, Category::Window, "Spark-native"),
        ent("last_value", Disposition::Passthrough, Category::Window, "Spark-native"),
        ent("nth_value", Disposition::Passthrough, Category::Window, "Spark-native"),
        ent("lag", Disposition::Passthrough, Category::Window, "Spark-native"),
        ent("lead", Disposition::Passthrough, Category::Window, "Spark-native"),
        ent("ntile", Disposition::Passthrough, Category::Window, "Spark-native"),
        ent("variance", Disposition::Passthrough, Category::Aggregate, "Spark-native"),
        ent("var_pop", Disposition::Passthrough, Category::Aggregate, "Spark-native"),
        ent("var_samp", Disposition::Passthrough, Category::Aggregate, "Spark-native"),
        ent("stddev", Disposition::Passthrough, Category::Aggregate, "Spark-native"),
        ent("stddev_pop", Disposition::Passthrough, Category::Aggregate, "Spark-native"),
        ent("stddev_samp", Disposition::Passthrough, Category::Aggregate, "Spark-native"),
        ent("std", Disposition::Passthrough, Category::Aggregate, "Spark-native"),
        ent("corr", Disposition::Passthrough, Category::Aggregate, "Spark-native"),
        ent("covar_pop", Disposition::Passthrough, Category::Aggregate, "Spark-native"),
        ent("covar_samp", Disposition::Passthrough, Category::Aggregate, "Spark-native"),
        ent("histogram_numeric", Disposition::Passthrough, Category::Aggregate, "Spark-native"),
        ent("percentile", Disposition::Passthrough, Category::Aggregate, "Spark-native"),
        ent("percentile_approx", Disposition::Passthrough, Category::Aggregate, "Spark-native"),
        ent("regr_avgx", Disposition::Passthrough, Category::Aggregate, "Spark-native"),
        ent("regr_avgy", Disposition::Passthrough, Category::Aggregate, "Spark-native"),
        ent("regr_count", Disposition::Passthrough, Category::Aggregate, "Spark-native"),
        ent("regr_intercept", Disposition::Passthrough, Category::Aggregate, "Spark-native"),
        ent("regr_r2", Disposition::Passthrough, Category::Aggregate, "Spark-native"),
        ent("regr_slope", Disposition::Passthrough, Category::Aggregate, "Spark-native"),
        ent("regr_sxx", Disposition::Passthrough, Category::Aggregate, "Spark-native"),
        ent("regr_sxy", Disposition::Passthrough, Category::Aggregate, "Spark-native"),
        ent("regr_syy", Disposition::Passthrough, Category::Aggregate, "Spark-native"),
        ent("grouping", Disposition::Passthrough, Category::Aggregate, "Spark-native"),
        ent("compute_stats", Disposition::UnsupportedBySpark, Category::Aggregate, "Hive statistics internals"),
        ent("ewah_bitmap", Disposition::UnsupportedBySpark, Category::Aggregate, "Hive bitmap index internals"),
        ent("ewah_bitmap_and", Disposition::UnsupportedBySpark, Category::Aggregate, "Hive bitmap index internals"),
        ent("ewah_bitmap_or", Disposition::UnsupportedBySpark, Category::Aggregate, "Hive bitmap index internals"),
        ent("ewah_bitmap_empty", Disposition::UnsupportedBySpark, Category::Aggregate, "Hive bitmap index internals"),
        ent("replace", Disposition::Passthrough, Category::String, "Spark-native"),
        ent("rlike", Disposition::Passthrough, Category::String, "Spark-native"),
        ent("regexp", Disposition::Passthrough, Category::String, "Spark-native"),
        ent("like", Disposition::Passthrough, Category::String, "Spark-native"),
        ent("char_length", Disposition::Passthrough, Category::String, "Spark-native"),
        ent("char", Disposition::Passthrough, Category::String, "Spark-native"),
        ent("translate3", Disposition::Passthrough, Category::String, "Hive alias of translate(str, from, to)"),
        ent("index", Disposition::UnsupportedBySpark, Category::Collection, "Hive-specific"),
        ent("mask", Disposition::UnsupportedBySpark, Category::String, "Hive data-masking UDF"),
        ent("mask_first_n", Disposition::UnsupportedBySpark, Category::String, "Hive data-masking UDF"),
        ent("mask_last_n", Disposition::UnsupportedBySpark, Category::String, "Hive data-masking UDF"),
        ent("mask_show_first_n", Disposition::UnsupportedBySpark, Category::String, "Hive data-masking UDF"),
        ent("mask_show_last_n", Disposition::UnsupportedBySpark, Category::String, "Hive data-masking UDF"),
        ent("mask_hash", Disposition::UnsupportedBySpark, Category::String, "Hive data-masking UDF"),
        ent("strpos", Disposition::Rename("INSTR"), Category::String, "Same argument order as INSTR"),
        ent("from_utf8", Disposition::Rename("DECODE"), Category::String, "-> DECODE(bin, charset)"),
        ent("reflect", Disposition::UnsupportedBySpark, Category::Misc, "Calls into the JVM; no Spark analog"),
        ent("reflect2", Disposition::UnsupportedBySpark, Category::Misc, "Calls into the JVM; no Spark analog"),
        ent("java_method", Disposition::UnsupportedBySpark, Category::Misc, "Calls into the JVM; no Spark analog"),
        ent("generic_project", Disposition::UnsupportedBySpark, Category::Misc, "Calls into the JVM; no Spark analog"),
        ent("assert_true", Disposition::Passthrough, Category::Misc, "Spark-native"),
        ent("version", Disposition::Passthrough, Category::Misc, "Spark-native"),
        ent("aes_encrypt", Disposition::Passthrough, Category::Misc, "Spark-native"),
        ent("aes_decrypt", Disposition::Passthrough, Category::Misc, "Spark-native"),
        ent("surrogate_key", Disposition::UnsupportedBySpark, Category::Misc, "Hive-specific"),
        ent("create_union", Disposition::UnsupportedBySpark, Category::Misc, "Hive-specific"),
        ent("matchpath", Disposition::UnsupportedBySpark, Category::Udtf, "Hive PTF"),
        ent("noop", Disposition::UnsupportedBySpark, Category::Udtf, "Hive PTF"),
        ent("noopwithmap", Disposition::UnsupportedBySpark, Category::Udtf, "Hive PTF"),
        ent("noopstreaming", Disposition::UnsupportedBySpark, Category::Udtf, "Hive PTF"),
        ent("windowingtablefunction", Disposition::UnsupportedBySpark, Category::Udtf, "Hive PTF"),
        ent("parse_url_tuple", Disposition::Passthrough, Category::Udtf, "Spark-native"),
        ent("signum", Disposition::Passthrough, Category::Math, "Spark-native"),
        ent("cot", Disposition::Passthrough, Category::Math, "Spark-native"),
        ent("bin", Disposition::Passthrough, Category::Math, "Spark-native"),
        ent("extract", Disposition::Passthrough, Category::DateTime, "Spark-native"),
        ent("to_unix_timestamp", Disposition::Passthrough, Category::DateTime, "Spark-native"),
        ent("timestamp_from_unixtime", Disposition::Rename("TIMESTAMP_SECONDS"), Category::DateTime, "-> TIMESTAMP_SECONDS(secs)"),
        ent("floor_year", Disposition::UnsupportedBySpark, Category::DateTime, "Hive Druid time-floor UDF"),
        ent("floor_quarter", Disposition::UnsupportedBySpark, Category::DateTime, "Hive Druid time-floor UDF"),
        ent("floor_month", Disposition::UnsupportedBySpark, Category::DateTime, "Hive Druid time-floor UDF"),
        ent("floor_week", Disposition::UnsupportedBySpark, Category::DateTime, "Hive Druid time-floor UDF"),
        ent("floor_day", Disposition::UnsupportedBySpark, Category::DateTime, "Hive Druid time-floor UDF"),
        ent("floor_hour", Disposition::UnsupportedBySpark, Category::DateTime, "Hive Druid time-floor UDF"),
        ent("floor_minute", Disposition::UnsupportedBySpark, Category::DateTime, "Hive Druid time-floor UDF"),
        ent("floor_second", Disposition::UnsupportedBySpark, Category::DateTime, "Hive Druid time-floor UDF"),
        ent("timestamp", Disposition::Passthrough, Category::Cast, "Spark cast helper"),
        ent("decimal", Disposition::Passthrough, Category::Cast, "Spark cast helper"),
        ent("varchar", Disposition::UnsupportedBySpark, Category::Cast, "Hive-specific cast"),
        ent("interval_year_month", Disposition::UnsupportedBySpark, Category::Cast, "Hive-specific cast"),
        ent("interval_day_time", Disposition::UnsupportedBySpark, Category::Cast, "Hive-specific cast"),
        ent("com.linkedin.dali.udf.date.hive.dateformattoepoch", Disposition::UnsupportedBySpark, Category::Misc, "LinkedIn-internal UDF"),
        ent("com.linkedin.dali.udf.sanitize.hive.sanitize", Disposition::UnsupportedBySpark, Category::Misc, "LinkedIn-internal UDF"),
        ent("com.linkedin.dali.udf.monarch.urngenerator", Disposition::UnsupportedBySpark, Category::Misc, "LinkedIn-internal UDF"),
        ent("com.linkedin.dali.view.udf.entityhandles.getidfromurn", Disposition::UnsupportedBySpark, Category::Misc, "LinkedIn-internal UDF"),
        ent("com.linkedin.dali.views.premium.udf.getfamily", Disposition::UnsupportedBySpark, Category::Misc, "LinkedIn-internal UDF"),
        ent("com.linkedin.dali.views.search.udf.getverticaludf", Disposition::UnsupportedBySpark, Category::Misc, "LinkedIn-internal UDF"),
        ent("com.linkedin.dwh.udf.profile.getprofileurl", Disposition::UnsupportedBySpark, Category::Misc, "LinkedIn-internal UDF"),
        ent("com.linkedin.groot.runtime.udf.spark.hasmemberconsentudf", Disposition::UnsupportedBySpark, Category::Misc, "LinkedIn-internal UDF"),
        ent("com.linkedin.tscp.reporting.dali.udfs.activityid", Disposition::UnsupportedBySpark, Category::Misc, "LinkedIn-internal UDF"),
        ent("com.linkedin.udfs.standard.hive.obfuscateall", Disposition::UnsupportedBySpark, Category::Misc, "LinkedIn-internal UDF"),
        ent("com.linkedin.vector.daliview.udf.presentdatatype", Disposition::UnsupportedBySpark, Category::Misc, "LinkedIn-internal UDF"),
        ent("udfs.seoreferrertrkudf", Disposition::UnsupportedBySpark, Category::Misc, "LinkedIn-internal UDF"),
    ]
}

/// The registry: every known function with its disposition, category and
/// note, in table order.
pub fn registry() -> (r: Vec<FunctionEntry>)
    ensures
        r@ == registry_spec(),
{
    let v = vec![
        e("sum", Disposition::Passthrough, Category::Aggregate, "Spark-native"),
        e("avg", Disposition::Passthrough, Category::Aggregate, "Spark-native"),
        e("min", Disposition::Passthrough, Category::Aggregate, "Spark-native"),
        e("max", Disposition::Passthrough, Category::Aggregate, "Spark-native"),
        e("count", Disposition::Passthrough, Category::Aggregate, "Spark-native"),
        e("collect_list", Disposition::Passthrough, Category::Aggregate, "Spark-native"),
        e("collect_set", Disposition::Passthrough, Category::Aggregate, "Spark-native"),
        e("array_agg", Disposition::Rename("COLLECT_LIST"), Category::Aggregate, "Rewritten by FunctionRewriter"),
        e("string_agg", Disposition::CustomRewrite, Category::Aggregate, "-> CONCAT_WS(sep, COLLECT_LIST(x))"),
        e("bool_and", Disposition::Rename("EVERY"), Category::Aggregate, "Rewritten"),
        e("bool_or", Disposition::Rename("SOME"), Category::Aggregate, "Rewritten"),
        e("context_ngrams", Disposition::Passthrough, Category::Aggregate, "Spark-native (hive-compat)"),
        e("ngrams", Disposition::Passthrough, Category::Aggregate, "Spark-native (hive-compat)"),
        e("sentences", Disposition::Passthrough, Category::Aggregate, "Spark-native"),
        e("row_number", Disposition::Passthrough, Category::Window, "Spark-native"),
        e("rank", Disposition::Passthrough, Category::Window, "Spark-native"),
        e("dense_rank", Disposition::Passthrough, Category::Window, "Spark-native"),
        e("coalesce", Disposition::Passthrough, Category::Null, "Spark-native"),
        e("nvl", Disposition::Rename("COALESCE"), Category::Null, "Rewritten"),
        e("nvl2", Disposition::CustomRewrite, Category::Null, "-> CASE WHEN a IS NOT NULL THEN b ELSE c END"),
        e("decode", Disposition::CustomRewrite, Category::Null, "-> CASE WHEN x = k1 THEN v1 ... END"),
        e("greatest", Disposition::Passthrough, Category::Conditional, "Spark-native"),
        e("least", Disposition::Passthrough, Category::Conditional, "Spark-native"),
        e("if", Disposition::Passthrough, Category::Conditional, "Spark-native"),
        e("ascii", Disposition::Passthrough, Category::String, "Spark-native"),
        e("base64", Disposition::Passthrough, Category::String, "Spark-native"),
        e("unbase64", Disposition::Passthrough, Category::String, "Spark-native"),
        e("character_length", Disposition::Passthrough, Category::String, "Spark-native (length)"),
        e("chr", Disposition::Passthrough, Category::String, "Spark-native"),
        e("concat", Disposition::Passthrough, Category::String, "Spark-native"),
        e("concat_ws", Disposition::Passthrough, Category::String, "Spark-native"),
        e("elt", Disposition::Passthrough, Category::String, "Spark-native"),
        e("encode", Disposition::Passthrough, Category::String, "Spark-native"),
        e("field", Disposition::Passthrough, Category::String, "Spark-native"),
        e("find_in_set", Disposition::Passthrough, Category::String, "Spark-native"),
        e("format_number", Disposition::Passthrough, Category::String, "Spark-native"),
        e("initcap", Disposition::Passthrough, Category::String, "Spark-native"),
        e("instr", Disposition::Passthrough, Category::String, "Spark-native"),
        e("length", Disposition::Passthrough, Category::String, "Spark-native"),
        e("levenshtein", Disposition::Passthrough, Category::String, "Spark-native"),
        e("locate", Disposition::Passthrough, Category::String, "Spark-native"),
        e("lower", Disposition::Passthrough, Category::String, "Spark-native"),
        e("lcase", Disposition::Rename("LOWER"), Category::String, "Hive alias"),
        e("upper", Disposition::Passthrough, Category::String, "Spark-native"),
        e("ucase", Disposition::Rename("UPPER"), Category::String, "Hive alias"),
        e("lpad", Disposition::Passthrough, Category::String, "Spark-native"),
        e("rpad", Disposition::Passthrough, Category::String, "Spark-native"),
        e("ltrim", Disposition::Passthrough, Category::String, "Spark-native"),
        e("rtrim", Disposition::Passthrough, Category::String, "Spark-native"),
        e("trim", Disposition::Passthrough, Category::String, "Spark-native"),
        e("octet_length", Disposition::Passthrough, Category::String, "Spark-native"),
        e("parse_url", Disposition::Passthrough, Category::String, "Spark-native"),
        e("position", Disposition::CustomRewrite, Category::String, "-> INSTR(haystack, needle) (arg swap)"),
        e("printf", Disposition::Passthrough, Category::String, "Spark-native"),
        e("repeat", Disposition::Passthrough, Category::String, "Spark-native"),
        e("reverse", Disposition::Passthrough, Category::String, "Spark-native"),
        e("regexp_extract", Disposition::Passthrough, Category::String, "Spark-native"),
        e("regexp_replace", Disposition::Passthrough, Category::String, "Spark-native"),
        e("regexp_substr", Disposition::CustomRewrite, Category::String, "-> REGEXP_EXTRACT(s, p, 0)"),
        e("soundex", Disposition::Passthrough, Category::String, "Spark-native"),
        e("space", Disposition::Passthrough, Category::String, "Spark-native"),
        e("split", Disposition::Passthrough, Category::String, "Spark-native"),
        e("split_part", Disposition::Passthrough, Category::String, "Spark 3.3+"),
        e("str_to_map", Disposition::Passthrough, Category::String, "Spark-native"),
        e("substr", Disposition::Rename("SUBSTRING"), Category::String, "Rewritten"),
        e("substring", Disposition::Passthrough, Category::String, "Spark-native"),
        e("substring_index", Disposition::Passthrough, Category::String, "Spark-native"),
        e("translate", Disposition::Passthrough, Category::String, "Spark-native"),
        e("abs", Disposition::Passthrough, Category::Math, "Spark-native"),
        e("acos", Disposition::Passthrough, Category::Math, "Spark-native"),
        e("asin", Disposition::Passthrough, Category::Math, "Spark-native"),
        e("atan", Disposition::Passthrough, Category::Math, "Spark-native"),
        e("atan2", Disposition::Passthrough, Category::Math, "Spark-native"),
        e("bround", Disposition::Passthrough, Category::Math, "Spark-native"),
        e("cbrt", Disposition::Passthrough, Category::Math, "Spark-native"),
        e("ceil", Disposition::Passthrough, Category::Math, "Spark-native"),
        e("ceiling", Disposition::Rename("CEIL"), Category::Math, "Hive alias"),
        e("conv", Disposition::Passthrough, Category::Math, "Spark-native"),
        e("cos", Disposition::Passthrough, Category::Math, "Spark-native"),
        e("cosh", Disposition::Passthrough, Category::Math, "Spark-native"),
        e("degrees", Disposition::Passthrough, Category::Math, "Spark-native"),
        e("e", Disposition::Passthrough, Category::Math, "Spark-native"),
        e("exp", Disposition::Passthrough, Category::Math, "Spark-native"),
        e("factorial", Disposition::Passthrough, Category::Math, "Spark-native"),
        e("floor", Disposition::Passthrough, Category::Math, "Spark-native"),
        e("hex", Disposition::Passthrough, Category::Math, "Spark-native"),
        e("ln", Disposition::Passthrough, Category::Math, "Spark-native"),
        e("log", Disposition::Passthrough, Category::Math, "Spark-native"),
        e("log10", Disposition::Passthrough, Category::Math, "Spark-native"),
        e("log2", Disposition::Passthrough, Category::Math, "Spark-native"),
        e("mod", Disposition::CustomRewrite, Category::Math, "-> a % b"),
        e("negative", Disposition::Passthrough, Category::Math, "Spark-native"),
        e("pi", Disposition::Passthrough, Category::Math, "Spark-native"),
        e("pmod", Disposition::Passthrough, Category::Math, "Spark-native"),
        e("positive", Disposition::Passthrough, Category::Math, "Spark-native"),
        e("pow", Disposition::Rename("POWER"), Category::Math, "Hive alias"),
        e("power", Disposition::Passthrough, Category::Math, "Spark-native"),
        e("radians", Disposition::Passthrough, Category::Math, "Spark-native"),
        e("rand", Disposition::Passthrough, Category::Math, "Spark-native"),
        e("random", Disposition::Rename("RAND"), Category::Math, "Rewritten"),
        e("round", Disposition::Passthrough, Category::Math, "Spark-native"),
        e("sign", Disposition::Passthrough, Category::Math, "Spark-native"),
        e("sin", Disposition::Passthrough, Category::Math, "Spark-native"),
        e("sinh", Disposition::Passthrough, Category::Math, "Spark-native"),
        e("sqrt", Disposition::Passthrough, Category::Math, "Spark-native"),
        e("tan", Disposition::Passthrough, Category::Math, "Spark-native"),
        e("tanh", Disposition::Passthrough, Category::Math, "Spark-native"),
        e("unhex", Disposition::Passthrough, Category::Math, "Spark-native"),
        e("width_bucket", Disposition::Passthrough, Category::Math, "Spark 3+"),
        e("shiftleft", Disposition::Passthrough, Category::Bitwise, "Spark-native"),
        e("shiftright", Disposition::Passthrough, Category::Bitwise, "Spark-native"),
        e("shiftrightunsigned", Disposition::Passthrough, Category::Bitwise, "Spark-native"),
        e("add_months", Disposition::Passthrough, Category::DateTime, "Spark-native"),
        e("current_date", Disposition::Passthrough, Category::DateTime, "Spark-native"),
        e("current_timestamp", Disposition::Passthrough, Category::DateTime, "Spark-native"),
        e("date", Disposition::Passthrough, Category::DateTime, "Spark-native"),
        e("date_add", Disposition::Passthrough, Category::DateTime, "Spark-native"),
        e("date_format", Disposition::Passthrough, Category::DateTime, "Spark-native"),
        e("date_sub", Disposition::Passthrough, Category::DateTime, "Spark-native"),
        e("datediff", Disposition::Passthrough, Category::DateTime, "Spark-native"),
        e("day", Disposition::Passthrough, Category::DateTime, "Spark-native"),
        e("dayofmonth", Disposition::Passthrough, Category::DateTime, "Spark-native"),
        e("dayofweek", Disposition::Passthrough, Category::DateTime, "Spark-native"),
        e("dayofyear", Disposition::Passthrough, Category::DateTime, "Spark-native"),
        e("from_unixtime", Disposition::Passthrough, Category::DateTime, "Spark-native"),
        e("from_unixtime_nanos", Disposition::UnsupportedBySpark, Category::DateTime, "No Spark equivalent"),
        e("from_utc_timestamp", Disposition::Passthrough, Category::DateTime, "Spark-native"),
        e("hour", Disposition::Passthrough, Category::DateTime, "Spark-native"),
        e("last_day", Disposition::Passthrough, Category::DateTime, "Spark-native"),
        e("minute", Disposition::Passthrough, Category::DateTime, "Spark-native"),
        e("month", Disposition::Passthrough, Category::DateTime, "Spark-native"),
        e("months_between", Disposition::Passthrough, Category::DateTime, "Spark-native"),
        e("next_day", Disposition::Passthrough, Category::DateTime, "Spark-native"),
        e("now", Disposition::CustomRewrite, Category::DateTime, "-> CURRENT_TIMESTAMP"),
        e("quarter", Disposition::Passthrough, Category::DateTime, "Spark-native"),
        e("second", Disposition::Passthrough, Category::DateTime, "Spark-native"),
        e("sysdate", Disposition::CustomRewrite, Category::DateTime, "-> CURRENT_TIMESTAMP"),
        e("to_date", Disposition::CustomRewrite, Category::DateTime, "Format literal PG->Spark tokens"),
        e("to_timestamp", Disposition::CustomRewrite, Category::DateTime, "Format literal PG->Spark tokens"),
        e("to_char", Disposition::CustomRewrite, Category::DateTime, "Rewrites to DATE_FORMAT for date-ish formats"),
        e("to_unixtime", Disposition::Passthrough, Category::DateTime, "Spark 3+"),
        e("to_utc_timestamp", Disposition::Passthrough, Category::DateTime, "Spark-native"),
        e("trunc", Disposition::CustomRewrite, Category::DateTime, "-> DATE_TRUNC for string unit"),
        e("unix_timestamp", Disposition::Passthrough, Category::DateTime, "Spark-native"),
        e("weekofyear", Disposition::Passthrough, Category::DateTime, "Spark-native"),
        e("year", Disposition::Passthrough, Category::DateTime, "Spark-native"),
        e("at_timezone", Disposition::Passthrough, Category::DateTime, "Spark 3+"),
        e("with_timezone", Disposition::Passthrough, Category::DateTime, "Spark 3+"),
        e("array", Disposition::Passthrough, Category::Collection, "Spark-native"),
        e("array_contains", Disposition::Passthrough, Category::Collection, "Spark-native"),
        e("map", Disposition::Passthrough, Category::Collection, "Spark-native"),
        e("map_keys", Disposition::Passthrough, Category::Collection, "Spark-native"),
        e("map_values", Disposition::Passthrough, Category::Collection, "Spark-native"),
        e("size", Disposition::Passthrough, Category::Collection, "Spark-native"),
        e("sort_array", Disposition::Passthrough, Category::Collection, "Spark-native"),
        e("struct", Disposition::Passthrough, Category::Collection, "Spark-native"),
        e("named_struct", Disposition::Passthrough, Category::Collection, "Spark-native"),
        e("sequence", Disposition::Passthrough, Category::Collection, "Spark-native"),
        e("generate_series", Disposition::Rename("SEQUENCE"), Category::Collection, "Rewritten"),
        e("explode", Disposition::Passthrough, Category::Udtf, "Spark-native"),
        e("posexplode", Disposition::Passthrough, Category::Udtf, "Spark-native"),
        e("inline", Disposition::Passthrough, Category::Udtf, "Spark-native"),
        e("stack", Disposition::Passthrough, Category::Udtf, "Spark-native"),
        e("get_json_object", Disposition::Passthrough, Category::Json, "Spark-native"),
        e("json_tuple", Disposition::Passthrough, Category::Json, "Spark-native"),
        e("to_json", Disposition::Passthrough, Category::Json, "Spark 2.2+"),
        e("from_json", Disposition::Passthrough, Category::Json, "Spark 2.2+"),
        e("crc32", Disposition::Passthrough, Category::Hash, "Spark-native"),
        e("md5", Disposition::Passthrough, Category::Hash, "Spark-native"),
        e("sha", Disposition::Rename("SHA1"), Category::Hash, "Hive alias"),
        e("sha1", Disposition::Passthrough, Category::Hash, "Spark-native"),
        e("sha2", Disposition::Passthrough, Category::Hash, "Spark-native"),
        e("hash", Disposition::Passthrough, Category::Hash, "Spark-native"),
        e("xpath", Disposition::Passthrough, Category::Xpath, "Spark-native"),
        e("xpath_boolean", Disposition::Passthrough, Category::Xpath, "Spark-native"),
        e("xpath_double", Disposition::Passthrough, Category::Xpath, "Spark-native"),
        e("xpath_float", Disposition::Passthrough, Category::Xpath, "Spark-native"),
        e("xpath_int", Disposition::Passthrough, Category::Xpath, "Spark-native"),
        e("xpath_long", Disposition::Passthrough, Category::Xpath, "Spark-native"),
        e("xpath_number", Disposition::Passthrough, Category::Xpath, "Spark-native"),
        e("xpath_short", Disposition::Passthrough, Category::Xpath, "Spark-native"),
        e("xpath_string", Disposition::Passthrough, Category::Xpath, "Spark-native"),
        e("binary", Disposition::Passthrough, Category::Cast, "Spark-native (as CAST AS BINARY)"),
        e("boolean", Disposition::Passthrough, Category::Cast, "Spark cast helper"),
        e("int", Disposition::Passthrough, Category::Cast, "Spark cast helper"),
        e("bigint", Disposition::Passthrough, Category::Cast, "Spark cast helper"),
        e("double", Disposition::Passthrough, Category::Cast, "Spark cast helper"),
        e("float", Disposition::Passthrough, Category::Cast, "Spark cast helper"),
        e("smallint", Disposition::Passthrough, Category::Cast, "Spark cast helper"),
        e("tinyint", Disposition::Passthrough, Category::Cast, "Spark cast helper"),
        e("string", Disposition::Passthrough, Category::Cast, "Spark cast helper"),
        e("current_user", Disposition::Passthrough, Category::Context, "Spark-native"),
        e("current_database", Disposition::Passthrough, Category::Context, "Spark-native"),
        e("logged_in_user", Disposition::UnsupportedBySpark, Category::Context, "Hive-specific"),
        e("in_file", Disposition::UnsupportedBySpark, Category::Misc, "Hive-specific"),
        e("extract_union", Disposition::UnsupportedBySpark, Category::Misc, "Hive union type"),
        e("coalesce_struct", Disposition::Passthrough, Category::Misc, "Spark-native"),
        e("li_groot_cast_nullability", Disposition::UnsupportedBySpark, Category::Misc, "LinkedIn-internal UDF"),
        e("case", Disposition::Passthrough, Category::Conditional, "Spark-native control flow"),
        e("when", Disposition::Passthrough, Category::Conditional, "Spark-native control flow"),
        e("in", Disposition::Passthrough, Category::Conditional, "Spark-native control flow"),
        e("between", Disposition::Passthrough, Category::Conditional, "Spark-native control flow"),
        e("nullif", Disposition::Passthrough, Category::Null, "Spark-native"),
        e("isnull", Disposition::Passthrough, Category::Null, "Spark-native"),
        e("isnotnull", Disposition::Passthrough, Category::Null, "Spark-native"),
        e("tok_isnull", Disposition::Passthrough, Category::Null, "Hive parser token for IS [NOT] NULL"),
        e("tok_isnotnull", Disposition::Passthrough, Category::Null, "Hive parser token for IS [NOT] NULL"),
        e("cume_dist", Disposition::Passthrough, Category::Window, "Spark-native"),
        e("percent_rank", Disposition::Passthrough, Category::Window, "Spark-native"),
        e("first_value", Disposition::Passthrough, Category::Window, "Spark-native"),
        e("last_value", Disposition::Passthrough, Category::Window, "Spark-native"),
        e("nth_value", Disposition::Passthrough, Category::Window, "Spark-native"),
        e("lag", Disposition::Passthrough, Category::Window, "Spark-native"),
        e("lead", Disposition::Passthrough, Category::Window, "Spark-native"),
        e("ntile", Disposition::Passthrough, Category::Window, "Spark-native"),
        e("variance", Disposition::Passthrough, Category::Aggregate, "Spark-native"),
        e("var_pop", Disposition::Passthrough, Category::Aggregate, "Spark-native"),
        e("var_samp", Disposition::Passthrough, Category::Aggregate, "Spark-native"),
        e("stddev", Disposition::Passthrough, Category::Aggregate, "Spark-native"),
        e("stddev_pop", Disposition::Passthrough, Category::Aggregate, "Spark-native"),
        e("stddev_samp", Disposition::Passthrough, Category::Aggregate, "Spark-native"),
        e("std", Disposition::Passthrough, Category::Aggregate, "Spark-native"),
        e("corr", Disposition::Passthrough, Category::Aggregate, "Spark-native"),
        e("covar_pop", Disposition::Passthrough, Category::Aggregate, "Spark-native"),
        e("covar_samp", Disposition::Passthrough, Category::Aggregate, "Spark-native"),
        e("histogram_numeric", Disposition::Passthrough, Category::Aggregate, "Spark-native"),
        e("percentile", Disposition::Passthrough, Category::Aggregate, "Spark-native"),
        e("percentile_approx", Disposition::Passthrough, Category::Aggregate, "Spark-native"),
        e("regr_avgx", Disposition::Passthrough, Category::Aggregate, "Spark-native"),
        e("regr_avgy", Disposition::Passthrough, Category::Aggregate, "Spark-native"),
        e("regr_count", Disposition::Passthrough, Category::Aggregate, "Spark-native"),
        e("regr_intercept", Disposition::Passthrough, Category::Aggregate, "Spark-native"),
        e("regr_r2", Disposition::Passthrough, Category::Aggregate, "Spark-native"),
        e("regr_slope", Disposition::Passthrough, Category::Aggregate, "Spark-native"),
        e("regr_sxx", Disposition::Passthrough, Category::Aggregate, "Spark-native"),
        e("regr_sxy", Disposition::Passthrough, Category::Aggregate, "Spark-native"),
        e("regr_syy", Disposition::Passthrough, Category::Aggregate, "Spark-native"),
        e("grouping", Disposition::Passthrough, Category::Aggregate, "Spark-native"),
        e("compute_stats", Disposition::UnsupportedBySpark, Category::Aggregate, "Hive statistics internals"),
        e("ewah_bitmap", Disposition::UnsupportedBySpark, Category::Aggregate, "Hive bitmap index internals"),
        e("ewah_bitmap_and", Disposition::UnsupportedBySpark, Category::Aggregate, "Hive bitmap index internals"),
        e("ewah_bitmap_or", Disposition::UnsupportedBySpark, Category::Aggregate, "Hive bitmap index internals"),
        e("ewah_bitmap_empty", Disposition::UnsupportedBySpark, Category::Aggregate, "Hive bitmap index internals"),
        e("replace", Disposition::Passthrough, Category::String, "Spark-native"),
        e("rlike", Disposition::Passthrough, Category::String, "Spark-native"),
        e("regexp", Disposition::Passthrough, Category::String, "Spark-native"),
        e("like", Disposition::Passthrough, Category::String, "Spark-native"),
        e("char_length", Disposition::Passthrough, Category::String, "Spark-native"),
        e("char", Disposition::Passthrough, Category::String, "Spark-native"),
        e("translate3", Disposition::Passthrough, Category::String, "Hive alias of translate(str, from, to)"),
        e("index", Disposition::UnsupportedBySpark, Category::Collection, "Hive-specific"),
        e("mask", Disposition::UnsupportedBySpark, Category::String, "Hive data-masking UDF"),
        e("mask_first_n", Disposition::UnsupportedBySpark, Category::String, "Hive data-masking UDF"),
        e("mask_last_n", Disposition::UnsupportedBySpark, Category::String, "Hive data-masking UDF"),
        e("mask_show_first_n", Disposition::UnsupportedBySpark, Category::String, "Hive data-masking UDF"),
        e("mask_show_last_n", Disposition::UnsupportedBySpark, Category::String, "Hive data-masking UDF"),
        e("mask_hash", Disposition::UnsupportedBySpark, Category::String, "Hive data-masking UDF"),
        e("strpos", Disposition::Rename("INSTR"), Category::String, "Same argument order as INSTR"),
        e("from_utf8", Disposition::Rename("DECODE"), Category::String, "-> DECODE(bin, charset)"),
        e("reflect", Disposition::UnsupportedBySpark, Category::Misc, "Calls into the JVM; no Spark analog"),
        e("reflect2", Disposition::UnsupportedBySpark, Category::Misc, "Calls into the JVM; no Spark analog"),
        e("java_method", Disposition::UnsupportedBySpark, Category::Misc, "Calls into the JVM; no Spark analog"),
        e("generic_project", Disposition::UnsupportedBySpark, Category::Misc, "Calls into the JVM; no Spark analog"),
        e("assert_true", Disposition::Passthrough, Category::Misc, "Spark-native"),
        e("version", Disposition::Passthrough, Category::Misc, "Spark-native"),
        e("aes_encrypt", Disposition::Passthrough, Category::Misc, "Spark-native"),
        e("aes_decrypt", Disposition::Passthrough, Category::Misc, "Spark-native"),
        e("surrogate_key", Disposition::UnsupportedBySpark, Category::Misc, "Hive-specific"),
        e("create_union", Disposition::UnsupportedBySpark, Category::Misc, "Hive-specific"),
        e("matchpath", Disposition::UnsupportedBySpark, Category::Udtf, "Hive PTF"),
        e("noop", Disposition::UnsupportedBySpark, Category::Udtf, "Hive PTF"),
        e("noopwithmap", Disposition::UnsupportedBySpark, Category::Udtf, "Hive PTF"),
        e("noopstreaming", Disposition::UnsupportedBySpark, Category::Udtf, "Hive PTF"),
        e("windowingtablefunction", Disposition::UnsupportedBySpark, Category::Udtf, "Hive PTF"),
        e("parse_url_tuple", Disposition::Passthrough, Category::Udtf, "Spark-native"),
        e("signum", Disposition::Passthrough, Category::Math, "Spark-native"),
        e("cot", Disposition::Passthrough, Category::Math, "Spark-native"),
        e("bin", Disposition::Passthrough, Category::Math, "Spark-native"),
        e("extract", Disposition::Passthrough, Category::DateTime, "Spark-native"),
        e("to_unix_timestamp", Disposition::Passthrough, Category::DateTime, "Spark-native"),
        e("timestamp_from_unixtime", Disposition::Rename("TIMESTAMP_SECONDS"), Category::DateTime, "-> TIMESTAMP_SECONDS(secs)"),
        e("floor_year", Disposition::UnsupportedBySpark, Category::DateTime, "Hive Druid time-floor UDF"),
        e("floor_quarter", Disposition::UnsupportedBySpark, Category::DateTime, "Hive Druid time-floor UDF"),
        e("floor_month", Disposition::UnsupportedBySpark, Category::DateTime, "Hive Druid time-floor UDF"),
        e("floor_week", Disposition::UnsupportedBySpark, Category::DateTime, "Hive Druid time-floor UDF"),
        e("floor_day", Disposition::UnsupportedBySpark, Category::DateTime, "Hive Druid time-floor UDF"),
        e("floor_hour", Disposition::UnsupportedBySpark, Category::DateTime, "Hive Druid time-floor UDF"),
        e("floor_minute", Disposition::UnsupportedBySpark, Category::DateTime, "Hive Druid time-floor UDF"),
        e("floor_second", Disposition::UnsupportedBySpark, Category::DateTime, "Hive Druid time-floor UDF"),
        e("timestamp", Disposition::Passthrough, Category::Cast, "Spark cast helper"),
        e("decimal", Disposition::Passthrough, Category::Cast, "Spark cast helper"),
        e("varchar", Disposition::UnsupportedBySpark, Category::Cast, "Hive-specific cast"),
        e("interval_year_month", Disposition::UnsupportedBySpark, Category::Cast, "Hive-specific cast"),
        e("interval_day_time", Disposition::UnsupportedBySpark, Category::Cast, "Hive-specific cast"),
        e("com.linkedin.dali.udf.date.hive.dateformattoepoch", Disposition::UnsupportedBySpark, Category::Misc, "LinkedIn-internal UDF"),
        e("com.linkedin.dali.udf.sanitize.hive.sanitize", Disposition::UnsupportedBySpark, Category::Misc, "LinkedIn-internal UDF"),
        e("com.linkedin.dali.udf.monarch.urngenerator", Disposition::UnsupportedBySpark, Category::Misc, "LinkedIn-internal UDF"),
        e("com.linkedin.dali.view.udf.entityhandles.getidfromurn", Disposition::UnsupportedBySpark, Category::Misc, "LinkedIn-internal UDF"),
        e("com.linkedin.dali.views.premium.udf.getfamily", Disposition::UnsupportedBySpark, Category::Misc, "LinkedIn-internal UDF"),
        e("com.linkedin.dali.views.search.udf.getverticaludf", Disposition::UnsupportedBySpark, Category::Misc, "LinkedIn-internal UDF"),
        e("com.linkedin.dwh.udf.profile.getprofileurl", Disposition::UnsupportedBySpark, Category::Misc, "LinkedIn-internal UDF"),
        e("com.linkedin.groot.runtime.udf.spark.hasmemberconsentudf", Disposition::UnsupportedBySpark, Category::Misc, "LinkedIn-internal UDF"),
        e("com.linkedin.tscp.reporting.dali.udfs.activityid", Disposition::UnsupportedBySpark, Category::Misc, "LinkedIn-internal UDF"),
        e("com.linkedin.udfs.standard.hive.obfuscateall", Disposition::UnsupportedBySpark, Category::Misc, "LinkedIn-internal UDF"),
        e("com.linkedin.vector.daliview.udf.presentdatatype", Disposition::UnsupportedBySpark, Category::Misc, "LinkedIn-internal UDF"),
        e("udfs.seoreferrertrkudf", Disposition::UnsupportedBySpark, Category::Misc, "LinkedIn-internal UDF"),
    ];
    assert(v@ =~= registry_spec());
    v
}

/// The entry registered under `n` (which is already lower-case): the last
/// one in table order, as a map built by inserting the table row by row holds.
pub open spec fn lookup_in(entries: Seq<FunctionEntry>, n: Seq<char>) -> Option<FunctionEntry>
    decreases entries.len(),
{
    if entries.len() == 0 {
        None
    } else if entries.last().lower_name@ == n {
        Some(entries.last())
    } else {
        lookup_in(entries.drop_last(), n)
    }
}

/// The entry `name` selects, compared without regard to ASCII case.
pub open spec fn lookup_spec(name: Seq<char>) -> Option<FunctionEntry> {
    lookup_in(registry_spec(), lower_seq(name))
}

fn same_name(a: &'static str, b: &Vec<char>) -> (r: bool)
    ensures
        r == (a@ == b@),
{
    let av = str_chars(a);
    if av.len() != b.len() {
        return false;
    }
    let mut k: usize = 0;
    while k < av.len()
        invariant
            av@ == a@,
            av.len() == b.len(),
            k <= av.len(),
            forall|j: int| 0 <= j < k ==> av@[j] == b@[j],
        decreases av.len() - k,
    {
        if av[k] != b[k] {
            assert(av@[k as int] != b@[k as int]);
            assert(av@ != b@);
            return false;
        }
        k = k + 1;
    }
    assert(av@ =~= b@);
    true
}

/// Look up an entry by name (case-insensitive).
pub fn lookup(name: &str) -> (r: Option<FunctionEntry>)
    ensures
        r == lookup_spec(name@),
{
    let key = str_chars(&ascii_lowercase(name));
    let entries = registry();
    let mut found: Option<FunctionEntry> = None;
    let mut i: usize = 0;
    while i < entries.len()
        invariant
            i <= entries.len(),
            entries@ == registry_spec(),
            key@ == lower_seq(name@),
            found == lookup_in(entries@.take(i as int), key@),
        decreases entries.len() - i,
    {
        let ghost pre = entries@.take(i as int);
        assert(entries@.take(i + 1).drop_last() =~= pre);
        if same_name(entries[i].lower_name, &key) {
            found = Some(entries[i]);
        }
        i = i + 1;
    }
    assert(entries@.take(entries.len() as int) =~= entries@);
    found
}

/// True iff `name` (case-insensitively) is recognized.
pub fn is_known(name: &str) -> (r: bool)
    ensures
        r == lookup_spec(name@).is_some(),
{
    lookup(name).is_some()
}

/// A name is known exactly when a lookup finds it.
pub proof fn lemma_known_iff_found(name: Seq<char>)
    ensures
        lookup_spec(name) is Some <==> exists|i: int|
            0 <= i < registry_spec().len() && #[trigger] registry_spec()[i].lower_name@
                == lower_seq(name),
{
    lemma_lookup_in_found(registry_spec(), lower_seq(name));
}

proof fn lemma_lookup_in_found(entries: Seq<FunctionEntry>, n: Seq<char>)
    ensures
        lookup_in(entries, n) is Some <==> exists|i: int|
            0 <= i < entries.len() && #[trigger] entries[i].lower_name@ == n,
        lookup_in(entries, n) matches Some(e) ==> e.lower_name@ == n,
    decreases entries.len(),
{
    if entries.len() > 0 {
        lemma_lookup_in_found(entries.drop_last(), n);
        if entries.last().lower_name@ != n {
            assert forall|i: int| 0 <= i < entries.len() && #[trigger] entries[i].lower_name@ == n
                implies 0 <= i < entries.drop_last().len() && entries.drop_last()[i].lower_name@
                == n by {
                assert(i != entries.len() - 1);
            }
        }
    }
}

/// Lookup ignores ASCII case: a name and its lower-case form find the same
/// entry.
proof fn lemma_lookup_in_key(entries: Seq<FunctionEntry>, n: Seq<char>)
    ensures
        lookup_in(entries, n) matches Some(e) ==> e.lower_name@ == n,
    decreases entries.len(),
{
    if entries.len() > 0 && entries.last().lower_name@ != n {
        lemma_lookup_in_key(entries.drop_last(), n);
    }
}

/// Every entry a lookup finds is registered under the lower-cased name
/// asked for, so its key is in lower case.
pub proof fn law_found_key_is_lower_case(name: Seq<char>)
    ensures
        lookup_spec(name) matches Some(e) ==> e.lower_name@ == lower_seq(name) && lower_seq(e.lower_name@)
            == e.lower_name@,
{
    lemma_lookup_in_key(registry_spec(), lower_seq(name));
    assert(lower_seq(lower_seq(name)) =~= lower_seq(name));
}

pub proof fn lemma_lookup_case_insensitive(name: Seq<char>)
    ensures
        lookup_spec(name) == lookup_spec(lower_seq(name)),
{
    assert(lower_seq(lower_seq(name)) =~= lower_seq(name));
}

} // verus!
