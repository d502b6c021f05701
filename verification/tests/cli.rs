use coral::cli::{
    format_category, function_catalog_report, normalize_source, parse_unknown_function_allowlist,
    rejected_unknown_functions, source_label, UnknownFunctionAllowlist,
};
use coral::function_catalog::Category;

fn strings(v: &[&str]) -> Vec<String> {
    v.iter().map(|s| s.to_string()).collect()
}

#[test]
fn source_names_are_normalized() {
    assert_eq!(normalize_source(" PostgreSQL ").unwrap(), "gaussdb");
    assert_eq!(normalize_source("open_gauss").unwrap(), "gaussdb");
    assert_eq!(normalize_source("HiveQL").unwrap(), "hive");
    assert_eq!(normalize_source("spark_sql").unwrap(), "spark");
    assert_eq!(normalize_source("presto").unwrap(), "trino");
    assert_eq!(
        normalize_source("mysql").unwrap_err(),
        "unknown --source \"mysql\" (use 'gaussdb', 'hive', 'spark', or 'trino')"
    );
    assert_eq!(source_label("gaussdb"), "GaussDB / openGauss");
    assert_eq!(source_label("trino"), "Trino");
    assert_eq!(source_label("other"), "SQL");
}

#[test]
fn allowlist_parsing() {
    assert!(matches!(parse_unknown_function_allowlist(None), UnknownFunctionAllowlist::NoneAllowed));
    assert!(matches!(parse_unknown_function_allowlist(Some("  ")), UnknownFunctionAllowlist::All));
    assert!(matches!(parse_unknown_function_allowlist(Some(" * ")), UnknownFunctionAllowlist::All));
    match parse_unknown_function_allowlist(Some("YNVL, xnvl,,ynvl ,Abc")) {
        UnknownFunctionAllowlist::Names(ns) => assert_eq!(ns, strings(&["abc", "xnvl", "ynvl"])),
        other => panic!("expected names, got {other:?}"),
    }
}

#[test]
fn rejected_functions_follow_the_allowlist() {
    let unknown = strings(&["ynvl", "foo", "xnvl"]);
    assert_eq!(
        rejected_unknown_functions(&unknown, &UnknownFunctionAllowlist::NoneAllowed),
        unknown
    );
    assert!(rejected_unknown_functions(&unknown, &UnknownFunctionAllowlist::All).is_empty());
    let allow = parse_unknown_function_allowlist(Some("YNVL,XNVL"));
    assert_eq!(rejected_unknown_functions(&unknown, &allow), strings(&["foo"]));
}

#[test]
fn coverage_report_groups_and_sorts() {
    let lines = function_catalog_report();
    assert!(lines[0].starts_with("coral-rust function coverage ("));
    assert!(lines[0].ends_with(" entries)\n"));
    assert_eq!(lines[1], format!("{:<24} {:<14} {:<6} NOTES", "NAME", "DISPOSITION", "CAT"));
    assert_eq!(lines[2], "-".repeat(90));
    let n: usize = lines[0]["coral-rust function coverage (".len()..lines[0].len() - " entries)\n".len()]
        .parse()
        .unwrap();
    assert_eq!(lines.len(), 3 + n);
    let sum = lines.iter().find(|l| l.starts_with("sum ")).unwrap();
    assert_eq!(sum, &format!("{:<24} {:<14} {:<6} {}", "sum", "passthrough", "agg", "Spark-native"));
    assert!(lines[3].contains(" agg "), "{}", lines[3]);
    let first_agg = lines.iter().position(|l| l.contains(" agg ")).unwrap();
    let last_agg = lines.iter().rposition(|l| l.starts_with("sum ")).unwrap();
    assert!(first_agg <= last_agg);
    assert_eq!(format_category(Category::GaussDbSpecific), "gauss");
}

#[test]
fn smoke_report_layout() {
    let (lines, any_error) = coral::cli::smoke_report("gaussdb", coral::target::Target::Spark);
    assert_eq!(lines.len(), 21);
    assert_eq!(lines[0], "# source: GaussDB / openGauss");
    assert_eq!(lines[1], "# target: spark\n");
    assert_eq!(lines[2], "\n=============== sample #1 ===============");
    assert!(lines[3].starts_with("[GaussDB / openGauss]\n  WITH active_emp AS ("), "{}", lines[3]);
    assert!(lines[4].starts_with("[spark]\n  "), "{}", lines[4]);
    assert_eq!(lines[20], "\n=============== done ===============");
    assert!(!any_error);
}
