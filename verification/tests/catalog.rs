use coral::catalog::{best_match, lev, validate_against, Catalog, InMemoryCatalog, ValidationIssue};
use coral::translator::translate_with_catalog;
use sqlparser::dialect::PostgreSqlDialect;
use sqlparser::parser::Parser;

fn parse(sql: &str) -> sqlparser::ast::Statement {
    Parser::parse_sql(&PostgreSqlDialect {}, sql).unwrap().remove(0)
}

fn sample_catalog() -> InMemoryCatalog {
    InMemoryCatalog::from_pairs(&[
        ("default", "employees", &["id|int", "name|string", "dept_id|int"]),
        ("default", "departments", &["id|int", "name|string"]),
    ])
}

fn integration_catalog() -> InMemoryCatalog {
    InMemoryCatalog::from_pairs(&[
        (
            "default",
            "employees",
            &["id|int", "name|string", "dept_id|int", "salary|double", "mgr_id|int"],
        ),
        ("default", "departments", &["id|int", "name|string"]),
    ])
}

#[test]
fn levenshtein_basic() {
    assert_eq!(lev("dept_id", "dept_id"), 0);
    assert_eq!(lev("dpt_id", "dept_id"), 1);
    assert_eq!(lev("dept_id", "deptid"), 1);
    assert_eq!(lev("abc", "xyz"), 3);
}

#[test]
fn levenshtein_ignores_ascii_case_and_handles_empty() {
    assert_eq!(lev("DEPT", "dept"), 0);
    assert_eq!(lev("", "abc"), 3);
    assert_eq!(lev("ab", ""), 2);
    assert_eq!(lev("kitten", "sitting"), 3);
}

#[test]
fn best_match_picks_first_closest_within_two() {
    let cs = vec!["name".to_string(), "dept_id".to_string(), "dept_ix".to_string()];
    assert_eq!(best_match("dpt_id", &cs), Some("dept_id".to_string()));
    assert_eq!(best_match("zzzzzz", &cs), None);
    let tie = vec!["ab".to_string(), "ac".to_string()];
    assert_eq!(best_match("aa", &tie), Some("ab".to_string()));
}

#[test]
fn unknown_table_detected() {
    let mut cat = sample_catalog();
    let stmt = parse("SELECT * FROM default.nonesuch");
    let issues = validate_against(&stmt, &mut cat);
    assert_eq!(
        issues,
        vec![ValidationIssue::UnknownTable { db: "default".into(), table: "nonesuch".into() }]
    );
}

#[test]
fn unknown_column_with_suggestion() {
    let mut cat = sample_catalog();
    let stmt = parse("SELECT e.dpt_id FROM default.employees e");
    let issues = validate_against(&stmt, &mut cat);
    assert_eq!(
        issues,
        vec![ValidationIssue::UnknownColumn {
            db: "default".into(),
            table: "employees".into(),
            column: "dpt_id".into(),
            did_you_mean: Some("dept_id".into()),
        }]
    );
}

#[test]
fn known_qualified_column_ok() {
    let mut cat = sample_catalog();
    let stmt = parse("SELECT e.name FROM default.employees e");
    assert!(validate_against(&stmt, &mut cat).is_empty());
}

#[test]
fn bare_table_name_uses_default_db() {
    let mut cat = sample_catalog();
    let stmt = parse("SELECT e.name FROM employees e");
    assert!(validate_against(&stmt, &mut cat).is_empty());
}

#[test]
fn case_insensitive_match() {
    let mut cat = sample_catalog();
    let stmt = parse("SELECT E.NAME FROM DEFAULT.EMPLOYEES e");
    assert!(validate_against(&stmt, &mut cat).is_empty());
}

#[test]
fn unqualified_column_ignored() {
    let mut cat = sample_catalog();
    let stmt = parse("SELECT unknown_col FROM default.employees");
    assert!(validate_against(&stmt, &mut cat).is_empty());
}

#[test]
fn nested_query_scopes_resolve_inner_first() {
    let mut cat = sample_catalog();
    let stmt = parse(
        "SELECT e.id FROM default.employees e WHERE e.dept_id IN (SELECT e.nme FROM default.departments e)",
    );
    let issues = validate_against(&stmt, &mut cat);
    assert_eq!(
        issues,
        vec![ValidationIssue::UnknownColumn {
            db: "default".into(),
            table: "departments".into(),
            column: "nme".into(),
            did_you_mean: Some("name".into()),
        }]
    );
}

#[test]
fn join_condition_columns_are_checked() {
    let mut cat = sample_catalog();
    let stmt = parse("SELECT e.id FROM default.employees e JOIN default.departments d ON e.dept = d.id");
    let issues = validate_against(&stmt, &mut cat);
    assert_eq!(issues.len(), 1);
}

#[test]
fn catalog_lookups_and_columns_of() {
    let mut cat = sample_catalog();
    assert_eq!(cat.columns("DEFAULT", "Employees").unwrap().to_vec(), vec!["id", "name", "dept_id"]);
    let (cols, types) = cat.column_types("default", "departments").unwrap();
    assert_eq!(cols.to_vec(), vec!["id", "name"]);
    assert_eq!(types.to_vec(), vec!["int", "string"]);
    assert!(cat.columns("default", "nonesuch").is_none());
    assert_eq!(cat.columns_of("default", "departments").unwrap(), vec!["id", "name"]);
    cat.add_table("Default", "Departments", vec!["code".to_string()]);
    let (cols, types) = cat.column_types("default", "departments").unwrap();
    assert_eq!(cols.to_vec(), vec!["code"]);
    assert_eq!(types.to_vec(), vec![""]);
}

#[test]
fn translate_with_catalog_no_issues_when_all_resolves() {
    let mut cat = integration_catalog();
    let result = translate_with_catalog(
        "SELECT e.id, e.name FROM default.employees e WHERE e.salary > 0",
        &mut cat,
    )
    .unwrap();
    assert!(result.issues.is_empty(), "issues: {:?}", result.issues);
    assert!(result.spark_sql.contains("FROM default.employees"), "got: {}", result.spark_sql);
}

#[test]
fn translate_with_catalog_flags_unknown_column_with_suggestion() {
    let mut cat = integration_catalog();
    let result = translate_with_catalog("SELECT e.dpt_id FROM default.employees e", &mut cat).unwrap();
    assert_eq!(result.issues.len(), 1);
    match &result.issues[0] {
        ValidationIssue::UnknownColumn { column, did_you_mean, .. } => {
            assert_eq!(column, "dpt_id");
            assert_eq!(did_you_mean.as_deref(), Some("dept_id"));
        }
        other => panic!("unexpected issue: {other:?}"),
    }
    assert!(result.spark_sql.contains("SELECT e.dpt_id"), "got: {}", result.spark_sql);
}

#[test]
fn translate_with_catalog_flags_unknown_table() {
    let mut cat = integration_catalog();
    let result = translate_with_catalog("SELECT * FROM default.nonesuch", &mut cat).unwrap();
    assert_eq!(
        result.issues,
        vec![ValidationIssue::UnknownTable { db: "default".into(), table: "nonesuch".into() }]
    );
}

#[test]
fn translate_with_catalog_still_runs_rewrites() {
    let mut cat = integration_catalog();
    let result = translate_with_catalog(
        "SELECT NVL(e.name, 'n/a'), e.salary::BIGINT FROM default.employees e",
        &mut cat,
    )
    .unwrap();
    assert!(result.issues.is_empty(), "{:?}", result.issues);
    assert!(result.spark_sql.contains("COALESCE(e.name, 'n/a')"), "got: {}", result.spark_sql);
    assert!(result.spark_sql.contains("CAST(e.salary AS BIGINT)"), "got: {}", result.spark_sql);
}

#[test]
fn translate_with_catalog_handles_cte_silently() {
    let mut cat = integration_catalog();
    let sql = "WITH active AS (SELECT id FROM default.employees)
               SELECT id FROM active";
    let result = translate_with_catalog(sql, &mut cat).unwrap();
    assert!(result.issues.is_empty(), "{:?}", result.issues);
}

#[test]
fn translate_with_catalog_respects_aliases() {
    let mut cat = integration_catalog();
    let result = translate_with_catalog("SELECT emp.salary FROM default.employees emp", &mut cat).unwrap();
    assert!(result.issues.is_empty(), "{:?}", result.issues);
}

#[test]
fn validation_does_not_change_the_translation() {
    let mut cat = integration_catalog();
    for sql in ["SELECT NVL(e.x, 1) FROM default.employees e", "SELECT * FROM nowhere; SELECT 1"] {
        let with = translate_with_catalog(sql, &mut cat).unwrap();
        let without = coral::translator::translate(sql).unwrap();
        assert_eq!(with.spark_sql, without);
    }
}

#[test]
fn levenshtein_is_symmetric_and_zero_on_same_name() {
    for (a, b) in [("dept_id", "dpt_id"), ("kitten", "sitting"), ("", "abc"), ("Name", "nmae")] {
        assert_eq!(lev(a, b), lev(b, a), "{a} {b}");
        assert_eq!(lev(a, a), 0);
    }
    assert_eq!(lev("NAME", "name"), 0);
}
