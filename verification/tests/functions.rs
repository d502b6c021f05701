use coral::error::CoralError;
use coral::translator::{translate, translate_all};

fn t(sql: &str) -> String {
    translate(sql).ok().unwrap()
}

#[test]
fn nvl_becomes_coalesce() {
    assert_eq!(t("SELECT NVL(a, b) FROM t"), "SELECT COALESCE(a, b) FROM t");
}

#[test]
fn nested_nvl_rewritten_inside_out() {
    assert_eq!(
        t("SELECT NVL(NVL(x, y), z) FROM t"),
        "SELECT COALESCE(COALESCE(x, y), z) FROM t"
    );
}

#[test]
fn nvl_with_wrong_arity_untouched() {
    assert_eq!(t("SELECT NVL(a) FROM t"), "SELECT NVL(a) FROM t");
}

#[test]
fn nvl2_becomes_case() {
    assert_eq!(
        t("SELECT NVL2(a, b, c) FROM t"),
        "SELECT CASE WHEN a IS NOT NULL THEN b ELSE c END FROM t"
    );
}

#[test]
fn decode_becomes_case_with_default() {
    assert_eq!(
        t("SELECT DECODE(x, 1, 'a', 2, 'b', 'z') FROM t"),
        "SELECT CASE WHEN x = 1 THEN 'a' WHEN x = 2 THEN 'b' ELSE 'z' END FROM t"
    );
}

#[test]
fn decode_two_pairs_no_default_exact() {
    assert_eq!(
        t("SELECT DECODE(x, 1, 'a') FROM t"),
        "SELECT CASE WHEN x = 1 THEN 'a' END FROM t"
    );
}

#[test]
fn substr_mod_random_now() {
    assert_eq!(t("SELECT SUBSTR(s, 1, 2) FROM t"), "SELECT SUBSTRING(s, 1, 2) FROM t");
    assert_eq!(t("SELECT MOD(a, b) FROM t"), "SELECT a % b FROM t");
    assert_eq!(t("SELECT RANDOM() FROM t"), "SELECT RAND() FROM t");
    assert_eq!(t("SELECT NOW() FROM t"), "SELECT CURRENT_TIMESTAMP FROM t");
}

#[test]
fn regex_operators_become_rlike() {
    assert_eq!(t("SELECT * FROM t WHERE a ~ 'x'"), "SELECT * FROM t WHERE a RLIKE 'x'");
    assert_eq!(
        t("SELECT * FROM t WHERE a ~* 'x'"),
        "SELECT * FROM t WHERE LOWER(a) RLIKE LOWER('x')"
    );
    assert_eq!(
        t("SELECT * FROM t WHERE a !~ 'x'"),
        "SELECT * FROM t WHERE NOT (a RLIKE 'x')"
    );
}

#[test]
fn double_colon_cast_becomes_cast() {
    assert_eq!(t("SELECT a::INT FROM t"), "SELECT CAST(a AS INT) FROM t");
}

#[test]
fn parse_error_is_reported() {
    assert!(matches!(translate("SELEC FROM"), Err(CoralError::Parse(_))));
}

#[test]
fn empty_input_gives_empty_output() {
    assert_eq!(t(""), "");
}

#[test]
fn several_statements_joined() {
    assert_eq!(t("SELECT 1; SELECT 2"), "SELECT 1;\nSELECT 2");
    let all = translate_all("SELECT NVL(a, b) FROM t; SELECT 2").ok().unwrap();
    assert_eq!(all, vec!["SELECT COALESCE(a, b) FROM t".to_string(), "SELECT 2".to_string()]);
}

#[test]
fn error_messages() {
    assert_eq!(CoralError::Parse("x".into()).message(), "parse error: x");
    assert_eq!(CoralError::Unsupported("y".into()).message(), "unsupported construct: y");
}

#[test]
fn decode_with_too_few_arguments_is_left_alone() {
    let out = translate("SELECT DECODE(x, 1) FROM t").unwrap();
    assert!(out.contains("DECODE(x, 1)"), "{out}");
}

#[test]
fn nvl_with_a_non_positional_argument_is_left_alone() {
    let out = translate("SELECT NVL(x, *) FROM t").unwrap();
    assert!(out.contains("NVL(x, *)"), "{out}");
}

#[test]
fn granted_by_clause_is_refused_as_a_parse_error() {
    assert!(matches!(translate("GRANT SELECT ON t TO u GRANTED BY 1"), Err(CoralError::Parse(_))));
}
