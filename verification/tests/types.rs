use coral::rewrite::types::rewrite_type;
use coral::translator::translate;
use sqlparser::ast::DataType;
use sqlparser::dialect::PostgreSqlDialect;
use sqlparser::parser::Parser;

fn parse_cast(sql: &str) -> DataType {
    let stmts = Parser::parse_sql(&PostgreSqlDialect {}, sql).unwrap();
    let sqlparser::ast::Statement::Query(q) = &stmts[0] else {
        panic!("not a query");
    };
    let sqlparser::ast::SetExpr::Select(sel) = &*q.body else {
        panic!();
    };
    let sqlparser::ast::SelectItem::UnnamedExpr(e) = &sel.projection[0] else {
        panic!();
    };
    let sqlparser::ast::Expr::Cast { data_type, .. } = e else {
        panic!("not a cast");
    };
    data_type.clone()
}

fn round_trip(sql: &str) -> String {
    translate(sql).ok().unwrap()
}

#[test]
fn json_to_string() {
    let got = round_trip("SELECT x::JSON FROM t");
    assert!(got.contains("CAST(x AS STRING)"), "got: {got}");
}

#[test]
fn jsonb_to_string() {
    let got = round_trip("SELECT x::JSONB FROM t");
    assert!(got.contains("CAST(x AS STRING)"), "got: {got}");
}

#[test]
fn uuid_to_string() {
    let got = round_trip("SELECT x::UUID FROM t");
    assert!(got.contains("CAST(x AS STRING)"), "got: {got}");
}

#[test]
fn bytea_to_binary() {
    let got = round_trip("SELECT x::BYTEA FROM t");
    assert!(got.contains("CAST(x AS BINARY)"), "got: {got}");
}

#[test]
fn text_to_string() {
    let got = round_trip("SELECT x::TEXT FROM t");
    assert!(got.contains("CAST(x AS STRING)"), "got: {got}");
}

#[test]
fn int4_custom_to_int() {
    let got = round_trip("SELECT x::INT4 FROM t");
    assert!(got.contains("CAST(x AS INT)"), "got: {got}");
}

#[test]
fn timestamptz_strips_timezone() {
    let got = round_trip("SELECT x::TIMESTAMPTZ FROM t");
    assert!(got.contains("CAST(x AS TIMESTAMP)"), "got: {got}");
}

#[test]
fn normal_types_untouched() {
    let got = round_trip("SELECT x::INT FROM t");
    assert!(got.contains("CAST(x AS INT)"), "got: {got}");
    let got = round_trip("SELECT x::BIGINT FROM t");
    assert!(got.contains("CAST(x AS BIGINT)"), "got: {got}");
    let got = round_trip("SELECT x::VARCHAR(10) FROM t");
    assert!(got.contains("CAST(x AS VARCHAR(10))"), "got: {got}");
}

#[test]
fn serial_columns_become_integers() {
    let got = round_trip("CREATE TABLE t (a SERIAL, b BIGSERIAL, c TEXT)");
    assert!(got.contains("a INT"), "got: {got}");
    assert!(got.contains("b BIGINT"), "got: {got}");
    assert!(got.contains("c STRING"), "got: {got}");
}

#[test]
fn direct_rewrite_api_json() {
    let mut ty = parse_cast("SELECT x::JSON FROM t");
    rewrite_type(&mut ty);
    assert_eq!(ty.to_string(), "STRING");
}

#[test]
fn direct_rewrite_api_bytea() {
    let mut ty = parse_cast("SELECT x::BYTEA FROM t");
    rewrite_type(&mut ty);
    assert_eq!(ty.to_string(), "BINARY");
}
