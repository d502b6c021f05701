use coral::service::graph::{escape_dot, escape_plant, render_dot, render_plantuml};
use coral::service::handlers::{
    generate_graphs, health_response, list_functions_response, translate_response, validate_response,
    visualization_reply,
};
use coral::service::models::{TranslateRequest, ValidateRequest, VisualizeRequest};
use coral::service::state::{AppState, GraphPayload};

fn translate_req(query: &str, target: Option<&str>) -> TranslateRequest {
    TranslateRequest {
        query: query.to_string(),
        source_language: None,
        target_language: target.map(|t| t.to_string()),
        rewrite_type: None,
    }
}

fn visualize_req(query: &str, format: Option<&str>) -> VisualizeRequest {
    VisualizeRequest { query: query.to_string(), format: format.map(|f| f.to_string()) }
}

#[test]
fn health_response_is_ok() {
    let h = health_response("1.2.3");
    assert_eq!(h.status, "ok");
    assert_eq!(h.version, "1.2.3");
}

#[test]
fn translate_response_defaults_to_spark() {
    let r = translate_response(&translate_req("SELECT NVL(a, 0) FROM t", None));
    assert_eq!(r.target, "spark");
    assert!(r.translated.to_uppercase().contains("COALESCE"), "{}", r.translated);
    assert!(r.error.is_none());
    assert!(r.issues.is_empty());
    let r = translate_response(&translate_req("SELECT 1", Some("klingon")));
    assert_eq!(r.target, "spark");
}

#[test]
fn translate_response_to_trino() {
    let r = translate_response(&translate_req("SELECT GET_JSON_OBJECT(p, '$.k'), RAND() FROM t", Some("trino")));
    assert_eq!(r.target, "trino");
    let t = r.translated.to_uppercase();
    assert!(t.contains("JSON_EXTRACT"), "{t}");
    assert!(t.contains("RANDOM()"), "{t}");
    let r = translate_response(&translate_req("SELECT 1", Some(" Presto ")));
    assert_eq!(r.target, "trino");
}

#[test]
fn translate_response_reports_parse_failure() {
    let r = translate_response(&translate_req("SELEKT garbage", None));
    assert_eq!(r.translated, "");
    let e = r.error.unwrap();
    assert!(e.starts_with("parse error: "), "{e}");
}

#[test]
fn validate_response_counts_statements() {
    let v = validate_response(&ValidateRequest { query: "SELECT 1; SELECT 2".to_string() });
    assert!(v.parses);
    assert_eq!(v.statement_count, 2);
    assert!(v.parse_error.is_none());
    let v = validate_response(&ValidateRequest { query: "SELEKT".to_string() });
    assert!(!v.parses);
    assert_eq!(v.statement_count, 0);
    assert!(v.parse_error.is_some());
}

#[test]
fn function_listing_is_sorted_and_complete() {
    let l = list_functions_response();
    assert!(l.total >= 100, "expected >=100 function entries, got {}", l.total);
    assert_eq!(l.entries.len(), l.total);
    for w in l.entries.windows(2) {
        assert!(w[0].name < w[1].name, "{} !< {}", w[0].name, w[1].name);
    }
    let nvl = l.entries.iter().find(|e| e.name == "nvl").expect("nvl should be present");
    assert!(nvl.disposition.starts_with("rename"), "{}", nvl.disposition);
    let sum = l.entries.iter().find(|e| e.name == "sum").unwrap();
    assert_eq!(sum.disposition, "passthrough");
    assert_eq!(sum.category, "aggregate");
}

#[test]
fn visualization_roundtrip_through_state() {
    let mut st = AppState::new();
    let v = generate_graphs(&mut st, &visualize_req("SELECT 1; SELECT 2", Some("dot")), "abc".to_string()).unwrap();
    assert_eq!(v.graph_id, "abc");
    assert_eq!(v.format, "dot");
    let (mime, body) = visualization_reply(&st, "abc").unwrap();
    assert!(mime.contains("graphviz"), "{mime}");
    assert!(body.starts_with("digraph"), "{body}");
    assert!(body.contains("stmt0"));
    assert!(body.contains("stmt1"));
    assert!(body.contains("stmt0 -> stmt1"));
}

#[test]
fn visualization_plantuml_and_default_format() {
    let mut st = AppState::new();
    let v = generate_graphs(&mut st, &visualize_req("SELECT 1", Some("PlantUML")), "p".to_string()).unwrap();
    assert_eq!(v.format, "plantuml");
    let (mime, body) = visualization_reply(&st, "p").unwrap();
    assert_eq!(mime, "text/plain; charset=utf-8");
    assert!(body.contains("@startuml"), "{body}");
    assert!(body.contains("@enduml"), "{body}");
    let v = generate_graphs(&mut st, &visualize_req("SELECT 1", None), "d".to_string()).unwrap();
    assert_eq!(v.format, "dot");
}

#[test]
fn visualization_unknown_format_and_missing_id() {
    let mut st = AppState::new();
    let e = generate_graphs(&mut st, &visualize_req("SELECT 1", Some("mermaid")), "x".to_string()).unwrap_err();
    assert_eq!(e, "unknown format \"mermaid\"; expected 'dot' or 'plantuml'");
    assert!(st.get("x").is_none());
    assert_eq!(visualization_reply(&st, "ffffffffffffffff").unwrap_err(), "no graph with id ffffffffffffffff");
}

#[test]
fn state_store_replaces_and_get_reads_back() {
    let mut st = AppState::new();
    st.store("a".to_string(), GraphPayload { format: "dot".to_string(), source: "one".to_string() });
    st.store("b".to_string(), GraphPayload { format: "dot".to_string(), source: "two".to_string() });
    st.store("a".to_string(), GraphPayload { format: "plantuml".to_string(), source: "three".to_string() });
    let a = st.get("a").unwrap();
    assert_eq!(a.format, "plantuml");
    assert_eq!(a.source, "three");
    assert_eq!(st.get("b").unwrap().source, "two");
    assert!(st.get("c").is_none());
}

#[test]
fn statement_graph_sources() {
    assert_eq!(
        render_dot("SELECT 1; INSERT INTO t VALUES (1)"),
        "digraph coral_ast {\n  rankdir=LR;\n  node [shape=box, fontname=\"Helvetica\"];\n  \
         stmt0 [label=\"SELECT / query\"];\n  stmt1 [label=\"INSERT\"];\n  stmt0 -> stmt1;\n}\n"
    );
    assert_eq!(
        render_plantuml("SELECT 1"),
        "@startuml\nrectangle \"#0: SELECT / query\" as stmt0\n@enduml\n"
    );
    assert!(render_dot("SELEKT").starts_with("digraph coral_parse_error {\n  node [shape=box]; err [label=\""));
    assert!(render_plantuml("SELEKT").starts_with("@startuml\nnote \"coral parse error: "));
    assert_eq!(escape_dot("a\\b\"c\nd"), "a\\\\b\\\"c\\nd");
    assert_eq!(escape_plant("a\"b\nc"), "a''b c");
}
