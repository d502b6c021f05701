use std::collections::HashMap;
use std::sync::atomic::{AtomicUsize, Ordering};

use coral::catalog::Catalog;
use coral::hive_catalog::{
    schema_from_reply, schema_url, trimmed_base_url, url_segment, CatalogError, ColumnJson, HiveCatalog, SchemaReply,
    TableSchemaJson, Transport,
};

struct CountingTransport {
    tables: HashMap<(String, String), Vec<String>>,
    calls: AtomicUsize,
}

impl CountingTransport {
    fn new() -> Self {
        let mut t = HashMap::new();
        t.insert(
            ("default".to_string(), "employees".to_string()),
            vec!["id".to_string(), "name".to_string(), "dept_id".to_string()],
        );
        Self { tables: t, calls: AtomicUsize::new(0) }
    }
}

impl Transport for CountingTransport {
    fn get_table_schema(&self, db: &str, table: &str) -> Result<Option<TableSchemaJson>, CatalogError> {
        self.calls.fetch_add(1, Ordering::SeqCst);
        let key = (db.to_ascii_lowercase(), table.to_ascii_lowercase());
        Ok(self.tables.get(&key).map(|cols| TableSchemaJson {
            columns: cols
                .iter()
                .map(|c| ColumnJson { name: c.clone(), data_type: "string".into() })
                .collect(),
        }))
    }
}

struct FailingTransport {
    calls: AtomicUsize,
}

impl Transport for FailingTransport {
    fn get_table_schema(&self, _db: &str, _table: &str) -> Result<Option<TableSchemaJson>, CatalogError> {
        self.calls.fetch_add(1, Ordering::SeqCst);
        Err(CatalogError::Transport("down".into()))
    }
}

#[test]
fn fetch_and_cache_hit() {
    let t = CountingTransport::new();
    let mut cat = HiveCatalog::new(t);

    let cols1 = cat.columns_of("default", "employees").unwrap().to_vec();
    assert_eq!(cols1, vec!["id", "name", "dept_id"]);

    let _cols2 = cat.columns_of("default", "employees").unwrap();
    let calls = cat.transport().calls.load(Ordering::SeqCst);
    assert_eq!(calls, 1, "expected 1 transport call, got {calls}");
}

#[test]
fn missing_table_is_negatively_cached() {
    let t = CountingTransport::new();
    let mut cat = HiveCatalog::new(t);

    assert!(cat.columns_of("default", "nonesuch").is_none());
    assert!(cat.columns_of("default", "nonesuch").is_none());
    assert_eq!(cat.transport().calls.load(Ordering::SeqCst), 1);
}

#[test]
fn invalidate_forces_refetch() {
    let t = CountingTransport::new();
    let mut cat = HiveCatalog::new(t);

    let _ = cat.columns_of("default", "employees");
    cat.invalidate("default", "employees");
    let _ = cat.columns_of("default", "employees");
    assert_eq!(cat.transport().calls.load(Ordering::SeqCst), 2);
}

#[test]
fn case_insensitive_cache_key() {
    let t = CountingTransport::new();
    let mut cat = HiveCatalog::new(t);

    let _ = cat.columns_of("DEFAULT", "Employees");
    let _ = cat.columns_of("default", "employees");
    assert_eq!(cat.transport().calls.load(Ordering::SeqCst), 1);
}

#[test]
fn url_segment_encodes_unsafe() {
    assert_eq!(url_segment("foo"), "foo");
    assert_eq!(url_segment("foo bar"), "foo%20bar");
    assert_eq!(url_segment("a'b"), "a%27b");
}

#[test]
fn url_segment_keeps_safe_punctuation_and_encodes_utf8() {
    assert_eq!(url_segment("a_b-c.d"), "a_b-c.d");
    assert_eq!(url_segment("é"), "%C3%A9");
    assert_eq!(url_segment("/"), "%2F");
}

#[test]
fn transport_errors_are_not_cached() {
    let mut cat = HiveCatalog::new(FailingTransport { calls: AtomicUsize::new(0) });
    assert!(cat.columns_of("db", "t").is_none());
    assert!(cat.columns_of("db", "t").is_none());
    assert_eq!(cat.transport().calls.load(Ordering::SeqCst), 2);
}

#[test]
fn invalidate_all_and_prefetch() {
    let mut cat = HiveCatalog::new(CountingTransport::new());
    cat.prefetch("default", "employees");
    assert_eq!(cat.transport().calls.load(Ordering::SeqCst), 1);
    let _ = cat.columns_of("default", "employees");
    assert_eq!(cat.transport().calls.load(Ordering::SeqCst), 1);
    cat.invalidate_all();
    let _ = cat.columns_of("default", "employees");
    assert_eq!(cat.transport().calls.load(Ordering::SeqCst), 2);
}

#[test]
fn catalog_error_messages() {
    assert_eq!(CatalogError::Transport("x".into()).message(), "transport error: x");
    assert_eq!(CatalogError::BadResponse("y".into()).message(), "response parse error: y");
}

#[test]
fn http_addresses_are_built_from_trimmed_base() {
    assert_eq!(trimmed_base_url("http://h:9083/api//"), "http://h:9083/api");
    assert_eq!(
        schema_url("http://h/api", "my db", "t\"x"),
        "http://h/api/databases/my%20db/tables/t%22x"
    );
}

#[test]
fn http_replies_map_to_schema_results() {
    let body = TableSchemaJson { columns: vec![ColumnJson { name: "id".into(), data_type: "int".into() }] };
    match schema_from_reply(SchemaReply::Body(Ok(body))) {
        Ok(Some(s)) => assert_eq!(s.columns[0].name, "id"),
        other => panic!("unexpected {other:?}"),
    }
    assert!(matches!(schema_from_reply(SchemaReply::NotFound), Ok(None)));
    assert!(matches!(
        schema_from_reply(SchemaReply::Body(Err("bad".into()))),
        Err(CatalogError::BadResponse(m)) if m == "bad"
    ));
    assert!(matches!(
        schema_from_reply(SchemaReply::Failed("down".into())),
        Err(CatalogError::Transport(m)) if m == "down"
    ));
}

#[test]
fn recorded_reply_is_answered_and_cached() {
    let t = CountingTransport::new();
    let mut cat = HiveCatalog::new(t);
    let schema = TableSchemaJson {
        columns: vec![
            ColumnJson { name: "a".into(), data_type: "int".into() },
            ColumnJson { name: "b".into(), data_type: "string".into() },
        ],
    };
    let got = cat.record_reply("Sales", "Orders", Ok(Some(schema)));
    assert_eq!(got, Some(vec!["a".to_string(), "b".to_string()]));
    assert_eq!(cat.columns_of("sales", "orders"), Some(vec!["a".to_string(), "b".to_string()]));
    assert_eq!(cat.transport().calls.load(Ordering::SeqCst), 0);

    assert_eq!(cat.record_reply("x", "gone", Ok(None)), None);
    assert_eq!(cat.columns_of("x", "gone"), None);
    assert_eq!(cat.transport().calls.load(Ordering::SeqCst), 0);

    assert_eq!(cat.record_reply("default", "employees", Err(CatalogError::Transport("down".into()))), None);
    assert_eq!(cat.columns_of("default", "employees").map(|v| v.len()), Some(3));
    assert_eq!(cat.transport().calls.load(Ordering::SeqCst), 1);
}
