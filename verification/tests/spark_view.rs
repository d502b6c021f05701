use coral::catalog::InMemoryCatalog;
use coral::schema::avro::AvroType;
use coral::spark::view::{prepare_view, qualified_table_name, SparkError};

fn employees_catalog() -> InMemoryCatalog {
    InMemoryCatalog::from_pairs(&[
        ("hr", "employees", &["id|BIGINT", "name|VARCHAR", "salary|DOUBLE"]),
        ("hr", "departments", &["id|INT", "name|VARCHAR"]),
    ])
}

#[test]
fn prepare_view_collects_referenced_tables() {
    let cat = employees_catalog();
    let v = prepare_view(
        "CREATE VIEW j AS
            SELECT e.id, d.name
            FROM hr.employees e
            JOIN hr.departments d ON e.id = d.id",
        &cat,
    )
    .unwrap();
    assert_eq!(v.referenced_tables, vec!["hr.departments".to_string(), "hr.employees".to_string()]);
}

#[test]
fn prepare_view_accepts_bare_select() {
    let cat = employees_catalog();
    let v = prepare_view("SELECT id FROM hr.employees", &cat).unwrap();
    assert_eq!(v.name, "view");
    assert!(v.referenced_tables.contains(&"hr.employees".to_string()));
}

#[test]
fn prepare_view_emits_spark_sql_and_avro_record() {
    let cat = employees_catalog();
    let v = prepare_view("CREATE VIEW vw AS SELECT id, NVL(name, 'n/a') AS nm FROM hr.employees", &cat).unwrap();
    assert_eq!(v.name, "vw");
    assert!(v.spark_sql.contains("COALESCE"), "{}", v.spark_sql);
    assert!(!v.spark_sql.contains("NVL("), "{}", v.spark_sql);
    assert_eq!(v.avro.name, "vw");
    assert_eq!(v.avro.fields.len(), 2);
    assert_eq!(v.avro.fields[0].avro_type, AvroType::Nullable(Box::new(AvroType::Long)));
}

#[test]
fn referenced_tables_are_sorted_once_each_with_default_db() {
    let cat = employees_catalog();
    let v = prepare_view(
        "SELECT * FROM zeta z JOIN hr.employees e ON z.id = e.id \
         WHERE z.id IN (SELECT id FROM zeta) AND e.id IN (SELECT id FROM a.b.c)",
        &cat,
    )
    .unwrap();
    assert_eq!(
        v.referenced_tables,
        vec!["a.b.c".to_string(), "default.zeta".to_string(), "hr.employees".to_string()]
    );
}

#[test]
fn prepare_view_errors() {
    let cat = employees_catalog();
    assert!(matches!(prepare_view("CREATE VIEW", &cat), Err(SparkError::Parse(_))));
    match prepare_view("DROP TABLE t", &cat) {
        Err(SparkError::Plan(m)) => assert_eq!(m, "no CREATE VIEW or SELECT found in input DDL"),
        other => panic!("expected Plan, got {other:?}"),
    }
    assert_eq!(
        SparkError::Plan("x".to_string()).message(),
        "plan analysis error: x"
    );
}

#[test]
fn qualified_names_of_tables() {
    assert_eq!(qualified_table_name(&vec!["t".to_string()]), "default.t");
    assert_eq!(qualified_table_name(&vec!["db".to_string(), "t".to_string()]), "db.t");
    assert_eq!(
        qualified_table_name(&vec!["c".to_string(), "db".to_string(), "t".to_string()]),
        "c.db.t"
    );
}
