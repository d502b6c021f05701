use coral::catalog::InMemoryCatalog;
use coral::schema::avro::{nullable, strip_nullable, widen_numeric, AvroField, AvroRecord, AvroType};
use coral::schema::hive_type::hive_type_to_avro;
use coral::schema::infer::{to_avro_record, SchemaError, TypedCatalog};

fn employees_catalog() -> InMemoryCatalog {
    InMemoryCatalog::from_pairs(&[
        (
            "hr",
            "employees",
            &[
                "id|BIGINT",
                "name|VARCHAR",
                "email|VARCHAR",
                "salary|DOUBLE",
                "dept_id|INT",
                "active|BOOLEAN",
                "hired|DATE",
                "updated|TIMESTAMP",
                "notes|STRING",
                "tags|ARRAY<STRING>",
                "attrs|MAP<STRING,STRING>",
                "address|STRUCT<street:STRING,city:STRING,zip:INT>",
                "scale|DECIMAL(10,4)",
                "blob|BYTEA",
            ],
        ),
        ("hr", "departments", &["id|INT", "name|VARCHAR", "floor|INT"]),
    ])
}

fn find_field<'a>(rec: &'a AvroRecord, name: &str) -> &'a AvroField {
    rec.fields
        .iter()
        .find(|f| f.name.eq_ignore_ascii_case(name))
        .unwrap_or_else(|| panic!("no field {name} in {:?}", rec.fields))
}

fn unwrap_nullable(t: &AvroType) -> &AvroType {
    match t {
        AvroType::Nullable(inner) => inner,
        other => other,
    }
}

fn hive(t: &str) -> AvroType {
    hive_type_to_avro(&t.chars().collect())
}

// ---------- simple projections ----------

#[test]
fn plain_select_preserves_column_types() {
    let cat = employees_catalog();
    let rec = to_avro_record("CREATE VIEW v AS SELECT id, name, salary, active FROM hr.employees", &cat).unwrap();

    assert_eq!(rec.name, "v");
    assert_eq!(rec.fields.len(), 4);
    assert_eq!(unwrap_nullable(&find_field(&rec, "id").avro_type), &AvroType::Long);
    assert_eq!(unwrap_nullable(&find_field(&rec, "name").avro_type), &AvroType::String);
    assert_eq!(unwrap_nullable(&find_field(&rec, "salary").avro_type), &AvroType::Double);
    assert_eq!(unwrap_nullable(&find_field(&rec, "active").avro_type), &AvroType::Boolean);
}

#[test]
fn aliases_drive_field_names() {
    let cat = employees_catalog();
    let rec =
        to_avro_record("CREATE VIEW v AS SELECT id AS emp_id, name AS full_name FROM hr.employees", &cat).unwrap();
    assert_eq!(rec.fields[0].name, "emp_id");
    assert_eq!(rec.fields[1].name, "full_name");
}

#[test]
fn array_column_becomes_avro_array() {
    let cat = employees_catalog();
    let rec = to_avro_record("CREATE VIEW v AS SELECT tags FROM hr.employees", &cat).unwrap();
    let f = find_field(&rec, "tags");
    match unwrap_nullable(&f.avro_type) {
        AvroType::Array(item) => assert_eq!(**item, AvroType::String),
        other => panic!("expected Array, got {other:?}"),
    }
}

#[test]
fn map_column_becomes_avro_map() {
    let cat = employees_catalog();
    let rec = to_avro_record("CREATE VIEW v AS SELECT attrs FROM hr.employees", &cat).unwrap();
    let f = find_field(&rec, "attrs");
    match unwrap_nullable(&f.avro_type) {
        AvroType::MapOf(val) => assert_eq!(**val, AvroType::String),
        other => panic!("expected Map, got {other:?}"),
    }
}

#[test]
fn struct_column_becomes_avro_record() {
    let cat = employees_catalog();
    let rec = to_avro_record("CREATE VIEW v AS SELECT address FROM hr.employees", &cat).unwrap();
    let f = find_field(&rec, "address");
    match unwrap_nullable(&f.avro_type) {
        AvroType::Record(r) => {
            let names: Vec<_> = r.fields.iter().map(|f| f.name.clone()).collect();
            assert_eq!(names, vec!["street", "city", "zip"]);
        }
        other => panic!("expected Record, got {other:?}"),
    }
}

#[test]
fn bytea_column_becomes_bytes() {
    let cat = employees_catalog();
    let rec = to_avro_record("CREATE VIEW v AS SELECT blob FROM hr.employees", &cat).unwrap();
    let f = find_field(&rec, "blob");
    assert_eq!(unwrap_nullable(&f.avro_type), &AvroType::Bytes);
}

// ---------- expressions ----------

#[test]
fn arithmetic_widens_to_widest_operand() {
    let cat = employees_catalog();
    let rec = to_avro_record("CREATE VIEW v AS SELECT salary + dept_id AS total FROM hr.employees", &cat).unwrap();
    let f = find_field(&rec, "total");
    assert_eq!(unwrap_nullable(&f.avro_type), &AvroType::Double);
}

#[test]
fn count_is_long() {
    let cat = employees_catalog();
    let rec = to_avro_record("CREATE VIEW v AS SELECT COUNT(*) AS n FROM hr.employees", &cat).unwrap();
    assert_eq!(unwrap_nullable(&find_field(&rec, "n").avro_type), &AvroType::Long);
}

#[test]
fn length_is_int() {
    let cat = employees_catalog();
    let rec = to_avro_record("CREATE VIEW v AS SELECT LENGTH(name) AS name_len FROM hr.employees", &cat).unwrap();
    assert_eq!(unwrap_nullable(&find_field(&rec, "name_len").avro_type), &AvroType::Int);
}

#[test]
fn string_concat_yields_string() {
    let cat = employees_catalog();
    let rec =
        to_avro_record("CREATE VIEW v AS SELECT name || '-' || email AS handle FROM hr.employees", &cat).unwrap();
    assert_eq!(unwrap_nullable(&find_field(&rec, "handle").avro_type), &AvroType::String);
}

#[test]
fn cast_as_bigint_yields_long() {
    let cat = employees_catalog();
    let rec = to_avro_record("CREATE VIEW v AS SELECT CAST(dept_id AS BIGINT) AS big_dept FROM hr.employees", &cat)
        .unwrap();
    assert_eq!(unwrap_nullable(&find_field(&rec, "big_dept").avro_type), &AvroType::Long);
}

#[test]
fn bare_select_without_create_view_uses_default_name() {
    let cat = employees_catalog();
    let rec = to_avro_record("SELECT id FROM hr.employees", &cat).unwrap();
    assert_eq!(rec.name, "view");
    assert_eq!(rec.fields.len(), 1);
}

#[test]
fn qualified_column_ref_resolves_via_alias() {
    let cat = employees_catalog();
    let rec = to_avro_record(
        "CREATE VIEW v AS SELECT e.id, d.name AS dept_name
            FROM hr.employees e JOIN hr.departments d ON e.dept_id = d.id",
        &cat,
    )
    .unwrap();
    assert_eq!(unwrap_nullable(&find_field(&rec, "id").avro_type), &AvroType::Long);
    assert_eq!(unwrap_nullable(&find_field(&rec, "dept_name").avro_type), &AvroType::String);
}

// ---------- further cases ----------

#[test]
fn date_and_timestamp_columns_get_logical_types() {
    let cat = employees_catalog();
    let rec = to_avro_record("CREATE VIEW v AS SELECT hired, updated FROM hr.employees", &cat).unwrap();
    assert_eq!(rec.fields[0].avro_type, AvroType::Nullable(Box::new(AvroType::Date)));
    assert_eq!(rec.fields[1].avro_type, AvroType::Nullable(Box::new(AvroType::TimestampMillis)));
}

#[test]
fn decimal_column_keeps_precision_and_scale() {
    let cat = employees_catalog();
    let rec = to_avro_record("CREATE VIEW v AS SELECT scale FROM hr.employees", &cat).unwrap();
    assert_eq!(
        rec.fields[0].avro_type,
        AvroType::Nullable(Box::new(AvroType::Decimal { precision: 10, scale: 4 }))
    );
}

#[test]
fn every_field_is_optional_without_doc() {
    let cat = employees_catalog();
    let rec = to_avro_record("SELECT id, 1, 'x', NULL, e.zzz FROM hr.employees e", &cat).unwrap();
    assert_eq!(rec.namespace, None);
    for f in &rec.fields {
        assert!(matches!(f.avro_type, AvroType::Nullable(_)));
        assert_eq!(f.doc, None);
    }
    assert_eq!(rec.fields[1].name, "col1");
    assert_eq!(rec.fields[1].avro_type, AvroType::Nullable(Box::new(AvroType::Long)));
    assert_eq!(rec.fields[2].avro_type, AvroType::Nullable(Box::new(AvroType::String)));
    assert_eq!(rec.fields[4].name, "zzz");
    assert_eq!(rec.fields[4].avro_type, AvroType::Nullable(Box::new(AvroType::String)));
}

#[test]
fn literals_cases_and_wildcards() {
    let cat = employees_catalog();
    let rec = to_avro_record(
        "SELECT 1.5, TRUE, 2e3, CASE WHEN id > 1 THEN salary ELSE 0 END AS c, -dept_id AS neg, *, id = 1 AS eq \
         FROM hr.employees",
        &cat,
    )
    .unwrap();
    assert_eq!(rec.fields[0].avro_type, AvroType::Nullable(Box::new(AvroType::Double)));
    assert_eq!(rec.fields[1].avro_type, AvroType::Nullable(Box::new(AvroType::Boolean)));
    assert_eq!(rec.fields[2].avro_type, AvroType::Nullable(Box::new(AvroType::Double)));
    assert_eq!(rec.fields[3].avro_type, AvroType::Nullable(Box::new(AvroType::Double)));
    assert_eq!(rec.fields[4].avro_type, AvroType::Nullable(Box::new(AvroType::Int)));
    assert_eq!(rec.fields[5].name, "col5");
    assert_eq!(rec.fields[5].avro_type, AvroType::Nullable(Box::new(AvroType::String)));
    assert_eq!(rec.fields[6].avro_type, AvroType::Nullable(Box::new(AvroType::Boolean)));
}

#[test]
fn function_names_decide_result_types() {
    let cat = employees_catalog();
    let rec = to_avro_record(
        "SELECT now() AS a, to_date(name) AS b, year(hired) AS c, upper(name) AS d, SUM(salary) AS e, foo(1) AS f \
         FROM hr.employees",
        &cat,
    )
    .unwrap();
    assert_eq!(rec.fields[0].avro_type, AvroType::Nullable(Box::new(AvroType::TimestampMillis)));
    assert_eq!(rec.fields[1].avro_type, AvroType::Nullable(Box::new(AvroType::Date)));
    assert_eq!(rec.fields[2].avro_type, AvroType::Nullable(Box::new(AvroType::Int)));
    assert_eq!(rec.fields[3].avro_type, AvroType::Nullable(Box::new(AvroType::String)));
    assert_eq!(rec.fields[4].avro_type, AvroType::Nullable(Box::new(AvroType::Double)));
    assert_eq!(rec.fields[5].avro_type, AvroType::Nullable(Box::new(AvroType::String)));
}

#[test]
fn union_takes_left_branch_columns() {
    let cat = employees_catalog();
    let rec = to_avro_record("SELECT id FROM hr.employees UNION ALL SELECT name FROM hr.departments", &cat).unwrap();
    assert_eq!(rec.fields.len(), 1);
    assert_eq!(rec.fields[0].name, "id");
    assert_eq!(rec.fields[0].avro_type, AvroType::Nullable(Box::new(AvroType::Long)));
}

#[test]
fn schema_errors() {
    let cat = employees_catalog();
    assert!(matches!(to_avro_record("SELEC nonsense FROM", &cat), Err(SchemaError::Parse(_))));
    assert!(matches!(to_avro_record("SELECT 1; SELECT 2", &cat), Err(SchemaError::NoSelect)));
    assert!(matches!(to_avro_record("INSERT INTO t VALUES (1)", &cat), Err(SchemaError::NoSelect)));
    match to_avro_record("VALUES (1)", &cat) {
        Err(SchemaError::Unsupported(m)) => assert!(m.starts_with("SELECT body: "), "{m}"),
        other => panic!("expected Unsupported, got {other:?}"),
    }
    assert_eq!(
        SchemaError::Unsupported("x".to_string()).message(),
        "unsupported SELECT shape: x"
    );
    assert_eq!(SchemaError::Catalog("down".to_string()).message(), "catalog error: down");
}

#[test]
fn typed_catalog_lookups_ignore_case() {
    let cat = employees_catalog();
    assert_eq!(cat.column_type("HR", "Employees", "SALARY"), Some("DOUBLE".to_string()));
    assert_eq!(cat.column_type("hr", "employees", "nope"), None);
    assert_eq!(cat.column_type("hr", "nope", "id"), None);
    assert_eq!(
        TypedCatalog::columns(&cat, "hr", "departments"),
        Some(vec!["id".to_string(), "name".to_string(), "floor".to_string()])
    );
}

#[test]
fn hive_type_strings() {
    assert_eq!(hive("  bigint "), AvroType::Long);
    assert_eq!(hive("VARCHAR(64)"), AvroType::String);
    assert_eq!(hive("DOUBLE PRECISION"), AvroType::Double);
    assert_eq!(hive("DECIMAL"), AvroType::Decimal { precision: 18, scale: 2 });
    assert_eq!(hive("DECIMAL(7)"), AvroType::Decimal { precision: 7, scale: 0 });
    assert_eq!(hive("numeric( 12 , 3 )"), AvroType::Decimal { precision: 12, scale: 3 });
    assert_eq!(hive("ARRAY"), AvroType::Array(Box::new(AvroType::String)));
    assert_eq!(hive("ARRAY<ARRAY<INT>>"), AvroType::Array(Box::new(AvroType::Array(Box::new(AvroType::Int)))));
    assert_eq!(hive("MAP<STRING, MAP<STRING,DATE>>"), AvroType::MapOf(Box::new(AvroType::MapOf(Box::new(AvroType::Date)))));
    assert_eq!(hive("MAP<STRING>"), AvroType::MapOf(Box::new(AvroType::String)));
    assert_eq!(hive("STRUCT"), AvroType::String);
    assert_eq!(hive("geometry"), AvroType::String);
    match hive("STRUCT<a:INT, b, c:MAP<STRING,BIGINT>>") {
        AvroType::Record(r) => {
            assert_eq!(r.name, "_struct");
            assert_eq!(r.namespace, None);
            assert_eq!(r.fields.len(), 3);
            assert_eq!(r.fields[0].name, "a");
            assert_eq!(r.fields[0].avro_type, AvroType::Nullable(Box::new(AvroType::Int)));
            assert_eq!(r.fields[1].name, "b");
            assert_eq!(r.fields[1].avro_type, AvroType::Nullable(Box::new(AvroType::String)));
            assert_eq!(
                r.fields[2].avro_type,
                AvroType::Nullable(Box::new(AvroType::MapOf(Box::new(AvroType::Long))))
            );
        }
        other => panic!("expected Record, got {other:?}"),
    }
}

#[test]
fn nullable_is_idempotent_and_strip_undoes_it() {
    let once = nullable(AvroType::Long);
    assert_eq!(once, AvroType::Nullable(Box::new(AvroType::Long)));
    assert_eq!(nullable(nullable(AvroType::Long)), once);
    assert_eq!(strip_nullable(nullable(AvroType::Date)), AvroType::Date);
    assert_eq!(strip_nullable(AvroType::Int), AvroType::Int);
}

#[test]
fn widening_takes_the_wider_operand() {
    assert_eq!(widen_numeric(AvroType::Int, AvroType::Long), AvroType::Long);
    assert_eq!(widen_numeric(AvroType::Double, AvroType::Int), AvroType::Double);
    assert_eq!(widen_numeric(AvroType::Boolean, AvroType::String), AvroType::String);
    assert_eq!(
        widen_numeric(AvroType::Decimal { precision: 5, scale: 1 }, AvroType::Double),
        AvroType::Decimal { precision: 5, scale: 1 }
    );
}
