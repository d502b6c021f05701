use coral::catalog::InMemoryCatalog;
use coral::incremental::incremental_sql;
use coral::schema::avro::AvroType;
use coral::schema::infer::to_avro_record;
use coral::spark::view::prepare_view;
use coral::target::Target;
use coral::translator::{translate, translate_to, translate_to_trino as to_trino_sql};
use coral::viz::{render, Format};

const SAMPLE_SQL: &str = r#"
    SELECT
        e.id,
        NVL(d.name, 'Unknown')      AS dept,
        COUNT(*)                    AS headcount,
        AVG(e.salary)               AS avg_salary
    FROM hr.employees e
    LEFT JOIN hr.departments d ON e.dept_id = d.id
    WHERE e.salary > 0
    GROUP BY e.id, d.name
"#;

fn sample_catalog() -> InMemoryCatalog {
    InMemoryCatalog::from_pairs(&[
        ("hr", "employees", &["id|BIGINT", "name|VARCHAR", "salary|DOUBLE", "dept_id|INT"]),
        ("hr", "departments", &["id|INT", "name|VARCHAR"]),
    ])
}

#[test]
fn core_translates_to_spark_sql() {
    let spark = translate(SAMPLE_SQL).unwrap();
    assert!(spark.to_uppercase().contains("COALESCE"), "{spark}");
    assert!(!spark.to_uppercase().contains("NVL("), "{spark}");
    assert!(spark.to_uppercase().contains("LEFT JOIN"), "{spark}");
}

#[test]
fn core_translates_to_trino_sql() {
    let trino = translate_to(SAMPLE_SQL, Target::Trino).unwrap();
    assert!(trino.to_uppercase().contains("COALESCE"), "{trino}");
}

#[test]
fn trino_facade_and_core_agree() {
    let a = translate_to(SAMPLE_SQL, Target::Trino).unwrap();
    let b = to_trino_sql(SAMPLE_SQL).unwrap();
    assert_eq!(a, b);
}

#[test]
fn schema_derives_avro_record_for_view() {
    let cat = sample_catalog();
    let ddl = format!("CREATE VIEW stats AS {SAMPLE_SQL}");
    let rec = to_avro_record(&ddl, &cat).unwrap();
    assert_eq!(rec.name, "stats");
    let names: Vec<_> = rec.fields.iter().map(|f| f.name.as_str()).collect();
    assert_eq!(names, vec!["id", "dept", "headcount", "avg_salary"]);
    assert_eq!(rec.fields[2].avro_type, AvroType::Nullable(Box::new(AvroType::Long)));
}

#[test]
fn spark_prepare_view_matches_referenced_tables() {
    let cat = sample_catalog();
    let ddl = format!("CREATE VIEW stats AS {SAMPLE_SQL}");
    let v = prepare_view(&ddl, &cat).unwrap();
    assert_eq!(v.name, "stats");
    assert!(v.spark_sql.to_uppercase().contains("COALESCE"));
    assert_eq!(v.referenced_tables, vec!["hr.departments".to_string(), "hr.employees".to_string()]);
}

#[test]
fn incremental_expands_two_tables_to_three_branches() {
    let expanded = incremental_sql(SAMPLE_SQL).unwrap();
    let branch_count = expanded.matches("UNION ALL").count() + 1;
    assert_eq!(branch_count, 3, "{expanded}");
    assert!(expanded.contains("employees_delta"), "{expanded}");
    assert!(expanded.contains("departments_delta"), "{expanded}");
}

#[test]
fn every_backend_survives_the_six_smoke_samples() {
    let samples = [
        "WITH a AS (SELECT id FROM t) SELECT * FROM a",
        "SELECT NVL(name, 'x') FROM t",
        "SELECT DECODE(k, 1, 'one', 'other') FROM t",
        "SELECT * FROM a JOIN b ON a.id = b.id",
        "SELECT id::BIGINT FROM t",
        "SELECT COUNT(*) FROM t GROUP BY dept",
    ];

    for s in samples {
        let _ = translate(s);
        let _ = to_trino_sql(s);
        let _ = render(s, Format::Dot);
        let _ = incremental_sql(s);
    }
}
