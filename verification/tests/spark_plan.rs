use coral::spark::plan::{analyze_plan, classify_predicate, complication_class, PredicateClass};
use coral::sql::ast::ExprTag;

#[test]
fn simple_equality_is_simple() {
    assert_eq!(classify_predicate("id = 1"), PredicateClass::Simple);
    assert_eq!(classify_predicate("x > 10"), PredicateClass::Simple);
    assert_eq!(classify_predicate("x <= 10 AND y > 5"), PredicateClass::Simple);
    assert_eq!(classify_predicate("dept IN ('eng', 'sales')"), PredicateClass::Simple);
    assert_eq!(classify_predicate("x IS NULL"), PredicateClass::Simple);
    assert_eq!(classify_predicate("x BETWEEN 1 AND 10"), PredicateClass::Simple);
}

#[test]
fn function_call_is_complicated() {
    assert_eq!(classify_predicate("substring(name, 1, 3) = 'abc'"), PredicateClass::Complicated);
    assert_eq!(classify_predicate("datediff(current_date, hired) > 30"), PredicateClass::Complicated);
    assert_eq!(classify_predicate("upper(name) = 'ALICE'"), PredicateClass::Complicated);
}

#[test]
fn cast_is_complicated() {
    assert_eq!(classify_predicate("CAST(id AS BIGINT) = 10"), PredicateClass::Complicated);
}

#[test]
fn case_expression_is_complicated() {
    assert_eq!(classify_predicate("CASE WHEN x > 0 THEN 1 ELSE 0 END = 1"), PredicateClass::Complicated);
}

#[test]
fn subquery_is_complicated() {
    assert_eq!(classify_predicate("id IN (SELECT id FROM other)"), PredicateClass::Complicated);
}

#[test]
fn gibberish_is_unparseable() {
    assert_eq!(classify_predicate(""), PredicateClass::Unparseable);
    assert_eq!(classify_predicate(";;;garbage"), PredicateClass::Unparseable);
}

#[test]
fn spark_wrapper_predicates_are_simple() {
    assert_eq!(classify_predicate("IsNotNull(id)"), PredicateClass::Simple);
    assert_eq!(classify_predicate("  GreaterThan(id,0) "), PredicateClass::Simple);
    assert_eq!(classify_predicate("isnull(x)"), PredicateClass::Simple);
    assert_eq!(classify_predicate("t.IsNull(x) = 1"), PredicateClass::Complicated);
}

#[test]
fn complication_class_stops_only_at_complicated_kinds() {
    assert!(complication_class(ExprTag::Function).is_break());
    assert!(complication_class(ExprTag::Cast).is_break());
    assert!(complication_class(ExprTag::InSubquery).is_break());
    assert!(complication_class(ExprTag::Other).is_continue());
}

#[test]
fn analyze_simple_spark_plan() {
    let plan = r"
        == Physical Plan ==
        *(1) Project [id#12, name#13]
        +- *(1) Filter (id#12 > 0)
           +- FileScan parquet hr.employees[id#12,name#13] Batched: true, DataFilters: [isnotnull(id#12)], Format: Parquet, PushedFilters: [IsNotNull(id), GreaterThan(id,0)], ReadSchema: struct<id:bigint,name:string>
    ";
    let results = analyze_plan(plan);
    assert_eq!(results.len(), 1);
    let r = &results[0];
    assert!(r.table.contains("hr.employees"), "{:?}", r.table);
    assert_eq!(r.predicates.len(), 2);
    for p in &r.predicates {
        assert_eq!(p.class, PredicateClass::Simple, "pred={}", p.predicate);
    }
}

#[test]
fn analyze_plan_flags_complicated_pushdown() {
    let plan = r"
        == Physical Plan ==
        FileScan parquet hr.events[id#0,ts#1] Batched: true, PushedFilters: [datediff(current_date(), ts) > 30, id > 0], ReadSchema: struct<id:bigint,ts:timestamp>
    ";
    let results = analyze_plan(plan);
    assert_eq!(results.len(), 1);
    let preds = &results[0].predicates;
    assert_eq!(preds.len(), 2);
    let complicated_count = preds.iter().filter(|p| p.class == PredicateClass::Complicated).count();
    let simple_count = preds.iter().filter(|p| p.class == PredicateClass::Simple).count();
    assert_eq!(complicated_count, 1, "{preds:?}");
    assert_eq!(simple_count, 1, "{preds:?}");
}

#[test]
fn analyze_plan_handles_multiple_scans() {
    let plan = r"
        *(3) Join Inner, (id#1 = id#10)
        :- FileScan parquet hr.employees[id#1,name#2] PushedFilters: [IsNotNull(id)], ReadSchema: struct<id:bigint,name:string>
        +- FileScan parquet hr.departments[id#10,dept#11] PushedFilters: [IsNotNull(id), id > 0], ReadSchema: struct<id:int,dept:string>
    ";
    let results = analyze_plan(plan);
    assert_eq!(results.len(), 2);
    assert!(results[0].table.contains("hr.employees"));
    assert!(results[1].table.contains("hr.departments"));
    assert_eq!(results[0].predicates.len(), 1);
    assert_eq!(results[1].predicates.len(), 2);
}

#[test]
fn analyze_plan_empty_when_no_scans() {
    let plan = "not a real plan";
    let results = analyze_plan(plan);
    assert!(results.is_empty());
}

#[test]
fn analyze_plan_exact_table_and_pieces() {
    let results = analyze_plan("+- Scan hive db.t (x) Filters: [a = 'x,y', f(b, c)]\nBatchScan cat.s");
    assert_eq!(results.len(), 2);
    assert_eq!(results[0].table, "db.t");
    let preds: Vec<&str> = results[0].predicates.iter().map(|p| p.predicate.as_str()).collect();
    assert_eq!(preds, vec!["a = 'x,y'", "f(b, c)"]);
    assert_eq!(results[0].predicates[0].class, PredicateClass::Simple);
    assert_eq!(results[0].predicates[1].class, PredicateClass::Complicated);
    assert_eq!(results[1].table, "cat.s");
    assert!(results[1].predicates.is_empty());
}

#[test]
fn analyze_plan_unknown_table_when_none_named() {
    let results = analyze_plan("HiveTableScan [a, b]");
    assert_eq!(results.len(), 1);
    assert_eq!(results[0].table, "unknown");
}
