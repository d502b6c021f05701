use coral::incremental::{incremental_sql, incremental_sql_with, IncrementalError, MAX_TABLES};

fn normalize(s: &str) -> String {
    s.split_whitespace().collect::<Vec<_>>().join(" ")
}

// ---------- single table ----------

#[test]
fn one_table_one_branch() {
    let out = incremental_sql("SELECT id FROM a").unwrap();
    let n = normalize(&out);
    assert_eq!(n, "SELECT id FROM a_delta");
    assert!(!n.contains("UNION ALL"));
}

#[test]
fn custom_suffix_used() {
    let out = incremental_sql_with("SELECT id FROM a", "__incr").unwrap();
    let n = normalize(&out);
    assert!(n.ends_with("a__incr"), "{n}");
}

// ---------- two tables ----------

#[test]
fn two_tables_emit_three_branches() {
    let out = incremental_sql("SELECT a.id FROM a JOIN b ON a.k = b.k").unwrap();
    let branch_count = out.matches("UNION ALL").count() + 1;
    assert_eq!(branch_count, 3, "expected 3 branches (2^2-1), got:\n{out}");

    // Every branch must mention at least one delta table.
    for branch in out.split("UNION ALL") {
        assert!(
            branch.contains("a_delta") || branch.contains("b_delta"),
            "branch without delta: {branch}"
        );
    }
    // The (a_delta, b_delta) combination must be present.
    assert!(out.contains("a_delta JOIN b_delta"), "{out}");
}

#[test]
fn two_tables_cover_all_subsets() {
    let out = incremental_sql("SELECT a.id FROM a JOIN b ON a.k = b.k").unwrap();
    let want = [
        "FROM a_delta JOIN b ",
        "FROM a JOIN b_delta ",
        "FROM a_delta JOIN b_delta ",
    ];
    for w in want {
        assert!(
            normalize(&out).contains(&normalize(w)),
            "missing subset {w:?} in:\n{out}"
        );
    }
}

// ---------- three tables ----------

#[test]
fn three_tables_emit_seven_branches() {
    let out = incremental_sql(
        "SELECT a.id
           FROM a
           JOIN b ON a.k = b.k
           JOIN c ON a.k = c.k",
    )
    .unwrap();
    let branch_count = out.matches("UNION ALL").count() + 1;
    assert_eq!(branch_count, 7, "expected 7 branches (2^3-1), got:\n{out}");
    // All three tables appear in delta form somewhere.
    assert!(out.contains("a_delta"));
    assert!(out.contains("b_delta"));
    assert!(out.contains("c_delta"));
}

// ---------- guards ----------

#[test]
fn five_tables_rejected() {
    let sql = "SELECT a.id FROM a, b, c, d, e";
    match incremental_sql(sql) {
        Err(IncrementalError::TooManyTables(n)) => {
            assert_eq!(n, 5);
        }
        other => panic!("expected TooManyTables, got {other:?}"),
    }
}

#[test]
fn max_tables_is_four() {
    assert_eq!(MAX_TABLES, 4);
}

#[test]
fn empty_select_no_tables_is_error() {
    match incremental_sql("SELECT 1") {
        Err(IncrementalError::NoTables) => (),
        other => panic!("expected NoTables, got {other:?}"),
    }
}

// ---------- qualified table names ----------

#[test]
fn db_qualified_name_only_last_segment_gets_suffix() {
    let out = incremental_sql("SELECT id FROM hr.employees").unwrap();
    let n = normalize(&out);
    assert!(n.contains("FROM hr.employees_delta"), "{n}");
}

// ---------- subqueries + CTE ----------

#[test]
fn subquery_table_also_expanded() {
    let out = incremental_sql("SELECT x FROM t WHERE k IN (SELECT k FROM other)").unwrap();
    // 2 tables → 3 branches
    let branch_count = out.matches("UNION ALL").count() + 1;
    assert_eq!(branch_count, 3);
    assert!(out.contains("t_delta") || out.contains("other_delta"));
}

#[test]
fn cte_reference_is_not_treated_as_base_table() {
    // The CTE's name is met as a table in the outer SELECT, so it counts
    // as a base table next to `employees`: inline CTEs first for the
    // cleanest output.
    let out = incremental_sql(
        "WITH active AS (SELECT id FROM employees)
         SELECT id FROM active",
    )
    .unwrap();
    // 2 tables (employees + active seen as a table ref) → 3 branches.
    let branch_count = out.matches("UNION ALL").count() + 1;
    assert_eq!(
        branch_count, 3,
        "current behavior: CTE names count as tables. If you fix this, update the assertion."
    );
}

// ---------- further cases ----------

#[test]
fn branches_follow_mask_order() {
    let out = incremental_sql("SELECT a.id FROM a JOIN b ON a.k = b.k").unwrap();
    let branches: Vec<String> = out.split("\nUNION ALL\n").map(|b| b.to_string()).collect();
    assert_eq!(branches.len(), 3);
    assert!(branches[0].contains("FROM a_delta JOIN b ON"), "{}", branches[0]);
    assert!(branches[1].contains("FROM a JOIN b_delta ON"), "{}", branches[1]);
    assert!(branches[2].contains("FROM a_delta JOIN b_delta ON"), "{}", branches[2]);
}

#[test]
fn insert_target_is_not_a_base_table() {
    let out = incremental_sql("INSERT INTO target SELECT id FROM src").unwrap();
    assert!(out.contains("INSERT INTO target SELECT id FROM src_delta"), "{out}");
    assert!(!out.contains("UNION ALL"));
}

#[test]
fn incremental_errors_and_messages() {
    assert!(matches!(incremental_sql("SELEC FROM"), Err(IncrementalError::Parse(_))));
    assert!(matches!(incremental_sql(""), Err(IncrementalError::NoTables)));
    assert_eq!(
        IncrementalError::TooManyTables(5).message(),
        "too many base-table references (5); incremental expansion is capped at 4 tables"
    );
    assert_eq!(
        IncrementalError::NoTables.message(),
        "no base tables found in input \u{2014} nothing to make incremental"
    );
}

#[test]
fn four_tables_emit_fifteen_branches() {
    let out = incremental_sql("SELECT 1 FROM a, b, c, d").unwrap();
    assert_eq!(out.matches("UNION ALL").count() + 1, 15);
}
