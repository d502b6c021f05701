use coral::preprocess::{preprocess, rewrite_connect_by, rewrite_oracle_outer_join};

#[test]
fn no_connect_by_passthrough() {
    let sql = "SELECT id FROM t";
    assert_eq!(rewrite_connect_by(sql), sql);
}

#[test]
fn rewrites_canonical_shape() {
    let sql = "SELECT id, name FROM employees
                   START WITH mgr_id IS NULL
                   CONNECT BY PRIOR id = mgr_id";
    let out = rewrite_connect_by(sql);
    assert!(out.contains("WITH RECURSIVE __coral_connect_by"));
    assert!(out.contains("UNION ALL"));
    assert!(out.contains("SELECT id, name FROM __coral_connect_by"));
}

#[test]
fn leaves_complex_shapes_alone() {
    let sql = "SELECT a FROM t1 JOIN t2 ON t1.k = t2.k
                   START WITH c = 1 CONNECT BY PRIOR id = pid";
    assert_eq!(rewrite_connect_by(sql), sql);
}

#[test]
fn simple_two_table_left_join() {
    let sql = "SELECT a.x, b.y FROM a, b WHERE a.id = b.id(+)";
    let out = rewrite_oracle_outer_join(sql);
    assert!(out.contains("LEFT JOIN b ON a.id = b.id"), "got: {out}");
}

#[test]
fn plus_on_left_swaps_sides() {
    let sql = "SELECT a.x, b.y FROM a, b WHERE a.id(+) = b.id";
    let out = rewrite_oracle_outer_join(sql);
    assert!(out.contains("FROM b LEFT JOIN a ON b.id = a.id"), "got: {out}");
}

#[test]
fn keeps_other_filters_in_where() {
    let sql = "SELECT a.x FROM a, b WHERE a.id = b.id(+) AND a.flag = 'x'";
    let out = rewrite_oracle_outer_join(sql);
    assert!(out.contains("WHERE a.flag = 'x'"), "got: {out}");
    assert!(out.contains("LEFT JOIN b ON a.id = b.id"), "got: {out}");
}

#[test]
fn table_aliases_preserved() {
    let sql = "SELECT e.name FROM employees e, departments d WHERE e.dept_id = d.id(+)";
    let out = rewrite_oracle_outer_join(sql);
    assert!(
        out.contains("FROM employees e LEFT JOIN departments d ON e.dept_id = d.id"),
        "got: {out}"
    );
}

#[test]
fn three_tables_bail_out() {
    let sql = "SELECT a.x FROM a, b, c WHERE a.id = b.id(+)";
    assert_eq!(rewrite_oracle_outer_join(sql), sql);
}

#[test]
fn no_plus_no_op() {
    let sql = "SELECT * FROM t";
    assert_eq!(rewrite_oracle_outer_join(sql), sql);
}

#[test]
fn plain_sql_passes_preprocess_unchanged() {
    let sql = "SELECT a, b FROM t WHERE a > 1";
    assert_eq!(preprocess(sql), sql);
}
