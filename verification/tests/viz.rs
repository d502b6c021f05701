use sqlparser::dialect::PostgreSqlDialect;
use sqlparser::parser::Parser;
use coral::viz::graph::Style;
use coral::viz::{dot, plantuml, render, Format, Node, NodeKind};

fn has_substring(haystack: &str, needle: &str) -> bool {
    haystack.contains(needle)
}

const SAMPLE_SQL: &str = r#"
    SELECT
        e.id,
        NVL(d.name, 'Unknown')      AS dept,
        COUNT(*)                    AS headcount,
        AVG(e.salary)               AS avg_salary
    FROM hr.employees e
    LEFT JOIN hr.departments d ON e.dept_id = d.id
    WHERE e.salary > 0
    GROUP BY e.id, d.name
"#;

#[test]
fn dot_plain_select_has_select_and_from() {
    let dot = render("SELECT a, b FROM t", Format::Dot).unwrap();
    assert!(dot.starts_with("digraph coral_ast"), "{dot}");
    assert!(has_substring(&dot, "Query"), "{dot}");
    assert!(has_substring(&dot, "Select"), "{dot}");
    assert!(has_substring(&dot, "FROM"), "{dot}");
    assert!(has_substring(&dot, "SELECT"), "{dot}");
    assert!(has_substring(&dot, " -> "), "{dot}");
}

#[test]
fn dot_join_exposes_table_and_join_nodes() {
    let dot = render("SELECT a.id FROM a JOIN b ON a.id = b.id", Format::Dot).unwrap();
    assert!(has_substring(&dot, "a"), "{dot}");
    assert!(has_substring(&dot, "b"), "{dot}");
    assert!(has_substring(&dot, "Inner"), "{dot}");
}

#[test]
fn dot_where_clause_renders_filter_node() {
    let dot = render("SELECT * FROM t WHERE id > 10", Format::Dot).unwrap();
    assert!(has_substring(&dot, "WHERE"), "{dot}");
}

#[test]
fn dot_group_by_and_having() {
    let dot = render("SELECT k, COUNT(*) FROM t GROUP BY k HAVING COUNT(*) > 3", Format::Dot).unwrap();
    assert!(has_substring(&dot, "GROUP BY"), "{dot}");
    assert!(has_substring(&dot, "HAVING"), "{dot}");
}

#[test]
fn dot_escapes_quotes_in_labels() {
    let dot = render("SELECT 'he said \"hi\"' FROM t", Format::Dot).unwrap();
    assert!(dot.contains("digraph"), "{dot}");
}

#[test]
fn dot_cte_exposes_with_node() {
    let dot = render("WITH x AS (SELECT a FROM t) SELECT a FROM x", Format::Dot).unwrap();
    assert!(has_substring(&dot, "CTE"), "{dot}");
    assert!(has_substring(&dot, "WITH"), "{dot}");
}

#[test]
fn dot_multi_statement_has_two_roots() {
    let dot = render("SELECT 1; SELECT 2", Format::Dot).unwrap();
    let occurrences = dot.matches("Query").count();
    assert!(occurrences >= 2, "{dot}");
}

#[test]
fn plantuml_wraps_in_startuml_enduml() {
    let s = render("SELECT 1", Format::PlantUml).unwrap();
    assert!(s.starts_with("@startuml\n"), "{s}");
    assert!(s.trim_end().ends_with("@enduml"), "{s}");
}

#[test]
fn plantuml_contains_rectangles_and_edges() {
    let s = render("SELECT a FROM t WHERE id > 1", Format::PlantUml).unwrap();
    assert!(has_substring(&s, "rectangle"), "{s}");
    assert!(has_substring(&s, "-->"), "{s}");
    assert!(has_substring(&s, "Select"), "{s}");
    assert!(has_substring(&s, "WHERE"), "{s}");
}

fn find_kind(n: &Node, k: NodeKind) -> Option<&Node> {
    if n.kind == k {
        Some(n)
    } else {
        n.children.iter().find_map(|c| find_kind(c, k))
    }
}

#[test]
fn walker_tree_structure_is_reasonable() {
    let stmts = Parser::parse_sql(&PostgreSqlDialect {}, "SELECT a, b FROM t WHERE id > 10").unwrap();
    let root: Node = coral::viz::walker::walk_statement(&stmts[0]);
    assert!(find_kind(&root, NodeKind::Select).is_some());
    assert!(find_kind(&root, NodeKind::From).is_some());
    assert!(find_kind(&root, NodeKind::Filter).is_some());
    assert!(find_kind(&root, NodeKind::Projection).is_some());
    assert!(find_kind(&root, NodeKind::Table).is_some());
}

#[test]
fn parse_error_does_not_panic() {
    match render("SELEKT !", Format::Dot) {
        Ok(_) => (),
        Err(e) => {
            assert!(!e.message().is_empty(), "{e:?}");
        }
    }
}

#[test]
fn viz_dot_contains_expected_nodes() {
    let dot = render(SAMPLE_SQL, Format::Dot).unwrap();
    assert!(dot.contains("Query"), "{dot}");
    assert!(dot.contains("FROM"), "{dot}");
    assert!(dot.contains("WHERE"), "{dot}");
    assert!(dot.contains("GROUP BY"), "{dot}");
    assert!(dot.contains("hr.employees"), "{dot}");
}

fn leaf(label: &str, kind: NodeKind) -> Node {
    Node { label: label.to_string(), kind, children: vec![] }
}

#[test]
fn dot_render_exact_text() {
    let root = Node {
        label: "Query".into(),
        kind: NodeKind::Query,
        children: vec![leaf("say \"hi\"\\", NodeKind::Expression), leaf("t", NodeKind::Table)],
    };
    let got = dot::render(&[root]);
    let want = "digraph coral_ast {\n  rankdir=TB;\n  node [fontname=\"Helvetica\", shape=box, style=\"rounded,filled\"];\n  edge [fontname=\"Helvetica\"];\n\n  // statement 0\n  n0 [label=\"Query\", fillcolor=\"#E8EAF6\", shape=box];\n  n1 [label=\"say \\\"hi\\\"\\\\\", fillcolor=\"#FFFFFF\", shape=ellipse];\n  n0 -> n1;\n  n2 [label=\"t\", fillcolor=\"#FFF3E0\", shape=cylinder];\n  n0 -> n2;\n\n}\n";
    assert_eq!(got, want);
}

#[test]
fn plantuml_render_exact_text_and_numbering_across_statements() {
    let a = leaf("a\"b\nc", NodeKind::Filter);
    let b = Node { label: "Select".into(), kind: NodeKind::Select, children: vec![leaf("x", NodeKind::Expression)] };
    let got = plantuml::render(&[a, b]);
    let want = "@startuml\nskinparam rectangleBackgroundColor #FAFAFA\nskinparam rectangleBorderColor #BDBDBD\nskinparam roundCorner 10\n\n' statement 0\nrectangle \"a''b c\" as n0 #FCE4EC\n\n' statement 1\nrectangle \"Select\" as n1 #E3F2FD\nrectangle \"x\" as n2 #FFFFFF\nn1 --> n2\n\n@enduml\n";
    assert_eq!(got, want);
}

#[test]
fn escape_label_per_style() {
    assert_eq!(coral::viz::graph::escape_label(Style::Dot, "a\"\\\n").into_iter().collect::<String>(), "a\\\"\\\\\\n");
    assert_eq!(coral::viz::graph::escape_label(Style::PlantUml, "a\"\n").into_iter().collect::<String>(), "a'' ");
}

#[test]
fn walker_labels_for_statements_and_clauses() {
    let dot = render("SELECT DISTINCT a AS x FROM t ORDER BY a DESC LIMIT 5", Format::Dot).unwrap();
    assert!(dot.contains("AS x"), "{dot}");
    assert!(dot.contains("ORDER BY (1 key)"), "{dot}");
    assert!(dot.contains("sort DESC"), "{dot}");
    assert!(dot.contains("LIMIT 5"), "{dot}");
    assert!(dot.contains("FROM (1 source)"), "{dot}");
    assert!(dot.contains("SELECT (1 col)"), "{dot}");
    let dot = render("INSERT INTO t SELECT 1", Format::Dot).unwrap();
    assert!(dot.contains("INSERT INTO t"), "{dot}");
    let dot = render("SELECT CASE WHEN a THEN b ELSE c END, CAST(x AS INT) FROM t", Format::Dot).unwrap();
    assert!(dot.contains("CASE") && dot.contains("WHEN") && dot.contains("ELSE"), "{dot}");
    assert!(dot.contains("CAST AS INT"), "{dot}");
}
