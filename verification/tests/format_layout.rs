use coral::format::{drop_as_in_from, pretty_print};

fn solid(s: &str) -> String {
    s.chars().filter(|c| *c != ' ' && *c != '\n').collect()
}

#[test]
fn pretty_print_changes_only_spaces_and_breaks() {
    let samples = [
        "SELECT a, b FROM t WHERE x > 1 GROUP BY a HAVING COUNT(*) > 2 ORDER BY a LIMIT 3",
        "SELECT 'FROM x' AS s FROM (SELECT 1 FROM u) sub UNION ALL SELECT 2",
        "select   id   from   t   where  y = 'a  b'",
    ];
    for s in samples {
        let out = pretty_print(s);
        assert_eq!(solid(&out), solid(s), "{out}");
    }
    assert_eq!(pretty_print("SELECT a FROM t WHERE b"), "SELECT a\nFROM t\nWHERE b");
}

#[test]
fn drop_as_only_on_from_lines() {
    assert_eq!(drop_as_in_from("SELECT x AS y\nFROM t AS t"), "SELECT x AS y\nFROM t t");
}
