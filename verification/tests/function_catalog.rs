use std::collections::HashMap;

use coral::function_catalog::{is_known, lookup, registry, Category, Disposition};

#[test]
fn registry_has_many_entries() {
    let n = registry().len();
    assert!(n > 150, "registry size = {n}");
}

#[test]
fn case_insensitive_lookup() {
    assert!(lookup("NVL").is_some());
    assert!(lookup("nvl").is_some());
    assert!(lookup("Nvl").is_some());
}

#[test]
fn all_stage1_rewrites_are_registered() {
    for (name, want) in [
        ("nvl", "COALESCE"),
        ("array_agg", "COLLECT_LIST"),
        ("random", "RAND"),
        ("substr", "SUBSTRING"),
        ("generate_series", "SEQUENCE"),
        ("bool_and", "EVERY"),
        ("bool_or", "SOME"),
    ] {
        let e = lookup(name).unwrap_or_else(|| panic!("missing: {name}"));
        match e.disposition {
            Disposition::Rename(new) => assert_eq!(new, want, "{name}"),
            other => panic!("{name}: expected Rename({want:?}), got {other:?}"),
        }
    }
}

#[test]
fn passthrough_functions_are_passthrough() {
    for name in ["count", "sum", "concat", "cos", "sqrt", "date_add"] {
        assert_eq!(
            lookup(name).unwrap().disposition,
            Disposition::Passthrough,
            "{name} should be passthrough"
        );
    }
}

#[test]
fn unknown_functions_return_none() {
    assert!(lookup("frobnicate_the_baz").is_none());
    assert!(!is_known("nonesuch"));
}

#[test]
fn category_counts_are_sane() {
    let mut by_cat: HashMap<Category, usize> = HashMap::new();
    for e in registry().iter() {
        *by_cat.entry(e.category).or_default() += 1;
    }
    assert!(
        by_cat.get(&Category::String).copied().unwrap_or(0) > 20,
        "String category count too small: {by_cat:?}"
    );
}

#[test]
fn registry_names_are_lower_case_and_distinct() {
    let r = registry();
    let mut names: Vec<&str> = r.iter().map(|e| e.lower_name).collect();
    for n in &names {
        assert_eq!(n.to_ascii_lowercase(), *n);
    }
    names.sort();
    let len = names.len();
    names.dedup();
    assert_eq!(names.len(), len);
}

#[test]
fn is_known_agrees_with_lookup() {
    for name in ["NVL", "decode", "frobnicate", "Count", ""] {
        assert_eq!(is_known(name), lookup(name).is_some(), "{name}");
    }
}
