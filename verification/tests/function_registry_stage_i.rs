use coral::function_catalog::{is_known, lookup, registry, Disposition};
use coral::translator::translate;

#[test]
fn registry_total_matches_java_parity_target() {
    let n = registry().len();
    assert!(
        n >= 302,
        "registry size should be at least 302, got {n}"
    );
}


#[test]
fn control_flow_keywords_are_registered() {
    for name in ["case", "when", "in", "between"] {
        let e = lookup(name).unwrap_or_else(|| panic!("missing: {name}"));
        assert_eq!(e.disposition, Disposition::Passthrough, "{name}");
    }
}

#[test]
fn null_family_is_registered() {
    for name in [
        "nullif",
        "isnull",
        "isnotnull",
        "tok_isnull",
        "tok_isnotnull",
    ] {
        assert!(is_known(name), "{name} not registered");
    }
}

#[test]
fn window_family_is_registered() {
    for name in [
        "cume_dist",
        "percent_rank",
        "first_value",
        "last_value",
        "nth_value",
        "lag",
        "lead",
    ] {
        let e = lookup(name).unwrap_or_else(|| panic!("missing {name}"));
        assert_eq!(e.disposition, Disposition::Passthrough, "{name}");
    }
}

#[test]
fn variance_family_is_registered() {
    for name in [
        "variance",
        "var_pop",
        "var_samp",
        "stddev",
        "stddev_pop",
        "stddev_samp",
    ] {
        assert!(is_known(name), "{name}");
    }
}

#[test]
fn replace_translate3_rlike_regexp_registered() {
    for name in ["replace", "translate3", "rlike", "regexp"] {
        assert!(is_known(name), "{name}");
    }
}

#[test]
fn reflect_java_method_marked_unsupported() {
    for name in ["reflect", "java_method", "generic_project"] {
        let e = lookup(name).unwrap_or_else(|| panic!("missing {name}"));
        assert_eq!(
            e.disposition,
            Disposition::UnsupportedBySpark,
            "{name} should be UnsupportedBySpark (no Spark analog)"
        );
    }
}

#[test]
fn strpos_renamed_to_instr_for_spark() {
    let e = lookup("strpos").unwrap_or_else(|| panic!("strpos missing"));
    match e.disposition {
        Disposition::Rename(new) => assert_eq!(new, "INSTR"),
        other => panic!("expected Rename(INSTR), got {other:?}"),
    }
    let got = translate("SELECT strpos(s, 'A') FROM t").unwrap();
    assert!(got.contains("INSTR(s, 'A')"), "{got}");
    assert!(!got.to_uppercase().contains("STRPOS("), "{got}");
}

#[test]
fn timestamp_from_unixtime_renamed() {
    let e = lookup("timestamp_from_unixtime").unwrap();
    match e.disposition {
        Disposition::Rename(new) => {
            assert_eq!(new, "TIMESTAMP_SECONDS");
        }
        other => panic!("expected rename, got {other:?}"),
    }
}

#[test]
fn from_utf8_renamed_to_decode() {
    let e = lookup("from_utf8").unwrap();
    match e.disposition {
        Disposition::Rename(new) => {
            assert_eq!(new, "DECODE");
        }
        other => panic!("expected rename, got {other:?}"),
    }
}


#[test]
fn linkedin_fqn_udfs_registered_as_unsupported() {
    for name in [
        "com.linkedin.dali.udf.date.hive.dateformattoepoch",
        "com.linkedin.dali.udf.sanitize.hive.sanitize",
        "com.linkedin.dali.udf.monarch.urngenerator",
        "com.linkedin.dali.view.udf.entityhandles.getidfromurn",
        "com.linkedin.dali.views.premium.udf.getfamily",
        "com.linkedin.dali.views.search.udf.getverticaludf",
        "com.linkedin.dwh.udf.profile.getprofileurl",
        "com.linkedin.groot.runtime.udf.spark.hasmemberconsentudf",
        "com.linkedin.tscp.reporting.dali.udfs.activityid",
        "com.linkedin.udfs.standard.hive.obfuscateall",
        "com.linkedin.vector.daliview.udf.presentdatatype",
        "udfs.seoreferrertrkudf",
    ] {
        let e = lookup(name).unwrap_or_else(|| panic!("missing {name}"));
        assert_eq!(
            e.disposition,
            Disposition::UnsupportedBySpark,
            "{name} should be UnsupportedBySpark"
        );
    }
}

