use coral::date_format::{contains_date_format_token, translate_pg_date_format};

#[test]
fn basic_date_tokens() {
    assert_eq!(translate_pg_date_format("YYYY-MM-DD"), "yyyy-MM-dd");
}

#[test]
fn timestamp_with_hh24_and_mi() {
    assert_eq!(
        translate_pg_date_format("YYYY-MM-DD HH24:MI:SS"),
        "yyyy-MM-dd HH:mm:ss"
    );
}

#[test]
fn ff_with_digits() {
    assert_eq!(translate_pg_date_format("HH24:MI:SS.FF3"), "HH:mm:ss.SSS");
    assert_eq!(translate_pg_date_format("HH24:MI:SS.FF6"), "HH:mm:ss.SSSSSS");
}

#[test]
fn ff_without_digit_defaults_to_3() {
    assert_eq!(translate_pg_date_format("FF"), "SSS");
}

#[test]
fn non_token_passthrough() {
    assert_eq!(translate_pg_date_format("at YYYY-MM"), "at yyyy-MM");
}

#[test]
fn detects_tokens() {
    assert!(contains_date_format_token("YYYY-MM-DD"));
    assert!(contains_date_format_token("HH:MI"));
    assert!(!contains_date_format_token("fm999.99"));
}

#[test]
fn case_insensitive_input() {
    assert_eq!(translate_pg_date_format("yyyy"), "yyyy");
    assert_eq!(translate_pg_date_format("YYYY"), "yyyy");
}

#[test]
fn date_format_empty_input_is_empty() {
    assert_eq!(translate_pg_date_format(""), "");
}

#[test]
fn date_format_twelve_hour_and_meridian() {
    assert_eq!(translate_pg_date_format("HH12:MI AM"), "hh:mm a");
}

#[test]
fn non_ascii_characters_are_copied() {
    assert_eq!(translate_pg_date_format("é"), "é");
    assert_eq!(translate_pg_date_format("YYYY年MM月DD日"), "yyyy年MM月dd日");
}
