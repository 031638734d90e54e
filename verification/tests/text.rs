use pyoxidizer_config::error::reading_error;
use pyoxidizer_config::manifest::{ALL, EMBEDDED, EMPTY_MAP, EMPTY_STRING_ARRAY, TRUE, ZERO};
use pyoxidizer_config::settings::parse_stdio_encoding;
use pyoxidizer_config::target::target_matches;
use pyoxidizer_config::text::{
    clone_optional, clone_strings, decimal, find_char, replace, starts_with, str_eq,
};

#[test]
fn manifest_defaults() {
    assert!(TRUE());
    assert_eq!(ZERO(), 0);
    assert_eq!(ALL(), "all");
    assert_eq!(EMBEDDED(), "embedded");
    assert!(EMPTY_MAP().is_empty());
    assert!(EMPTY_STRING_ARRAY().is_empty());
}

#[test]
fn wildcard_target_applies_to_every_request() {
    assert!(target_matches("all", "linux"));
    assert!(target_matches("all", ""));
    assert!(target_matches("all", "all"));
    assert!(target_matches(&ALL(), "x86_64-unknown-linux-gnu"));
}

#[test]
fn declared_target_must_equal_the_request() {
    assert!(target_matches("linux", "linux"));
    assert!(target_matches("", ""));
    assert!(!target_matches("linux", "Linux"));
    assert!(!target_matches("linux", "linux-gnu"));
    assert!(!target_matches("linux-gnu", "linux"));
    assert!(!target_matches("linux", "all"));
    assert!(!target_matches("All", "linux"));
    assert!(!target_matches(" all", "linux"));
    assert!(!target_matches("*", "linux"));
}

#[test]
fn strings_compare_by_their_characters() {
    assert!(str_eq("", ""));
    assert!(str_eq("héllo", "héllo"));
    assert!(!str_eq("héllo", "hello"));
    assert!(!str_eq("a", "ab"));
    assert!(!str_eq("ab", "a"));
    assert!(!str_eq("ab", "ac"));
}

#[test]
fn prefixes_are_found_at_the_start_only() {
    assert!(starts_with("app-relative:lib", "app-relative:"));
    assert!(starts_with("abc", ""));
    assert!(starts_with("abc", "abc"));
    assert!(!starts_with("ab", "abc"));
    assert!(!starts_with("xapp-relative:", "app-relative:"));
    assert!(starts_with("éa", "é"));
}

#[test]
fn replace_takes_occurrences_from_the_left() {
    assert_eq!(replace("$ORIGIN/build", "$ORIGIN", "/proj"), "/proj/build");
    assert_eq!(replace("a$ORIGIN$ORIGINb", "$ORIGIN", "-"), "a--b");
    assert_eq!(replace("no token", "$ORIGIN", "/proj"), "no token");
    assert_eq!(replace("$ORIGI", "$ORIGIN", "/proj"), "$ORIGI");
    assert_eq!(replace("", "$ORIGIN", "/proj"), "");
    assert_eq!(replace("aaa", "aa", "b"), "ba");
    assert_eq!(replace("abc", "", "x"), "abc");
    assert_eq!(replace("$ORIGIN", "$ORIGIN", "$ORIGIN$ORIGIN"), "$ORIGIN$ORIGIN");
    assert_eq!(replace("é$ORIGINé", "$ORIGIN", "ü"), "éüé");
}

#[test]
fn find_char_gives_the_first_position_or_the_length() {
    assert_eq!(find_char("a:b:c", ':', 0), 1);
    assert_eq!(find_char("a:b:c", ':', 1), 1);
    assert_eq!(find_char("a:b:c", ':', 2), 3);
    assert_eq!(find_char("a:b:c", ':', 4), 5);
    assert_eq!(find_char("a:b:c", ':', 9), 5);
    assert_eq!(find_char("", ':', 0), 0);
    assert_eq!(find_char("éé:", ':', 0), 2);
}

#[test]
fn decimal_notation() {
    assert_eq!(decimal(0), "0");
    assert_eq!(decimal(7), "7");
    assert_eq!(decimal(10), "10");
    assert_eq!(decimal(1234567890), "1234567890");
    assert_eq!(decimal(-1), "-1");
    assert_eq!(decimal(-100), "-100");
    assert_eq!(decimal(i64::MAX), "9223372036854775807");
    assert_eq!(decimal(i64::MIN), "-9223372036854775808");
}

#[test]
fn copies_hold_the_same_strings() {
    let list = vec!["a".to_string(), String::new(), "ç".to_string()];
    assert_eq!(clone_strings(&list), list);
    assert_eq!(clone_strings(&vec![]), Vec::<String>::new());
    assert_eq!(clone_optional(&Some("x".to_string())), Some("x".to_string()));
    assert_eq!(clone_optional(&None), None);
}

#[test]
fn stdio_encoding_has_two_parts() {
    assert_eq!(
        parse_stdio_encoding("utf-8:strict"),
        Some(("utf-8".to_string(), "strict".to_string()))
    );
    assert_eq!(parse_stdio_encoding("a:b:c"), Some(("a".to_string(), "b".to_string())));
    assert_eq!(parse_stdio_encoding("a:"), Some(("a".to_string(), String::new())));
    assert_eq!(parse_stdio_encoding(":b"), Some((String::new(), "b".to_string())));
    assert_eq!(parse_stdio_encoding("utf-8"), None);
    assert_eq!(parse_stdio_encoding(""), None);
}

#[test]
fn reading_error_names_the_manifest() {
    assert_eq!(
        reading_error("/proj/pyoxidizer.toml", "no [[python_distribution]] sections"),
        "err reading config /proj/pyoxidizer.toml: no [[python_distribution]] sections"
    );
}
