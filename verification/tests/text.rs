use kudos_api::text::{
    concat3, i32_to_string, i64_to_string, join_strings, parse_u32, split_char, str_contains, str_eq, lowercase_option,
    with_number,
};

#[test]
fn decimal_forms() {
    for n in [0i64, 7, 10, 99, 100, -1, -250, i64::MAX, i64::MIN] {
        assert_eq!(i64_to_string(n), n.to_string());
    }
    for n in [0i32, 42, -42, i32::MIN, i32::MAX] {
        assert_eq!(i32_to_string(n), n.to_string());
    }
    assert_eq!(with_number("Task #", 12, " not found"), "Task #12 not found");
}

#[test]
fn parse_u32_matches_std() {
    for s in ["0", "42", "+42", "007", "4294967295", "4294967296", "", "+", "-1", "1a", " 1", "99999999999999999999"] {
        assert_eq!(parse_u32(s), s.parse::<u32>().ok(), "input {s:?}");
    }
}

#[test]
fn containment() {
    assert!(str_contains("abcabd", "abd"));
    assert!(str_contains("abc", ""));
    assert!(!str_contains("ab", "abc"));
    assert!(!str_contains("", "a"));
    assert!(str_eq("é", "é"));
    assert!(!str_eq("a", "b"));
}

#[test]
fn split_and_join() {
    assert_eq!(split_char("a,,b", ','), vec!["a", "", "b"]);
    assert_eq!(split_char("", ','), vec![""]);
    let parts = vec!["x".to_string(), "y".to_string(), "z".to_string()];
    assert_eq!(join_strings(&parts, ", "), "x, y, z");
    assert_eq!(join_strings(&vec![], ", "), "");
    assert_eq!(concat3("a", "b", "c"), "abc");
}

#[test]
fn lowercase_is_std_lowercase() {
    assert_eq!(lowercase_option(&Some("ÀbC".to_string())), Some("àbc".to_string()));
    assert_ne!(lowercase_option(&Some("ABC".to_string())), Some("ABC".to_string()));
    assert_eq!(lowercase_option(&None), None);
}
