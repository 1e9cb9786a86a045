use rust_web_demo::utils::text::{contains_str, join_strings, parse_i32, push_decimal, chars_of};

#[test]
fn parse_i32_plain_numbers() {
    assert_eq!(parse_i32("0"), Some(0));
    assert_eq!(parse_i32("42"), Some(42));
    assert_eq!(parse_i32("007"), Some(7));
}

#[test]
fn parse_i32_signs() {
    assert_eq!(parse_i32("+5"), Some(5));
    assert_eq!(parse_i32("-17"), Some(-17));
    assert_eq!(parse_i32("-"), None);
    assert_eq!(parse_i32("+"), None);
    assert_eq!(parse_i32("--1"), None);
}

#[test]
fn parse_i32_limits() {
    assert_eq!(parse_i32("2147483647"), Some(i32::MAX));
    assert_eq!(parse_i32("2147483648"), None);
    assert_eq!(parse_i32("-2147483648"), Some(i32::MIN));
    assert_eq!(parse_i32("-2147483649"), None);
    assert_eq!(parse_i32("99999999999999999999999"), None);
}

#[test]
fn parse_i32_rejects_other_text() {
    assert_eq!(parse_i32(""), None);
    assert_eq!(parse_i32("12a"), None);
    assert_eq!(parse_i32(" 1"), None);
    assert_eq!(parse_i32("1.5"), None);
}

#[test]
fn parse_i32_agrees_with_std() {
    for s in ["0", "+0", "-0", "123", "-123", "+2147483647", "2147483648", "x", "", "-", "1 ", "٣"] {
        assert_eq!(parse_i32(s), s.parse::<i32>().ok(), "on {:?}", s);
    }
}

#[test]
fn decimal_rendering() {
    let mut s = String::from("port:");
    push_decimal(&mut s, 8080);
    assert_eq!(s, "port:8080");
    let mut z = String::new();
    push_decimal(&mut z, 0);
    assert_eq!(z, "0");
    let mut m = String::new();
    push_decimal(&mut m, u32::MAX);
    assert_eq!(m, u32::MAX.to_string());
}

#[test]
fn joining_segments() {
    let parts = vec!["task".to_string(), "json".to_string(), "".to_string()];
    assert_eq!(join_strings(&parts, "/"), "task/json/");
    assert_eq!(join_strings(&Vec::new(), "/"), "");
    assert_eq!(join_strings(&vec!["one".to_string()], ", "), "one");
}

#[test]
fn substring_search() {
    assert!(contains_str("account/login", "account"));
    assert!(contains_str("my/accounts", "account"));
    assert!(!contains_str("task/1", "account"));
    assert!(contains_str("anything", ""));
    assert!(!contains_str("acc", "account"));
    assert!(contains_str("ééaccount", "account"));
}

#[test]
fn characters_of_text() {
    assert_eq!(chars_of("héllo"), vec!['h', 'é', 'l', 'l', 'o']);
    assert_eq!(chars_of(""), Vec::<char>::new());
}
