use vmtest::text::{
    i64_to_string, join, join_path, parse_u8, split_char, split_lines, split_whitespace, str_ends_with,
    str_eq, trim, u64_to_string,
};

#[test]
fn test_u64_rendering() {
    assert_eq!(u64_to_string(0), "0");
    assert_eq!(u64_to_string(7), "7");
    assert_eq!(u64_to_string(12345), "12345");
    assert_eq!(u64_to_string(u64::MAX), "18446744073709551615");
}

#[test]
fn test_i64_rendering() {
    assert_eq!(i64_to_string(0), "0");
    assert_eq!(i64_to_string(-5), "-5");
    assert_eq!(i64_to_string(32), "32");
    assert_eq!(i64_to_string(i64::MIN), "-9223372036854775808");
    assert_eq!(i64_to_string(i64::MAX), "9223372036854775807");
}

#[test]
fn test_parse_u8_accepts_digits() {
    assert_eq!(parse_u8("0"), Some(0));
    assert_eq!(parse_u8("255"), Some(255));
    assert_eq!(parse_u8("007"), Some(7));
    assert_eq!(parse_u8("+8"), Some(8));
}

#[test]
fn test_parse_u8_rejects_junk() {
    assert_eq!(parse_u8(""), None);
    assert_eq!(parse_u8("+"), None);
    assert_eq!(parse_u8("256"), None);
    assert_eq!(parse_u8("99999999999999999999"), None);
    assert_eq!(parse_u8("1a"), None);
    assert_eq!(parse_u8("-1"), None);
    assert_eq!(parse_u8(" 1"), None);
}

#[test]
fn test_split_char_keeps_empty_fields() {
    assert_eq!(split_char("a.b.c", '.'), vec!["a", "b", "c"]);
    assert_eq!(split_char("a..c", '.'), vec!["a", "", "c"]);
    assert_eq!(split_char("", '.'), vec![""]);
    assert_eq!(split_char(".", '.'), vec!["", ""]);
}

#[test]
fn test_split_whitespace_drops_empty_fields() {
    assert_eq!(split_whitespace("ro quiet"), vec!["ro", "quiet"]);
    assert_eq!(split_whitespace("  ro \t quiet\n"), vec!["ro", "quiet"]);
    assert_eq!(split_whitespace(""), Vec::<String>::new());
    assert_eq!(split_whitespace("   "), Vec::<String>::new());
}

#[test]
fn test_split_lines() {
    assert_eq!(split_lines(""), Vec::<String>::new());
    assert_eq!(split_lines("one\ntwo\n"), vec!["one", "two"]);
    assert_eq!(split_lines("one\ntwo"), vec!["one", "two"]);
    assert_eq!(split_lines("one\r\ntwo\r\n"), vec!["one", "two"]);
    assert_eq!(split_lines("\n"), vec![""]);
}

#[test]
fn test_trim_whitespace() {
    assert_eq!(trim("  8.1.2 \n"), "8.1.2");
    assert_eq!(trim(""), "");
    assert_eq!(trim(" \t "), "");
    assert_eq!(trim("x"), "x");
}

#[test]
fn test_join_with_separator() {
    assert_eq!(join(&vec![], " "), "");
    assert_eq!(join(&vec!["a".to_string()], " "), "a");
    assert_eq!(
        join(&vec!["a".to_string(), "b".to_string(), "c".to_string()], " "),
        "a b c"
    );
}

#[test]
fn test_join_path_separators() {
    assert_eq!(join_path("/a", "b"), "/a/b");
    assert_eq!(join_path("/a/", "b"), "/a/b");
    assert_eq!(join_path("", "b"), "b");
    assert_eq!(join_path("/", "b"), "/b");
}

#[test]
fn test_string_predicates() {
    assert!(str_eq("abc", "abc"));
    assert!(!str_eq("abc", "abd"));
    assert!(!str_eq("abc", "ab"));
    assert!(str_ends_with("qemu: could not open kernel file", "kernel file"));
    assert!(!str_ends_with("file", "kernel file"));
}
