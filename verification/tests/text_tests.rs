use commit2_worker::paths::{file_name, http_root, join};
use commit2_worker::text::{hex_prefix, parse_u64, push_signed_decimal, str_eq, text_contains, u64_to_decimal};

#[test]
fn decimal_renders_numbers() {
    assert_eq!(u64_to_decimal(0), "0");
    assert_eq!(u64_to_decimal(7), "7");
    assert_eq!(u64_to_decimal(1234), "1234");
    assert_eq!(u64_to_decimal(u64::MAX), "18446744073709551615");
}

#[test]
fn signed_decimal_renders_negatives() {
    let mut s = String::from("x");
    push_signed_decimal(&mut s, -42);
    assert_eq!(s, "x-42");
    let mut t = String::new();
    push_signed_decimal(&mut t, i64::MIN);
    assert_eq!(t, "-9223372036854775808");
    let mut u = String::new();
    push_signed_decimal(&mut u, 5);
    assert_eq!(u, "5");
}

#[test]
fn parse_u64_follows_from_str() {
    for text in ["0", "42", "+42", "", "+", "-1", "12a", "18446744073709551615", "18446744073709551616", "007"] {
        assert_eq!(parse_u64(text), text.parse::<u64>().ok(), "{}", text);
    }
}

#[test]
fn decimal_then_parse_gives_back_the_number() {
    for n in [0u64, 9, 10, 99, 100, 123456789, u64::MAX] {
        assert_eq!(parse_u64(&u64_to_decimal(n)), Some(n));
    }
}

#[test]
fn str_eq_compares_characters() {
    assert!(str_eq("abc", "abc"));
    assert!(!str_eq("abc", "abd"));
    assert!(!str_eq("abc", "ab"));
    assert!(str_eq("", ""));
}

#[test]
fn text_contains_finds_substrings() {
    assert!(text_contains("bellman.lock", "bellman"));
    assert!(text_contains("x-bellman", "bellman"));
    assert!(!text_contains("bellma", "bellman"));
    assert!(text_contains("anything", ""));
    assert!(!text_contains("", "a"));
}

#[test]
fn hex_prefix_writes_lower_case_digits() {
    assert_eq!(hex_prefix(&[0xbe, 0xef, 0x01], 3), "beef01");
    assert_eq!(hex_prefix(&[0xbe, 0xef, 0x01], 1), "be");
}

#[test]
fn join_follows_path_rules() {
    assert_eq!(join("/repo", "cache"), "/repo/cache");
    assert_eq!(join("/repo/", "cache"), "/repo/cache");
    assert_eq!(join("", "cache"), "cache");
    assert_eq!(join("/repo", "/abs"), "/abs");
    for (a, b) in [("/a/b", "c"), ("a/", "b/c"), ("", "x"), ("/x", "/y")] {
        let expected = std::path::PathBuf::from(a).join(b);
        assert_eq!(join(a, b), expected.to_str().unwrap());
    }
}

#[test]
fn path_file_names_and_http_roots() {
    assert_eq!(file_name("http://host/dir/piece.car"), "piece.car");
    assert_eq!(file_name("http://host/dir/"), "dir");
    assert_eq!(file_name("http://host/dir/."), "dir");
    assert_eq!(file_name("http://host/.."), "");
    assert_eq!(file_name("/"), "");
    assert_eq!(file_name("name"), "name");
    for p in ["http://host/dir/piece.car", "http://host/dir/", "http://host/dir/.", "http://host/..", "/", "name", "a//b//"] {
        let expected = std::path::Path::new(p).file_name().and_then(|n| n.to_str()).unwrap_or_default();
        assert_eq!(file_name(p), expected);
    }
    assert!(http_root("http://host/x"));
    assert!(http_root("http:"));
    assert!(!http_root("http:x"));
    assert!(!http_root("https://host/x"));
    assert!(!http_root(""));
}
