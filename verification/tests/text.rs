use responses_api_store::capabilities::{
    parse_redis_version, redis_version_supports_exclusive_range, redis_version_supports_lag,
};
use responses_api_store::text::{
    begins_with, chars_of, contains_text, find_char, is_empty_text, parse_signed, parse_unsigned,
    push_decimal, replace_text, same_text, text_between, trimmed_between, white_space,
};
use responses_api_store::RedisCapabilities;

#[test]
fn redis_version_supports_lag_from_major_version() {
    assert!(redis_version_supports_lag("7.0.15"));
    assert!(redis_version_supports_lag("9.1.0"));
    assert!(!redis_version_supports_lag("6.2.14"));
    assert!(!redis_version_supports_lag(""));
}

#[test]
fn redis_version_supports_exclusive_range_from_minor_version() {
    assert!(redis_version_supports_exclusive_range("6.2.14"));
    assert!(redis_version_supports_exclusive_range("7.0.0"));
    assert!(!redis_version_supports_exclusive_range("6.1.0"));
    assert!(!redis_version_supports_exclusive_range("5.0.14"));
}

#[test]
fn versions_without_a_minor_part_must_be_above_the_major_one() {
    assert!(redis_version_supports_lag("8"));
    assert!(!redis_version_supports_lag("7"));
    assert!(!redis_version_supports_lag("7."));
    assert!(redis_version_supports_lag("8.x"));
    assert!(!redis_version_supports_lag("x.9"));
    assert!(!redis_version_supports_lag("4294967296.0"));
    assert!(redis_version_supports_lag("4294967295.0"));
}

#[test]
fn version_line_is_found_and_trimmed() {
    let info = "# Server\r\nredis_version: 7.2.4 \r\nredis_version:1.0.0\r\n";
    assert_eq!(parse_redis_version(info).as_deref(), Some("7.2.4"));
    assert_eq!(parse_redis_version("xredis_version:7.2.4"), None);
    assert_eq!(parse_redis_version("redis_version:"), Some(String::new()));
    assert_eq!(parse_redis_version(""), None);
    let capabilities = RedisCapabilities::from_info(info);
    assert_eq!(capabilities.version, "7.2.4");
    assert!(capabilities.lag_supported);
    assert!(capabilities.exclusive_range_supported);
    let unknown = RedisCapabilities::from_info("nothing");
    assert_eq!(unknown.version, "");
    assert!(!unknown.lag_supported);
    assert!(!unknown.exclusive_range_supported);
    assert_eq!(unknown.clone(), unknown);
}

#[test]
fn version_lines_are_split_as_the_standard_library_splits_them() {
    let infos = [
        "a\nredis_version:1\r", "redis_version:1\r\r\nx", "\n\nredis_version:\u{a0}2\u{3000}\n",
        "\rredis_version:3", "redis_version:4\n", "\nredis_version:5",
    ];
    for info in infos {
        let expected = info
            .lines()
            .find_map(|line| line.strip_prefix("redis_version:"))
            .map(|version| version.trim().to_string());
        assert_eq!(parse_redis_version(info), expected);
    }
}

#[test]
fn white_space_is_that_of_the_standard_library() {
    for code in 0..=0x10ffff_u32 {
        if let Some(c) = char::from_u32(code) {
            assert_eq!(white_space(c), c.is_whitespace());
        }
    }
}

#[test]
fn texts_are_searched_and_replaced() {
    assert!(same_text("a\u{e9}", "a\u{e9}"));
    assert!(!same_text("a", "b"));
    assert!(is_empty_text(""));
    assert!(!is_empty_text(" "));
    assert!(begins_with("resp_1", "resp_"));
    assert!(!begins_with("res", "resp_"));
    assert!(begins_with("", ""));
    assert!(contains_text("-BUSYGROUP x", "BUSYGROUP"));
    assert!(contains_text("x", ""));
    assert!(!contains_text("BUSY", "BUSYGROUP"));
    assert_eq!(replace_text("aaaa", "aa", "b"), "aaaa".replace("aa", "b"));
    assert_eq!(replace_text("abab", "ab", ""), "");
    assert_eq!(replace_text("xyz", "q", "r"), "xyz");
    let chars = chars_of("h\u{e9}llo");
    assert_eq!(chars.len(), 5);
    assert_eq!(find_char(&chars, 0, 'l'), 2);
    assert_eq!(find_char(&chars, 0, 'x'), 5);
    assert_eq!(text_between(&chars, 1, 3), "\u{e9}l");
    assert_eq!(trimmed_between(&chars_of(" \ta b\n "), 0, 7), "a b");
}

#[test]
fn numbers_are_written_and_read_back() {
    for number in [0, 7, 10, 99, 100, 86_400, u64::MAX] {
        let mut text = String::from("n=");
        push_decimal(&mut text, number);
        assert_eq!(text, format!("n={number}"));
        assert_eq!(parse_unsigned(&text[2..], u64::MAX), Some(number));
    }
    assert_eq!(parse_unsigned("256", 255), None);
    assert_eq!(parse_signed("-1"), Some(-1));
}
