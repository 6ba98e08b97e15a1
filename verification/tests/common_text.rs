use sphinx_bot::decimal::{decimal_i64, parse_i64, parse_usize};
use sphinx_bot::text::{split_char, split_whitespace, str_eq, strip_prefix, trim_str};

#[test]
fn decimal_writes_integers_as_display_does() {
    assert_eq!(decimal_i64(0), "0");
    assert_eq!(decimal_i64(7), "7");
    assert_eq!(decimal_i64(-42), "-42");
    assert_eq!(decimal_i64(-1001234567890), "-1001234567890");
    assert_eq!(decimal_i64(i64::MAX), i64::MAX.to_string());
    assert_eq!(decimal_i64(i64::MIN), i64::MIN.to_string());
}

#[test]
fn parse_i64_reads_as_str_parse_does() {
    assert_eq!(parse_i64("123"), Some(123));
    assert_eq!(parse_i64("+5"), Some(5));
    assert_eq!(parse_i64("-5"), Some(-5));
    assert_eq!(parse_i64("007"), Some(7));
    assert_eq!(parse_i64("-9223372036854775808"), Some(i64::MIN));
    assert_eq!(parse_i64("9223372036854775807"), Some(i64::MAX));
    assert_eq!(parse_i64("9223372036854775808"), None);
    assert_eq!(parse_i64("-9223372036854775809"), None);
    assert_eq!(parse_i64(""), None);
    assert_eq!(parse_i64("-"), None);
    assert_eq!(parse_i64("+"), None);
    assert_eq!(parse_i64("12a"), None);
    assert_eq!(parse_i64(" 12"), None);
    assert_eq!(parse_i64("１２"), None);
}

#[test]
fn parse_usize_reads_as_str_parse_does() {
    assert_eq!(parse_usize("0"), Some(0));
    assert_eq!(parse_usize("+7"), Some(7));
    assert_eq!(parse_usize("-0"), None);
    assert_eq!(parse_usize("-"), None);
    assert_eq!(parse_usize("18446744073709551615"), Some(18446744073709551615usize));
    assert_eq!(parse_usize("18446744073709551616"), None);
}

#[test]
fn parse_reads_back_every_decimal() {
    for n in [0i64, 1, -1, 9, 10, -10, 123456789, i64::MIN, i64::MAX, -1001234567890] {
        assert_eq!(parse_i64(&decimal_i64(n)), Some(n));
    }
}

#[test]
fn split_whitespace_gives_the_words() {
    assert_eq!(split_whitespace("  /start   verify_-100 \n"), vec!["/start", "verify_-100"]);
    assert_eq!(split_whitespace("/help"), vec!["/help"]);
    assert!(split_whitespace(" \t\n ").is_empty());
    assert_eq!(split_whitespace("a\u{3000}b\u{a0}c"), vec!["a", "b", "c"]);
    let text = "x  y\tz";
    let expected: Vec<&str> = text.split_whitespace().collect();
    assert_eq!(split_whitespace(text), expected);
}

#[test]
fn split_char_keeps_empty_pieces() {
    assert_eq!(split_char("a::b", ':'), vec!["a", "", "b"]);
    assert_eq!(split_char("", ':'), vec![""]);
    assert_eq!(split_char(":", ':'), vec!["", ""]);
    assert_eq!(split_char("answer:-1:2:3", ':'), vec!["answer", "-1", "2", "3"]);
}

#[test]
fn trim_and_prefix_and_equality() {
    assert_eq!(trim_str("  x y \t"), "x y");
    assert_eq!(trim_str("   "), "");
    assert_eq!(trim_str(""), "");
    assert_eq!(strip_prefix("verify_-100", "verify_"), Some("-100"));
    assert_eq!(strip_prefix("verify", "verify_"), None);
    assert_eq!(strip_prefix("xverify_1", "verify_"), None);
    assert!(str_eq("suspending", "suspending"));
    assert!(!str_eq("suspending", "suspended"));
    assert!(!str_eq("", "x"));
}

#[test]
fn whitespace_is_the_unicode_white_space_property() {
    for u in 0u32..=0x10FFFF {
        if let Some(c) = char::from_u32(u) {
            assert_eq!(sphinx_bot::text::char_is_whitespace(c), c.is_whitespace(), "U+{:04X}", u);
        }
    }
}

#[test]
fn string_helpers_agree_with_std_on_samples() {
    let samples = [
        "", " ", "a", " a ", "a b", "  /start\u{2003}verify_-1 \n", "::", "a:b:", ":a",
        "\u{3000}中文 测试\t", "-100, -200 ,x,", "x\u{200B}y",
    ];
    for s in samples {
        let words: Vec<&str> = s.split_whitespace().collect();
        assert_eq!(split_whitespace(s), words);
        let pieces: Vec<&str> = s.split(':').collect();
        assert_eq!(split_char(s, ':'), pieces);
        assert_eq!(trim_str(s), s.trim());
        assert_eq!(parse_i64(s), s.parse::<i64>().ok());
    }
}
