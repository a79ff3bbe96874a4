use snaptask::text::{
    chars_of, concat2, i64_text, parse_i32, parse_u32, parse_u64, replace_text, string_of, text_greater,
    trim_end_matches_char, truncate_chars, u64_text,
};

#[test]
fn decimal_text_of_numbers() {
    assert_eq!(u64_text(0), "0");
    assert_eq!(u64_text(4096), "4096");
    assert_eq!(u64_text(u64::MAX), "18446744073709551615");
    assert_eq!(i64_text(-42), "-42");
    assert_eq!(i64_text(i64::MIN), "-9223372036854775808");
    assert_eq!(i64_text(100), "100");
}

#[test]
fn parse_unsigned_like_std() {
    assert_eq!(parse_u64("30"), Some(30));
    assert_eq!(parse_u64("+7"), Some(7));
    assert_eq!(parse_u64("007"), Some(7));
    assert_eq!(parse_u64("-1"), None);
    assert_eq!(parse_u64(""), None);
    assert_eq!(parse_u64("+"), None);
    assert_eq!(parse_u64("12a"), None);
    assert_eq!(parse_u64(" 1"), None);
    assert_eq!(parse_u64("18446744073709551615"), Some(u64::MAX));
    assert_eq!(parse_u64("18446744073709551616"), None);
    assert_eq!(parse_u32("4294967295"), Some(u32::MAX));
    assert_eq!(parse_u32("4294967296"), None);
    for s in ["0", "+15", "99999", "x", "", "-0", "4294967296"] {
        assert_eq!(parse_u32(s), s.parse::<u32>().ok());
        assert_eq!(parse_u64(s), s.parse::<u64>().ok());
    }
}

#[test]
fn parse_i32_like_std() {
    for s in ["-2147483648", "-2147483649", "2147483647", "2147483648", "+1", "-", "+", "", "-0", "12", "1-2"] {
        assert_eq!(parse_i32(s), s.parse::<i32>().ok(), "{}", s);
    }
}

#[test]
fn string_order_like_std() {
    let cases = [
        ("2024-01-02 10:00:00", "2024-01-01 23:59:59"),
        ("a", "a"),
        ("ab", "a"),
        ("a", "ab"),
        ("", ""),
        ("b", ""),
        ("任务", "任"),
        ("Z", "a"),
    ];
    for (a, b) in cases {
        assert_eq!(text_greater(a, b), a > b, "{} > {}", a, b);
    }
}

#[test]
fn trims_trailing_slashes() {
    assert_eq!(trim_end_matches_char("https://x.io///", '/'), "https://x.io");
    assert_eq!(trim_end_matches_char("https://x.io", '/'), "https://x.io");
    assert_eq!(trim_end_matches_char("///", '/'), "");
}

#[test]
fn truncates_by_characters() {
    assert_eq!(truncate_chars("任务提醒", 2), "任务");
    assert_eq!(truncate_chars("abc", 10), "abc");
    let long: String = std::iter::repeat('x').take(600).collect();
    assert_eq!(truncate_chars(&long, 500).chars().count(), 500);
}

#[test]
fn replaces_like_std() {
    let cases = [("aaa", "aa", "b"), ("{x} and {x}", "{x}", "y"), ("none", "zz", "q"), ("abab", "ab", "")];
    for (s, p, r) in cases {
        assert_eq!(replace_text(s, p, r), s.replace(p, r));
    }
}

#[test]
fn chars_and_strings() {
    assert_eq!(chars_of("héllo"), vec!['h', 'é', 'l', 'l', 'o']);
    assert_eq!(string_of(&vec!['任', '务']), "任务");
    assert_eq!(concat2("a", "b"), "ab");
}
