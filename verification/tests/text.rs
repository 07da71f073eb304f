use little_bobby_tabots::text::{
    concat3, concat5, decimal_text, is_white_space, parse_u64, precedes, same, starts_with,
    strip_prefix, trim,
};

#[test]
fn white_space_is_that_of_unicode() {
    for code in 0..0x11_0000u32 {
        if let Some(c) = char::from_u32(code) {
            assert_eq!(is_white_space(c), c.is_whitespace(), "{code:x}");
        }
    }
}

#[test]
fn trims_both_ends() {
    for s in ["", " ", " a ", "a b", "\r\n a\u{3000}", "\u{a0}x\u{2003}y\u{85}"] {
        assert_eq!(trim(s), s.trim());
        assert_eq!(trim(trim(s)), s.trim());
    }
}

#[test]
fn numbers_read_back() {
    for n in [0, 7, 10, 99, 100, 12_345, u64::MAX] {
        assert_eq!(decimal_text(n), n.to_string());
        assert_eq!(parse_u64(&decimal_text(n)), Some(n));
    }
}

#[test]
fn reads_numbers_like_the_standard_parser() {
    for s in [
        "", "+", "-1", "+5", "++5", "007", "1 ", "18446744073709551615", "18446744073709551616",
        "99999999999999999999999", "1e3", "٣", "0",
    ] {
        assert_eq!(parse_u64(s), s.parse::<u64>().ok(), "{s}");
    }
}

#[test]
fn compares_texts() {
    assert!(same("añb", "añb"));
    assert!(!same("a", "ab"));
    assert!(!same("a", "b"));
    assert!(starts_with("https://x", "https://"));
    assert!(!starts_with("http", "https"));
    assert_eq!(strip_prefix("www.x", "www."), Some("x"));
    assert_eq!(strip_prefix("ww.x", "www."), None);
    for (a, b) in [("", ""), ("", "a"), ("a", ""), ("ab", "b"), ("Z", "a"), ("é", "z"), ("ab", "a")]
    {
        assert_eq!(precedes(a, b), a <= b, "{a} {b}");
    }
}

#[test]
fn joins_texts() {
    assert_eq!(concat3("a", "", "c"), "ac");
    assert_eq!(concat5("1", "2", "3", "4", "5"), "12345");
}
