use ffchess_client::text::{
    contains_text, eq_ignore_ascii_case, format_i64, has_prefix, parse_i64, parse_usize, str_equal,
    trim, trim_start_char,
};

#[test]
fn trim_matches_std() {
    for s in ["  hi  ", "\t\nx y\u{3000}", "", "   ", "a", "\u{a0}b\u{85}"] {
        assert_eq!(trim(s), s.trim());
    }
}

#[test]
fn ascii_case_and_prefixes() {
    assert!(eq_ignore_ascii_case("#AbC", "#aBc"));
    assert!(!eq_ignore_ascii_case("#abc", "#abd"));
    assert!(!eq_ignore_ascii_case("ab", "abc"));
    assert!(has_prefix("https://x", "https://"));
    assert!(!has_prefix("http", "https://"));
    assert!(str_equal("ws", "ws"));
    assert!(!str_equal("ws", "wss"));
    assert_eq!(trim_start_char("##ffa", '#'), "ffa");
    assert_eq!(trim_start_char("ffa#", '#'), "ffa#");
}

#[test]
fn decimal_parsing_matches_std() {
    for s in ["0", "42", "+7", "-15", "", "-", "+", "9223372036854775807", "9223372036854775808", "-9223372036854775808", "-9223372036854775809", "1a", " 1", "007"] {
        assert_eq!(parse_i64(s), s.parse::<i64>().ok(), "{s}");
        assert_eq!(parse_usize(s), s.parse::<usize>().ok(), "{s}");
    }
}

#[test]
fn substring_search() {
    assert!(contains_text("abc invalid session secret!", "invalid session secret"));
    assert!(!contains_text("invalid session", "invalid session secret"));
    assert!(contains_text("x", ""));
}

#[test]
fn numbers_format_as_to_string_does() {
    for v in [0i64, 7, 10, -1, -10, 1234567890, i64::MAX, i64::MIN] {
        assert_eq!(format_i64(v), v.to_string());
        assert_eq!(parse_i64(&format_i64(v)), Some(v));
    }
}
