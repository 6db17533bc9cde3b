use spellbook::number::{decimal_string, parse_i32, signed_decimal_string};
use spellbook::text::{
    chars_of, contains_str, is_whitespace, join_strings, str_eq, strip_prefix_str, trim_start_char_str,
    trim_str,
};

#[test]
fn whitespace_set_matches_std() {
    for u in 0u32..=0x10ffff {
        if let Some(c) = char::from_u32(u) {
            assert_eq!(is_whitespace(c), c.is_whitespace(), "code point {:x}", u);
        }
    }
    assert!(is_whitespace('\u{3000}'));
    assert!(!is_whitespace('\u{180e}'));
}

#[test]
fn trim_removes_white_space_at_both_ends() {
    assert_eq!(trim_str("  hello world \r\n"), "hello world");
    assert_eq!(trim_str("\u{a0}x\u{2003}"), "x");
    assert_eq!(trim_str(" \t\n "), "");
    assert_eq!(trim_str(""), "");
    for s in ["  a b  ", "\tq\n", "none", " \u{85}z\u{205f}"] {
        assert_eq!(trim_str(s), s.trim());
    }
}

#[test]
fn prefixes_and_substrings() {
    assert_eq!(strip_prefix_str("switch qwen", "switch "), Some("qwen".to_string()));
    assert_eq!(strip_prefix_str("switc", "switch "), None);
    assert_eq!(strip_prefix_str("abc", ""), Some("abc".to_string()));
    assert!(contains_str("/usr/bin/zsh", "zsh"));
    assert!(contains_str("abc", ""));
    assert!(!contains_str("zs", "zsh"));
    assert!(str_eq("héllo", "héllo"));
    assert!(!str_eq("hello", "hell"));
    assert_eq!(trim_start_char_str("///a/b", '/'), "a/b");
    assert_eq!(trim_start_char_str("a/", '/'), "a/");
    assert_eq!(chars_of("añb"), vec!['a', 'ñ', 'b']);
}

#[test]
fn join_puts_separator_between_items() {
    let items = vec!["a".to_string(), "b".to_string(), "c".to_string()];
    assert_eq!(join_strings(&items, ", "), "a, b, c");
    assert_eq!(join_strings(&vec!["only".to_string()], ", "), "only");
    assert_eq!(join_strings(&Vec::new(), ", "), "");
}

#[test]
fn decimal_rendering_matches_to_string() {
    for n in [0u64, 7, 10, 407, 7777, 32768, u32::MAX as u64, u64::MAX] {
        assert_eq!(decimal_string(n), n.to_string());
    }
    for n in [0i64, -1, -15, 42, i32::MIN as i64, i32::MAX as i64, i64::MIN, i64::MAX] {
        assert_eq!(signed_decimal_string(n), n.to_string());
    }
}

#[test]
fn parse_i32_matches_std_parse() {
    let cases = [
        "42", "+7", "-0", "-15", "007", "", "+", "-", "--5", " 1", "1 ", "12a", "2147483647", "2147483648",
        "-2147483648", "-2147483649", "99999999999999999999", "٣",
    ];
    for s in cases {
        assert_eq!(parse_i32(s), s.parse::<i32>().ok(), "input {:?}", s);
    }
    assert_eq!(parse_i32("-2147483648"), Some(i32::MIN));
    assert_eq!(parse_i32("2147483648"), None);
}
