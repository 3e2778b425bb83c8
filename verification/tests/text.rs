use taurvia_wallet::text::{
    contains_str, eq_ignore_ascii_case, is_all_hex, is_blank, parse_u64, str_equal,
    strip_prefix_or_self_exec, trim,
};

#[test]
fn trim_strips_unicode_white_space() {
    assert_eq!(trim("  abc \t\n"), "abc");
    assert_eq!(trim("\u{3000}\u{a0}x y\u{2028}"), "x y");
    assert_eq!(trim("   "), "");
    assert_eq!(trim(""), "");
    assert_eq!(trim("a"), "a");
    let samples = [" \u{85}mixed\u{205f} ", "\u{1680}\u{2000}\u{200a}z", "no-space"];
    for s in samples {
        assert_eq!(trim(s), s.trim());
    }
}

#[test]
fn blank_means_only_white_space() {
    assert!(is_blank(""));
    assert!(is_blank(" \t\r\n\u{3000}"));
    assert!(!is_blank(" x "));
}

#[test]
fn ascii_case_insensitive_equality() {
    assert!(eq_ignore_ascii_case("SOL", "sol"));
    assert!(eq_ignore_ascii_case("NaTiVe", "native"));
    assert!(!eq_ignore_ascii_case("sol", "sola"));
    assert!(!eq_ignore_ascii_case("É", "é"));
    assert!(eq_ignore_ascii_case("", ""));
}

#[test]
fn string_equality() {
    assert!(str_equal("ethereum-mainnet", "ethereum-mainnet"));
    assert!(!str_equal("ethereum-mainnet", "Ethereum-mainnet"));
}

#[test]
fn substring_search() {
    assert!(contains_str("ABC...", "..."));
    assert!(contains_str("...", "..."));
    assert!(!contains_str("A..B", "..."));
    assert!(!contains_str("..", "..."));
    assert!(contains_str("anything", ""));
}

#[test]
fn hex_digits() {
    assert!(is_all_hex("0123456789abcdefABCDEF"));
    assert!(!is_all_hex("0x12"));
    assert!(is_all_hex(""));
}

#[test]
fn strip_hex_prefix() {
    assert_eq!(strip_prefix_or_self_exec("0xabc", "0x"), "abc");
    assert_eq!(strip_prefix_or_self_exec("abc", "0x"), "abc");
    assert_eq!(strip_prefix_or_self_exec("0", "0x"), "0");
}

#[test]
fn parse_u64_follows_std() {
    let cases = [
        "0", "42", "+7", "+", "-1", "", " 1", "1 ", "18446744073709551615",
        "18446744073709551616", "00012", "1_000", "+-1",
    ];
    for c in cases {
        assert_eq!(parse_u64(c), c.parse::<u64>().ok(), "input {c:?}");
    }
    assert_eq!(parse_u64("1000000"), Some(1_000_000));
    assert_eq!(parse_u64("18446744073709551616"), None);
}
