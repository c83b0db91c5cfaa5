use cups_rs::text;

#[test]
fn numbers_are_written_in_decimal() {
    assert_eq!(text::decimal(0), "0");
    assert_eq!(text::decimal(907), "907");
    assert_eq!(text::decimal(u64::MAX), u64::MAX.to_string());
    assert_eq!(text::signed_decimal(-1), "-1");
    assert_eq!(text::signed_decimal(i32::MIN), i32::MIN.to_string());
    assert_eq!(text::signed_decimal(42), "42");
}

#[test]
fn numbers_are_written_in_hexadecimal() {
    assert_eq!(text::hex(0, 4), "0000");
    assert_eq!(text::hex(0x40a, 4), "040a");
    assert_eq!(text::hex(0xabcdef, 4), "abcdef");
    assert_eq!(text::hex(u64::MAX, 4), "ffffffffffffffff");
}

#[test]
fn numbers_read_back() {
    assert_eq!(text::parse_u32("4294967295"), Some(u32::MAX));
    assert_eq!(text::parse_u32("4294967296"), None);
    assert_eq!(text::parse_u32("+7"), Some(7));
    assert_eq!(text::parse_u32("007"), Some(7));
    for bad in ["", "+", "-1", "1a", " 1"] {
        assert_eq!(text::parse_u32(bad), None, "{bad:?}");
    }
    for n in [0u32, 9, 10, 123_456_789] {
        assert_eq!(text::parse_u32(&text::decimal(n as u64)), Some(n));
    }
}

#[test]
fn text_is_compared_with_and_without_ascii_case() {
    assert!(text::same_text("Büro", "Büro"));
    assert!(!text::same_text("büro", "Büro"));
    assert!(text::same_text_ignoring_ascii_case("Canon_TS", "cANON_ts"));
    assert!(!text::same_text_ignoring_ascii_case("BÜRO", "büro"));
    assert!(!text::same_text_ignoring_ascii_case("a", "ab"));
}

#[test]
fn white_space_separates_and_is_trimmed() {
    assert_eq!(text::split_words(" a\tbc\u{2003}d\n"), vec!["a", "bc", "d"]);
    assert!(text::split_words(" \n").is_empty());
    assert_eq!(text::trim("\u{a0} x y \r\n"), "x y");
    assert_eq!(text::trim(""), "");
}

#[test]
fn parts_are_found_by_separator() {
    assert_eq!(text::up_to("a.b.c", '.'), "a");
    assert_eq!(text::up_to("abc", '.'), "abc");
    assert_eq!(text::starting_at("host/path/x", '/'), Some("/path/x"));
    assert_eq!(text::starting_at("host", '/'), None);
    assert_eq!(text::strip_prefix("ipp://h", "ipp://"), Some("h"));
    assert_eq!(text::strip_prefix("ipp", "ipp://"), None);
    assert_eq!(text::split_and_trim("a, b,,c ", ','), vec!["a", "b", "", "c"]);
    assert_eq!(text::split_and_trim("", ','), vec![""]);
}
