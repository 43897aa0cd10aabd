use hugo_bridge::text::{
    decimal_text, is_whitespace, same_text, split_once_text, strip_line_end_text, trim_text,
};

#[test]
fn trim_removes_spaces_and_tabs_at_both_ends() {
    assert_eq!(trim_text("  \tKey \t "), "Key");
    assert_eq!(trim_text("a b"), "a b");
    assert_eq!(trim_text("   "), "");
    assert_eq!(trim_text(""), "");
}

#[test]
fn trim_matches_std_on_unicode_whitespace() {
    let samples = [
        "\u{00A0}x\u{3000}",
        "\u{2028}\u{2029} y \u{205F}",
        "\u{1680}\u{2000}\u{200A}z\u{202F}\u{0085}",
        "\u{200B}w\u{200B}",
        "\r\n v \x0B\x0C",
    ];
    for s in samples {
        assert_eq!(trim_text(s), s.trim());
    }
}

#[test]
fn whitespace_agrees_with_std() {
    for u in 0u32..0x3100 {
        if let Some(c) = char::from_u32(u) {
            assert_eq!(is_whitespace(c), c.is_whitespace(), "code point {:x}", u);
        }
    }
}

#[test]
fn strip_line_end_removes_crlf_only_at_end() {
    assert_eq!(strip_line_end_text("Event: UserEvent\r\n"), "Event: UserEvent");
    assert_eq!(strip_line_end_text("x\n\r\n\r"), "x");
    assert_eq!(strip_line_end_text("\r\n"), "");
    assert_eq!(strip_line_end_text("a\r\nb"), "a\r\nb");
    assert_eq!(strip_line_end_text(" \r\n"), " ");
}

#[test]
fn split_once_cuts_at_first_separator() {
    assert_eq!(
        split_once_text("Key: a:b", ':'),
        Some(("Key".to_string(), " a:b".to_string()))
    );
    assert_eq!(split_once_text(":", ':'), Some((String::new(), String::new())));
    assert_eq!(split_once_text("no separator", ':'), None);
}

#[test]
fn decimal_writes_numbers() {
    assert_eq!(decimal_text(0), "0");
    assert_eq!(decimal_text(7), "7");
    assert_eq!(decimal_text(10), "10");
    assert_eq!(decimal_text(5038), "5038");
    assert_eq!(decimal_text(65535), "65535");
    assert_eq!(decimal_text(u64::MAX), u64::MAX.to_string());
}

#[test]
fn same_text_compares_characters() {
    assert!(same_text("Up", "Up"));
    assert!(!same_text("Up", "up"));
    assert!(!same_text("Up", "Upp"));
    assert!(same_text("", ""));
    assert!(same_text("razón", "razón"));
}
