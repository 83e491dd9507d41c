use studio::symbol::SymbolId;
use studio::text::{
    decimal_text, non_empty_text, optional_u32, parse_optional_u32, parse_u32, push_repeated, starts_with, strip_prefix,
    text_eq, trim,
};

#[test]
fn trims_unicode_white_space() {
    assert_eq!(trim("  a b \t\n"), "a b");
    assert_eq!(trim("\u{3000}名称\u{a0}"), "名称");
    assert_eq!(trim("   "), "");
    assert_eq!(trim(""), "");
    assert_eq!(trim("x"), "x");
}

#[test]
fn parses_u32_as_std_does() {
    for text in ["0", "7", "+7", "4294967295", "007", "", "+", "-1", "4294967296", "12a", " 1", "99999999999999999999"] {
        assert_eq!(parse_u32(text), text.parse::<u32>().ok(), "{text:?}");
    }
    assert_eq!(parse_optional_u32("  42 "), Some(42));
    assert_eq!(parse_optional_u32(" x "), None);
}

#[test]
fn optional_texts() {
    assert_eq!(non_empty_text("  hi  "), Some("hi".to_owned()));
    assert_eq!(non_empty_text(" \n "), None);
    assert_eq!(optional_u32(Some(120)), "120");
    assert_eq!(optional_u32(None), "");
    assert_eq!(decimal_text(0), "0");
    assert_eq!(decimal_text(18_446_744_073_709_551_615), "18446744073709551615");
}

#[test]
fn prefixes_and_equality() {
    assert!(starts_with("permission:x", "permission:"));
    assert!(!starts_with("perm", "permission:"));
    assert_eq!(strip_prefix("permission:x", "permission:"), Some("x"));
    assert_eq!(strip_prefix("x", "permission:"), None);
    assert!(text_eq("名称", "名称"));
    assert!(!text_eq("a", "ab"));
    let mut s = "x".to_owned();
    push_repeated(&mut s, "ab", 3);
    assert_eq!(s, "xababab");
}

#[test]
fn symbol_text_round_trips() {
    let id = SymbolId::from_u128(0x0123_4567_89ab_cdef_fedc_ba98_7654_3210);
    let text = id.to_text();
    assert_eq!(text, "01234567-89ab-cdef-fedc-ba9876543210");
    assert_eq!(SymbolId::parse(&text), Some(id));
    assert_eq!(SymbolId::parse("01234567-89AB-CDEF-FEDC-BA9876543210"), Some(id));
    assert_eq!(SymbolId::parse("0123456789abcdeffedcba9876543210"), None);
    assert_eq!(SymbolId::parse("01234567-89ab-cdef-fedc-ba987654321"), None);
    assert_eq!(SymbolId::parse("0123456g-89ab-cdef-fedc-ba9876543210"), None);
    assert_eq!(SymbolId::from_u128(u128::MAX).to_text(), "ffffffff-ffff-ffff-ffff-ffffffffffff");
}
