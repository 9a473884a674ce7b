use glider_rust::format::{
    decimal_string, hex16_string, hex_string, hex_string_width, pad_zeros,
};
use glider_rust::text::{contains, lower, same_text, starts_with, trim_chars, trim_lower, trim_upper};

#[test]
fn decimal_numerals() {
    for n in [0u64, 7, 10, 99, 100, 4242, u64::MAX] {
        assert_eq!(decimal_string(n), n.to_string());
    }
}

#[test]
fn hexadecimal_numerals() {
    for n in [0u64, 9, 10, 15, 16, 0xC79CE0, 0xDEAD_BEEF, u64::MAX] {
        assert_eq!(hex_string(n), format!("{n:X}"));
        assert_eq!(hex16_string(n), format!("{n:016X}"));
        assert_eq!(hex_string_width(n, 8), format!("{n:08X}"));
    }
    assert_eq!(hex_string_width(0x1_0000_0000, 8), "100000000");
    assert_eq!(pad_zeros("7", 3), "007");
    assert_eq!(pad_zeros("1234", 3), "1234");
}

#[test]
fn text_helpers_match_std() {
    for s in ["  Hello World \t", "", "   ", "MiXeD_123", "\u{A0}x\u{3000}", "Ünïcödé "] {
        let trimmed: String = trim_chars(s).into_iter().collect();
        assert_eq!(trimmed, s.trim());
        assert_eq!(lower(s), s.to_ascii_lowercase());
        assert_eq!(trim_upper(s), s.trim().to_ascii_uppercase());
        assert_eq!(trim_lower(s), s.trim().to_ascii_lowercase());
    }
    assert!(starts_with("trace x", "trace "));
    assert!(!starts_with("trac", "trace "));
    assert!(contains("first object pointer", "object"));
    assert!(!contains("obj", "object"));
    assert!(contains("anything", ""));
    assert!(same_text("wow.exe", "wow.exe"));
    assert!(!same_text("wow.exe", "wow.ex"));
}
