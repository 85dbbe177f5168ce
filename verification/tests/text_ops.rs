use voxpill::text::{
    decimal_string, eq_ignore_ascii_case, from_chars, is_blank, is_whitespace, owned, str_byte_len,
    to_chars, trimmed, trimmed_lower,
};

#[test]
fn trimming_uses_unicode_whitespace() {
    assert_eq!(trimmed("\u{3000}\t abc def \u{a0}\n"), "abc def");
    assert_eq!(trimmed("   "), "");
    assert_eq!(trimmed_lower("  HeLLo Wörld "), "hello wörld");
    assert!(is_blank(" \u{2028}\u{85} "));
    assert!(!is_blank(" x "));
    for c in ['\t', '\n', ' ', '\u{85}', '\u{a0}', '\u{1680}', '\u{2000}', '\u{200a}', '\u{3000}'] {
        assert!(is_whitespace(c));
        assert_eq!(is_whitespace(c), c.is_whitespace());
    }
    for c in ['a', '-', '\u{200b}', '\u{ab}'] {
        assert!(!is_whitespace(c));
        assert_eq!(is_whitespace(c), c.is_whitespace());
    }
}

#[test]
fn case_folding_is_ascii_only() {
    assert!(eq_ignore_ascii_case("EN", "en"));
    assert!(!eq_ignore_ascii_case("É", "é"));
    assert_eq!(trimmed_lower("ÉCOLE"), "École".replace('É', "É").to_ascii_lowercase());
}

#[test]
fn chars_roundtrip_and_lengths() {
    let s = "héllo, 世界 🎙";
    let v = to_chars(s);
    assert_eq!(v.len(), s.chars().count());
    assert_eq!(from_chars(&v), s);
    assert_eq!(str_byte_len(s), s.len());
    assert_eq!(owned("x"), "x");
}

#[test]
fn decimal_rendering() {
    assert_eq!(decimal_string(0).into_iter().collect::<String>(), "0");
    assert_eq!(decimal_string(9).into_iter().collect::<String>(), "9");
    assert_eq!(decimal_string(10).into_iter().collect::<String>(), "10");
    assert_eq!(decimal_string(48213).into_iter().collect::<String>(), "48213");
}
