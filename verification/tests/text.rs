use wisper::text::{char_is_ascii_punctuation, char_is_white_space, decimal_string, trim_end_str, CharClass};

#[test]
fn white_space_matches_std_for_every_char() {
    for u in 0u32..=0x10FFFF {
        if let Some(c) = char::from_u32(u) {
            assert_eq!(char_is_white_space(c), c.is_whitespace(), "U+{:04X}", u);
        }
    }
}

#[test]
fn ascii_punctuation_matches_std_for_every_char() {
    for u in 0u32..=0x10FFFF {
        if let Some(c) = char::from_u32(u) {
            assert_eq!(char_is_ascii_punctuation(c), c.is_ascii_punctuation(), "U+{:04X}", u);
        }
    }
}

#[test]
fn decimal_strings() {
    for n in [0u32, 7, 9, 10, 51, 100, 65535, 4294967295] {
        assert_eq!(decimal_string(n), n.to_string());
    }
}

#[test]
fn trailing_slashes_are_trimmed() {
    assert_eq!(trim_end_str("https://x.test///", CharClass::Slash), "https://x.test");
    assert_eq!(trim_end_str("https://x.test", CharClass::Slash), "https://x.test");
    assert_eq!(trim_end_str("///", CharClass::Slash), "");
}
