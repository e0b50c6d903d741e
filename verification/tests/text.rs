use power_monitor::text::{
    is_whitespace, parse_u8_range, slice_bytes_less, str_equals, trim_bounds, trimmed_equals,
};

#[test]
fn trim_bounds_match_str_trim() {
    for s in ["", "   ", " a ", "\u{a0}x\u{2029}", "abc", "\n\tFull \r\n", "a b"] {
        let (start, end) = trim_bounds(s);
        let chars: Vec<char> = s.chars().collect();
        let trimmed: String = chars[start..end].iter().collect();
        assert_eq!(trimmed, s.trim());
    }
}

#[test]
fn whitespace_is_the_unicode_set() {
    for c in ['\t', '\n', '\u{b}', '\u{c}', '\r', ' ', '\u{85}', '\u{a0}', '\u{1680}', '\u{2000}', '\u{200a}', '\u{2028}', '\u{2029}', '\u{202f}', '\u{205f}', '\u{3000}'] {
        assert!(is_whitespace(c));
        assert_eq!(is_whitespace(c), c.is_whitespace());
    }
    for c in ['a', '\u{200b}', '\u{feff}', '0', '\u{180e}'] {
        assert_eq!(is_whitespace(c), c.is_whitespace());
    }
}

#[test]
fn word_comparisons() {
    assert!(str_equals("AC Power", "AC Power"));
    assert!(!str_equals("AC Power", "AC"));
    assert!(trimmed_equals(" Mains\n", "Mains"));
    assert!(!trimmed_equals("Main s", "Mains"));
}

#[test]
fn u8_parsing_matches_std() {
    for s in ["0", "64", "+64", "255", "256", "-0", "", "+", "0x10", "007", "1000", " 5"] {
        let n = s.chars().count();
        assert_eq!(parse_u8_range(s, 0, n), s.parse::<u8>().ok(), "{s:?}");
    }
}

#[test]
fn byte_order_matches_string_order() {
    let names = ["BAT0", "BAT1", "BAT10", "ADP1", "AC", "", "bat0"];
    for a in names {
        for b in names {
            assert_eq!(slice_bytes_less(a.as_bytes(), b.as_bytes()), a < b, "{a:?} {b:?}");
            assert_eq!(
                slice_bytes_less(a.as_bytes(), b.as_bytes()),
                std::path::Path::new(a) < std::path::Path::new(b)
            );
        }
    }
}
