use liumo_core::text::{is_whitespace_char, str_is_blank, trim_whitespace};

#[test]
fn trim_removes_surrounding_whitespace_only() {
    assert_eq!(trim_whitespace("  1.2.3\n"), "1.2.3");
    assert_eq!(trim_whitespace("\t a b \u{3000}"), "a b");
    assert_eq!(trim_whitespace("untouched"), "untouched");
}

#[test]
fn trim_of_blank_input_is_empty() {
    assert_eq!(trim_whitespace(""), "");
    assert_eq!(trim_whitespace(" \t\r\n\u{3000}"), "");
}

#[test]
fn blank_test_matches_trim_emptiness() {
    assert!(str_is_blank(""));
    assert!(str_is_blank(" \t\n"));
    assert!(!str_is_blank(" x "));
    assert!(!str_is_blank("床"));
}

#[test]
fn whitespace_test_agrees_with_the_standard_property() {
    for c in [' ', '\t', '\n', '\r', '\u{a0}', '\u{2028}', '\u{3000}'] {
        assert!(is_whitespace_char(c));
        assert!(c.is_whitespace());
    }
    for c in ['a', '0', '床', '，', '_'] {
        assert!(!is_whitespace_char(c));
        assert!(!c.is_whitespace());
    }
}
