use axeane_bridge::payload::json_quote;
use axeane_bridge::pdf::{pdf_read_failure, pdf_text_outcome};
use axeane_bridge::text::is_white_space;
use axeane_bridge::text::{
    bool_string, chars_of, contains_chars, decimal_text, string_of, text_contains, to_upper,
    trim_text,
};

#[test]
fn decimal_notation() {
    assert_eq!(decimal_text(0), "0");
    assert_eq!(decimal_text(7), "7");
    assert_eq!(decimal_text(1204), "1204");
    assert_eq!(decimal_text(usize::MAX), usize::MAX.to_string());
}

#[test]
fn substring_search() {
    assert!(text_contains("CLIENT PASSAGER", "PASSAGER"));
    assert!(text_contains("abc", ""));
    assert!(!text_contains("PASS", "PASSAGER"));
    assert!(!text_contains("abc", "abd"));
    assert!(contains_chars(&chars_of("aab"), &chars_of("ab")));
}

#[test]
fn upper_case_and_trim() {
    assert_eq!(to_upper("société"), "SOCIÉTÉ");
    assert_eq!(to_upper("straße"), "STRASSE");
    assert_eq!(trim_text(" \t x y \n"), "x y");
    assert_eq!(trim_text("   "), "");
    assert_eq!(trim_text("\u{2003}z\u{2028}"), "z");
}

#[test]
fn char_round_trip() {
    let cs = chars_of("é\"x");
    assert_eq!(cs, vec!['é', '"', 'x']);
    assert_eq!(string_of(&cs), "é\"x");
    assert_eq!(bool_string(true), "true");
    assert_eq!(bool_string(false), "false");
}

#[test]
fn pdf_outcome_is_reported() {
    assert_eq!(pdf_text_outcome(Ok("Invoice".to_string())), Ok("Invoice".to_string()));
    assert_eq!(
        pdf_text_outcome(Err("PDF error: invalid file header".to_string())),
        Err("Static Node Reading Failure: PDF error: invalid file header".to_string())
    );
    assert_eq!(pdf_read_failure("x"), "Static Node Reading Failure: x");
}

#[test]
fn json_string_escapes() {
    assert_eq!(json_quote("a\u{1}b\u{1f}\u{8}\u{c}\t\r\n\u{7f}é"), "\"a\\u0001b\\u001f\\b\\f\\t\\r\\n\u{7f}é\"");
    assert_eq!(json_quote(""), "\"\"");
}

#[test]
fn white_space_set() {
    for c in ['\t', '\n', '\u{b}', '\u{c}', '\r', ' ', '\u{85}', '\u{a0}', '\u{1680}', '\u{2000}', '\u{200a}', '\u{2028}', '\u{2029}', '\u{202f}', '\u{205f}', '\u{3000}'] {
        assert!(is_white_space(c));
    }
    for c in ['a', '\u{0}', '\u{8}', '\u{200b}', '\u{180e}', '\u{feff}', '_'] {
        assert!(!is_white_space(c));
    }
}
