use alvr_bravr::field_values::{
    bool_from_any, bool_text, eq_ignore_ascii_case, marks_missing, text_marks_missing, BoolOrStr,
};

#[test]
fn ascii_case_folding() {
    assert!(eq_ignore_ascii_case("N/A", "n/a"));
    assert!(eq_ignore_ascii_case("UnKnOwN", "unknown"));
    assert!(!eq_ignore_ascii_case("unknown", "unknow"));
    assert!(!eq_ignore_ascii_case("é", "É"));
    assert!(eq_ignore_ascii_case("", ""));
}

#[test]
fn missing_markers() {
    assert!(marks_missing(""));
    assert!(marks_missing("N/A"));
    assert!(marks_missing("unknown"));
    assert!(marks_missing("UNKNOWN"));
    assert!(!marks_missing(" N/A"));
    assert!(!marks_missing("0"));
    assert!(!marks_missing("NA"));
}

#[test]
fn missing_markers_after_trim() {
    assert!(text_marks_missing("   "));
    assert!(text_marks_missing("  n/a \t"));
    assert!(text_marks_missing("\nUnknown\n"));
    assert!(!text_marks_missing(" 12.5 "));
}

#[test]
fn bool_texts() {
    assert_eq!(bool_text("true"), Some(true));
    assert_eq!(bool_text("TRUE"), Some(true));
    assert_eq!(bool_text("1"), Some(true));
    assert_eq!(bool_text("False"), Some(false));
    assert_eq!(bool_text("0"), Some(false));
    assert_eq!(bool_text("yes"), None);
    assert_eq!(bool_text(" true"), None);
}

#[test]
fn bool_from_any_values() {
    assert_eq!(bool_from_any(None), None);
    assert_eq!(bool_from_any(Some(BoolOrStr::Bool(false))), Some(false));
    assert_eq!(bool_from_any(Some(BoolOrStr::Int(1))), Some(true));
    assert_eq!(bool_from_any(Some(BoolOrStr::Int(0))), Some(false));
    assert_eq!(bool_from_any(Some(BoolOrStr::Int(2))), None);
    assert_eq!(bool_from_any(Some(BoolOrStr::Str("  True ".to_string()))), Some(true));
    assert_eq!(bool_from_any(Some(BoolOrStr::Str("0".to_string()))), Some(false));
    assert_eq!(bool_from_any(Some(BoolOrStr::Str("maybe".to_string()))), None);
}

#[test]
fn unicode_white_space_is_trimmed() {
    assert!(text_marks_missing("\u{3000}N/A\u{00a0}"));
    assert!(text_marks_missing("\u{2028}\u{0085}"));
    assert_eq!(bool_from_any(Some(BoolOrStr::Str("\u{2009}false\u{205f}".to_string()))), Some(false));
    assert!(!text_marks_missing("\u{200b}N/A"));
}
