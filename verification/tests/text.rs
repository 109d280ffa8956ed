use shai_http::text::{decimal_text, joined, reads_true, switch};

#[test]
fn decimal_notation() {
    assert_eq!(decimal_text(0), "0");
    assert_eq!(decimal_text(7), "7");
    assert_eq!(decimal_text(10), "10");
    assert_eq!(decimal_text(1234567890), "1234567890");
    assert_eq!(decimal_text(usize::MAX), usize::MAX.to_string());
}

#[test]
fn concatenation() {
    assert_eq!(joined("ab", "cd"), "abcd");
    assert_eq!(joined("", "cd"), "cd");
    assert_eq!(joined("ab", ""), "ab");
}

#[test]
fn a_switch_reads_true_in_any_case() {
    assert!(switch(Some("true"), false));
    assert!(switch(Some("TRUE"), false));
    assert!(switch(Some("True"), false));
    assert!(!switch(Some("false"), true));
    assert!(!switch(Some("1"), true));
    assert!(!switch(Some(""), true));
    assert!(!switch(Some(" true"), true));
    assert!(switch(None, true));
    assert!(!switch(None, false));
}

#[test]
fn only_true_in_lower_case_reads_true() {
    assert!(reads_true("true"));
    assert!(!reads_true("TRUE"));
    assert!(!reads_true("tru"));
    assert!(!reads_true("truee"));
    assert!(!reads_true(""));
}
