use cakeup::text::{is_true, render_number, same_text, trim};

#[test]
fn numbers_are_written_in_decimal() {
    assert_eq!(render_number(0), "0");
    assert_eq!(render_number(7), "7");
    assert_eq!(render_number(10), "10");
    assert_eq!(render_number(404), "404");
    assert_eq!(render_number(1234567890), "1234567890");
    assert_eq!(render_number(u64::MAX), "18446744073709551615");
}

#[test]
fn white_space_is_trimmed_at_both_ends() {
    assert_eq!(trim("  2.1.4\r\n"), "2.1.4");
    assert_eq!(trim("\t a b \x0b\x0c"), "a b");
    assert_eq!(trim("plain"), "plain");
    assert_eq!(trim(""), "");
    assert_eq!(trim(" \n\t "), "");
    assert_eq!(trim(" é "), "é");
}

#[test]
fn other_characters_are_not_trimmed() {
    assert_eq!(trim("\u{a0}x\u{a0}"), "\u{a0}x\u{a0}");
    assert_eq!(trim("_x_"), "_x_");
}

#[test]
fn true_is_read_in_any_letter_case() {
    assert!(is_true("true"));
    assert!(is_true("TRUE"));
    assert!(is_true("tRuE"));
    assert!(!is_true(""));
    assert!(!is_true("false"));
    assert!(!is_true("true "));
    assert!(!is_true("1"));
    assert!(!is_true("yes"));
    assert!(!is_true("truE!"));
}

#[test]
fn texts_are_compared_by_their_characters() {
    assert!(same_text("", ""));
    assert!(same_text("latest", "latest"));
    assert!(!same_text("latest", "Latest"));
    assert!(!same_text("a", "ab"));
}
