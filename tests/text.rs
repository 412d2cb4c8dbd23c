use compiler_bot::text::{
    decimal_text, eq_ignoring_case, is_blank_text, is_white_char, trim_text, truncate_output,
};

#[test]
fn truncation_keeps_short_output() {
    let r = truncate_output("hello".to_string(), 10, "...");
    assert_eq!(r, "hello");
}

#[test]
fn truncation_boundary_exact_length_untouched() {
    let r = truncate_output("abcde".to_string(), 5, "...\n(truncated)");
    assert_eq!(r, "abcde");
}

#[test]
fn truncation_boundary_one_over() {
    let r = truncate_output("abcdef".to_string(), 5, "...\n(truncated)");
    assert_eq!(r, "abcde...\n(truncated)");
    assert_eq!(r.chars().count(), 5 + "...\n(truncated)".chars().count());
}

#[test]
fn truncation_counts_characters_not_bytes() {
    let r = truncate_output("ééééé".to_string(), 3, "~");
    assert_eq!(r, "ééé~");
    let kept = truncate_output("ééé".to_string(), 3, "~");
    assert_eq!(kept, "ééé");
}

#[test]
fn truncation_is_idempotent() {
    let once = truncate_output("0123456789".to_string(), 4, "[cut]");
    assert_eq!(once, "0123[cut]");
    let twice = truncate_output(once.clone(), 4, "[cut]");
    assert_eq!(twice, once);
}

#[test]
fn truncation_with_empty_marker_is_idempotent() {
    let once = truncate_output("0123456789".to_string(), 4, "");
    assert_eq!(once, "0123");
    assert_eq!(truncate_output(once.clone(), 4, ""), once);
}

#[test]
fn blank_texts() {
    assert!(is_blank_text(""));
    assert!(is_blank_text("   \n\t\r "));
    assert!(is_blank_text("\u{3000}\u{a0}"));
    assert!(!is_blank_text("  x "));
    assert!(!is_blank_text("print(1)"));
}

#[test]
fn white_characters() {
    assert!(is_white_char(' '));
    assert!(is_white_char('\u{2028}'));
    assert!(!is_white_char('a'));
    assert!(!is_white_char('\u{200b}'));
}

#[test]
fn trimming() {
    assert_eq!(trim_text("  a b \n"), "a b");
    assert_eq!(trim_text("abc"), "abc");
    assert_eq!(trim_text(" \t "), "");
    assert_eq!(trim_text(""), "");
    assert_eq!(trim_text("\u{3000}x"), "x");
}

#[test]
fn decimal_notation() {
    assert_eq!(decimal_text(0), "0");
    assert_eq!(decimal_text(7), "7");
    assert_eq!(decimal_text(100), "100");
    assert_eq!(decimal_text(4294967295), "4294967295");
}

#[test]
fn case_insensitive_comparison() {
    assert!(eq_ignoring_case("PyThOn", "python"));
    assert!(eq_ignoring_case("cpp", "CPP"));
    assert!(!eq_ignoring_case("pythons", "python"));
    assert!(!eq_ignoring_case("pyth0n", "python"));
}
