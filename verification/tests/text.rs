use process_supervisor::text::{decimal_string, joined, trim};

#[test]
fn decimal_of_zero_is_one_digit() {
    assert_eq!(decimal_string(0), "0");
}

#[test]
fn decimal_of_single_digits() {
    assert_eq!(decimal_string(7), "7");
    assert_eq!(decimal_string(9), "9");
}

#[test]
fn decimal_has_no_leading_zero() {
    assert_eq!(decimal_string(10), "10");
    assert_eq!(decimal_string(100), "100");
    assert_eq!(decimal_string(1005), "1005");
}

#[test]
fn decimal_of_the_largest_identifier() {
    assert_eq!(decimal_string(u32::MAX), "4294967295");
}

#[test]
fn decimal_agrees_with_the_standard_formatting() {
    for n in [1u32, 12, 123, 4096, 65535, 65536, 999_999, 1_000_000, 2_147_483_648] {
        assert_eq!(decimal_string(n), n.to_string());
    }
}

#[test]
fn joined_puts_tail_after_head() {
    assert_eq!(joined("ab", "cd"), "abcd");
    assert_eq!(joined("", "cd"), "cd");
    assert_eq!(joined("ab", ""), "ab");
}

#[test]
fn trim_removes_space_on_both_sides() {
    assert_eq!(trim("  1.2.3 \n"), "1.2.3");
}

#[test]
fn trim_keeps_space_inside() {
    assert_eq!(trim("\t tool version 2 \r\n"), "tool version 2");
}

#[test]
fn trim_of_nothing_but_space_is_empty() {
    assert_eq!(trim(" \n\t "), "");
    assert_eq!(trim(""), "");
}

#[test]
fn trim_leaves_text_without_space_alone() {
    assert_eq!(trim("x"), "x");
    assert_eq!(trim("abc"), "abc");
}

#[test]
fn trim_knows_whitespace_beyond_ascii() {
    assert_eq!(trim("\u{3000}\u{a0}v1\u{2003}"), "v1");
}

#[test]
fn trim_counts_characters_not_bytes() {
    assert_eq!(trim(" h\u{e9}llo w\u{f6}rld "), "h\u{e9}llo w\u{f6}rld");
    assert_eq!(trim("\u{e9} "), "\u{e9}");
}

#[test]
fn trim_agrees_with_the_standard_trim() {
    for text in ["", " ", "a", " a", "a ", " a b ", "\n\na\n\n", "\u{85}a\u{1680}", "  \u{feff}x "] {
        assert_eq!(trim(text), text.trim());
    }
}
