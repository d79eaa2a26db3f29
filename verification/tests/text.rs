use ninja_timer::clock::{millis_between, nanos_between, NANOS_PER_MILLI, NANOS_PER_SEC};
use ninja_timer::parse::{
    chars_of, copy_range, skip, spells, split_lines, split_words, string_of,
    trimmed_starts_with, Run,
};
use ninja_timer::text::{append_decimal, append_padded, decimal_len};

fn chars(text: &str) -> Vec<char> {
    text.chars().collect()
}

fn strings(parts: Vec<Vec<char>>) -> Vec<String> {
    parts.iter().map(|part| part.iter().collect()).collect()
}

#[test]
fn spans_never_go_below_zero() {
    assert_eq!(NANOS_PER_MILLI, 1_000_000);
    assert_eq!(NANOS_PER_SEC, 1_000_000_000);
    assert_eq!(millis_between(3_500_000_000, 1_000_000_000), 2_500);
    assert_eq!(millis_between(1_999_999, 0), 1);
    assert_eq!(millis_between(5, 5), 0);
    assert_eq!(millis_between(5, 6_000_000_000), 0);
    assert_eq!(millis_between(u128::MAX, 0), u128::MAX / 1_000_000);
    assert_eq!(nanos_between(10, 3), 7);
    assert_eq!(nanos_between(3, 10), 0);
    assert_eq!(nanos_between(u128::MAX, 0), u128::MAX);
}

#[test]
fn decimal_has_no_leading_zeros() {
    let mut text = String::from("n=");
    append_decimal(&mut text, 0);
    assert_eq!(text, "n=0");
    append_decimal(&mut text, 7);
    append_decimal(&mut text, 10);
    append_decimal(&mut text, 1234567890);
    assert_eq!(text, "n=07101234567890");
    let mut big = String::new();
    append_decimal(&mut big, u128::MAX);
    assert_eq!(big, "340282366920938463463374607431768211455");
}

#[test]
fn decimal_length_counts_the_digits() {
    assert_eq!(decimal_len(0), 1);
    assert_eq!(decimal_len(9), 1);
    assert_eq!(decimal_len(10), 2);
    assert_eq!(decimal_len(99), 2);
    assert_eq!(decimal_len(100), 3);
    assert_eq!(decimal_len(u64::MAX as u128), 20);
    assert_eq!(decimal_len(u128::MAX), 39);
}

#[test]
fn padding_fills_with_zeros_and_never_cuts() {
    let mut text = String::new();
    append_padded(&mut text, 5, 2);
    text.push(':');
    append_padded(&mut text, 0, 3);
    text.push(':');
    append_padded(&mut text, 123, 2);
    text.push(':');
    append_padded(&mut text, 42, 0);
    text.push(':');
    append_padded(&mut text, 7, 1);
    text.push(':');
    append_padded(&mut text, 7, 6);
    assert_eq!(text, "05:000:123:42:7:000007");
}

#[test]
fn characters_and_strings_convert_both_ways() {
    assert_eq!(chars_of("a\u{e9}\u{1f600}z"), chars("a\u{e9}\u{1f600}z"));
    assert_eq!(chars_of(""), chars(""));
    assert_eq!(string_of(&chars("hello \u{2603}")), "hello \u{2603}");
    assert_eq!(string_of(&chars("")), "");
    assert_eq!(copy_range(&chars("abcdef"), 2, 5), chars("cde"));
    assert_eq!(copy_range(&chars("abcdef"), 3, 3), chars(""));
    assert_eq!(copy_range(&chars("abcdef"), 0, 6), chars("abcdef"));
}

#[test]
fn spelling_is_exact() {
    assert!(spells(&chars("connected"), "connected"));
    assert!(!spells(&chars("connected"), "connecte"));
    assert!(!spells(&chars("connecte"), "connected"));
    assert!(!spells(&chars("Connected"), "connected"));
    assert!(spells(&chars(""), ""));
}

#[test]
fn runs_end_where_they_end() {
    let text = chars("  ab/c \n d");
    assert_eq!(skip(&text, 0, Run::Blank), 2);
    assert_eq!(skip(&text, 2, Run::Blank), 2);
    assert_eq!(skip(&text, 2, Run::Word), 6);
    assert_eq!(skip(&text, 2, Run::Until('/')), 4);
    assert_eq!(skip(&text, 0, Run::Until('\n')), 7);
    assert_eq!(skip(&text, 6, Run::Blank), 9);
    assert_eq!(skip(&text, 9, Run::Word), 10);
    assert_eq!(skip(&text, 10, Run::Word), 10);
    assert_eq!(skip(&text, 0, Run::Until('x')), 10);
    assert!(Run::Blank.test('\u{3000}'));
    assert!(Run::Blank.test('\t'));
    assert!(!Run::Blank.test('_'));
    assert!(Run::Word.test('_'));
    assert!(!Run::Word.test(' '));
    assert!(Run::Until('a').test('b'));
    assert!(!Run::Until('a').test('a'));
}

#[test]
fn lines_are_split_as_the_standard_library_splits_them() {
    for text in [
        "",
        "\n",
        "a",
        "a\n",
        "a\nb",
        "a\n\nb\n",
        "a\r\nb\r\n",
        "a\rb\n",
        "a\r",
        "\r\n",
        "\r",
        "\n\n\n",
        "a\r\r\nb",
        "one two\n  three \n",
        "\u{e9}t\u{e9}\n\u{1f600}",
    ] {
        let expected: Vec<String> = text.lines().map(String::from).collect();
        assert_eq!(strings(split_lines(&chars(text))), expected, "{:?}", text);
    }
}

#[test]
fn words_are_split_as_the_standard_library_splits_them() {
    for text in [
        "",
        " ",
        "a",
        " a",
        "a ",
        "  a  b  ",
        "a\tb\nc\rd",
        "inet 10.0.0.1/8 brd",
        "\u{a0}x\u{2003}y\u{3000}",
        "a\u{200b}b",
        "x\u{85}y",
    ] {
        let expected: Vec<String> = text.split_whitespace().map(String::from).collect();
        assert_eq!(strings(split_words(&chars(text))), expected, "{:?}", text);
    }
}

#[test]
fn prefix_is_sought_behind_the_indentation() {
    for (text, prefix) in [
        ("inet 1", "inet "),
        ("  inet 1  ", "inet "),
        ("inet ", "inet "),
        ("inet", "inet "),
        ("inet", "inet"),
        (" \t inet", "inet"),
        ("", ""),
        ("   ", ""),
        ("   ", " "),
        ("x", ""),
        ("xinet 1", "inet "),
        ("ine", "inet"),
        ("\u{3000}inet 1\u{3000}", "inet 1"),
    ] {
        assert_eq!(
            trimmed_starts_with(&chars(text), prefix),
            text.trim().starts_with(prefix),
            "{:?} {:?}",
            text,
            prefix
        );
    }
}
