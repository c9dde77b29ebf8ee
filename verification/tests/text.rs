use post_machine::text::{
    chars_of, is_whitespace, parse_digits, parse_signed, parse_unsigned, push_decimal,
    push_signed_decimal, split_words, trim_bounds,
};

fn chars(s: &str) -> Vec<char> {
    s.chars().collect()
}

fn unsigned(s: &str, max: u64) -> Option<u64> {
    let v = chars(s);
    parse_unsigned(&v, 0, v.len(), max)
}

fn signed(s: &str) -> Option<i64> {
    let v = chars(s);
    parse_signed(&v, 0, v.len())
}

fn trimmed(s: &str) -> String {
    let v = chars(s);
    let (a, b) = trim_bounds(&v, 0, v.len());
    v[a..b].iter().collect()
}

fn words(s: &str) -> Vec<String> {
    let v = chars(s);
    split_words(&v, 0, v.len()).into_iter().map(|w| w.into_iter().collect()).collect()
}

#[test]
fn whitespace_is_the_unicode_property() {
    let mut c = 0u32;
    while c <= 0x10FFFF {
        if let Some(ch) = char::from_u32(c) {
            assert_eq!(is_whitespace(ch), ch.is_whitespace(), "U+{:04X}", c);
        }
        c += 1;
    }
}

#[test]
fn chars_of_gives_the_characters_in_order() {
    assert_eq!(chars_of("v 1"), vec!['v', ' ', '1']);
    assert_eq!(chars_of(""), Vec::<char>::new());
    assert_eq!(chars_of("мс\u{3000}"), vec!['м', 'с', '\u{3000}']);
}

#[test]
fn trim_agrees_with_the_standard_library() {
    for s in ["", " ", "a", " a", "a ", "  a b  ", "\t\n x \r\n", "\u{3000}v 1\u{a0}", "   ", "ab"] {
        assert_eq!(trimmed(s), s.trim(), "{:?}", s);
    }
}

#[test]
fn trim_works_inside_a_window() {
    let v = chars("xx  ab  yy");
    assert_eq!(trim_bounds(&v, 2, 8), (4, 6));
    assert_eq!(trim_bounds(&v, 2, 4), (4, 4));
    assert_eq!(trim_bounds(&v, 0, 10), (0, 10));
}

#[test]
fn words_are_taken_from_the_window() {
    let v = chars("ab cd ef");
    assert_eq!(split_words(&v, 1, 7), vec![vec!['b'], vec!['c', 'd'], vec!['e']]);
    assert_eq!(split_words(&v, 2, 3), Vec::<Vec<char>>::new());
}

#[test]
fn words_agree_with_the_standard_library() {
    for s in ["", " ", "a", " a b ", "1  2\t3", "\u{3000}x\u{a0}y", "one", "  one", "a b c d e"] {
        let expected: Vec<String> = s.split_whitespace().map(|w| w.to_string()).collect();
        assert_eq!(words(s), expected, "{:?}", s);
    }
}

#[test]
fn unsigned_numbers_agree_with_the_standard_library() {
    for s in [
        "", "0", "7", "42", "007", "+5", "+", "-5", "-0", "++5", "+-5", "5+", "1 2", " 1", "1 ",
        "a", "1a", "١", "18446744073709551615", "18446744073709551616", "99999999999999999999",
        "1_000", "0x10",
    ] {
        assert_eq!(unsigned(s, u64::MAX), s.parse::<u64>().ok(), "{:?}", s);
    }
}

#[test]
fn unsigned_numbers_respect_the_limit() {
    assert_eq!(unsigned("255", 255), Some(255));
    assert_eq!(unsigned("256", 255), None);
    assert_eq!(unsigned("0", 0), Some(0));
    assert_eq!(unsigned("1", 0), None);
    assert_eq!(unsigned("4294967295", 4294967295), Some(4294967295));
    assert_eq!(unsigned("4294967296", 4294967295), None);
}

#[test]
fn digits_take_no_sign() {
    let v = chars("+12");
    assert_eq!(parse_digits(&v, 0, 3, u64::MAX), None);
    assert_eq!(parse_digits(&v, 1, 3, u64::MAX), Some(12));
    assert_eq!(parse_digits(&v, 1, 1, u64::MAX), None);
}

#[test]
fn signed_numbers_agree_with_the_standard_library() {
    for s in [
        "", "0", "-0", "+0", "7", "-7", "+7", "-", "+", "--7", "-+7", "+-7", "7-", " 7", "-7 ",
        "9223372036854775807", "9223372036854775808", "-9223372036854775808",
        "-9223372036854775809", "x", "-x", "12x",
    ] {
        assert_eq!(signed(s), s.parse::<i64>().ok(), "{:?}", s);
    }
}

#[test]
fn decimal_text_agrees_with_the_standard_library() {
    for n in [0u64, 1, 9, 10, 11, 99, 100, 12345, u64::MAX] {
        let mut s = String::new();
        push_decimal(&mut s, n);
        assert_eq!(s, n.to_string());
    }
    let mut s = String::from("n=");
    push_decimal(&mut s, 300);
    assert_eq!(s, "n=300");
}

#[test]
fn signed_decimal_text_agrees_with_the_standard_library() {
    for n in [0i64, 1, -1, 8, -8, 10, -10, 1234, -1234, i64::MAX, i64::MIN] {
        let mut s = String::new();
        push_signed_decimal(&mut s, n);
        assert_eq!(s, n.to_string());
    }
}
