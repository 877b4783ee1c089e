use xivapi_rust::text::{
    chars_of, decimal_string, join_texts, mark, parse_u32, push_decimal, split_runs,
    split_words, value_of_digit,
};

#[test]
fn decimal_of_small_and_large_numbers() {
    assert_eq!(decimal_string(0), "0");
    assert_eq!(decimal_string(7), "7");
    assert_eq!(decimal_string(10), "10");
    assert_eq!(decimal_string(255), "255");
    assert_eq!(decimal_string(4294967295), "4294967295");
    assert_eq!(decimal_string(u64::MAX), "18446744073709551615");
}

#[test]
fn push_decimal_appends() {
    let mut s = String::from("page=");
    push_decimal(&mut s, 42);
    assert_eq!(s, "page=42");
}

#[test]
fn digits_are_read() {
    for d in 0u8..10 {
        assert_eq!(value_of_digit((b'0' + d) as char), Some(d));
    }
    assert_eq!(value_of_digit('a'), None);
    assert_eq!(value_of_digit('/'), None);
    assert_eq!(value_of_digit(':'), None);
    assert_eq!(value_of_digit('\u{0663}'), None);
}

#[test]
fn parse_u32_reads_numerals() {
    assert_eq!(parse_u32("0"), Some(0));
    assert_eq!(parse_u32("9"), Some(9));
    assert_eq!(parse_u32("42"), Some(42));
    assert_eq!(parse_u32("100"), Some(100));
    assert_eq!(parse_u32("4294967295"), Some(u32::MAX));
}

#[test]
fn parse_u32_refuses_what_is_no_numeral() {
    assert_eq!(parse_u32(""), None);
    assert_eq!(parse_u32("01"), None);
    assert_eq!(parse_u32("00"), None);
    assert_eq!(parse_u32("+1"), None);
    assert_eq!(parse_u32("-1"), None);
    assert_eq!(parse_u32("1a"), None);
    assert_eq!(parse_u32(" 1"), None);
    assert_eq!(parse_u32("1 "), None);
    assert_eq!(parse_u32("1.0"), None);
}

#[test]
fn parse_u32_refuses_what_does_not_fit() {
    assert_eq!(parse_u32("4294967296"), None);
    assert_eq!(parse_u32("99999999999"), None);
    assert_eq!(parse_u32("18446744073709551616"), None);
    assert_eq!(parse_u32("42949672950"), None);
}

#[test]
fn parse_u32_reads_back_what_decimal_string_writes() {
    for n in [0u32, 1, 9, 10, 11, 99, 100, 65535, 65536, 4294967294, 4294967295] {
        assert_eq!(parse_u32(&decimal_string(n as u64)), Some(n));
    }
}

#[test]
fn chars_of_keeps_every_character() {
    assert_eq!(chars_of(""), Vec::<char>::new());
    assert_eq!(chars_of("a\u{3000}b"), vec!['a', '\u{3000}', 'b']);
}

#[test]
fn words_are_cut_at_white_space() {
    assert_eq!(split_words("Tami Pesagniyah"), vec!["Tami", "Pesagniyah"]);
    assert_eq!(split_words("  Tami \t\n  Pesagniyah  "), vec!["Tami", "Pesagniyah"]);
    assert_eq!(split_words("one"), vec!["one"]);
    assert_eq!(split_words("a\u{3000}b\u{a0}c"), vec!["a", "b", "c"]);
}

#[test]
fn white_space_alone_has_no_words() {
    assert_eq!(split_words(""), Vec::<String>::new());
    assert_eq!(split_words(" \t\r\n"), Vec::<String>::new());
}

#[test]
fn words_agree_with_split_whitespace() {
    for s in ["", " ", "a", " a", "a ", "a b", "a  b", "\ta\nb\rc ", "x\u{2003}y", "d+e f"] {
        let expected: Vec<String> = s.split_whitespace().map(|w| w.to_string()).collect();
        assert_eq!(split_words(s), expected);
    }
}

#[test]
fn join_puts_the_separator_between() {
    let none: Vec<String> = vec![];
    assert_eq!(join_texts(&none, "&"), "");
    assert_eq!(join_texts(&vec!["a".to_string()], "&"), "a");
    assert_eq!(join_texts(&vec!["a".to_string(), "b".to_string()], "&"), "a&b");
    assert_eq!(
        join_texts(&vec!["a".to_string(), "".to_string(), "c".to_string()], ", "),
        "a, , c"
    );
}

#[test]
fn characters_are_marked_as_white_space_or_not() {
    assert_eq!(mark(""), vec![]);
    assert_eq!(
        mark("a \tb\u{3000}+"),
        vec![('a', false), (' ', true), ('\t', true), ('b', false), ('\u{3000}', true), ('+', false)]
    );
}

#[test]
fn runs_are_cut_at_the_marks() {
    assert_eq!(split_runs(&vec![]), Vec::<String>::new());
    assert_eq!(split_runs(&vec![('a', true), ('b', true)]), Vec::<String>::new());
    assert_eq!(split_runs(&vec![('a', false), ('b', false)]), vec!["ab"]);
    assert_eq!(
        split_runs(&vec![(' ', false), ('x', true), ('x', true), ('b', false), ('c', false), ('y', true)]),
        vec![" ", "bc"]
    );
}
