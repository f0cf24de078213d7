use wire_editor::fields::{blank, push_decimal, read_isize, same_chars, split_fields, trimmed};

fn chars(s: &str) -> Vec<char> {
    s.chars().collect()
}

fn text(v: &Vec<char>) -> String {
    v.iter().collect()
}

fn fields_of(line: &str) -> Vec<String> {
    split_fields(&chars(line)).iter().map(text).collect()
}

#[test]
fn blank_is_unicode_white_space() {
    let mut c = '\0';
    loop {
        assert_eq!(blank(c), c.is_whitespace(), "{:?}", c);
        if c == char::MAX {
            break;
        }
        c = match char::from_u32(c as u32 + 1) {
            Some(next) => next,
            None => '\u{e000}',
        };
    }
}

#[test]
fn trimming_takes_blanks_off_both_ends_only() {
    assert_eq!(text(&trimmed(&chars("  a b \n"))), "a b");
    assert_eq!(text(&trimmed(&chars("ab"))), "ab");
    assert_eq!(text(&trimmed(&chars(""))), "");
    assert_eq!(text(&trimmed(&chars(" \t\r\n"))), "");
    assert_eq!(text(&trimmed(&chars("\u{3000}x\u{a0}"))), "x");
    assert_eq!(text(&trimmed(&chars("x y"))), "x y");
}

#[test]
fn a_line_splits_at_every_comma() {
    assert_eq!(fields_of("a,b,c"), vec!["a", "b", "c"]);
    assert_eq!(fields_of(""), vec![""]);
    assert_eq!(fields_of(","), vec!["", ""]);
    assert_eq!(fields_of("a,,b"), vec!["a", "", "b"]);
    assert_eq!(fields_of("a,b,"), vec!["a", "b", ""]);
    assert_eq!(fields_of("plain"), vec!["plain"]);
}

#[test]
fn fields_come_out_trimmed() {
    assert_eq!(fields_of(" resize , 10,20 \n"), vec!["resize", "10", "20"]);
    assert_eq!(fields_of("keydown, \n"), vec!["keydown", ""]);
    assert_eq!(fields_of("a b , c"), vec!["a b", "c"]);
}

#[test]
fn same_chars_compares_whole_texts() {
    assert!(same_chars(&chars("abc"), &chars("abc")));
    assert!(same_chars(&chars(""), &chars("")));
    assert!(!same_chars(&chars("abc"), &chars("abd")));
    assert!(!same_chars(&chars("abc"), &chars("ab")));
    assert!(!same_chars(&chars("ab"), &chars("abc")));
}

#[test]
fn integers_are_read_in_decimal() {
    assert_eq!(read_isize(&chars("0")), Some(0));
    assert_eq!(read_isize(&chars("42")), Some(42));
    assert_eq!(read_isize(&chars("-42")), Some(-42));
    assert_eq!(read_isize(&chars("+42")), Some(42));
    assert_eq!(read_isize(&chars("007")), Some(7));
    assert_eq!(read_isize(&chars("-0")), Some(0));
    assert_eq!(read_isize(&chars("1234567890")), Some(1234567890));
}

#[test]
fn what_is_no_integer_is_not_read() {
    for s in ["", "-", "+", "a", "1a", "a1", "1 ", " 1", "1.5", "--1", "+-1", "1-", "0x10", "١"] {
        assert_eq!(read_isize(&chars(s)), None, "{:?}", s);
    }
}

#[test]
fn integers_are_read_up_to_the_limits_of_isize() {
    let max = format!("{}", isize::MAX);
    let min = format!("{}", isize::MIN);
    assert_eq!(read_isize(&chars(&max)), Some(isize::MAX));
    assert_eq!(read_isize(&chars(&min)), Some(isize::MIN));
    let above = format!("{}", isize::MAX as i128 + 1);
    let below = format!("{}", isize::MIN as i128 - 1);
    assert_eq!(read_isize(&chars(&above)), None);
    assert_eq!(read_isize(&chars(&below)), None);
    assert_eq!(read_isize(&chars("99999999999999999999999999999999999999999999")), None);
    assert_eq!(read_isize(&chars("-99999999999999999999999999999999999999999999")), None);
}

#[test]
fn reading_agrees_with_the_standard_parser() {
    let samples = [
        "0", "1", "-1", "+1", "12", "-12", "", "+", "-", "x", "1x", "9223372036854775807",
        "9223372036854775808", "-9223372036854775808", "-9223372036854775809", "2147483647",
        "2147483648", "-2147483648", "-2147483649", "000000000000000000000000001", "1_000", "1e3",
    ];
    for s in samples {
        assert_eq!(read_isize(&chars(s)), s.parse::<isize>().ok(), "{:?}", s);
    }
}

#[test]
fn numbers_are_written_in_decimal() {
    for n in [0u128, 1, 9, 10, 11, 99, 100, 101, 14, 1234567890, u64::MAX as u128, u128::MAX] {
        let mut out = String::from("x=");
        push_decimal(&mut out, n);
        assert_eq!(out, format!("x={}", n));
    }
}
