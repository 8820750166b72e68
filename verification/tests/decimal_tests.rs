use token_airdrop::decimal::{parse_u64, push_decimal, read_number};

#[test]
fn parse_u64_reads_digits() {
    assert_eq!(parse_u64("0"), Some(0));
    assert_eq!(parse_u64("1"), Some(1));
    assert_eq!(parse_u64("255"), Some(255));
    assert_eq!(parse_u64("256"), Some(256));
    assert_eq!(parse_u64("007"), Some(7));
    assert_eq!(parse_u64("18446744073709551615"), Some(u64::MAX));
    assert_eq!(parse_u64("00000000000000000000000000000018446744073709551615"), Some(u64::MAX));
}

#[test]
fn parse_u64_refuses_everything_else() {
    assert_eq!(parse_u64(""), None);
    assert_eq!(parse_u64("+5"), None);
    assert_eq!(parse_u64("-1"), None);
    assert_eq!(parse_u64(" 1"), None);
    assert_eq!(parse_u64("1 "), None);
    assert_eq!(parse_u64("1a"), None);
    assert_eq!(parse_u64("1.0"), None);
    assert_eq!(parse_u64("\u{661}"), None);
    assert_eq!(parse_u64("18446744073709551616"), None);
    assert_eq!(parse_u64("99999999999999999999999"), None);
}

#[test]
fn push_decimal_writes_the_numeral_behind_what_is_there() {
    let mut out = String::from("n=");
    push_decimal(&mut out, 0);
    assert_eq!(out, "n=0");
    push_decimal(&mut out, 42);
    assert_eq!(out, "n=042");
    let mut out = String::new();
    push_decimal(&mut out, u64::MAX);
    assert_eq!(out, "18446744073709551615");
    for n in [9u64, 10, 11, 99, 100, 101, 1_000_000, 1_461_600] {
        let mut out = String::new();
        push_decimal(&mut out, n);
        assert_eq!(out, n.to_string());
        assert_eq!(parse_u64(&out), Some(n));
    }
}

#[test]
fn read_number_takes_all_leading_digits() {
    let text: Vec<char> = "ab123,4".chars().collect();
    assert_eq!(read_number(&text, 2), Some((123, 5)));
    assert_eq!(read_number(&text, 3), Some((23, 5)));
    assert_eq!(read_number(&text, 6), Some((4, 7)));
    assert_eq!(read_number(&text, 0), None);
    assert_eq!(read_number(&text, 5), None);
    assert_eq!(read_number(&text, 7), None);
    let big: Vec<char> = "18446744073709551616}".chars().collect();
    assert_eq!(read_number(&big, 0), None);
    assert_eq!(read_number(&big, 1), Some((8446744073709551616, 20)));
}
