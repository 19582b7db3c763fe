use logic_quiz::decimal::{decimal_string, parse_decimal};

#[test]
fn parse_decimal_accepts_plain_digits() {
    assert_eq!(parse_decimal("0"), Some(0));
    assert_eq!(parse_decimal("42"), Some(42));
    assert_eq!(parse_decimal("007"), Some(7));
}

#[test]
fn parse_decimal_accepts_a_plus_sign() {
    assert_eq!(parse_decimal("+7"), Some(7));
    assert_eq!(parse_decimal("+"), None);
    assert_eq!(parse_decimal("++7"), None);
}

#[test]
fn parse_decimal_refuses_what_is_not_a_usize() {
    assert_eq!(parse_decimal(""), None);
    assert_eq!(parse_decimal("-1"), None);
    assert_eq!(parse_decimal("-0"), None);
    assert_eq!(parse_decimal("12a"), None);
    assert_eq!(parse_decimal(" 1"), None);
    assert_eq!(parse_decimal("1 "), None);
    assert_eq!(parse_decimal("é"), None);
    assert_eq!(parse_decimal("١"), None);
}

#[test]
fn parse_decimal_stops_at_the_largest_usize() {
    let max = usize::MAX.to_string();
    assert_eq!(parse_decimal(&max), Some(usize::MAX));
    let over = format!("{}0", max);
    assert_eq!(parse_decimal(&over), None);
    let one_more = (usize::MAX as u128 + 1).to_string();
    assert_eq!(parse_decimal(&one_more), None);
}

#[test]
fn parse_decimal_agrees_with_str_parse() {
    let samples = [
        "", "0", "9", "10", "+", "+0", "+12", "-3", "3-", "12345678901234567890", "99999999999999999999",
        "00000000000000000000000001", "1_000", "0x10", "٣", "  ", "7\n",
    ];
    for s in samples.iter() {
        assert_eq!(parse_decimal(s), s.parse::<usize>().ok(), "on {:?}", s);
    }
}

#[test]
fn decimal_string_writes_base_ten() {
    assert_eq!(decimal_string(0), "0");
    assert_eq!(decimal_string(7), "7");
    assert_eq!(decimal_string(10), "10");
    assert_eq!(decimal_string(305), "305");
    assert_eq!(decimal_string(usize::MAX), usize::MAX.to_string());
}

#[test]
fn decimal_string_reads_back() {
    for n in [0usize, 1, 9, 10, 19, 20, 21, 999, 1000, 123456, usize::MAX - 1, usize::MAX].iter() {
        assert_eq!(parse_decimal(&decimal_string(*n)), Some(*n));
        assert_eq!(decimal_string(*n), format!("{}", n));
    }
}
