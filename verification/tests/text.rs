use coinbase_rs::text::{parse_unsigned, unsigned_text};

#[test]
fn parse_unsigned_reads_digits() {
    assert_eq!(parse_unsigned("25"), Some(25));
    assert_eq!(parse_unsigned("0"), Some(0));
    assert_eq!(parse_unsigned("007"), Some(7));
    assert_eq!(parse_unsigned("100"), Some(100));
}

#[test]
fn parse_unsigned_refuses_what_is_no_number() {
    assert_eq!(parse_unsigned(""), None);
    assert_eq!(parse_unsigned("-1"), None);
    assert_eq!(parse_unsigned("+1"), None);
    assert_eq!(parse_unsigned("1a"), None);
    assert_eq!(parse_unsigned("1.0"), None);
    assert_eq!(parse_unsigned(" 1"), None);
    assert_eq!(parse_unsigned("١٢"), None);
}

#[test]
fn parse_unsigned_stops_at_the_largest_number() {
    let largest = usize::MAX.to_string();
    assert_eq!(parse_unsigned(&largest), Some(usize::MAX));
    let mut beyond = largest.clone();
    beyond.push('0');
    assert_eq!(parse_unsigned(&beyond), None);
    assert_eq!(parse_unsigned("99999999999999999999999999"), None);
}

#[test]
fn unsigned_text_writes_without_leading_zeros() {
    assert_eq!(unsigned_text(0), "0");
    assert_eq!(unsigned_text(7), "7");
    assert_eq!(unsigned_text(10), "10");
    assert_eq!(unsigned_text(100), "100");
    assert_eq!(unsigned_text(9081726354), "9081726354");
    assert_eq!(unsigned_text(usize::MAX), usize::MAX.to_string());
}

#[test]
fn the_text_of_a_number_reads_back() {
    for n in [0usize, 1, 9, 10, 99, 100, 12345, usize::MAX] {
        assert_eq!(parse_unsigned(&unsigned_text(n)), Some(n));
    }
}
