use coinbase_rs::values::{DateTime, Decimal, Uuid};

#[test]
fn decimal_is_split_into_digits_and_scale() {
    let d = Decimal::parse("9.1238").unwrap();
    assert_eq!((d.unscaled.as_str(), d.scale), ("91238", 4));
    let d = Decimal::parse("10.00").unwrap();
    assert_eq!((d.unscaled.as_str(), d.scale), ("1000", 2));
    let d = Decimal::parse("-0.01").unwrap();
    assert_eq!((d.unscaled.as_str(), d.scale), ("-1", 2));
    let d = Decimal::parse("42").unwrap();
    assert_eq!((d.unscaled.as_str(), d.scale), ("42", 0));
    let d = Decimal::parse("1e3").unwrap();
    assert_eq!((d.unscaled.as_str(), d.scale), ("1", -3));
}

#[test]
fn decimal_holds_more_digits_than_a_float() {
    let d = Decimal::parse("123456789012345678901234567890.123456789012345678901234567890").unwrap();
    assert_eq!(d.unscaled, "123456789012345678901234567890123456789012345678901234567890");
    assert_eq!(d.scale, 30);
}

#[test]
fn decimal_refuses_other_text() {
    assert!(Decimal::parse("").is_none());
    assert!(Decimal::parse("nine").is_none());
    assert!(Decimal::parse("1.2.3").is_none());
}

#[test]
fn instant_is_read_in_utc() {
    assert_eq!(
        DateTime::parse("1970-01-01T00:00:00Z"),
        Some(DateTime { seconds: 0, nanos: 0 })
    );
    assert_eq!(
        DateTime::parse("2019-07-12T03:27:07Z"),
        Some(DateTime { seconds: 1562902027, nanos: 0 })
    );
    assert_eq!(
        DateTime::parse("2015-03-11T13:13:35-07:00"),
        Some(DateTime { seconds: 1426104815, nanos: 0 })
    );
    assert_eq!(
        DateTime::parse("2015-03-11T20:13:35.25+00:00"),
        Some(DateTime { seconds: 1426104815, nanos: 250_000_000 })
    );
}

#[test]
fn instant_refuses_other_text() {
    assert_eq!(DateTime::parse(""), None);
    assert_eq!(DateTime::parse("2019-07-12"), None);
    assert_eq!(DateTime::parse("2019-13-12T03:27:07Z"), None);
    assert_eq!(DateTime::parse("yesterday"), None);
}

#[test]
fn identifier_is_read_as_bits() {
    assert_eq!(
        Uuid::parse("9dd482e4-d8ce-46f7-a261-281843bd2855"),
        Some(Uuid { bits: 0x9dd482e4_d8ce_46f7_a261_281843bd2855 })
    );
    assert_eq!(
        Uuid::parse("9DD482E4-D8CE-46F7-A261-281843BD2855"),
        Some(Uuid { bits: 0x9dd482e4_d8ce_46f7_a261_281843bd2855 })
    );
    assert_eq!(
        Uuid::parse("9dd482e4d8ce46f7a261281843bd2855"),
        Some(Uuid { bits: 0x9dd482e4_d8ce_46f7_a261_281843bd2855 })
    );
    assert_eq!(Uuid::parse("00000000-0000-0000-0000-000000000000"), Some(Uuid { bits: 0 }));
}

#[test]
fn identifier_refuses_other_text() {
    assert_eq!(Uuid::parse(""), None);
    assert_eq!(Uuid::parse("LINK"), None);
    assert_eq!(Uuid::parse("9dd482e4-d8ce-46f7-a261-281843bd285"), None);
}

#[test]
fn identifier_is_written_hyphenated_in_lower_case() {
    let id = Uuid { bits: 0x9DD482E4_D8CE_46F7_A261_281843BD2855 };
    assert_eq!(id.to_text(), "9dd482e4-d8ce-46f7-a261-281843bd2855");
    assert_eq!(Uuid { bits: 1 }.to_text(), "00000000-0000-0000-0000-000000000001");
    assert_eq!(Uuid::parse(&id.to_text()), Some(id));
}
