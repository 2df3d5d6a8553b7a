use epc_qr_code_generator::amount::{Amount, InvalidAmount};

fn formatted(s: &str) -> String {
    let a: Amount = s.parse().unwrap();
    let mut out = String::new();
    a.push_text(&mut out);
    out
}

#[test]
fn one_cent_digit_formats_as_one_digit() {
    assert_eq!(formatted("12.5"), "EUR12.5");
}

#[test]
fn two_cent_digits_format_as_two_digits() {
    assert_eq!(formatted("12.50"), "EUR12.50");
    assert_eq!(formatted("12.05"), "EUR12.05");
    assert_eq!(formatted("12.55"), "EUR12.55");
}

#[test]
fn smallest_and_largest_amounts() {
    assert_eq!(formatted("0.01"), "EUR0.01");
    assert_eq!(formatted("999999999.99"), "EUR999999999.99");
    assert_eq!(formatted("+7.1"), "EUR7.1");
    assert_eq!(formatted("0.1"), "EUR0.1");
    assert_eq!(formatted("1234.00"), "EUR1234.00");
}

#[test]
fn zero_is_out_of_range() {
    assert!(matches!(
        Amount::parse("0.00"),
        Err(InvalidAmount::OutOfRange { euro: 0, cent: 0 })
    ));
    assert!(matches!(
        Amount::parse("0.0"),
        Err(InvalidAmount::OutOfRange { euro: 0, cent: 0 })
    ));
}

#[test]
fn billion_is_out_of_range() {
    assert!(matches!(
        Amount::parse("1000000000.00"),
        Err(InvalidAmount::OutOfRange { euro: 1000000000, cent: 0 })
    ));
}

#[test]
fn hundred_cents_is_out_of_range() {
    assert!(matches!(
        Amount::parse("3.100"),
        Err(InvalidAmount::OutOfRange { euro: 3, cent: 100 })
    ));
}

#[test]
fn missing_separator() {
    assert!(matches!(Amount::parse("12"), Err(InvalidAmount::NoSeparator)));
    assert!(matches!(Amount::parse(""), Err(InvalidAmount::NoSeparator)));
}

#[test]
fn parts_that_are_not_numbers() {
    assert!(matches!(Amount::parse("a.5"), Err(InvalidAmount::ParseIntError(_))));
    assert!(matches!(Amount::parse("1."), Err(InvalidAmount::ParseIntError(_))));
    assert!(matches!(Amount::parse(".5"), Err(InvalidAmount::ParseIntError(_))));
    assert!(matches!(Amount::parse("1.2.3"), Err(InvalidAmount::ParseIntError(_))));
    assert!(matches!(Amount::parse("-1.5"), Err(InvalidAmount::ParseIntError(_))));
    assert!(matches!(Amount::parse("1.+"), Err(InvalidAmount::ParseIntError(_))));
    assert!(matches!(Amount::parse("1. 5"), Err(InvalidAmount::ParseIntError(_))));
}

#[test]
fn numbers_beyond_their_types_are_out_of_range() {
    assert!(matches!(
        Amount::parse("5000000000.00"),
        Err(InvalidAmount::OutOfRange { euro: u32::MAX, cent: 0 })
    ));
    assert!(matches!(
        Amount::parse("4294967296.00"),
        Err(InvalidAmount::OutOfRange { euro: u32::MAX, cent: 0 })
    ));
    assert!(matches!(
        Amount::parse("99999999999999999999999.5"),
        Err(InvalidAmount::OutOfRange { euro: u32::MAX, cent: 50 })
    ));
    assert!(matches!(
        Amount::parse("1.123"),
        Err(InvalidAmount::OutOfRange { euro: 1, cent: 123 })
    ));
    assert!(matches!(
        Amount::parse("1.300"),
        Err(InvalidAmount::OutOfRange { euro: 1, cent: 255 })
    ));
    assert!(matches!(
        Amount::parse("1.256"),
        Err(InvalidAmount::OutOfRange { euro: 1, cent: 255 })
    ));
}

#[test]
fn from_str_agrees_with_parse() {
    assert!("5.5".parse::<Amount>().is_ok());
    assert!(matches!("5".parse::<Amount>(), Err(InvalidAmount::NoSeparator)));
}
