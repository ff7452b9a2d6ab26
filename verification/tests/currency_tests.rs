use payment_switch::currency::Currency;
use payment_switch::currency::parse_currency_base_unit;
use payment_switch::currency::to_currency_base_unit;
use payment_switch::types::ConnectorError;

#[test]
fn base_unit_two_decimals() {
    assert_eq!(to_currency_base_unit(1234, Currency::USD).unwrap(), "12.34");
    assert_eq!(to_currency_base_unit(5, Currency::EUR).unwrap(), "0.05");
    assert_eq!(to_currency_base_unit(0, Currency::GBP).unwrap(), "0.00");
    assert_eq!(to_currency_base_unit(100, Currency::INR).unwrap(), "1.00");
}

#[test]
fn base_unit_zero_decimals() {
    assert_eq!(to_currency_base_unit(1234, Currency::JPY).unwrap(), "1234");
    assert_eq!(to_currency_base_unit(0, Currency::KRW).unwrap(), "0");
    assert_eq!(to_currency_base_unit(7, Currency::VND).unwrap(), "7");
}

#[test]
fn base_unit_three_decimals() {
    assert_eq!(to_currency_base_unit(1234, Currency::BHD).unwrap(), "1.234");
    assert_eq!(to_currency_base_unit(120000, Currency::KWD).unwrap(), "120.000");
    assert_eq!(to_currency_base_unit(1, Currency::OMR).unwrap(), "0.001");
}

#[test]
fn base_unit_rejects_negative_amount() {
    assert!(matches!(
        to_currency_base_unit(-1, Currency::USD),
        Err(ConnectorError::AmountConversionFailed)
    ));
}

#[test]
fn parse_base_unit_exact_values() {
    assert_eq!(parse_currency_base_unit("12.34", Currency::USD).unwrap(), 1234);
    assert_eq!(parse_currency_base_unit("0.05", Currency::USD).unwrap(), 5);
    assert_eq!(parse_currency_base_unit("1234", Currency::JPY).unwrap(), 1234);
    assert_eq!(parse_currency_base_unit("1.234", Currency::BHD).unwrap(), 1234);
}

#[test]
fn parse_base_unit_rejects_malformed_input() {
    assert!(parse_currency_base_unit("", Currency::USD).is_err());
    assert!(parse_currency_base_unit("12.3", Currency::USD).is_err());
    assert!(parse_currency_base_unit("12.34", Currency::JPY).is_err());
    assert!(parse_currency_base_unit("abc", Currency::USD).is_err());
    assert!(parse_currency_base_unit(".34", Currency::USD).is_err());
    assert!(parse_currency_base_unit("12,34", Currency::USD).is_err());
}

#[test]
fn parse_base_unit_rejects_overflow() {
    // Ten times the largest minor-unit amount cannot come back as an i64.
    assert!(matches!(
        parse_currency_base_unit("92233720368547758080.00", Currency::USD),
        Err(ConnectorError::AmountConversionFailed)
    ));
}

#[test]
fn currency_round_trip_is_lossless() {
    let currencies = vec![
        Currency::USD,
        Currency::JPY,
        Currency::BHD,
        Currency::EUR,
        Currency::KRW,
        Currency::KWD,
    ];
    let amounts: Vec<i64> = vec![0, 1, 5, 99, 100, 1234, 100000, 987654321, i64::MAX];
    for c in &currencies {
        for a in &amounts {
            let s = to_currency_base_unit(*a, *c).unwrap();
            assert_eq!(parse_currency_base_unit(&s, *c).unwrap(), *a);
        }
    }
}
