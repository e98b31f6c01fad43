use shopping_list::auth::{login, AuthError};
use shopping_list::barcode_scanner::error::{BarcodeError, ParseDigitsError, SymbolKind};
use shopping_list::barcode_scanner::decode::{barcode_from_scan, parse_digits};
use shopping_list::barcode_scanner::{Barcode, BarcodeType, OptionBarcode};
use shopping_list::util::DecLen;

#[test]
fn dec_len_counts_decimal_digits() {
    assert_eq!(0u64.dec_len(), 1);
    assert_eq!(9u64.dec_len(), 1);
    assert_eq!(10u64.dec_len(), 2);
    assert_eq!(99_999_999u64.dec_len(), 8);
    assert_eq!(100_000_000u64.dec_len(), 9);
    assert_eq!(4_006_381_333_931u64.dec_len(), 13);
    assert_eq!(u64::MAX.dec_len(), 20);
}

#[test]
fn from_digits_round_trips_ean13() {
    let b = Barcode::from_digits(4_006_381_333_931, None).unwrap();
    assert_eq!(b.get_digits(), 4_006_381_333_931);
    assert!(matches!(b.get_type(), BarcodeType::Ean13));
}

#[test]
fn from_digits_round_trips_ean8() {
    let b = Barcode::from_digits(96_385_074, None).unwrap();
    assert_eq!(b.get_digits(), 96_385_074);
    assert!(matches!(b.get_type(), BarcodeType::Ean8));
}

#[test]
fn from_digits_rejects_wrong_digit_count() {
    let r = Barcode::from_digits(12_345, None);
    assert!(matches!(
        r,
        Err(BarcodeError::InvalidBarcodeLength { expected: 13, got: 5 })
    ));
    let r = Barcode::from_digits(123_456_789, None);
    assert!(matches!(
        r,
        Err(BarcodeError::InvalidBarcodeLength { expected: 13, got: 9 })
    ));
}

#[test]
fn from_digits_rejects_zero() {
    assert!(Barcode::from_digits(0, None).is_err());
    assert!(Barcode::from_digits(0, Some(BarcodeType::Ean8)).is_err());
    assert!(Barcode::from_digits(0, Some(BarcodeType::Ean13)).is_err());
}

#[test]
fn explicit_symbology_is_enforced() {
    assert!(Barcode::ean13(4_006_381_333_931).is_ok());
    assert!(matches!(
        Barcode::ean13(96_385_074),
        Err(BarcodeError::InvalidBarcodeLength { expected: 13, got: 8 })
    ));
    assert!(Barcode::ean8(96_385_074).is_ok());
    assert!(matches!(
        Barcode::ean8(4_006_381_333_931),
        Err(BarcodeError::InvalidBarcodeLength { expected: 8, got: 13 })
    ));
}

#[test]
fn parse_digits_reads_decimal_text() {
    assert_eq!(parse_digits("123"), Ok(123));
    assert_eq!(parse_digits("0"), Ok(0));
    assert_eq!(parse_digits("96385074"), Ok(96_385_074));
    assert_eq!(parse_digits("18446744073709551615"), Ok(u64::MAX));
}

#[test]
fn parse_digits_rejects_bad_text() {
    assert_eq!(parse_digits(""), Err(ParseDigitsError::Empty));
    assert_eq!(parse_digits("12a4"), Err(ParseDigitsError::InvalidDigit));
    assert_eq!(parse_digits("-12"), Err(ParseDigitsError::InvalidDigit));
    assert_eq!(
        parse_digits("18446744073709551616"),
        Err(ParseDigitsError::Overflow)
    );
}

#[test]
fn scan_adapter_accepts_only_ean_symbols() {
    let b = barcode_from_scan("96385074", SymbolKind::Ean8).unwrap();
    assert_eq!(b.get_digits(), 96_385_074);
    let b = barcode_from_scan("4006381333931", SymbolKind::Ean13).unwrap();
    assert_eq!(b.get_digits(), 4_006_381_333_931);
    assert!(matches!(
        barcode_from_scan("036000291452", SymbolKind::UpcA),
        Err(BarcodeError::UnsupportedBarcodeType(SymbolKind::UpcA))
    ));
    assert!(matches!(
        barcode_from_scan("96385O74", SymbolKind::Ean8),
        Err(BarcodeError::ParseBarcodeErr(ParseDigitsError::InvalidDigit))
    ));
    assert!(matches!(
        barcode_from_scan("123", SymbolKind::Ean13),
        Err(BarcodeError::InvalidBarcodeLength { expected: 13, got: 3 })
    ));
}

#[test]
fn option_barcode_states() {
    let b = Barcode::ean8(96_385_074).unwrap();
    assert_eq!(OptionBarcode::some(b), OptionBarcode::some(b));
    assert_eq!(OptionBarcode::none(), OptionBarcode::none());
    assert_ne!(OptionBarcode::some(b), OptionBarcode::none());
    assert_eq!(OptionBarcode::default(), OptionBarcode::none());
}

#[test]
fn login_rejects() {
    assert!(matches!(login(), Err(AuthError::IncorrectPassword)));
}
