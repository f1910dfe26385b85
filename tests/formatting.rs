use region_pricing::currency::{currency_is_suffix, currency_symbol, decimal_places};
use region_pricing::format::{format_amount, format_price};
use region_pricing::text::parse_thousandths;

#[test]
fn symbols_of_known_and_unknown_codes() {
    assert_eq!(currency_symbol("USD"), "$");
    assert_eq!(currency_symbol("EUR"), "€");
    assert_eq!(currency_symbol("KWD"), "KD");
    assert_eq!(currency_symbol("VND"), "₫");
    assert_eq!(currency_symbol("XYZ"), "");
    assert_eq!(currency_symbol(""), "");
}

#[test]
fn suffix_placement() {
    assert!(currency_is_suffix("VND"));
    assert!(currency_is_suffix("LSL"));
    assert!(currency_is_suffix("HUF"));
    assert!(!currency_is_suffix("USD"));
    assert!(!currency_is_suffix("XYZ"));
}

#[test]
fn precision_groups() {
    assert_eq!(decimal_places("JPY"), 0);
    assert_eq!(decimal_places("BYN"), 0);
    assert_eq!(decimal_places("KWD"), 3);
    assert_eq!(decimal_places("JOD"), 3);
    assert_eq!(decimal_places("USD"), 2);
    assert_eq!(decimal_places("XYZ"), 2);
}

#[test]
fn whole_unit_suffix_currency_has_no_point() {
    assert_eq!(format_price(1_000_000, "VND"), "1000 ₫");
}

#[test]
fn every_whole_unit_currency_has_no_point() {
    let codes = [
        "JPY", "KRW", "VND", "IDR", "MMK", "LAK", "KHR", "UGX", "TZS", "MWK", "MGA", "CDF", "RWF",
        "GNF", "XOF", "XAF", "KMF", "MZN", "BIF", "VUV", "SLL", "BYN",
    ];
    for code in codes {
        assert_eq!(decimal_places(code), 0);
        for amount in [0u64, 499, 500, 1_234_567, 99_999_999_999] {
            assert!(!format_price(amount, code).contains('.'), "{} {}", code, amount);
        }
    }
}

#[test]
fn thousandths_currency_shows_three_digits() {
    assert_eq!(format_price(1500, "KWD"), "KD1.500");
    assert_eq!(format_amount(1500, "OMR"), "1.500");
    assert_eq!(format_price(1500, "LYD"), "1.500 LD");
    assert_eq!(format_amount(7, "BHD"), "0.007");
}

#[test]
fn prefix_and_suffix_layout() {
    assert_eq!(format_price(4990, "USD"), "$4.99");
    assert_eq!(format_price(4990, "ZAR"), "4.99 R");
    assert_eq!(format_price(4990, "LSL"), "4.99 LSL");
    assert_eq!(format_price(4990, "XYZ"), "XYZ 4.99");
    assert_eq!(format_price(0, "GBP"), "£0.00");
}

#[test]
fn rounding_to_currency_precision() {
    assert_eq!(format_price(4995, "USD"), "$5.00");
    assert_eq!(format_price(4994, "USD"), "$4.99");
    assert_eq!(format_price(1500, "JPY"), "¥2");
    assert_eq!(format_price(1499, "JPY"), "¥1");
    assert_eq!(format_amount(u64::MAX, "USD"), "18446744073709551.62");
}

#[test]
fn parsing_decimal_prices() {
    assert_eq!(parse_thousandths("4.99"), Some(4990));
    assert_eq!(parse_thousandths("12"), Some(12000));
    assert_eq!(parse_thousandths("0.5"), Some(500));
    assert_eq!(parse_thousandths("1.234"), Some(1234));
    assert_eq!(parse_thousandths("18446744073709551.615"), Some(u64::MAX));
    assert_eq!(parse_thousandths("18446744073709551.616"), None);
    assert_eq!(parse_thousandths("99999999999999999999"), None);
    assert_eq!(parse_thousandths("1.2345"), None);
    assert_eq!(parse_thousandths("abc"), None);
    assert_eq!(parse_thousandths(""), None);
    assert_eq!(parse_thousandths(".5"), None);
    assert_eq!(parse_thousandths("5."), None);
    assert_eq!(parse_thousandths("1e-5"), None);
    assert_eq!(parse_thousandths("٣"), None);
}
