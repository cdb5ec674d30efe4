use midgard_ingest::normalize::FixedDec;
use midgard_ingest::normalize::narrow_magnitude;
use midgard_ingest::normalize::parse_fixed;
use midgard_ingest::normalize::parse_magnitude;

#[test]
fn magnitude_parses_exact_value() {
    assert_eq!(parse_magnitude("0"), Some(0));
    assert_eq!(parse_magnitude("123"), Some(123));
    assert_eq!(parse_magnitude("9223372036854775807"), Some(9223372036854775807));
    assert_eq!(
        parse_magnitude("99999999999999999999"),
        Some(99999999999999999999u128)
    );
}

#[test]
fn magnitude_rejects_malformed() {
    assert_eq!(parse_magnitude(""), None);
    assert_eq!(parse_magnitude("12a3"), None);
    assert_eq!(parse_magnitude("-5"), None);
    assert_eq!(parse_magnitude("1.5"), None);
    assert_eq!(parse_magnitude(" 12"), None);
}

#[test]
fn magnitude_rejects_over_128_bits() {
    // u128::MAX is 340282366920938463463374607431768211455
    assert_eq!(
        parse_magnitude("340282366920938463463374607431768211455"),
        Some(u128::MAX)
    );
    assert_eq!(parse_magnitude("340282366920938463463374607431768211456"), None);
}

#[test]
fn narrowing_keeps_values_in_range() {
    let r = narrow_magnitude(123456789012345, "toAssetVolumeUSD");
    assert!(matches!(r, Ok(123456789012345i64)));
    let r = narrow_magnitude(9223372036854775807, "x");
    assert!(matches!(r, Ok(9223372036854775807i64)));
}

#[test]
fn narrowing_reports_field_and_value() {
    let r = narrow_magnitude(99999999999999999999u128, "toAssetVolumeUSD");
    match r {
        Err(e) => {
            assert_eq!(e.field, "toAssetVolumeUSD");
            assert_eq!(e.value, 99999999999999999999u128);
        }
        Ok(_) => panic!("narrowing had to fail"),
    }
}

#[test]
fn fixed_parses_plain_decimals() {
    assert_eq!(parse_fixed("0"), Some(FixedDec { scaled: 0 }));
    assert_eq!(parse_fixed("1.5"), Some(FixedDec { scaled: 150000000 }));
    assert_eq!(parse_fixed("0.00000001"), Some(FixedDec { scaled: 1 }));
    assert_eq!(parse_fixed("107.0"), Some(FixedDec { scaled: 10700000000 }));
    assert_eq!(parse_fixed("-0.25"), Some(FixedDec { scaled: -25000000 }));
    assert_eq!(parse_fixed("3."), Some(FixedDec { scaled: 300000000 }));
}

#[test]
fn fixed_truncates_past_eight_places() {
    assert_eq!(parse_fixed("0.123456789"), Some(FixedDec { scaled: 12345678 }));
}

#[test]
fn fixed_rejects_malformed() {
    assert_eq!(parse_fixed(""), None);
    assert_eq!(parse_fixed("-"), None);
    assert_eq!(parse_fixed(".5"), None);
    assert_eq!(parse_fixed("1e5"), None);
    assert_eq!(parse_fixed("1.2.3"), None);
    assert_eq!(parse_fixed("abc"), None);
}

#[test]
fn fixed_rejects_out_of_range() {
    // 92233720368.54775807 is the largest representable magnitude
    assert_eq!(
        parse_fixed("92233720368.54775807"),
        Some(FixedDec { scaled: i64::MAX })
    );
    assert_eq!(parse_fixed("92233720368.54775808"), None);
    assert_eq!(parse_fixed("92233720369"), None);
}
