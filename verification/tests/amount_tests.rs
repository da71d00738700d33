use scm_client::amount::{parse_amount, unit_decimals, Amount};
use scm_client::AmountParseError;

fn digits_string(a: &Amount) -> String {
    String::from_utf8(a.digits.clone()).unwrap()
}

#[test]
fn one_ether_is_ten_to_the_eighteenth() {
    let a = parse_amount(b"1", b"ether").unwrap();
    assert_eq!(digits_string(&a), "1000000000000000000");
}

#[test]
fn thousand_gwei_is_ten_to_the_twelfth() {
    let a = parse_amount(b"1000", b"gwei").unwrap();
    assert_eq!(digits_string(&a), "1000000000000");
}

#[test]
fn fractional_ether_converts_exactly() {
    let a = parse_amount(b"1.5", b"ether").unwrap();
    assert_eq!(digits_string(&a), "1500000000000000000");
}

#[test]
fn smallest_fraction_of_ether_is_one_wei() {
    let a = parse_amount(b"0.000000000000000001", b"ether").unwrap();
    // Leading zeros are kept; the value is one wei.
    assert_eq!(digits_string(&a), "0000000000000000001");
}

#[test]
fn wei_amounts_pass_through() {
    let a = parse_amount(b"15230001000", b"wei").unwrap();
    assert_eq!(digits_string(&a), "15230001000");
}

#[test]
fn conversion_matches_chain_library() {
    for (amount, unit) in [
        ("1", "ether"),
        ("1000", "gwei"),
        ("1.5", "ether"),
        ("15.230001000000000000", "ether"),
        ("0.25", "szabo"),
        ("7", "kwei"),
    ] {
        let ours = parse_amount(amount.as_bytes(), unit.as_bytes()).unwrap();
        let got = ethers::types::U256::from_dec_str(&digits_string(&ours)).unwrap();
        let expect: ethers::types::U256 =
            ethers::utils::parse_units(amount, unit).unwrap().into();
        assert_eq!(got, expect);
    }
}

#[test]
fn fractional_wei_is_refused() {
    assert_eq!(
        parse_amount(b"1.5", b"wei").unwrap_err(),
        AmountParseError::PrecisionLoss
    );
    assert_eq!(
        parse_amount(b"0.0000000000000000001", b"ether").unwrap_err(),
        AmountParseError::PrecisionLoss
    );
}

#[test]
fn malformed_amounts_are_refused() {
    for bad in [
        &b""[..],
        &b"."[..],
        &b"1.2.3"[..],
        &b"abc"[..],
        &b"1a"[..],
        &b"-1"[..],
        &b"1_000"[..],
        &b" 1"[..],
    ] {
        assert_eq!(
            parse_amount(bad, b"ether").unwrap_err(),
            AmountParseError::MalformedAmount,
            "expected {:?} to be malformed",
            bad
        );
    }
}

#[test]
fn unknown_units_are_refused() {
    assert_eq!(
        parse_amount(b"1", b"parsec").unwrap_err(),
        AmountParseError::UnrecognizedUnit
    );
    assert_eq!(
        parse_amount(b"1", b"").unwrap_err(),
        AmountParseError::UnrecognizedUnit
    );
}

#[test]
fn unknown_unit_reported_before_bad_amount() {
    assert_eq!(
        parse_amount(b"not-a-number", b"parsec").unwrap_err(),
        AmountParseError::UnrecognizedUnit
    );
}

#[test]
fn unit_names_ignore_ascii_case() {
    assert_eq!(unit_decimals(b"ETHER"), Some(18));
    assert_eq!(unit_decimals(b"Gwei"), Some(9));
    assert_eq!(unit_decimals(b"wEi"), Some(0));
}

#[test]
fn unit_table_matches_chain_library() {
    for unit in [
        "eth", "ether", "pwei", "milli", "milliether", "finney", "twei", "micro", "microether",
        "szabo", "gwei", "nano", "nanoether", "shannon", "mwei", "pico", "picoether", "lovelace",
        "kwei", "femto", "femtoether", "babbage", "wei",
    ] {
        let expect: u32 = ethers::utils::Units::try_from(unit).unwrap().as_num();
        assert_eq!(unit_decimals(unit.as_bytes()), Some(expect), "unit {}", unit);
    }
    assert_eq!(unit_decimals(b"parsec"), None);
}

#[test]
fn dotted_integer_amounts_are_accepted() {
    let a = parse_amount(b"2.", b"kwei").unwrap();
    assert_eq!(digits_string(&a), "2000");
    let b = parse_amount(b".5", b"kwei").unwrap();
    assert_eq!(digits_string(&b), "500");
}
