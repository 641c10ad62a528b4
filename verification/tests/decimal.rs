use aptos_client::decimal::{format_u64, push_decimal, read_u64};
use aptos_client::types::U64;

#[test]
fn it_works() {
}

#[test]
fn string_number_round_trip() {
    let n = U64(18446744073709551615);
    assert_eq!(n.to_string(), "18446744073709551615");
    assert_eq!(U64::from_text("18446744073709551615"), Some(n));
    for value in [0u64, 1, 9, 10, 11, 99, 100, 12345, 1 << 32, u64::MAX - 1, u64::MAX] {
        let text = U64(value).to_string();
        assert_eq!(text, value.to_string());
        assert_eq!(U64::from_text(&text), Some(U64(value)));
    }
}

#[test]
fn decimal_text_has_no_sign_and_no_leading_zero() {
    assert_eq!(format_u64(0), "0");
    assert_eq!(format_u64(7), "7");
    assert_eq!(format_u64(10), "10");
    assert_eq!(format_u64(1000000), "1000000");
    let mut out = String::from("amount=");
    push_decimal(2500, &mut out);
    assert_eq!(out, "amount=2500");
}

#[test]
fn reading_agrees_with_the_standard_parser() {
    let inputs = [
        "", "+", "-", "0", "00", "007", "+7", "++7", "-7", "+0", "7+", " 7", "7 ", "1_0", "0x10",
        "12a", "a12", "1.5", "18446744073709551615", "18446744073709551616",
        "99999999999999999999", "+18446744073709551615", "000000000000000000000000001",
        "١٢٣", "1٢", "é", "5é",
    ];
    for input in inputs {
        assert_eq!(read_u64(input), input.parse::<u64>().ok(), "input {:?}", input);
    }
}

#[test]
fn reading_rejects_what_is_no_number() {
    assert_eq!(U64::from_text(""), None);
    assert_eq!(U64::from_text("+"), None);
    assert_eq!(U64::from_text("-1"), None);
    assert_eq!(U64::from_text("1_0"), None);
    assert_eq!(U64::from_text("18446744073709551616"), None);
    assert_eq!(U64::from_text("+7"), Some(U64(7)));
    assert_eq!(U64::from_text("0042"), Some(U64(42)));
}

#[test]
fn string_number_conversions() {
    let n: U64 = U64::from(5u64);
    assert_eq!(n, U64(5));
    let back: u64 = u64::from(n);
    assert_eq!(back, 5);
    assert_eq!(U64::default(), U64(0));
}
