use hisabi::money::{push_decimal, push_two_places, round_to_cents};

fn decimal(n: u128) -> String {
    let mut s = String::new();
    push_decimal(&mut s, n);
    s
}

fn two_places(cents: u128) -> String {
    let mut s = String::from("$");
    push_two_places(&mut s, cents);
    s
}

#[test]
fn decimal_digits() {
    assert_eq!(decimal(0), "0");
    assert_eq!(decimal(7), "7");
    assert_eq!(decimal(10), "10");
    assert_eq!(decimal(595), "595");
    assert_eq!(decimal(1_234_567_890), "1234567890");
    assert_eq!(decimal(u128::MAX), u128::MAX.to_string());
}

#[test]
fn decimal_appends() {
    let mut s = String::from("n=");
    push_decimal(&mut s, 42);
    assert_eq!(s, "n=42");
}

#[test]
fn two_decimal_places() {
    assert_eq!(two_places(0), "$0.00");
    assert_eq!(two_places(5), "$0.05");
    assert_eq!(two_places(40), "$0.40");
    assert_eq!(two_places(1041), "$10.41");
    assert_eq!(two_places(12750), "$127.50");
    assert_eq!(two_places(15000), "$150.00");
}

#[test]
fn rounding_to_cents() {
    assert_eq!(round_to_cents(0), 0);
    assert_eq!(round_to_cents(4_999_999), 0);
    assert_eq!(round_to_cents(5_000_000), 1);
    assert_eq!(round_to_cents(10_412_500_000), 1041);
    assert_eq!(round_to_cents(127_500_000_000), 12750);
    assert_eq!(round_to_cents(15_000_000), 2);
}
