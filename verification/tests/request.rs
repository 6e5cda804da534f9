use kilo_airdrop::request::{proxy_url, request_url};
use kilo_airdrop::text::push_decimal;

fn decimal(n: u64) -> String {
    let mut out = String::new();
    push_decimal(&mut out, n);
    out
}

#[test]
fn decimal_of_zero_is_one_digit() {
    assert_eq!(decimal(0), "0");
}

#[test]
fn decimal_of_single_digits() {
    for n in 0..10u64 {
        assert_eq!(decimal(n), n.to_string());
    }
}

#[test]
fn decimal_of_powers_of_ten() {
    assert_eq!(decimal(10), "10");
    assert_eq!(decimal(100), "100");
    assert_eq!(decimal(1_000_000), "1000000");
}

#[test]
fn decimal_of_largest_value() {
    assert_eq!(decimal(u64::MAX), "18446744073709551615");
}

#[test]
fn decimal_agrees_with_std_formatting() {
    let mut n: u64 = 1;
    for _ in 0..200 {
        assert_eq!(decimal(n), n.to_string());
        assert_eq!(decimal(n - 1), (n - 1).to_string());
        n = n.wrapping_mul(6364136223846793005).wrapping_add(1442695040888963407) | 1;
    }
}

#[test]
fn decimal_is_appended_to_what_is_there() {
    let mut out = String::from("t=");
    push_decimal(&mut out, 42);
    assert_eq!(out, "t=42");
}

#[test]
fn request_url_holds_address_and_time() {
    assert_eq!(
        request_url("0x1234abcd", 1700000000),
        "https://opapi.kiloex.io/point/queryKiloAccountAwardFlow?type=0&account=0x1234abcd&t=1700000000"
    );
}

#[test]
fn request_url_at_the_epoch() {
    assert_eq!(
        request_url("a", 0),
        "https://opapi.kiloex.io/point/queryKiloAccountAwardFlow?type=0&account=a&t=0"
    );
}

#[test]
fn request_url_does_not_escape_the_address() {
    assert_eq!(
        request_url("a b&c=d", 7),
        "https://opapi.kiloex.io/point/queryKiloAccountAwardFlow?type=0&account=a b&c=d&t=7"
    );
}

#[test]
fn request_url_changes_with_the_time() {
    assert_ne!(request_url("0xabc", 1), request_url("0xabc", 2));
}

#[test]
fn proxy_url_uses_plain_http() {
    assert_eq!(proxy_url("10.0.0.1:8080"), "http://10.0.0.1:8080");
}

#[test]
fn proxy_url_of_empty_descriptor() {
    assert_eq!(proxy_url(""), "http://");
}
