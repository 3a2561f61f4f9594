use energipriser::text::{decimal, digit_text};

#[test]
fn decimal_writes_numbers_without_leading_zeros() {
    assert_eq!(decimal(0), "0");
    assert_eq!(decimal(7), "7");
    assert_eq!(decimal(10), "10");
    assert_eq!(decimal(401), "401");
    assert_eq!(decimal(65535), "65535");
    assert_eq!(decimal(1234567890), "1234567890");
}

#[test]
fn digit_text_is_the_digit() {
    let all: String = (0..10).map(digit_text).collect();
    assert_eq!(all, "0123456789");
}
