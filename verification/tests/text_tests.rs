use octane::text::{decimal_digits, hex_fixed, zero_padded_decimal, str_eq};

#[test]
fn decimal_rendering() {
    assert_eq!(decimal_digits(0), "0");
    assert_eq!(decimal_digits(1234567890), "1234567890");
    assert_eq!(decimal_digits(u128::MAX), u128::MAX.to_string());
    assert_eq!(zero_padded_decimal(42, 5), "00042");
    assert_eq!(zero_padded_decimal(123456, 3), "123456");
    assert_eq!(hex_fixed(0xbeef, 8), "0000beef");
    assert_eq!(hex_fixed(0x1ff, 2), "ff");
    assert!(str_eq("abc", "abc"));
    assert!(!str_eq("abc", "abd"));
}
