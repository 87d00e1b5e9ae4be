use icap_reqmod::decimal::u64_to_decimal;
use icap_reqmod::errors::BodyFault;

#[test]
fn renders_single_digits() {
    assert_eq!(u64_to_decimal(0), "0");
    assert_eq!(u64_to_decimal(7), "7");
    assert_eq!(u64_to_decimal(9), "9");
}

#[test]
fn renders_multi_digit_numbers() {
    assert_eq!(u64_to_decimal(10), "10");
    assert_eq!(u64_to_decimal(149), "149");
    assert_eq!(u64_to_decimal(150), "150");
    assert_eq!(u64_to_decimal(1048576), "1048576");
    assert_eq!(u64_to_decimal(u64::MAX), "18446744073709551615");
}

#[test]
fn mismatch_message_has_exact_shape() {
    let fault = BodyFault::LengthMismatch {
        expected: 0,
        copied: 18446744073709551615,
    };
    assert_eq!(
        fault.message(),
        "Content-Length is 0 but decoded length is 18446744073709551615"
    );
}
