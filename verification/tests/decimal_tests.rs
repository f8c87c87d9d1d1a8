use employee_hub::decimal::{digit_str, to_decimal};

#[test]
fn decimal_spelling() {
    assert_eq!(to_decimal(0), "0");
    assert_eq!(to_decimal(7), "7");
    assert_eq!(to_decimal(10), "10");
    assert_eq!(to_decimal(1_234_567_890), "1234567890");
    assert_eq!(to_decimal(u64::MAX), "18446744073709551615");
}

#[test]
fn digit_strings() {
    for d in 0..10u64 {
        assert_eq!(digit_str(d), d.to_string());
    }
}
