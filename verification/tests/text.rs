use factura::text::decimal;

#[test]
fn decimal_writes_zero_as_one_digit() {
    assert_eq!(decimal(0), "0");
}

#[test]
fn decimal_writes_every_digit() {
    assert_eq!(decimal(1), "1");
    assert_eq!(decimal(2), "2");
    assert_eq!(decimal(3), "3");
    assert_eq!(decimal(4), "4");
    assert_eq!(decimal(5), "5");
    assert_eq!(decimal(6), "6");
    assert_eq!(decimal(7), "7");
    assert_eq!(decimal(8), "8");
    assert_eq!(decimal(9), "9");
    assert_eq!(decimal(1234567890), "1234567890");
}

#[test]
fn decimal_has_no_leading_zero() {
    assert_eq!(decimal(10), "10");
    assert_eq!(decimal(100), "100");
    assert_eq!(decimal(1005), "1005");
}

#[test]
fn decimal_agrees_with_the_standard_library() {
    for n in [0u128, 9, 10, 99, 100, 376, 960, 1920, 65535, 4294967295, 3888019143735] {
        assert_eq!(decimal(n), format!("{}", n));
    }
}

#[test]
fn decimal_writes_the_largest_number() {
    assert_eq!(decimal(u128::MAX), "340282366920938463463374607431768211455");
}
