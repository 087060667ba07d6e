use alv_metrics::text::decimal;

#[test]
fn writes_small_numbers() {
    assert_eq!(decimal(0), "0");
    assert_eq!(decimal(7), "7");
    assert_eq!(decimal(9), "9");
    assert_eq!(decimal(10), "10");
    assert_eq!(decimal(42), "42");
    assert_eq!(decimal(100), "100");
    assert_eq!(decimal(1234567890), "1234567890");
}

#[test]
fn writes_negative_numbers() {
    assert_eq!(decimal(-1), "-1");
    assert_eq!(decimal(-10), "-10");
    assert_eq!(decimal(-2023), "-2023");
}

#[test]
fn writes_the_largest_and_smallest_numbers() {
    assert_eq!(decimal(i64::MAX as i128), i64::MAX.to_string());
    assert_eq!(decimal(i64::MIN as i128), i64::MIN.to_string());
    assert_eq!(decimal(i128::MAX), i128::MAX.to_string());
    assert_eq!(decimal(i128::MIN), i128::MIN.to_string());
    assert_eq!(decimal(i128::MIN + 1), (i128::MIN + 1).to_string());
}

#[test]
fn writes_as_the_standard_library_does() {
    let mut n: i128 = 1;
    while n < i128::MAX / 7 {
        assert_eq!(decimal(n), n.to_string());
        assert_eq!(decimal(-n), (-n).to_string());
        assert_eq!(decimal(n - 1), (n - 1).to_string());
        n *= 7;
    }
}
