use cretonne::decimal::{decimal_string, prefixed};

#[test]
fn decimal_of_small_numbers() {
    assert_eq!(decimal_string(0), "0");
    assert_eq!(decimal_string(1), "1");
    assert_eq!(decimal_string(9), "9");
    assert_eq!(decimal_string(10), "10");
    assert_eq!(decimal_string(11), "11");
    assert_eq!(decimal_string(109), "109");
}

#[test]
fn decimal_of_large_numbers() {
    assert_eq!(decimal_string(1234567890), "1234567890");
    assert_eq!(decimal_string(4000000000), "4000000000");
    assert_eq!(decimal_string(u32::MAX), "4294967295");
}

#[test]
fn decimal_agrees_with_std() {
    let mut n: u32 = 1;
    for _ in 0..32 {
        assert_eq!(decimal_string(n), n.to_string());
        assert_eq!(decimal_string(n - 1), (n - 1).to_string());
        n = n.wrapping_mul(2);
    }
    for n in 0..2000u32 {
        assert_eq!(decimal_string(n), n.to_string());
    }
}

#[test]
fn prefixed_puts_the_prefix_first() {
    assert_eq!(prefixed("ebb", 12), "ebb12");
    assert_eq!(prefixed("", 7), "7");
    assert_eq!(prefixed("x", 0), "x0");
}
