use dsaccess::text::{decimal, join};

#[test]
fn decimal_of_small_numbers() {
    assert_eq!(decimal(0), "0");
    assert_eq!(decimal(7), "7");
    assert_eq!(decimal(9), "9");
    assert_eq!(decimal(10), "10");
    assert_eq!(decimal(407), "407");
}

#[test]
fn decimal_of_large_numbers() {
    assert_eq!(decimal(1_600_000_000), "1600000000");
    assert_eq!(decimal(u64::MAX), "18446744073709551615");
}

#[test]
fn decimal_agrees_with_std() {
    let mut n: u64 = 1;
    for _ in 0..19 {
        assert_eq!(decimal(n), n.to_string());
        assert_eq!(decimal(n - 1), (n - 1).to_string());
        n *= 10;
    }
}

#[test]
fn join_puts_a_hash_between() {
    assert_eq!(join("D", "sales"), "D#sales");
    assert_eq!(join("has_member", "U#alice"), "has_member#U#alice");
    assert_eq!(join("", ""), "#");
}
