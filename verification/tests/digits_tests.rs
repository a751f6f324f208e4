use tui_loop::digits::i32_to_string;
use tui_loop::ticker::Ticker;

#[test]
fn zero() {
    assert_eq!(i32_to_string(0), "0");
}

#[test]
fn single_digits() {
    assert_eq!(i32_to_string(1), "1");
    assert_eq!(i32_to_string(9), "9");
}

#[test]
fn multiple_digits() {
    assert_eq!(i32_to_string(10), "10");
    assert_eq!(i32_to_string(42), "42");
    assert_eq!(i32_to_string(100), "100");
    assert_eq!(i32_to_string(987654321), "987654321");
}

#[test]
fn negative_values() {
    assert_eq!(i32_to_string(-1), "-1");
    assert_eq!(i32_to_string(-10), "-10");
    assert_eq!(i32_to_string(-137), "-137");
}

#[test]
fn extremes() {
    assert_eq!(i32_to_string(i32::MAX), "2147483647");
    assert_eq!(i32_to_string(i32::MIN), "-2147483648");
}

#[test]
fn matches_std_formatting() {
    for v in [-100000, -999, -7, 0, 3, 55, 1000, 123456, i32::MAX, i32::MIN] {
        assert_eq!(i32_to_string(v), v.to_string());
    }
}

#[test]
fn ticker_counts_from_zero() {
    let mut t = Ticker::new();
    assert_eq!(t.next_value(), 0);
    assert_eq!(t.next_value(), 1);
    assert_eq!(t.next_value(), 2);
}

#[test]
fn ticker_nth_value_is_n() {
    let mut t = Ticker::new();
    for n in 0..1000 {
        assert!(t.can_tick());
        assert_eq!(t.next_value(), n);
    }
}
