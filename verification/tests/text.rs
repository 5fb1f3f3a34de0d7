use cloud_hypervisor::text::{digit_str, str_equal, write_digits, write_padded};
use cloud_hypervisor::wire::{get_le, put_le};

#[test]
fn numbers_in_digits() {
    for n in [0, 1, 9, 10, 15, 16, 255, 1_000_000, u64::MAX] {
        assert_eq!(write_digits(n, 10), format!("{n}"));
        assert_eq!(write_digits(n, 16), format!("{n:x}"));
        assert_eq!(write_digits(n, 2), format!("{n:b}"));
    }
    assert_eq!(write_padded(0xbeef, 16, 8), "0000beef");
    assert_eq!(write_padded(7, 10, 0), "");
    assert_eq!(digit_str(11), "b");
}

#[test]
fn texts_are_compared() {
    assert!(str_equal("full", "full"));
    assert!(!str_equal("full", "ful"));
    assert!(!str_equal("full", "fulL"));
}

#[test]
fn numbers_in_bytes() {
    let mut bytes = vec![9];
    put_le(&mut bytes, 0x0102_0304, 4);
    assert_eq!(bytes, [9, 4, 3, 2, 1]);
    assert_eq!(get_le(&bytes, 1, 5), 0x0102_0304);
    assert_eq!(get_le(&bytes, 0, 2), 0x0409);
    assert_eq!(get_le(&bytes, 3, 3), 0);
}
