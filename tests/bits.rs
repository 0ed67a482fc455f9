use gameboy::bits::{gbit, sbit, tbit, ubit};

#[test]
fn test_tbit() {
    assert!(tbit(0b100, 2));
}

#[test]
fn test_sbit() {
    assert_eq!(sbit(0, 2), 0b100);
}

#[test]
fn test_ubit() {
    assert_eq!(ubit(0b100, 2), 0);
}

#[test]
fn test_gbit() {
    assert_eq!(gbit(0b100, 2), 1);
}

#[test]
fn bit_helpers_leave_other_bits() {
    assert!(!tbit(0b100, 1));
    assert_eq!(sbit(0b1, 7), 0b1000_0001);
    assert_eq!(ubit(0xFF, 0), 0xFE);
    assert_eq!(gbit(0b100, 1), 0);
}
