//! Tests for the address and byte helpers, and for the front-end counter
//! state.

use tinfo::counter::{update, Counter, Message};
use tinfo::{build_address, get_lower_byte, get_upper_byte, wrapping_add_u16, wrapping_dec_u8};

#[test]
fn test_build_address() {
    assert_eq!(build_address(0xAB, 0xDC), 0xDCAB);
}

#[test]
fn test_u16_get_lower_byte() {
    assert_eq!(get_lower_byte(0xFF00), 0x00);
}

#[test]
fn test_u16_get_upper_byte() {
    assert_eq!(get_upper_byte(0xFF00), 0xFF);
}

#[test]
fn test_wrapping_add_wraps_around() {
    assert_eq!(wrapping_add_u16(0xFFFF, 1), 0x0000);
    assert_eq!(wrapping_add_u16(0xFFFE, 0x0105), 0x0103);
    assert_eq!(wrapping_add_u16(0x1234, 0), 0x1234);
}

#[test]
fn test_wrapping_dec_wraps_around() {
    assert_eq!(wrapping_dec_u8(0x00), 0xFF);
    assert_eq!(wrapping_dec_u8(0xFD), 0xFC);
}

#[test]
fn test_counter_update_increments() {
    let mut counter = Counter { value: 41 };
    update(&mut counter, Message::Increment);
    assert_eq!(counter.value, 42);
}

#[test]
fn test_counter_default_is_zero() {
    let counter = Counter::default();
    assert_eq!(counter.value, 0);
}
