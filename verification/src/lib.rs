//! Cycle-stepped emulation core for the 8-bit 6502-family processor used by a
//! classic home console: the CPU instruction state machine, the memory bus with
//! its mirrored RAM regions, and the cartridge mapper the bus delegates to.

pub mod bus;
pub mod cartridge;
pub mod counter;
pub mod cpu;
pub mod rom;
pub mod text;

use vstd::prelude::*;

verus! {

/// The number of bytes in a kibibyte (1 KiB).
pub const BYTES_ON_A_KIBIBYTE: usize = 1024;

/// A 16-bit bus address assembled from a low byte and a high byte.
pub open spec fn spec_build_address(lower_byte: u8, upper_byte: u8) -> u16 {
    (lower_byte + upper_byte * 256) as u16
}

/// Build a CPU bus address given its two bytes, low byte first.
pub fn build_address(lower_byte: u8, upper_byte: u8) -> (address: u16)
    ensures
        address == spec_build_address(lower_byte, upper_byte),
{
    (lower_byte as u16) + (upper_byte as u16) * 256
}

/// The least significant byte of a 16-bit value.
pub open spec fn spec_lower_byte(value: u16) -> u8 {
    (value % 256) as u8
}

/// The most significant byte of a 16-bit value, which names the value's page.
pub open spec fn spec_upper_byte(value: u16) -> u8 {
    (value / 256) as u8
}

/// Get the least significant byte of a 16-bit value.
pub fn get_lower_byte(value: u16) -> (byte: u8)
    ensures
        byte == spec_lower_byte(value),
{
    (value % 256) as u8
}

/// Get the most significant byte of a 16-bit value.
pub fn get_upper_byte(value: u16) -> (byte: u8)
    ensures
        byte == spec_upper_byte(value),
{
    (value / 256) as u8
}

/// A 16-bit value is exactly its two bytes put back together.
pub proof fn lemma_address_round_trip(value: u16)
    ensures
        spec_build_address(spec_lower_byte(value), spec_upper_byte(value)) == value,
{
}

/// The sum of two 16-bit values, reduced modulo the 16-bit range, as the
/// processor's address arithmetic wraps it.
pub open spec fn spec_wrapping_add_u16(a: u16, b: u16) -> u16 {
    ((a + b) % 0x10000) as u16
}

/// Add two 16-bit values, wrapping around the 16-bit range.
pub fn wrapping_add_u16(a: u16, b: u16) -> (sum: u16)
    ensures
        sum == spec_wrapping_add_u16(a, b),
{
    let wide: u32 = a as u32 + b as u32;
    (wide % 0x10000) as u16
}

/// A 16-bit value plus one, wrapping around the 16-bit range.
pub open spec fn spec_wrapping_inc_u16(value: u16) -> u16 {
    spec_wrapping_add_u16(value, 1)
}

/// Increment a 16-bit value, wrapping around the 16-bit range.
pub fn wrapping_inc_u16(value: u16) -> (incremented: u16)
    ensures
        incremented == spec_wrapping_inc_u16(value),
{
    wrapping_add_u16(value, 1)
}

/// An 8-bit value plus one, wrapping around the 8-bit range.
pub open spec fn spec_wrapping_inc_u8(value: u8) -> u8 {
    ((value + 1) % 0x100) as u8
}

/// Increment an 8-bit value, wrapping around the 8-bit range.
pub fn wrapping_inc_u8(value: u8) -> (incremented: u8)
    ensures
        incremented == spec_wrapping_inc_u8(value),
{
    if value == 0xFF {
        0
    } else {
        value + 1
    }
}

/// An 8-bit value minus one, wrapping around the 8-bit range, as the stack
/// pointer offset wraps on the real hardware.
pub open spec fn spec_wrapping_dec_u8(value: u8) -> u8 {
    if value == 0 {
        0xFF
    } else {
        (value - 1) as u8
    }
}

/// Decrement an 8-bit value, wrapping around the 8-bit range.
pub fn wrapping_dec_u8(value: u8) -> (decremented: u8)
    ensures
        decremented == spec_wrapping_dec_u8(value),
{
    if value == 0 {
        0xFF
    } else {
        value - 1
    }
}

} // verus!
