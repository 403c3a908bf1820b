//! Numbers as bytes, low byte first.

use byteorder::{ByteOrder, LittleEndian};
use vstd::prelude::*;

verus! {

/// The bytes of a number of two bytes, low byte first.
pub open spec fn u16_bytes(value: u16) -> Seq<u8> {
    seq![(value % 256) as u8, (value / 256) as u8]
}

/// The bytes of a number of four bytes, low byte first.
pub open spec fn u32_bytes(value: u32) -> Seq<u8> {
    seq![
        (value % 256) as u8,
        (value / 256 % 256) as u8,
        (value / 65536 % 256) as u8,
        (value / 16777216) as u8,
    ]
}

/// The number whose four bytes these are, low byte first.
pub open spec fn u32_of(bytes: Seq<u8>) -> int {
    bytes[0] + bytes[1] * 256 + bytes[2] * 65536 + bytes[3] * 16777216
}

/// `LittleEndian::write_u16` writes the low byte, then the high byte.
#[verifier::external_body]
pub(crate) fn little_endian_u16(value: u16) -> (bytes: [u8; 2])
    ensures
        bytes@ == u16_bytes(value),
{
    let mut bytes = [0; 2];
    LittleEndian::write_u16(&mut bytes, value);
    bytes
}

/// `LittleEndian::write_u32` writes the four bytes, the lowest first.
#[verifier::external_body]
pub(crate) fn little_endian_u32(value: u32) -> (bytes: [u8; 4])
    ensures
        bytes@ == u32_bytes(value),
{
    let mut bytes = [0; 4];
    LittleEndian::write_u32(&mut bytes, value);
    bytes
}

/// `LittleEndian::read_u32` reads the first four bytes, the lowest first. It panics on a shorter
/// slice.
#[verifier::external_body]
pub(crate) fn read_little_endian_u32(bytes: &[u8]) -> (value: u32)
    requires
        bytes@.len() >= 4,
    ensures
        value == u32_of(bytes@),
{
    LittleEndian::read_u32(bytes)
}

/// Reading the bytes of a number gives the number back.
pub proof fn u32_round_trip(value: u32)
    ensures
        u32_of(u32_bytes(value)) == value,
{
}

} // verus!
