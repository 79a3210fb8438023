//! Little-endian integer fields, encoded and decoded by `zerocopy`.

use vstd::bytes::*;
use vstd::prelude::*;
use zerocopy::byteorder::{LittleEndian, U16, U32, U64};
use zerocopy::{AsBytes, FromBytes, FromZeroes};

verus! {

/// Calls `zerocopy::byteorder::U16::<LittleEndian>::new` and `AsBytes::as_bytes`.
/// Trusted: the two bytes returned are `value`, low byte first.
#[verifier::external_body]
pub(crate) fn u16_le_bytes(value: u16) -> (bytes: Vec<u8>)
    ensures
        bytes@ == spec_u16_to_le_bytes(value),
{
    U16::<LittleEndian>::new(value).as_bytes().to_vec()
}

/// Calls `zerocopy::byteorder::U32::<LittleEndian>::new` and `AsBytes::as_bytes`.
/// Trusted: the four bytes returned are `value`, low byte first.
#[verifier::external_body]
pub(crate) fn u32_le_bytes(value: u32) -> (bytes: Vec<u8>)
    ensures
        bytes@ == spec_u32_to_le_bytes(value),
{
    U32::<LittleEndian>::new(value).as_bytes().to_vec()
}

/// Calls `zerocopy::byteorder::U64::<LittleEndian>::new` and `AsBytes::as_bytes`.
/// Trusted: the eight bytes returned are `value`, low byte first.
#[verifier::external_body]
pub(crate) fn u64_le_bytes(value: u64) -> (bytes: Vec<u8>)
    ensures
        bytes@ == spec_u64_to_le_bytes(value),
{
    U64::<LittleEndian>::new(value).as_bytes().to_vec()
}

/// Calls `FromBytes::read_from_prefix` on `zerocopy::byteorder::U16<LittleEndian>`.
/// Trusted: with fewer than two bytes there is no value; otherwise the value
/// is the little-endian reading of the first two.
#[verifier::external_body]
pub(crate) fn read_u16_le(bytes: &[u8]) -> (value: Option<u16>)
    ensures
        bytes@.len() < 2 ==> value is None,
        bytes@.len() >= 2 ==> value == Some(spec_u16_from_le_bytes(bytes@.subrange(0, 2))),
{
    match U16::<LittleEndian>::read_from_prefix(bytes) {
        Some(field) => Some(field.get()),
        None => None,
    }
}

/// Calls `FromBytes::read_from_prefix` on `zerocopy::byteorder::U32<LittleEndian>`.
/// Trusted: with fewer than four bytes there is no value; otherwise the value
/// is the little-endian reading of the first four.
#[verifier::external_body]
pub(crate) fn read_u32_le(bytes: &[u8]) -> (value: Option<u32>)
    ensures
        bytes@.len() < 4 ==> value is None,
        bytes@.len() >= 4 ==> value == Some(spec_u32_from_le_bytes(bytes@.subrange(0, 4))),
{
    match U32::<LittleEndian>::read_from_prefix(bytes) {
        Some(field) => Some(field.get()),
        None => None,
    }
}

/// Calls `FromBytes::read_from_prefix` on `zerocopy::byteorder::U64<LittleEndian>`.
/// Trusted: with fewer than eight bytes there is no value; otherwise the value
/// is the little-endian reading of the first eight.
#[verifier::external_body]
pub(crate) fn read_u64_le(bytes: &[u8]) -> (value: Option<u64>)
    ensures
        bytes@.len() < 8 ==> value is None,
        bytes@.len() >= 8 ==> value == Some(spec_u64_from_le_bytes(bytes@.subrange(0, 8))),
{
    match U64::<LittleEndian>::read_from_prefix(bytes) {
        Some(field) => Some(field.get()),
        None => None,
    }
}

/// Calls `zerocopy::FromZeroes::new_zeroed` for a receive buffer.
/// Trusted: every byte of the buffer is zero.
#[verifier::external_body]
pub(crate) fn zeroed_rx_buffer() -> (buffer: [u8; 512])
    ensures
        forall|i: int| 0 <= i < 512 ==> buffer@[i] == 0u8,
{
    FromZeroes::new_zeroed()
}

} // verus!
