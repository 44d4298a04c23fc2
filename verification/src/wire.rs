//! Big-endian (network order) integers on byte sequences.

use byteorder::{ByteOrder, NetworkEndian};
use vstd::prelude::*;
use vstd::slice::slice_subrange;

verus! {

/// The unsigned 16-bit integer that the two bytes at `at` spell in network order.
pub open spec fn u16_at(s: Seq<u8>, at: int) -> int {
    s[at] as int * 0x100 + s[at + 1] as int
}

/// The unsigned 32-bit integer that the four bytes at `at` spell in network order.
pub open spec fn u32_at(s: Seq<u8>, at: int) -> int {
    s[at] as int * 0x100_0000 + s[at + 1] as int * 0x1_0000 + s[at + 2] as int * 0x100 + s[at
        + 3] as int
}

/// Trusted: `byteorder::ByteOrder::read_u16` of `NetworkEndian`. It reads the
/// first two bytes of `buf` as a big-endian integer and panics on a shorter
/// buffer, which the precondition rules out.
#[verifier::external_body]
fn network_u16(buf: &[u8]) -> (r: u16)
    requires
        buf@.len() >= 2,
    ensures
        r as int == u16_at(buf@, 0),
{
    NetworkEndian::read_u16(buf)
}

/// Trusted: `byteorder::ByteOrder::read_u32` of `NetworkEndian`. It reads the
/// first four bytes of `buf` as a big-endian integer and panics on a shorter
/// buffer, which the precondition rules out.
#[verifier::external_body]
fn network_u32(buf: &[u8]) -> (r: u32)
    requires
        buf@.len() >= 4,
    ensures
        r as int == u32_at(buf@, 0),
{
    NetworkEndian::read_u32(buf)
}

/// Reads the big-endian `u16` at offset `at` of `data`.
pub fn get_u16(data: &[u8], at: usize) -> (r: u16)
    requires
        at + 2 <= data.len(),
    ensures
        r as int == u16_at(data@, at as int),
{
    network_u16(slice_subrange(data, at, at + 2))
}

/// Reads the big-endian `u32` at offset `at` of `data`.
pub fn get_u32(data: &[u8], at: usize) -> (r: u32)
    requires
        at + 4 <= data.len(),
    ensures
        r as int == u32_at(data@, at as int),
{
    network_u32(slice_subrange(data, at, at + 4))
}

} // verus!
