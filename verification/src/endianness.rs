//! Byte orders, named by how each lays out the integer 1 in two bytes.

use vstd::prelude::*;

verus! {

/// A byte order.
pub trait Endianness {
    /// The 16-bit integer whose two bytes, most significant first, are the
    /// bytes of the integer 1 in this order.
    const REPR: u16;
}

/// Most significant byte first: the order of the network.
pub struct BigEndian {}

/// Least significant byte first.
pub struct LittleEndian {}

/// The byte order that values are handed out in.
pub type NativeEndian = LittleEndian;

/// The byte order of the wire.
pub type NetworkEndian = BigEndian;

impl Endianness for BigEndian {
    const REPR: u16 = 0x0001;
}

impl Endianness for LittleEndian {
    const REPR: u16 = 0x0100;
}

/// `value` with its two bytes in the other order.
pub open spec fn swapped(value: u16) -> u16 {
    ((value % 0x100) * 0x100 + value / 0x100) as u16
}

/// Carries `value` over from the byte order `D` to the byte order `R`: as it
/// is where the two are the same order, with its bytes swapped where not.
pub fn convert<D: Endianness, R: Endianness>(value: u16) -> (r: u16)
    ensures
        r == (if D::REPR == R::REPR {
            value
        } else {
            swapped(value)
        }),
{
    if D::REPR == R::REPR {
        value
    } else {
        (value % 0x100) * 0x100 + value / 0x100
    }
}

} // verus!
