//! The version 5 header, read in place, with its fields handed out in a
//! byte order of the caller's choice.

use crate::endianness::{convert, swapped, Endianness, NativeEndian};
use crate::wire::{get_u16, u16_at};
use crate::ErrorKind;
use vstd::prelude::*;

verus! {

/// A Netflow v5 header whose fields come out in the byte order `E`.
pub struct Header<'a, E: Endianness> {
    data: &'a [u8],
    phantom: core::marker::PhantomData<E>,
}

impl<'a, E: Endianness> View for Header<'a, E> {
    type V = Seq<u8>;

    /// The bytes that the header was made of.
    closed spec fn view(&self) -> Seq<u8> {
        self.data@
    }
}

impl<'a, E: Endianness> Header<'a, E> {
    /// The number of bytes a header takes.
    pub const LEN: usize = 24;

    /// The version this header announces.
    pub const VERSION: u16 = 5;

    #[verifier::type_invariant]
    spec fn well_formed(self) -> bool {
        self.data@.len() >= 24 && u16_at(self.data@, 0) == 5
    }

    /// Takes `data` as a header where it is long enough for one and
    /// announces version 5; the length is judged first.
    pub fn new(data: &'a [u8]) -> (r: Result<Self, ErrorKind>)
        ensures
            match r {
                Ok(h) => data@.len() >= 24 && u16_at(data@, 0) == 5 && h@ == data@,
                Err(e) => e == (if data@.len() < 24 {
                    ErrorKind::NotEnoughData
                } else {
                    ErrorKind::InvalidVersion
                }) && !(data@.len() >= 24 && u16_at(data@, 0) == 5),
            },
    {
        if data.len() < Self::LEN {
            return Err(ErrorKind::NotEnoughData);
        }
        if get_u16(data, 0) != Self::VERSION {
            return Err(ErrorKind::InvalidVersion);
        }
        Ok(Header { data, phantom: core::marker::PhantomData })
    }

    /// The version number in the byte order `E`: 5 where `E` is the order
    /// that values are handed out in, 5 with its bytes swapped where not.
    pub fn version(&self) -> (v: u16)
        ensures
            v == (if E::REPR == NativeEndian::REPR {
                5u16
            } else {
                swapped(5u16)
            }),
    {
        proof {
            use_type_invariant(self);
        }
        convert::<E, NativeEndian>(get_u16(self.data, 0))
    }
}

/// A version 5 packet whose fields come out in the byte order `E`.
pub struct FlowSet<'a, E: Endianness> {
    data: &'a [u8],
    phantom: core::marker::PhantomData<E>,
}

impl<'a, E: Endianness> View for FlowSet<'a, E> {
    type V = Seq<u8>;

    /// The bytes that the packet was made of.
    closed spec fn view(&self) -> Seq<u8> {
        self.data@
    }
}

impl<'a, E: Endianness> FlowSet<'a, E> {
    /// Takes `data` as a packet, whatever it holds.
    pub fn new(data: &'a [u8]) -> (r: Result<Self, ErrorKind>)
        ensures
            r matches Ok(set) && set@ == data@,
    {
        Ok(FlowSet { data, phantom: core::marker::PhantomData })
    }

    /// The bytes of the packet.
    pub fn bytes(&self) -> (b: &'a [u8])
        ensures
            b@ == self@,
    {
        self.data
    }
}

} // verus!
