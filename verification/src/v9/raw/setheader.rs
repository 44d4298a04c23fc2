//! The flow-set header, read in place.

use crate::wire::{get_u16, u16_at};
use crate::ErrorKind;
use vstd::prelude::*;

verus! {

/// The four bytes of id and length that open a flow set.
#[derive(Debug, PartialEq)]
pub struct SetHeader<'a> {
    pub(crate) data: &'a [u8],
}

impl<'a> View for SetHeader<'a> {
    type V = Seq<u8>;

    /// The bytes that the header was made of.
    closed spec fn view(&self) -> Seq<u8> {
        self.data@
    }
}

impl<'a> SetHeader<'a> {
    /// The number of bytes a flow-set header takes.
    pub const LEN: usize = 4;

    #[verifier::type_invariant]
    spec fn well_formed(self) -> bool {
        self.data@.len() >= 4
    }

    /// Takes `data` as a flow-set header where it is long enough for one.
    pub fn new(data: &'a [u8]) -> (r: Result<Self, ErrorKind>)
        ensures
            match r {
                Ok(h) => data@.len() >= 4 && h@ == data@,
                Err(e) => data@.len() < 4 && e == ErrorKind::NotEnoughData,
            },
    {
        if data.len() < Self::LEN {
            return Err(ErrorKind::NotEnoughData);
        }
        Ok(SetHeader { data })
    }

    /// The flow set's id.
    pub fn flowset_id(&self) -> (v: u16)
        ensures
            v as int == u16_at(self@, 0),
    {
        proof {
            use_type_invariant(self);
        }
        get_u16(self.data, 0)
    }

    /// The flow set's length in bytes, header included.
    pub fn length(&self) -> (v: u16)
        ensures
            v as int == u16_at(self@, 2),
    {
        proof {
            use_type_invariant(self);
        }
        get_u16(self.data, 2)
    }
}

} // verus!
