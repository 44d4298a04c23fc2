//! The packet header, read in place.

use crate::wire::{get_u16, get_u32, u16_at, u32_at};
use crate::ErrorKind;
use vstd::prelude::*;

verus! {

/// A Netflow v5 header helper struct
#[derive(Debug, PartialEq)]
pub struct Header<'a> {
    pub(crate) data: &'a [u8],
}

impl<'a> View for Header<'a> {
    type V = Seq<u8>;

    /// The bytes that the header was made of.
    closed spec fn view(&self) -> Seq<u8> {
        self.data@
    }
}

/// Whether `s` starts with a version 5 packet header.
pub open spec fn is_header(s: Seq<u8>) -> bool {
    s.len() >= 24 && u16_at(s, 0) == 5
}

impl<'a> Header<'a> {
    /// The number of bytes a header takes.
    pub const LEN: usize = 24;

    /// The version this header announces.
    pub const VERSION: u16 = 5;

    #[verifier::type_invariant]
    spec fn well_formed(self) -> bool {
        self.data@.len() >= 24
    }

    /// The header over the first bytes of a packet whose version has not
    /// been looked at.
    pub(crate) fn over(data: &'a [u8]) -> (h: Self)
        requires
            data@.len() >= 24,
        ensures
            h@ == data@,
    {
        Header { data }
    }

    /// Takes `data` as a header where it is long enough for one and
    /// announces version 5; the length is judged first.
    pub fn new(data: &'a [u8]) -> (r: Result<Self, ErrorKind>)
        ensures
            match r {
                Ok(h) => is_header(data@) && h@ == data@,
                Err(e) => !is_header(data@) && e == (if data@.len() < 24 {
                    ErrorKind::NotEnoughData
                } else {
                    ErrorKind::InvalidVersion
                }),
            },
    {
        if data.len() < Self::LEN {
            return Err(ErrorKind::NotEnoughData);
        }
        if get_u16(data, 0) != Self::VERSION {
            return Err(ErrorKind::InvalidVersion);
        }
        Ok(Header { data })
    }

    /// NetFlow export format version number
    pub fn version(&self) -> (v: u16)
        ensures
            v == 5,
    {
        Self::VERSION
    }

    /// Number of flows that are exported in this packet (1-30)
    pub fn count(&self) -> (v: u16)
        ensures
            v as int == u16_at(self@, 2),
    {
        proof {
            use_type_invariant(self);
        }
        get_u16(self.data, 2)
    }

    /// Current time in milliseconds since the export device started
    pub fn sys_uptime_msecs(&self) -> (v: u32)
        ensures
            v as int == u32_at(self@, 4),
    {
        proof {
            use_type_invariant(self);
        }
        get_u32(self.data, 4)
    }

    /// Current time in seconds since 0000 Coordinated Universal Time 1970
    pub fn unix_secs(&self) -> (v: u32)
        ensures
            v as int == u32_at(self@, 8),
    {
        proof {
            use_type_invariant(self);
        }
        get_u32(self.data, 8)
    }

    /// Residual nanoseconds since 0000 Coordinated Universal Time 1970
    pub fn unix_nsecs(&self) -> (v: u32)
        ensures
            v as int == u32_at(self@, 12),
    {
        proof {
            use_type_invariant(self);
        }
        get_u32(self.data, 12)
    }

    /// Sequence counter of total flows seen
    pub fn sequence_number(&self) -> (v: u32)
        ensures
            v as int == u32_at(self@, 16),
    {
        proof {
            use_type_invariant(self);
        }
        get_u32(self.data, 16)
    }

    /// Type of flow-switching engine
    pub fn engine_type(&self) -> (v: u8)
        ensures
            v == self@[20],
    {
        proof {
            use_type_invariant(self);
        }
        self.data[20]
    }

    /// Slot number of the flow-switching engine
    pub fn engine_id(&self) -> (v: u8)
        ensures
            v == self@[21],
    {
        proof {
            use_type_invariant(self);
        }
        self.data[21]
    }

    /// First two bits hold the sampling mode; remaining 14 bits hold value of sampling interval
    pub fn sampling(&self) -> (v: u16)
        ensures
            v as int == u16_at(self@, 22),
    {
        proof {
            use_type_invariant(self);
        }
        get_u16(self.data, 22)
    }
}

} // verus!
