//! The 24-byte header that opens every version 7 packet.

use crate::wire::{get_u16, get_u32, u16_at, u32_at};
use crate::{short, Error, ErrorView};
use vstd::prelude::*;

verus! {

/// Netflow v7 header struct
#[derive(Clone, Copy, Debug, PartialEq, Eq)]
pub struct Header {
    /// NetFlow export format version number
    pub version: u16,
    /// Number of flows that are exported in this packet (1-30)
    pub count: u16,
    /// Current time in milliseconds since the export device started
    pub sys_uptime_msecs: u32,
    /// Current time in seconds since 0000 Coordinated Universal Time 1970
    pub unix_secs: u32,
    /// Residual nanoseconds since 0000 Coordinated Universal Time 1970
    pub unix_nsecs: u32,
    /// Sequence counter of total flows seen
    pub sequence_number: u32,
}

/// What the first 24 bytes of `s` say as a header, or why they are none:
/// too few bytes first, a version other than 7 second. The last four bytes
/// are reserved and not read.
pub open spec fn parse_header(s: Seq<u8>) -> Result<Header, ErrorView> {
    if s.len() < 24 {
        Err(short(24, s.len() as int))
    } else if u16_at(s, 0) != 7 {
        Err(ErrorView::InvalidVersion { expected: seq![7u16], actual: u16_at(s, 0) as u16 })
    } else {
        Ok(
            Header {
                version: 7,
                count: u16_at(s, 2) as u16,
                sys_uptime_msecs: u32_at(s, 4) as u32,
                unix_secs: u32_at(s, 8) as u32,
                unix_nsecs: u32_at(s, 12) as u32,
                sequence_number: u32_at(s, 16) as u32,
            },
        )
    }
}

impl Header {
    /// The number of bytes a header takes.
    pub const LEN: usize = 24;

    /// The version this header announces.
    pub const VERSION: u16 = 7;

    /// Parse a netflow v7 packet header
    pub fn from_bytes(data: &[u8]) -> (r: Result<Self, Error>)
        ensures
            match r {
                Ok(h) => parse_header(data@) == Ok::<Header, ErrorView>(h),
                Err(e) => parse_header(data@) == Err::<Header, ErrorView>(e@),
            },
    {
        if data.len() < Self::LEN {
            return Err(Error::NotEnoughData { expected: Self::LEN, actual: data.len() });
        }
        let version = get_u16(data, 0);
        if version != Self::VERSION {
            let expected = vec![Self::VERSION];
            assert(expected@ =~= seq![7u16]);
            return Err(Error::InvalidVersion { expected, actual: version });
        }
        Ok(
            Header {
                version: Self::VERSION,
                count: get_u16(data, 2),
                sys_uptime_msecs: get_u32(data, 4),
                unix_secs: get_u32(data, 8),
                unix_nsecs: get_u32(data, 12),
                sequence_number: get_u32(data, 16),
            },
        )
    }
}

} // verus!
