//! The 20-byte header that opens every version 9 packet.

use crate::wire::{get_u16, get_u32, u16_at, u32_at};
use crate::{short, Error, ErrorView};
use vstd::prelude::*;

verus! {

/// The metadata of one exported packet.
#[derive(Clone, Copy, Debug, PartialEq, Eq)]
pub struct Header {
    /// NetFlow export format version number
    pub version: u16,
    /// Number of flow sets that are exported in this packet, both template and data
    pub count: u16,
    /// Current time in milliseconds since the export device started
    pub sys_uptime_msecs: u32,
    /// Current time in seconds since 0000 Coordinated Universal Time 1970
    pub unix_secs: u32,
    /// Sequence counter of all exported packets sent by the export device
    pub sequence_number: u32,
    /// Packet source identifier
    pub source_id: u32,
}

/// The header of a packet, as against the header of a flow set.
pub type PacketHeader = Header;

/// What the first 20 bytes of `s` say as a header, or why they are none:
/// too few bytes first, a version other than 9 second.
pub open spec fn parse_header(s: Seq<u8>) -> Result<Header, ErrorView> {
    if s.len() < 20 {
        Err(short(20, s.len() as int))
    } else if u16_at(s, 0) != 9 {
        Err(ErrorView::InvalidVersion { expected: seq![9u16], actual: u16_at(s, 0) as u16 })
    } else {
        Ok(
            Header {
                version: 9,
                count: u16_at(s, 2) as u16,
                sys_uptime_msecs: u32_at(s, 4) as u32,
                unix_secs: u32_at(s, 8) as u32,
                sequence_number: u32_at(s, 12) as u32,
                source_id: u32_at(s, 16) as u32,
            },
        )
    }
}

impl Header {
    /// The number of bytes a header takes.
    pub const LEN: usize = 20;

    /// The version this header announces.
    pub const VERSION: u16 = 9;

    /// Parse a netflow v9 packet header
    pub fn from_bytes(data: &[u8]) -> (r: Result<Self, Error>)
        ensures
            match r {
                Ok(h) => parse_header(data@) == Ok::<Header, ErrorView>(h),
                Err(e) => parse_header(data@) == Err::<Header, ErrorView>(e@),
            },
    {
        if data.len() < Self::LEN {
            return Err(Error::NotEnoughData { expected: Self::LEN, actual: data.len() });
        }
        let version = get_u16(data, 0);
        if version != Self::VERSION {
            let expected = vec![Self::VERSION];
            assert(expected@ =~= seq![9u16]);
            return Err(Error::InvalidVersion { expected, actual: version });
        }
        Ok(
            Header {
                version: Self::VERSION,
                count: get_u16(data, 2),
                sys_uptime_msecs: get_u32(data, 4),
                unix_secs: get_u32(data, 8),
                sequence_number: get_u32(data, 12),
                source_id: get_u32(data, 16),
            },
        )
    }
}

} // verus!
