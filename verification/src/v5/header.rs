//! The 24-byte header that opens every version 5 packet.

use crate::wire::{get_u16, get_u32, u16_at, u32_at};
use crate::ErrorKind;
use vstd::prelude::*;

verus! {

/// A Netflow v5 header
#[derive(Clone, Copy, Debug, PartialEq, Eq)]
pub struct Header {
    sys_uptime_msecs: u32,
    unix_secs: u32,
    unix_nsecs: u32,
    sequence_number: u32,
    engine_type: u8,
    engine_id: u8,
    sampling: u16,
    count: u16,
}

/// The fields of a version 5 header.
pub ghost struct HeaderView {
    pub count: u16,
    pub sys_uptime_msecs: u32,
    pub unix_secs: u32,
    pub unix_nsecs: u32,
    pub sequence_number: u32,
    pub engine_type: u8,
    pub engine_id: u8,
    pub sampling: u16,
}

impl View for Header {
    type V = HeaderView;

    closed spec fn view(&self) -> HeaderView {
        HeaderView {
            count: self.count,
            sys_uptime_msecs: self.sys_uptime_msecs,
            unix_secs: self.unix_secs,
            unix_nsecs: self.unix_nsecs,
            sequence_number: self.sequence_number,
            engine_type: self.engine_type,
            engine_id: self.engine_id,
            sampling: self.sampling,
        }
    }
}

/// What the first 24 bytes of `s` say as a header, or why they are none:
/// too few bytes first, a version other than 5 second.
pub open spec fn parse_header(s: Seq<u8>) -> Result<HeaderView, ErrorKind> {
    if s.len() < 24 {
        Err(ErrorKind::NotEnoughData)
    } else if u16_at(s, 0) != 5 {
        Err(ErrorKind::InvalidVersion)
    } else {
        Ok(
            HeaderView {
                count: u16_at(s, 2) as u16,
                sys_uptime_msecs: u32_at(s, 4) as u32,
                unix_secs: u32_at(s, 8) as u32,
                unix_nsecs: u32_at(s, 12) as u32,
                sequence_number: u32_at(s, 16) as u32,
                engine_type: s[20],
                engine_id: s[21],
                sampling: u16_at(s, 22) as u16,
            },
        )
    }
}

impl Header {
    /// The number of bytes a header takes.
    pub const LEN: usize = 24;

    /// The version this header announces.
    pub const VERSION: u16 = 5;

    /// Parse a netflow v5 packet header
    pub fn parse(data: &[u8]) -> (r: Result<Self, ErrorKind>)
        ensures
            match r {
                Ok(h) => parse_header(data@) == Ok::<HeaderView, ErrorKind>(h@),
                Err(e) => parse_header(data@) == Err::<HeaderView, ErrorKind>(e),
            },
    {
        if data.len() < Self::LEN {
            return Err(ErrorKind::NotEnoughData);
        }
        if get_u16(data, 0) != Self::VERSION {
            return Err(ErrorKind::InvalidVersion);
        }
        Ok(
            Header {
                count: get_u16(data, 2),
                sys_uptime_msecs: get_u32(data, 4),
                unix_secs: get_u32(data, 8),
                unix_nsecs: get_u32(data, 12),
                sequence_number: get_u32(data, 16),
                engine_type: data[20],
                engine_id: data[21],
                sampling: get_u16(data, 22),
            },
        )
    }

    /// NetFlow export format version number
    pub fn version(&self) -> (v: u16)
        ensures
            v == 5,
    {
        Self::VERSION
    }

    /// Number of flows that are exported in this packet (1-30)
    pub fn count(&self) -> (v: u16)
        ensures
            v == self@.count,
    {
        self.count
    }

    /// Current time in milliseconds since the export device started
    pub fn sys_uptime_msecs(&self) -> (v: u32)
        ensures
            v == self@.sys_uptime_msecs,
    {
        self.sys_uptime_msecs
    }

    /// Current time in seconds since 0000 Coordinated Universal Time 1970
    pub fn unix_secs(&self) -> (v: u32)
        ensures
            v == self@.unix_secs,
    {
        self.unix_secs
    }

    /// Residual nanoseconds since 0000 Coordinated Universal Time 1970
    pub fn unix_nsecs(&self) -> (v: u32)
        ensures
            v == self@.unix_nsecs,
    {
        self.unix_nsecs
    }

    /// Sequence counter of total flows seen
    pub fn sequence_number(&self) -> (v: u32)
        ensures
            v == self@.sequence_number,
    {
        self.sequence_number
    }

    /// Type of flow-switching engine
    pub fn engine_type(&self) -> (v: u8)
        ensures
            v == self@.engine_type,
    {
        self.engine_type
    }

    /// Slot number of the flow-switching engine
    pub fn engine_id(&self) -> (v: u8)
        ensures
            v == self@.engine_id,
    {
        self.engine_id
    }

    /// First two bits hold the sampling mode; remaining 14 bits hold value of sampling interval
    pub fn sampling(&self) -> (v: u16)
        ensures
            v == self@.sampling,
    {
        self.sampling
    }
}

} // verus!
