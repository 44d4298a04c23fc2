//! The version 5 header as a plain record, split off the front of a packet.

use crate::cursor::ByteCursor;
use crate::wire::{u16_at, u32_at};
use crate::ErrorKind;
use vstd::prelude::*;
use vstd::slice::slice_subrange;

verus! {

/// The header of a version 5 packet, every field as it stood on the wire.
#[derive(Clone, Copy, Debug, PartialEq, Eq)]
pub struct PacketHeader {
    /// NetFlow export format version number
    pub version: u16,
    /// Number of flows that are exported in this packet (1-30)
    pub count: u16,
    /// Current time in milliseconds since the export device started
    pub sys_uptime_msecs: u32,
    /// Current time in seconds since 0000 Coordinated Universal Time 1970
    pub unix_secs: u32,
    /// Residual nanoseconds since 0000 Coordinated Universal Time 1970
    pub unix_nsecs: u32,
    /// Sequence counter of total flows seen
    pub sequence_number: u32,
    /// Type of flow-switching engine
    pub engine_type: u8,
    /// Slot number of the flow-switching engine
    pub engine_id: u8,
    /// First two bits hold the sampling mode; remaining 14 bits hold value of sampling interval
    pub sampling: u16,
}

/// The header that the first 24 bytes of `s` spell. The version is read like
/// any other field and not judged.
pub open spec fn header_of(s: Seq<u8>) -> PacketHeader {
    PacketHeader {
        version: u16_at(s, 0) as u16,
        count: u16_at(s, 2) as u16,
        sys_uptime_msecs: u32_at(s, 4) as u32,
        unix_secs: u32_at(s, 8) as u32,
        unix_nsecs: u32_at(s, 12) as u32,
        sequence_number: u32_at(s, 16) as u32,
        engine_type: s[20],
        engine_id: s[21],
        sampling: u16_at(s, 22) as u16,
    }
}

impl PacketHeader {
    /// The number of bytes a header takes.
    pub const LEN: usize = 24;

    /// Splits `data` into its header and the bytes after it.
    pub fn parse(data: &[u8]) -> (r: Result<(PacketHeader, &[u8]), ErrorKind>)
        ensures
            match r {
                Ok((header, rest)) => data@.len() >= 24 && header == header_of(data@) && rest@
                    == data@.subrange(24, data@.len() as int),
                Err(e) => data@.len() < 24 && e == ErrorKind::NotEnoughData,
            },
    {
        if data.len() < Self::LEN {
            return Err(ErrorKind::NotEnoughData);
        }
        let mut reader = ByteCursor::new(data);
        let version = Self::field(reader.read_u16())?;
        let count = Self::field(reader.read_u16())?;
        let sys_uptime_msecs = Self::field(reader.read_u32())?;
        let unix_secs = Self::field(reader.read_u32())?;
        let unix_nsecs = Self::field(reader.read_u32())?;
        let sequence_number = Self::field(reader.read_u32())?;
        let engine_type = Self::field(reader.read_u8())?;
        let engine_id = Self::field(reader.read_u8())?;
        let sampling = Self::field(reader.read_u16())?;
        Ok(
            (
                PacketHeader {
                    version,
                    count,
                    sys_uptime_msecs,
                    unix_secs,
                    unix_nsecs,
                    sequence_number,
                    engine_type,
                    engine_id,
                    sampling,
                },
                slice_subrange(data, Self::LEN, data.len()),
            ),
        )
    }

    /// A read as a field of the header: a read that failed ran out of data.
    fn field<T>(read: Result<T, crate::Error>) -> (r: Result<T, ErrorKind>)
        ensures
            match read {
                Ok(v) => r == Ok::<T, ErrorKind>(v),
                Err(_) => r == Err::<T, ErrorKind>(ErrorKind::NotEnoughData),
            },
    {
        match read {
            Ok(v) => Ok(v),
            Err(_) => Err(ErrorKind::NotEnoughData),
        }
    }
}

} // verus!
