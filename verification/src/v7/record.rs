//! The 52-byte flow record of version 7.

use crate::address::{address_at, Ipv4Address};
use crate::wire::{get_u16, get_u32, u16_at, u32_at};
use crate::{short, Error, ErrorView};
use vstd::prelude::*;

verus! {

/// Netflow v7 record struct
#[derive(Clone, Copy, Debug, PartialEq, Eq)]
pub struct Record {
    /// Source IP address
    pub source_addr: Ipv4Address,
    /// Destination IP address
    pub destination_addr: Ipv4Address,
    /// IP address of next hop router
    pub next_hop: Ipv4Address,
    /// SNMP index of input interface
    pub input_iface: u16,
    /// SNMP index of output interface
    pub output_iface: u16,
    /// Packets in the flow
    pub packets: u32,
    /// Total number of Layer 3 bytes in the packets of the flow
    pub bytes: u32,
    /// System uptime at start of flow
    pub first_sys_uptime: u32,
    /// System uptime at the time the last packet of the flow was received
    pub last_sys_uptime: u32,
    /// TCP or UDP source port number or equivalient
    pub source_port: u16,
    /// TCP or UDP destination port number or equivalient
    pub destination_port: u16,
    /// Cumulative OR of TCP flags
    pub tcp_flags: u8,
    /// IP protocol type (for example, TCP = 6, UDP = 17, ...)
    pub proto: u8,
    /// IP type of service (ToS)
    pub tos: u8,
    /// Autonomous system number of the source, either origin or peer
    pub source_as: u16,
    /// Autonomous system number of the destination, either origin or peer
    pub destination_as: u16,
    /// Source address prefix mask bits
    pub source_mask: u8,
    /// Destination address prefix mask bits
    pub destination_mask: u8,
    /// Flags indicating, among other things, what flows are invalid
    pub flags: u16,
    /// IP address of the router that is bypassed by the Catalyst 5000 series switch.
    pub source_router: Ipv4Address,
}

/// The record that the first 52 bytes of `s` spell. The byte at offset 36 is
/// padding and not read.
pub open spec fn record_of(s: Seq<u8>) -> Record {
    Record {
        source_addr: address_at(s, 0),
        destination_addr: address_at(s, 4),
        next_hop: address_at(s, 8),
        input_iface: u16_at(s, 12) as u16,
        output_iface: u16_at(s, 14) as u16,
        packets: u32_at(s, 16) as u32,
        bytes: u32_at(s, 20) as u32,
        first_sys_uptime: u32_at(s, 24) as u32,
        last_sys_uptime: u32_at(s, 28) as u32,
        source_port: u16_at(s, 32) as u16,
        destination_port: u16_at(s, 34) as u16,
        tcp_flags: s[37],
        proto: s[38],
        tos: s[39],
        source_as: u16_at(s, 40) as u16,
        destination_as: u16_at(s, 42) as u16,
        source_mask: s[44],
        destination_mask: s[45],
        flags: u16_at(s, 46) as u16,
        source_router: address_at(s, 48),
    }
}

/// What the first 52 bytes of `s` say as a record, or that they are too few.
pub open spec fn parse_record(s: Seq<u8>) -> Result<Record, ErrorView> {
    if s.len() < 52 {
        Err(short(52, s.len() as int))
    } else {
        Ok(record_of(s))
    }
}

impl Record {
    /// The number of bytes a record takes.
    pub const LEN: usize = 52;

    /// Parse a netflow v7 packet record
    pub fn from_bytes(data: &[u8]) -> (r: Result<Self, Error>)
        ensures
            match r {
                Ok(record) => parse_record(data@) == Ok::<Record, ErrorView>(record),
                Err(e) => parse_record(data@) == Err::<Record, ErrorView>(e@),
            },
    {
        if data.len() < Self::LEN {
            return Err(Error::NotEnoughData { expected: Self::LEN, actual: data.len() });
        }
        Ok(
            Record {
                source_addr: Ipv4Address::read(data, 0),
                destination_addr: Ipv4Address::read(data, 4),
                next_hop: Ipv4Address::read(data, 8),
                input_iface: get_u16(data, 12),
                output_iface: get_u16(data, 14),
                packets: get_u32(data, 16),
                bytes: get_u32(data, 20),
                first_sys_uptime: get_u32(data, 24),
                last_sys_uptime: get_u32(data, 28),
                source_port: get_u16(data, 32),
                destination_port: get_u16(data, 34),
                tcp_flags: data[37],
                proto: data[38],
                tos: data[39],
                source_as: get_u16(data, 40),
                destination_as: get_u16(data, 42),
                source_mask: data[44],
                destination_mask: data[45],
                flags: get_u16(data, 46),
                source_router: Ipv4Address::read(data, 48),
            },
        )
    }
}

} // verus!
