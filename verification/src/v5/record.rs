//! The 48-byte flow record of version 5.

use crate::address::{address_at, Ipv4Address};
use crate::wire::{get_u16, get_u32, u16_at, u32_at};
use crate::ErrorKind;
use vstd::prelude::*;

verus! {

/// A Netflow v5 record struct
#[derive(Clone, Copy, Debug, PartialEq, Eq)]
pub struct Record {
    /// Source IP address
    pub src_addr: Ipv4Address,
    /// Destination IP address
    pub dst_addr: Ipv4Address,
    /// IP address of next hop router
    pub next_hop: Ipv4Address,
    /// SNMP index of input interface
    pub in_iface: u16,
    /// SNMP index of output interface
    pub out_iface: u16,
    /// Packets in the flow
    pub packets: u32,
    /// Total number of Layer 3 bytes in the packets of the flow
    pub bytes: u32,
    /// SysUptime at start of flow
    pub first_sys_uptime: u32,
    /// SysUptime at the time the last packet of the flow was received
    pub last_sys_uptime: u32,
    /// TCP or UDP source port number or equivalient
    pub src_port: u16,
    /// TCP or UDP destination port number or equivalient
    pub dst_port: u16,
    /// Cumulative OR of TCP flags
    pub tcp_flags: u8,
    /// IP protocol type (for example, TCP = 6, UDP = 17, ...)
    pub proto: u8,
    /// IP type of service (ToS)
    pub tos: u8,
    /// Autonomous system number of the source, either origin or peer
    pub src_as: u16,
    /// Autonomous system number of the destination, either origin or peer
    pub dst_as: u16,
    /// Source address prefix mask bits
    pub src_mask: u8,
    /// Destination address prefix mask bits
    pub dst_mask: u8,
}

/// The record that the first 48 bytes of `s` spell. The bytes at offsets 36,
/// 46 and 47 are padding and not read.
pub open spec fn record_of(s: Seq<u8>) -> Record {
    Record {
        src_addr: address_at(s, 0),
        dst_addr: address_at(s, 4),
        next_hop: address_at(s, 8),
        in_iface: u16_at(s, 12) as u16,
        out_iface: u16_at(s, 14) as u16,
        packets: u32_at(s, 16) as u32,
        bytes: u32_at(s, 20) as u32,
        first_sys_uptime: u32_at(s, 24) as u32,
        last_sys_uptime: u32_at(s, 28) as u32,
        src_port: u16_at(s, 32) as u16,
        dst_port: u16_at(s, 34) as u16,
        tcp_flags: s[37],
        proto: s[38],
        tos: s[39],
        src_as: u16_at(s, 40) as u16,
        dst_as: u16_at(s, 42) as u16,
        src_mask: s[44],
        dst_mask: s[45],
    }
}

/// What the first 48 bytes of `s` say as a record, or that they are too few.
pub open spec fn parse_record(s: Seq<u8>) -> Result<Record, ErrorKind> {
    if s.len() < 48 {
        Err(ErrorKind::NotEnoughData)
    } else {
        Ok(record_of(s))
    }
}

impl Record {
    /// The number of bytes a record takes.
    pub const LEN: usize = 48;

    /// Parse a netflow v5 packet record
    pub fn parse(data: &[u8]) -> (r: Result<Self, ErrorKind>)
        ensures
            r == parse_record(data@),
    {
        if data.len() < Self::LEN {
            return Err(ErrorKind::NotEnoughData);
        }
        Ok(
            Record {
                src_addr: Ipv4Address::read(data, 0),
                dst_addr: Ipv4Address::read(data, 4),
                next_hop: Ipv4Address::read(data, 8),
                in_iface: get_u16(data, 12),
                out_iface: get_u16(data, 14),
                packets: get_u32(data, 16),
                bytes: get_u32(data, 20),
                first_sys_uptime: get_u32(data, 24),
                last_sys_uptime: get_u32(data, 28),
                src_port: get_u16(data, 32),
                dst_port: get_u16(data, 34),
                tcp_flags: data[37],
                proto: data[38],
                tos: data[39],
                src_as: get_u16(data, 40),
                dst_as: get_u16(data, 42),
                src_mask: data[44],
                dst_mask: data[45],
            },
        )
    }

    /// Source IP address
    pub fn source_addr(&self) -> (v: Ipv4Address)
        ensures
            v == self.src_addr,
    {
        self.src_addr
    }

    /// Destination IP address
    pub fn destination_addr(&self) -> (v: Ipv4Address)
        ensures
            v == self.dst_addr,
    {
        self.dst_addr
    }

    /// IP address of next hop router
    pub fn next_hop(&self) -> (v: Ipv4Address)
        ensures
            v == self.next_hop,
    {
        self.next_hop
    }

    /// SNMP index of input interface
    pub fn input_iface(&self) -> (v: u16)
        ensures
            v == self.in_iface,
    {
        self.in_iface
    }

    /// SNMP index of output interface
    pub fn output_iface(&self) -> (v: u16)
        ensures
            v == self.out_iface,
    {
        self.out_iface
    }

    /// Packets in the flow
    pub fn packets(&self) -> (v: u32)
        ensures
            v == self.packets,
    {
        self.packets
    }

    /// Total number of Layer 3 bytes in the packets of the flow
    pub fn bytes(&self) -> (v: u32)
        ensures
            v == self.bytes,
    {
        self.bytes
    }

    /// SysUptime at start of flow
    pub fn first_packet_sys_uptime(&self) -> (v: u32)
        ensures
            v == self.first_sys_uptime,
    {
        self.first_sys_uptime
    }

    /// SysUptime at the time the last packet of the flow was received
    pub fn last_packet_sys_uptime(&self) -> (v: u32)
        ensures
            v == self.last_sys_uptime,
    {
        self.last_sys_uptime
    }

    /// TCP or UDP source port number or equivalient
    pub fn source_port(&self) -> (v: u16)
        ensures
            v == self.src_port,
    {
        self.src_port
    }

    /// TCP or UDP destination port number or equivalient
    pub fn destination_port(&self) -> (v: u16)
        ensures
            v == self.dst_port,
    {
        self.dst_port
    }

    /// Cumulative OR of TCP flags
    pub fn tcp_flags(&self) -> (v: u8)
        ensures
            v == self.tcp_flags,
    {
        self.tcp_flags
    }

    /// IP protocol type (for example, TCP = 6, UDP = 17, ...)
    pub fn protocol(&self) -> (v: u8)
        ensures
            v == self.proto,
    {
        self.proto
    }

    /// IP type of service (ToS)
    pub fn type_of_service(&self) -> (v: u8)
        ensures
            v == self.tos,
    {
        self.tos
    }

    /// Autonomous system number of the source, either origin or peer
    pub fn source_as(&self) -> (v: u16)
        ensures
            v == self.src_as,
    {
        self.src_as
    }

    /// Autonomous system number of the destination, either origin or peer
    pub fn destination_as(&self) -> (v: u16)
        ensures
            v == self.dst_as,
    {
        self.dst_as
    }

    /// Source address prefix mask bits
    pub fn source_mask(&self) -> (v: u8)
        ensures
            v == self.src_mask,
    {
        self.src_mask
    }

    /// Destination address prefix mask bits
    pub fn destination_mask(&self) -> (v: u8)
        ensures
            v == self.dst_mask,
    {
        self.dst_mask
    }
}

} // verus!
