//! A flow record, read in place.

use crate::address::{address_at, Ipv4Address};
use crate::wire::{get_u16, get_u32, u16_at, u32_at};
use crate::ErrorKind;
use vstd::prelude::*;

verus! {

/// A Netflow v5 record helper struct
#[derive(Debug, PartialEq)]
pub struct Record<'a> {
    pub(crate) data: &'a [u8],
}

impl<'a> View for Record<'a> {
    type V = Seq<u8>;

    /// The bytes that the record was made of.
    closed spec fn view(&self) -> Seq<u8> {
        self.data@
    }
}

impl<'a> Record<'a> {
    /// The number of bytes a record takes.
    pub const LEN: usize = 48;

    #[verifier::type_invariant]
    spec fn well_formed(self) -> bool {
        self.data@.len() >= 48
    }

    /// Takes `data` as a record where it is long enough for one.
    pub fn new(data: &'a [u8]) -> (r: Result<Self, ErrorKind>)
        ensures
            match r {
                Ok(record) => data@.len() >= 48 && record@ == data@,
                Err(e) => data@.len() < 48 && e == ErrorKind::NotEnoughData,
            },
    {
        if data.len() < Self::LEN {
            return Err(ErrorKind::NotEnoughData);
        }
        Ok(Record { data })
    }

    /// Source IP address
    pub fn source_addr(&self) -> (v: Ipv4Address)
        ensures
            v == address_at(self@, 0),
    {
        proof {
            use_type_invariant(self);
        }
        Ipv4Address::read(self.data, 0)
    }

    /// Destination IP address
    pub fn destination_addr(&self) -> (v: Ipv4Address)
        ensures
            v == address_at(self@, 4),
    {
        proof {
            use_type_invariant(self);
        }
        Ipv4Address::read(self.data, 4)
    }

    /// IP address of next hop router
    pub fn next_hop(&self) -> (v: Ipv4Address)
        ensures
            v == address_at(self@, 8),
    {
        proof {
            use_type_invariant(self);
        }
        Ipv4Address::read(self.data, 8)
    }

    /// SNMP index of input interface
    pub fn input(&self) -> (v: u16)
        ensures
            v as int == u16_at(self@, 12),
    {
        proof {
            use_type_invariant(self);
        }
        get_u16(self.data, 12)
    }

    /// SNMP index of output interface
    pub fn output(&self) -> (v: u16)
        ensures
            v as int == u16_at(self@, 14),
    {
        proof {
            use_type_invariant(self);
        }
        get_u16(self.data, 14)
    }

    /// Packets in the flow
    pub fn packets(&self) -> (v: u32)
        ensures
            v as int == u32_at(self@, 16),
    {
        proof {
            use_type_invariant(self);
        }
        get_u32(self.data, 16)
    }

    /// Total number of Layer 3 bytes in the packets of the flow
    pub fn bytes(&self) -> (v: u32)
        ensures
            v as int == u32_at(self@, 20),
    {
        proof {
            use_type_invariant(self);
        }
        get_u32(self.data, 20)
    }

    /// SysUptime at start of flow
    pub fn first_packet_sys_uptime(&self) -> (v: u32)
        ensures
            v as int == u32_at(self@, 24),
    {
        proof {
            use_type_invariant(self);
        }
        get_u32(self.data, 24)
    }

    /// SysUptime at the time the last packet of the flow was received
    pub fn last_packet_sys_uptime(&self) -> (v: u32)
        ensures
            v as int == u32_at(self@, 28),
    {
        proof {
            use_type_invariant(self);
        }
        get_u32(self.data, 28)
    }

    /// TCP or UDP source port number or equivalient
    pub fn source_port(&self) -> (v: u16)
        ensures
            v as int == u16_at(self@, 32),
    {
        proof {
            use_type_invariant(self);
        }
        get_u16(self.data, 32)
    }

    /// TCP or UDP destination port number or equivalient
    pub fn destination_port(&self) -> (v: u16)
        ensures
            v as int == u16_at(self@, 34),
    {
        proof {
            use_type_invariant(self);
        }
        get_u16(self.data, 34)
    }

    /// Cumulative OR of TCP flags
    pub fn tcp_flags(&self) -> (v: u8)
        ensures
            v == self@[37],
    {
        proof {
            use_type_invariant(self);
        }
        self.data[37]
    }

    /// IP protocol type (for example, TCP = 6, UDP = 17, ...)
    pub fn protocol(&self) -> (v: u8)
        ensures
            v == self@[38],
    {
        proof {
            use_type_invariant(self);
        }
        self.data[38]
    }

    /// IP type of service (ToS)
    pub fn type_of_service(&self) -> (v: u8)
        ensures
            v == self@[39],
    {
        proof {
            use_type_invariant(self);
        }
        self.data[39]
    }

    /// Autonomous system number of the source, either origin or peer
    pub fn source_as(&self) -> (v: u16)
        ensures
            v as int == u16_at(self@, 40),
    {
        proof {
            use_type_invariant(self);
        }
        get_u16(self.data, 40)
    }

    /// Autonomous system number of the destination, either origin or peer
    pub fn destination_as(&self) -> (v: u16)
        ensures
            v as int == u16_at(self@, 42),
    {
        proof {
            use_type_invariant(self);
        }
        get_u16(self.data, 42)
    }

    /// Source address prefix mask bits
    pub fn source_mask(&self) -> (v: u8)
        ensures
            v == self@[44],
    {
        proof {
            use_type_invariant(self);
        }
        self.data[44]
    }

    /// Destination address prefix mask bits
    pub fn destination_mask(&self) -> (v: u8)
        ensures
            v == self@[45],
    {
        proof {
            use_type_invariant(self);
        }
        self.data[45]
    }
}

} // verus!
