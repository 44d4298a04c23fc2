//! Internet addresses as they stand in flow records.

use vstd::prelude::*;

verus! {

/// An IPv4 address: its four bytes, first byte first.
#[derive(Clone, Copy, Debug, PartialEq, Eq)]
pub struct Ipv4Address(pub u8, pub u8, pub u8, pub u8);

/// The address that the four bytes at `at` of `s` spell.
pub open spec fn address_at(s: Seq<u8>, at: int) -> Ipv4Address {
    Ipv4Address(s[at], s[at + 1], s[at + 2], s[at + 3])
}

impl Ipv4Address {
    /// The address `a.b.c.d`.
    pub fn new(a: u8, b: u8, c: u8, d: u8) -> (r: Self)
        ensures
            r == Ipv4Address(a, b, c, d),
    {
        Ipv4Address(a, b, c, d)
    }

    /// The four bytes of the address, first byte first.
    pub fn octets(&self) -> (r: [u8; 4])
        ensures
            r@ == seq![self.0, self.1, self.2, self.3],
    {
        let r = [self.0, self.1, self.2, self.3];
        assert(r@ =~= seq![self.0, self.1, self.2, self.3]);
        r
    }

    /// Reads the address at offset `at` of `data`.
    pub fn read(data: &[u8], at: usize) -> (r: Self)
        requires
            at + 4 <= data.len(),
        ensures
            r == address_at(data@, at as int),
    {
        Ipv4Address(data[at], data[at + 1], data[at + 2], data[at + 3])
    }
}

} // verus!
