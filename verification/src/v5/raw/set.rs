//! A whole packet, read in place: the header and the records that are there.

use crate::v5::raw::header::Header;
use crate::v5::raw::record::Record;
use crate::wire::{get_u16, u16_at};
use crate::ErrorKind;
use vstd::prelude::*;
use vstd::slice::slice_subrange;

verus! {

/// A version 5 packet, taken as it is: only the room for a header is asked for.
#[derive(Debug, PartialEq)]
pub struct FlowSet<'a> {
    pub(crate) data: &'a [u8],
}

impl<'a> View for FlowSet<'a> {
    type V = Seq<u8>;

    /// The bytes that the packet was made of.
    closed spec fn view(&self) -> Seq<u8> {
        self.data@
    }
}

/// How many records the packet `s` yields: as many as its header counts,
/// unless the bytes after the header hold fewer whole records than that.
pub open spec fn record_count(s: Seq<u8>) -> int {
    if u16_at(s, 2) <= (s.len() - 24) / 48 {
        u16_at(s, 2)
    } else {
        (s.len() - 24) / 48
    }
}

/// The bytes of record number `i` of the packet `s`.
pub open spec fn record_bytes(s: Seq<u8>, i: int) -> Seq<u8> {
    s.subrange(24 + 48 * i, 24 + 48 * (i + 1))
}

impl<'a> FlowSet<'a> {
    #[verifier::type_invariant]
    spec fn well_formed(self) -> bool {
        self.data@.len() >= 24
    }

    /// Takes `data` as a packet where it is long enough for a header.
    pub fn new(data: &'a [u8]) -> (r: Result<Self, ErrorKind>)
        ensures
            match r {
                Ok(set) => data@.len() >= 24 && set@ == data@,
                Err(e) => data@.len() < 24 && e == ErrorKind::NotEnoughData,
            },
    {
        if data.len() < Header::LEN {
            return Err(ErrorKind::NotEnoughData);
        }
        Ok(FlowSet { data })
    }

    /// The packet's header.
    pub fn header(&self) -> (h: Header<'a>)
        ensures
            h@ == self@,
    {
        proof {
            use_type_invariant(self);
        }
        Header::over(self.data)
    }

    /// The packet's records, to be asked for one after the other.
    pub fn records(&self) -> (it: RecordIterator<'a>)
        ensures
            it.bytes() == self@,
            it.position() == 0,
            it.count() == record_count(self@),
    {
        proof {
            use_type_invariant(self);
        }
        let announced = get_u16(self.data, 2) as usize;
        let room = (self.data.len() - Header::LEN) / Record::LEN;
        let count = if announced <= room {
            announced
        } else {
            room
        };
        RecordIterator { data: self.data, pos: 0, count }
    }
}

/// A walk over the records of a packet.
pub struct RecordIterator<'a> {
    data: &'a [u8],
    pos: usize,
    count: usize,
}

impl<'a> RecordIterator<'a> {
    #[verifier::type_invariant]
    spec fn well_formed(self) -> bool {
        self.pos <= self.count && 24 + 48 * self.count <= self.data@.len()
    }

    /// The bytes of the packet that is walked over.
    pub closed spec fn bytes(&self) -> Seq<u8> {
        self.data@
    }

    /// How many records have been handed out.
    pub closed spec fn position(&self) -> int {
        self.pos as int
    }

    /// How many records the walk hands out in all.
    pub closed spec fn count(&self) -> int {
        self.count as int
    }

    /// The next record, until all have been handed out.
    pub fn next(&mut self) -> (r: Option<Record<'a>>)
        ensures
            final(self).bytes() == old(self).bytes(),
            final(self).count() == old(self).count(),
            match r {
                Some(record) => old(self).position() < old(self).count() && record@
                    == record_bytes(old(self).bytes(), old(self).position())
                    && final(self).position() == old(self).position() + 1,
                None => old(self).position() == old(self).count() && final(self).position()
                    == old(self).position(),
            },
    {
        proof {
            use_type_invariant(&*self);
        }
        if self.pos == self.count {
            return None;
        }
        assert(24 + 48 * self.pos + 48 <= self.data.len());
        let start = Header::LEN + Record::LEN * self.pos;
        let data = slice_subrange(self.data, start, start + Record::LEN);
        self.pos = self.pos + 1;
        match Record::new(data) {
            Ok(record) => Some(record),
            Err(_) => None,
        }
    }

    /// How many records are still to come: the same number as the least and
    /// as the most.
    pub fn size_hint(&self) -> (r: (usize, Option<usize>))
        ensures
            r.0 == self.count() - self.position(),
            r.1 == Some(r.0),
    {
        proof {
            use_type_invariant(self);
        }
        let remainder = self.count - self.pos;
        (remainder, Some(remainder))
    }
}

} // verus!
