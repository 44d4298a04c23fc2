//! A whole version 7 packet: the header and the records it counts.

use crate::v7::header::{parse_header, Header};
use crate::v7::record::{record_of, Record};
use crate::{short, Error, ErrorView};
use vstd::prelude::*;
use vstd::slice::slice_subrange;

verus! {

/// A version 7 packet.
#[derive(Debug, PartialEq)]
pub struct FlowSet {
    /// Flow set's header
    pub header: Header,
    /// Flow set's records
    pub records: Vec<Record>,
}

/// The mathematical value of a [`FlowSet`].
pub ghost struct FlowSetView {
    pub header: Header,
    pub records: Seq<Record>,
}

impl View for FlowSet {
    type V = FlowSetView;

    open spec fn view(&self) -> FlowSetView {
        FlowSetView { header: self.header, records: self.records@ }
    }
}

/// The first `n` records of the packet `s`: 52 bytes each, one after the
/// other, from byte 24 on.
pub open spec fn records_of(s: Seq<u8>, n: int) -> Seq<Record> {
    Seq::new(n as nat, |r: int| record_of(s.subrange(24 + 52 * r, 24 + 52 * (r + 1))))
}

/// What `s` says as a packet: its header, then as many records as the header
/// counts; fewer bytes than header and records take are too few.
pub open spec fn parse_flow_set(s: Seq<u8>) -> Result<FlowSetView, ErrorView> {
    match parse_header(s) {
        Err(e) => Err(e),
        Ok(header) => if s.len() < 24 + header.count * 52 {
            Err(short(24 + header.count * 52, s.len() as int))
        } else {
            Ok(FlowSetView { header, records: records_of(s, header.count as int) })
        },
    }
}

impl FlowSet {
    /// Parse an entire netflow v7 packet
    pub fn from_bytes(data: &[u8]) -> (r: Result<Self, Error>)
        ensures
            match r {
                Ok(set) => parse_flow_set(data@) == Ok::<FlowSetView, ErrorView>(set@),
                Err(e) => parse_flow_set(data@) == Err::<FlowSetView, ErrorView>(e@),
            },
    {
        let header = Header::from_bytes(data)?;
        let count = header.count as usize;
        if data.len() < Header::LEN + count * Record::LEN {
            return Err(
                Error::NotEnoughData {
                    expected: Header::LEN + count * Record::LEN,
                    actual: data.len(),
                },
            );
        }
        let mut records: Vec<Record> = Vec::with_capacity(count);
        let mut r: usize = 0;
        while r < count
            invariant
                r <= count,
                count == header.count,
                24 + count * 52 <= data@.len(),
                parse_header(data@) == Ok::<Header, ErrorView>(header),
                records@ == records_of(data@, r as int),
            decreases count - r,
        {
            let start = Header::LEN + Record::LEN * r;
            let end = Header::LEN + Record::LEN * (r + 1);
            let record = match Record::from_bytes(slice_subrange(data, start, end)) {
                Ok(record) => record,
                Err(e) => { return Err(e); },
            };
            records.push(record);
            r = r + 1;
            assert(records@ =~= records_of(data@, r as int));
        }
        Ok(FlowSet { header, records })
    }
}

} // verus!
