//! A whole version 5 packet: the header and the records it counts.

use crate::v5::header::{parse_header, Header, HeaderView};
use crate::v5::record::{record_of, Record};
use crate::ErrorKind;
use vstd::prelude::*;
use vstd::slice::slice_subrange;

verus! {

/// A version 5 packet.
#[derive(Debug, PartialEq)]
pub struct FlowSet {
    header: Header,
    records: Vec<Record>,
}

/// The mathematical value of a [`FlowSet`].
pub ghost struct FlowSetView {
    pub header: HeaderView,
    pub records: Seq<Record>,
}

impl View for FlowSet {
    type V = FlowSetView;

    closed spec fn view(&self) -> FlowSetView {
        FlowSetView { header: self.header@, records: self.records@ }
    }
}

/// The first `n` records of the packet `s`: 48 bytes each, one after the
/// other, from byte 24 on.
pub open spec fn records_of(s: Seq<u8>, n: int) -> Seq<Record> {
    Seq::new(n as nat, |r: int| record_of(s.subrange(24 + 48 * r, 24 + 48 * (r + 1))))
}

/// What `s` says as a packet: its header, then as many records as the header
/// counts; fewer bytes than header and records take are too few.
pub open spec fn parse_flow_set(s: Seq<u8>) -> Result<FlowSetView, ErrorKind> {
    match parse_header(s) {
        Err(e) => Err(e),
        Ok(header) => if s.len() < 24 + header.count * 48 {
            Err(ErrorKind::NotEnoughData)
        } else {
            Ok(FlowSetView { header, records: records_of(s, header.count as int) })
        },
    }
}

impl FlowSet {
    /// Parse an entire netflow v5 packet
    pub fn parse(data: &[u8]) -> (r: Result<Self, ErrorKind>)
        ensures
            match r {
                Ok(set) => parse_flow_set(data@) == Ok::<FlowSetView, ErrorKind>(set@),
                Err(e) => parse_flow_set(data@) == Err::<FlowSetView, ErrorKind>(e),
            },
    {
        let header = Header::parse(data)?;
        let count = header.count() as usize;
        if data.len() < Header::LEN + count * Record::LEN {
            return Err(ErrorKind::NotEnoughData);
        }
        let mut records: Vec<Record> = Vec::with_capacity(count);
        let mut r: usize = 0;
        while r < count
            invariant
                r <= count,
                count == header@.count,
                24 + count * 48 <= data@.len(),
                parse_header(data@) == Ok::<HeaderView, ErrorKind>(header@),
                records@ == records_of(data@, r as int),
            decreases count - r,
        {
            let start = Header::LEN + Record::LEN * r;
            let end = Header::LEN + Record::LEN * (r + 1);
            let record = match Record::parse(slice_subrange(data, start, end)) {
                Ok(record) => record,
                Err(e) => { return Err(e); },
            };
            records.push(record);
            r = r + 1;
            assert(records@ =~= records_of(data@, r as int));
        }
        Ok(FlowSet { header, records })
    }

    /// Flow set's header
    pub fn header(&self) -> (h: &Header)
        ensures
            h@ == self@.header,
    {
        &self.header
    }

    /// Flow set's records
    pub fn records(&self) -> (records: &Vec<Record>)
        ensures
            records@ == self@.records,
    {
        &self.records
    }
}

} // verus!
