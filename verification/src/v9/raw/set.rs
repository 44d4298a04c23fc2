//! Flow sets told apart by their id, read in place.

use crate::v9::raw::setheader::SetHeader;
use crate::wire::u16_at;
use crate::ErrorKind;
use vstd::prelude::*;

verus! {

/// A flow set of one of the three kinds.
#[derive(Debug, PartialEq)]
pub enum RawSet<'a> {
    Data(DataFlowSet<'a>),
    Template(TemplateFlowSet<'a>),
    Options(OptionsTemplate<'a>),
}

/// What taking `s` as a flow set gives, where a flow set of the kind asked
/// for has the ids that `accepts` admits: too few bytes for a header first,
/// an id of another kind second.
pub open spec fn taken_as(s: Seq<u8>, accepts: spec_fn(int) -> bool) -> Result<Seq<u8>, ErrorKind> {
    if s.len() < 4 {
        Err(ErrorKind::NotEnoughData)
    } else if !accepts(u16_at(s, 0)) {
        Err(ErrorKind::InvalidFlowSetId)
    } else {
        Ok(s)
    }
}

/// A flow set of data records: its id is above 255.
#[derive(Debug, PartialEq)]
pub struct DataFlowSet<'a> {
    data: &'a [u8],
}

impl<'a> View for DataFlowSet<'a> {
    type V = Seq<u8>;

    /// The bytes that the flow set was made of.
    closed spec fn view(&self) -> Seq<u8> {
        self.data@
    }
}

impl<'a> DataFlowSet<'a> {
    /// The bytes of the flow set, header included.
    pub fn bytes(&self) -> (b: &'a [u8])
        ensures
            b@ == self@,
    {
        self.data
    }

    #[verifier::type_invariant]
    spec fn well_formed(self) -> bool {
        self.data@.len() >= 4 && u16_at(self.data@, 0) > 255
    }

    /// Takes `data` as a data flow set.
    pub fn new(data: &'a [u8]) -> (r: Result<Self, ErrorKind>)
        ensures
            match r {
                Ok(set) => taken_as(data@, |id: int| id > 255) == Ok::<Seq<u8>, ErrorKind>(set@),
                Err(e) => taken_as(data@, |id: int| id > 255) == Err::<Seq<u8>, ErrorKind>(e),
            },
    {
        let header = SetHeader::new(data)?;
        if header.flowset_id() <= 255 {
            return Err(ErrorKind::InvalidFlowSetId);
        }
        Ok(DataFlowSet { data })
    }
}

/// A flow set of templates: its id is 0.
#[derive(Debug, PartialEq)]
pub struct TemplateFlowSet<'a> {
    data: &'a [u8],
}

impl<'a> View for TemplateFlowSet<'a> {
    type V = Seq<u8>;

    /// The bytes that the flow set was made of.
    closed spec fn view(&self) -> Seq<u8> {
        self.data@
    }
}

impl<'a> TemplateFlowSet<'a> {
    /// The bytes of the flow set, header included.
    pub fn bytes(&self) -> (b: &'a [u8])
        ensures
            b@ == self@,
    {
        self.data
    }

    #[verifier::type_invariant]
    spec fn well_formed(self) -> bool {
        self.data@.len() >= 4 && u16_at(self.data@, 0) == 0
    }

    /// Takes `data` as a template flow set.
    pub fn new(data: &'a [u8]) -> (r: Result<Self, ErrorKind>)
        ensures
            match r {
                Ok(set) => taken_as(data@, |id: int| id == 0) == Ok::<Seq<u8>, ErrorKind>(set@),
                Err(e) => taken_as(data@, |id: int| id == 0) == Err::<Seq<u8>, ErrorKind>(e),
            },
    {
        let header = SetHeader::new(data)?;
        if header.flowset_id() != 0 {
            return Err(ErrorKind::InvalidFlowSetId);
        }
        Ok(TemplateFlowSet { data })
    }
}

/// A flow set of options templates: its id is 1.
#[derive(Debug, PartialEq)]
pub struct OptionsTemplate<'a> {
    data: &'a [u8],
}

impl<'a> View for OptionsTemplate<'a> {
    type V = Seq<u8>;

    /// The bytes that the flow set was made of.
    closed spec fn view(&self) -> Seq<u8> {
        self.data@
    }
}

impl<'a> OptionsTemplate<'a> {
    /// The bytes of the flow set, header included.
    pub fn bytes(&self) -> (b: &'a [u8])
        ensures
            b@ == self@,
    {
        self.data
    }

    #[verifier::type_invariant]
    spec fn well_formed(self) -> bool {
        self.data@.len() >= 4 && u16_at(self.data@, 0) == 1
    }

    /// Takes `data` as an options-template flow set.
    pub fn new(data: &'a [u8]) -> (r: Result<Self, ErrorKind>)
        ensures
            match r {
                Ok(set) => taken_as(data@, |id: int| id == 1) == Ok::<Seq<u8>, ErrorKind>(set@),
                Err(e) => taken_as(data@, |id: int| id == 1) == Err::<Seq<u8>, ErrorKind>(e),
            },
    {
        let header = SetHeader::new(data)?;
        if header.flowset_id() != 1 {
            return Err(ErrorKind::InvalidFlowSetId);
        }
        Ok(OptionsTemplate { data })
    }
}

} // verus!
