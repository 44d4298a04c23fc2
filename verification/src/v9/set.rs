//! Flow sets: the length-framed chunks that a packet is made of.

use crate::v9::cache::TemplateCache;
use crate::v9::data::{decode_records, read_records, DataFieldView, DataRecord};
use crate::v9::template::{
    DefinitionView,
    parse_options_template, parse_template, OptionsTemplateDefinition, OptionsTemplateView,
    TemplateRecord, TemplateView,
};
use crate::wire::{get_u16, u16_at};
use crate::{after, lemma_after_after, lemma_after_nothing, short, Error, ErrorView};
use vstd::prelude::*;
use vstd::slice::slice_subrange;

verus! {

/// The framing of one flow set.
#[derive(Clone, Copy, Debug, PartialEq, Eq)]
pub struct FlowSetHeader {
    /// 0 for templates, 1 for options templates, from 256 on the id of the
    /// template that lays out the data.
    pub id: u16,
    /// The flow set's length in bytes, these four included.
    pub length: u16,
}

/// The flow-set header that `s` starts with.
pub open spec fn parse_flow_set_header(s: Seq<u8>) -> Result<FlowSetHeader, ErrorView> {
    if s.len() < 4 {
        Err(short(4, s.len() as int))
    } else {
        Ok(FlowSetHeader { id: u16_at(s, 0) as u16, length: u16_at(s, 2) as u16 })
    }
}

/// The header of the flow set that `s` starts with, where its length is one
/// that a flow set in `s` can have: at least the header's own four bytes and
/// at most all of `s`. Another length is short by itself against `s`.
pub open spec fn frame(s: Seq<u8>) -> Result<FlowSetHeader, ErrorView> {
    match parse_flow_set_header(s) {
        Err(e) => Err(e),
        Ok(h) => if h.length < 4 || h.length > s.len() {
            Err(short(h.length as int, s.len() as int))
        } else {
            Ok(h)
        },
    }
}

/// The body of the flow set with header `h` that `s` starts with.
pub open spec fn body_of(s: Seq<u8>, h: FlowSetHeader) -> Seq<u8> {
    s.subrange(4, h.length as int)
}

impl FlowSetHeader {
    /// The number of bytes a flow-set header takes.
    pub const LEN: usize = 4;

    /// Reads the header that `data` starts with. Whether its length fits is
    /// not judged here: see [`FlowSetHeader::frame`].
    pub fn from_bytes(data: &[u8]) -> (r: Result<Self, Error>)
        ensures
            match r {
                Ok(h) => parse_flow_set_header(data@) == Ok::<FlowSetHeader, ErrorView>(h),
                Err(e) => parse_flow_set_header(data@) == Err::<FlowSetHeader, ErrorView>(e@),
            },
    {
        if data.len() < Self::LEN {
            return Err(Error::NotEnoughData { expected: Self::LEN, actual: data.len() });
        }
        Ok(FlowSetHeader { id: get_u16(data, 0), length: get_u16(data, 2) })
    }

    /// Reads the header that `data` starts with and holds its length against
    /// the bytes at hand.
    pub fn frame(data: &[u8]) -> (r: Result<Self, Error>)
        ensures
            match r {
                Ok(h) => frame(data@) == Ok::<FlowSetHeader, ErrorView>(h),
                Err(e) => frame(data@) == Err::<FlowSetHeader, ErrorView>(e@),
            },
    {
        let h = Self::from_bytes(data)?;
        let length = h.length as usize;
        if length < Self::LEN || length > data.len() {
            return Err(Error::NotEnoughData { expected: length, actual: data.len() });
        }
        Ok(h)
    }
}

/// The template definitions that fill `s`: the one it starts with, and those
/// that follow back to back as long as at least the four bytes of an id and
/// a field count are left. Fewer bytes than that at the end are padding.
pub open spec fn parse_templates(s: Seq<u8>) -> Result<Seq<TemplateView>, ErrorView>
    decreases s.len(),
{
    match parse_template(s) {
        Err(e) => Err(e),
        Ok(t) => if s.len() - t.wire_len() < 4 {
            Ok(seq![t])
        } else {
            after(seq![t], parse_templates(s.subrange(t.wire_len(), s.len() as int)))
        },
    }
}

/// A flow set that announces templates.
#[derive(Clone, Debug, PartialEq)]
pub struct TemplateFlowSet {
    /// The flow set's id.
    pub id: u16,
    /// The flow set's length in bytes, header included.
    pub length: u16,
    /// The templates it defines, in wire order.
    pub records: Vec<TemplateRecord>,
}

/// The mathematical value of a [`TemplateFlowSet`].
pub ghost struct TemplateFlowSetView {
    pub id: u16,
    pub length: u16,
    pub records: Seq<TemplateView>,
}

impl View for TemplateFlowSet {
    type V = TemplateFlowSetView;

    open spec fn view(&self) -> TemplateFlowSetView {
        TemplateFlowSetView {
            id: self.id,
            length: self.length,
            records: self.records@.map_values(|t: TemplateRecord| t@),
        }
    }
}

/// The template flow set that `s` starts with: header and all.
pub open spec fn parse_template_flow_set(s: Seq<u8>) -> Result<TemplateFlowSetView, ErrorView> {
    match frame(s) {
        Err(e) => Err(e),
        Ok(h) => match parse_templates(body_of(s, h)) {
            Err(e) => Err(e),
            Ok(records) => Ok(TemplateFlowSetView { id: h.id, length: h.length, records }),
        },
    }
}

impl TemplateFlowSet {
    /// The least number of bytes a flow set takes: its header.
    pub const MIN_LEN: usize = 4;

    /// Parses the template flow set that `data` starts with, header included.
    /// It holds one template or several; bytes of `data` after the flow set's
    /// own length are not looked at.
    pub fn from_bytes(data: &[u8]) -> (r: Result<Self, Error>)
        ensures
            match r {
                Ok(set) => parse_template_flow_set(data@) == Ok::<TemplateFlowSetView, ErrorView>(
                    set@,
                ),
                Err(e) => parse_template_flow_set(data@) == Err::<TemplateFlowSetView, ErrorView>(
                    e@,
                ),
            },
    {
        let h = FlowSetHeader::frame(data)?;
        let body = slice_subrange(data, 4, h.length as usize);
        let mut records: Vec<TemplateRecord> = Vec::new();
        let mut pos: usize = 0;
        proof {
            assert(body@.subrange(0, body@.len() as int) =~= body@);
            lemma_after_nothing(parse_templates(body@));
        }
        loop
            invariant_except_break
                parse_templates(body@) == after(
                    records@.map_values(|t: TemplateRecord| t@),
                    parse_templates(body@.subrange(pos as int, body@.len() as int)),
                ),
            invariant
                pos <= body@.len(),
                body@ == body_of(data@, h),
                frame(data@) == Ok::<FlowSetHeader, ErrorView>(h),
            ensures
                parse_templates(body@) == Ok::<Seq<TemplateView>, ErrorView>(
                    records@.map_values(|t: TemplateRecord| t@),
                ),
            decreases body@.len() - pos,
        {
            let ghost rest = body@.subrange(pos as int, body@.len() as int);
            let ghost before = records@.map_values(|t: TemplateRecord| t@);
            let t = TemplateRecord::parse(slice_subrange(body, pos, body.len()))?;
            pos = pos + 4 + 4 * t.fields.len();
            records.push(t);
            proof {
                assert(records@.map_values(|t: TemplateRecord| t@) =~= before + seq![t@]);
                assert(rest.subrange(t@.wire_len(), rest.len() as int) =~= body@.subrange(
                    pos as int,
                    body@.len() as int,
                ));
                lemma_after_after(
                    before,
                    seq![t@],
                    parse_templates(body@.subrange(pos as int, body@.len() as int)),
                );
            }
            if body.len() - pos < 4 {
                break ;
            }
        }
        Ok(TemplateFlowSet { id: h.id, length: h.length, records })
    }
}

/// The options template definitions that fill `s`: the one it starts with,
/// and those that follow back to back as long as at least the six bytes of
/// an id and two budgets are left. Fewer bytes than that at the end are
/// padding.
pub open spec fn parse_options_templates(s: Seq<u8>) -> Result<
    Seq<OptionsTemplateView>,
    ErrorView,
>
    decreases s.len(),
{
    match parse_options_template(s) {
        Err(e) => Err(e),
        Ok(t) => if s.len() - t.wire_len() < 6 {
            Ok(seq![t])
        } else {
            after(seq![t], parse_options_templates(s.subrange(t.wire_len(), s.len() as int)))
        },
    }
}

/// A flow set that announces options templates.
#[derive(Clone, Debug, PartialEq)]
pub struct OptionFlowSet {
    /// The flow set's id.
    pub id: u16,
    /// The flow set's length in bytes, header included.
    pub length: u16,
    /// The options templates it defines, in wire order.
    pub records: Vec<OptionsTemplateDefinition>,
}

/// The mathematical value of an [`OptionFlowSet`].
pub ghost struct OptionFlowSetView {
    pub id: u16,
    pub length: u16,
    pub records: Seq<OptionsTemplateView>,
}

impl View for OptionFlowSet {
    type V = OptionFlowSetView;

    open spec fn view(&self) -> OptionFlowSetView {
        OptionFlowSetView {
            id: self.id,
            length: self.length,
            records: self.records@.map_values(|t: OptionsTemplateDefinition| t@),
        }
    }
}

/// The options-template flow set that `s` starts with: header and all.
pub open spec fn parse_option_flow_set(s: Seq<u8>) -> Result<OptionFlowSetView, ErrorView> {
    match frame(s) {
        Err(e) => Err(e),
        Ok(h) => match parse_options_templates(body_of(s, h)) {
            Err(e) => Err(e),
            Ok(records) => Ok(OptionFlowSetView { id: h.id, length: h.length, records }),
        },
    }
}

impl OptionFlowSet {
    /// The least number of bytes a flow set with one options template takes:
    /// its header, and the template's id and two budgets.
    pub const MIN_LEN: usize = 10;

    /// Parses the options-template flow set that `data` starts with, header
    /// included. It holds one options template or several; bytes of `data`
    /// after the flow set's own length are not looked at.
    pub fn from_bytes(data: &[u8]) -> (r: Result<Self, Error>)
        ensures
            match r {
                Ok(set) => parse_option_flow_set(data@) == Ok::<OptionFlowSetView, ErrorView>(
                    set@,
                ),
                Err(e) => parse_option_flow_set(data@) == Err::<OptionFlowSetView, ErrorView>(
                    e@,
                ),
            },
    {
        let h = FlowSetHeader::frame(data)?;
        let body = slice_subrange(data, 4, h.length as usize);
        let mut records: Vec<OptionsTemplateDefinition> = Vec::new();
        let mut pos: usize = 0;
        proof {
            assert(body@.subrange(0, body@.len() as int) =~= body@);
            lemma_after_nothing(parse_options_templates(body@));
        }
        loop
            invariant_except_break
                parse_options_templates(body@) == after(
                    records@.map_values(|t: OptionsTemplateDefinition| t@),
                    parse_options_templates(body@.subrange(pos as int, body@.len() as int)),
                ),
            invariant
                pos <= body@.len(),
                body@ == body_of(data@, h),
                frame(data@) == Ok::<FlowSetHeader, ErrorView>(h),
            ensures
                parse_options_templates(body@) == Ok::<Seq<OptionsTemplateView>, ErrorView>(
                    records@.map_values(|t: OptionsTemplateDefinition| t@),
                ),
            decreases body@.len() - pos,
        {
            let ghost rest = body@.subrange(pos as int, body@.len() as int);
            let ghost before = records@.map_values(|t: OptionsTemplateDefinition| t@);
            let t = OptionsTemplateDefinition::parse(slice_subrange(body, pos, body.len()))?;
            pos = pos + 6 + 4 * t.scope_fields.len() + 4 * t.option_fields.len();
            records.push(t);
            proof {
                assert(records@.map_values(|t: OptionsTemplateDefinition| t@) =~= before
                    + seq![t@]);
                assert(rest.subrange(t@.wire_len(), rest.len() as int) =~= body@.subrange(
                    pos as int,
                    body@.len() as int,
                ));
                lemma_after_after(
                    before,
                    seq![t@],
                    parse_options_templates(body@.subrange(pos as int, body@.len() as int)),
                );
            }
            if body.len() - pos < 6 {
                break ;
            }
        }
        Ok(OptionFlowSet { id: h.id, length: h.length, records })
    }
}

/// A flow set of data records, decoded by the template that its id cites, or
/// marked as unresolved where the session does not know that template.
#[derive(Clone, Debug, PartialEq)]
pub struct DataFlowSet {
    /// The flow set's id: the id of the template that lays out its records.
    pub id: u16,
    /// The flow set's length in bytes, header included.
    pub length: u16,
    /// The source id under which the template was looked up.
    pub source_id: u32,
    /// Whether the template was known. Where it was not, there are no records.
    pub resolved: bool,
    /// The decoded records, in wire order.
    pub records: Vec<DataRecord>,
}

/// The mathematical value of a [`DataFlowSet`].
pub ghost struct DataFlowSetView {
    pub id: u16,
    pub length: u16,
    pub source_id: u32,
    pub resolved: bool,
    pub records: Seq<Seq<DataFieldView>>,
}

impl View for DataFlowSet {
    type V = DataFlowSetView;

    open spec fn view(&self) -> DataFlowSetView {
        DataFlowSetView {
            id: self.id,
            length: self.length,
            source_id: self.source_id,
            resolved: self.resolved,
            records: self.records@.map_values(|d: DataRecord| d@),
        }
    }
}

/// The data flow set that `s` starts with, header and all, as a session
/// that knows the definitions in `cache` decodes it for the source
/// `source_id`. A template that the cache lacks is no error: the flow set
/// then comes out unresolved and without records.
pub open spec fn parse_data_flow_set(
    s: Seq<u8>,
    source_id: u32,
    cache: Map<(u32, u16), DefinitionView>,
) -> Result<DataFlowSetView, ErrorView> {
    match frame(s) {
        Err(e) => Err(e),
        Ok(h) => if !cache.contains_key((source_id, h.id)) {
            Ok(
                DataFlowSetView {
                    id: h.id,
                    length: h.length,
                    source_id,
                    resolved: false,
                    records: Seq::empty(),
                },
            )
        } else {
            match decode_records(body_of(s, h), 0, cache[(source_id, h.id)].layout()) {
                Err(e) => Err(e),
                Ok(records) => Ok(
                    DataFlowSetView {
                        id: h.id,
                        length: h.length,
                        source_id,
                        resolved: true,
                        records,
                    },
                ),
            }
        },
    }
}

impl DataFlowSet {
    /// The least number of bytes a flow set takes: its header.
    pub const MIN_LEN: usize = 4;

    /// Decodes the data flow set that `data` starts with, header included, by
    /// the definition that `cache` holds for `source_id` and the flow set's
    /// id. Bytes of `data` after the flow set's own length are not looked at.
    pub fn from_bytes(data: &[u8], source_id: u32, cache: &TemplateCache) -> (r: Result<
        Self,
        Error,
    >)
        ensures
            match r {
                Ok(set) => parse_data_flow_set(data@, source_id, cache@) == Ok::<
                    DataFlowSetView,
                    ErrorView,
                >(set@),
                Err(e) => parse_data_flow_set(data@, source_id, cache@) == Err::<
                    DataFlowSetView,
                    ErrorView,
                >(e@),
            },
    {
        let h = FlowSetHeader::frame(data)?;
        match cache.get(source_id, h.id) {
            None => {
                let set = DataFlowSet {
                    id: h.id,
                    length: h.length,
                    source_id,
                    resolved: false,
                    records: Vec::new(),
                };
                assert(set@.records =~= Seq::empty());
                Ok(set)
            },
            Some(definition) => {
                let layout = definition.layout();
                let body = slice_subrange(data, 4, h.length as usize);
                let records = read_records(body, &layout)?;
                Ok(DataFlowSet { id: h.id, length: h.length, source_id, resolved: true, records })
            },
        }
    }

    /// The condition that an unresolved flow set reports: the template that
    /// was missing, and for which source.
    pub fn unknown_template(&self) -> (r: Option<Error>)
        ensures
            match r {
                Some(e) => !self.resolved && e@ == (ErrorView::UnknownTemplate {
                    source_id: self.source_id,
                    template_id: self.id,
                }),
                None => self.resolved,
            },
    {
        if self.resolved {
            None
        } else {
            Some(Error::UnknownTemplate { source_id: self.source_id, template_id: self.id })
        }
    }
}

/// One flow set of a packet, by kind.
#[derive(Clone, Debug, PartialEq)]
pub enum FlowSet {
    Data(DataFlowSet),
    Option(OptionFlowSet),
    Template(TemplateFlowSet),
}

/// The mathematical value of a [`FlowSet`].
pub ghost enum FlowSetView {
    Data(DataFlowSetView),
    Option(OptionFlowSetView),
    Template(TemplateFlowSetView),
}

impl View for FlowSet {
    type V = FlowSetView;

    open spec fn view(&self) -> FlowSetView {
        match self {
            FlowSet::Data(d) => FlowSetView::Data(d@),
            FlowSet::Option(o) => FlowSetView::Option(o@),
            FlowSet::Template(t) => FlowSetView::Template(t@),
        }
    }
}

} // verus!
