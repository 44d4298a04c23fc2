//! Whole packets: the header, then flow set after flow set, each decoded
//! with what the session's template cache knows at that point.

use crate::v9::cache::TemplateCache;
use crate::v9::header::{parse_header, Header};
use crate::v9::set::{
    parse_data_flow_set, parse_flow_set_header, parse_option_flow_set, parse_template_flow_set,
    DataFlowSet, FlowSet, FlowSetHeader, FlowSetView, OptionFlowSet, TemplateFlowSet,
};
use crate::v9::template::{
    Definition, DefinitionView, OptionsTemplateDefinition, OptionsTemplateView, TemplateRecord,
    TemplateView,
};
use crate::{after, lemma_after_after, lemma_after_nothing, Error, ErrorView};
use vstd::prelude::*;
use vstd::slice::slice_subrange;

verus! {

/// What a session's cache maps: (source id, template id) to definition.
pub type Schemas = Map<(u32, u16), DefinitionView>;

/// What a decoding step leaves behind: the cache as it then stands, and what
/// was decoded or why nothing was.
pub ghost struct Outcome<T> {
    pub cache: Schemas,
    pub result: Result<T, ErrorView>,
}

/// `cache` after the templates `ts` were stored for `source_id`, one after
/// the other: where two have the same id, the later one stays.
pub open spec fn put_templates(cache: Schemas, source_id: u32, ts: Seq<TemplateView>) -> Schemas
    decreases ts.len(),
{
    if ts.len() == 0 {
        cache
    } else {
        put_templates(cache, source_id, ts.drop_last()).insert(
            (source_id, ts.last().id),
            DefinitionView::Template(ts.last()),
        )
    }
}

/// `cache` after the options templates `ts` were stored for `source_id`, one
/// after the other: where two have the same id, the later one stays.
pub open spec fn put_options_templates(
    cache: Schemas,
    source_id: u32,
    ts: Seq<OptionsTemplateView>,
) -> Schemas
    decreases ts.len(),
{
    if ts.len() == 0 {
        cache
    } else {
        put_options_templates(cache, source_id, ts.drop_last()).insert(
            (source_id, ts.last().id),
            DefinitionView::Options(ts.last()),
        )
    }
}

impl FlowSetView {
    /// The flow set's length in bytes, header included.
    pub open spec fn length(self) -> int {
        match self {
            FlowSetView::Data(d) => d.length as int,
            FlowSetView::Option(o) => o.length as int,
            FlowSetView::Template(t) => t.length as int,
        }
    }
}

/// The flow set that `s` starts with, as a session with `cache` decodes it
/// for the source `source_id`, and the cache after it.
///
/// The id decides the kind: 1 announces options templates, any other id
/// below 256 templates, and an id from 256 on is that of the template by
/// which the flow set's data is laid out. Definitions are stored only where
/// the whole flow set was well-formed; data changes nothing in the cache.
pub open spec fn decode_flow_set(s: Seq<u8>, source_id: u32, cache: Schemas) -> Outcome<
    FlowSetView,
> {
    match parse_flow_set_header(s) {
        Err(e) => Outcome { cache, result: Err(e) },
        Ok(h) => if h.id == 1 {
            match parse_option_flow_set(s) {
                Err(e) => Outcome { cache, result: Err(e) },
                Ok(set) => Outcome {
                    cache: put_options_templates(cache, source_id, set.records),
                    result: Ok(FlowSetView::Option(set)),
                },
            }
        } else if h.id < 256 {
            match parse_template_flow_set(s) {
                Err(e) => Outcome { cache, result: Err(e) },
                Ok(set) => Outcome {
                    cache: put_templates(cache, source_id, set.records),
                    result: Ok(FlowSetView::Template(set)),
                },
            }
        } else {
            match parse_data_flow_set(s, source_id, cache) {
                Err(e) => Outcome { cache, result: Err(e) },
                Ok(set) => Outcome { cache, result: Ok(FlowSetView::Data(set)) },
            }
        },
    }
}

fn store_templates(cache: &mut TemplateCache, source_id: u32, records: &Vec<TemplateRecord>)
    ensures
        final(cache)@ == put_templates(
            old(cache)@,
            source_id,
            records@.map_values(|t: TemplateRecord| t@),
        ),
{
    let ghost all = records@.map_values(|t: TemplateRecord| t@);
    let mut i: usize = 0;
    while i < records.len()
        invariant
            i <= records.len(),
            all == records@.map_values(|t: TemplateRecord| t@),
            cache@ == put_templates(old(cache)@, source_id, all.take(i as int)),
        decreases records.len() - i,
    {
        let t = records[i].clone();
        cache.put(source_id, t.id, Definition::Template(t));
        i = i + 1;
        assert(all.take(i as int).drop_last() =~= all.take(i - 1));
    }
    assert(all.take(i as int) =~= all);
}

fn store_options_templates(
    cache: &mut TemplateCache,
    source_id: u32,
    records: &Vec<OptionsTemplateDefinition>,
)
    ensures
        final(cache)@ == put_options_templates(
            old(cache)@,
            source_id,
            records@.map_values(|t: OptionsTemplateDefinition| t@),
        ),
{
    let ghost all = records@.map_values(|t: OptionsTemplateDefinition| t@);
    let mut i: usize = 0;
    while i < records.len()
        invariant
            i <= records.len(),
            all == records@.map_values(|t: OptionsTemplateDefinition| t@),
            cache@ == put_options_templates(old(cache)@, source_id, all.take(i as int)),
        decreases records.len() - i,
    {
        let t = records[i].clone();
        cache.put(source_id, t.id, Definition::Options(t));
        i = i + 1;
        assert(all.take(i as int).drop_last() =~= all.take(i - 1));
    }
    assert(all.take(i as int) =~= all);
}

impl FlowSet {
    /// Decodes the flow set that `data` starts with, header included, for
    /// the source `source_id`: definitions go into `cache`, data is decoded
    /// by what `cache` holds.
    pub fn from_bytes(data: &[u8], source_id: u32, cache: &mut TemplateCache) -> (r: Result<
        Self,
        Error,
    >)
        ensures
            final(cache)@ == decode_flow_set(data@, source_id, old(cache)@).cache,
            match r {
                Ok(set) => decode_flow_set(data@, source_id, old(cache)@).result == Ok::<
                    FlowSetView,
                    ErrorView,
                >(set@),
                Err(e) => decode_flow_set(data@, source_id, old(cache)@).result == Err::<
                    FlowSetView,
                    ErrorView,
                >(e@),
            },
    {
        let h = FlowSetHeader::from_bytes(data)?;
        if h.id == 1 {
            let set = OptionFlowSet::from_bytes(data)?;
            store_options_templates(cache, source_id, &set.records);
            Ok(FlowSet::Option(set))
        } else if h.id < 256 {
            let set = TemplateFlowSet::from_bytes(data)?;
            store_templates(cache, source_id, &set.records);
            Ok(FlowSet::Template(set))
        } else {
            let set = DataFlowSet::from_bytes(data, source_id, &*cache)?;
            Ok(FlowSet::Data(set))
        }
    }

    /// The flow set's length in bytes, header included.
    pub fn length(&self) -> (n: u16)
        ensures
            n == self@.length(),
    {
        match self {
            FlowSet::Data(d) => d.length,
            FlowSet::Option(o) => o.length,
            FlowSet::Template(t) => t.length,
        }
    }
}

/// The flow sets of a packet from offset `at` of `s` on, at most `count` of
/// them, and the cache after them.
///
/// Each flow set is decoded with the cache as the flow sets before it left
/// it, and the next one starts where its length says. No bytes left before
/// `count` is reached ends the packet without error. A flow set that fails
/// fails the packet; what the flow sets before it stored stays stored.
pub open spec fn decode_flow_sets(
    s: Seq<u8>,
    at: int,
    count: int,
    source_id: u32,
    cache: Schemas,
) -> Outcome<Seq<FlowSetView>>
    decreases count,
{
    if count <= 0 || at < 0 || at >= s.len() {
        Outcome { cache, result: Ok(Seq::empty()) }
    } else {
        let step = decode_flow_set(s.subrange(at, s.len() as int), source_id, cache);
        match step.result {
            Err(e) => Outcome { cache: step.cache, result: Err(e) },
            Ok(set) => {
                let rest = decode_flow_sets(
                    s,
                    at + set.length(),
                    count - 1,
                    source_id,
                    step.cache,
                );
                Outcome { cache: rest.cache, result: after(seq![set], rest.result) }
            },
        }
    }
}

/// One fully decoded export packet.
#[derive(Clone, Debug, PartialEq)]
pub struct Packet {
    /// The packet's header.
    pub header: Header,
    /// The packet's flow sets, in wire order.
    pub flowsets: Vec<FlowSet>,
}

/// The mathematical value of a [`Packet`].
pub ghost struct PacketView {
    pub header: Header,
    pub flowsets: Seq<FlowSetView>,
}

impl View for Packet {
    type V = PacketView;

    open spec fn view(&self) -> PacketView {
        PacketView { header: self.header, flowsets: self.flowsets@.map_values(|f: FlowSet| f@) }
    }
}

/// The packet that the bytes `s` are, as a session with `cache` decodes it
/// under the source id `source_id`, and the cache after it. A header that
/// fails leaves the cache as it was.
pub open spec fn decode(source_id: u32, s: Seq<u8>, cache: Schemas) -> Outcome<PacketView> {
    match parse_header(s) {
        Err(e) => Outcome { cache, result: Err(e) },
        Ok(header) => {
            let sets = decode_flow_sets(s, 20, header.count as int, source_id, cache);
            Outcome {
                cache: sets.cache,
                result: match sets.result {
                    Err(e) => Err(e),
                    Ok(flowsets) => Ok(PacketView { header, flowsets }),
                },
            }
        },
    }
}

/// Decodes one export packet for a session.
///
/// `source_id_context` is the source id under which this packet's templates
/// are stored in `cache` and its data flow sets look their templates up.
/// A data flow set whose template is unknown comes out unresolved and the
/// packet still decodes; any other failure is the packet's.
pub fn decode_packet(source_id_context: u32, bytes: &[u8], cache: &mut TemplateCache) -> (r:
    Result<Packet, Error>)
    ensures
        final(cache)@ == decode(source_id_context, bytes@, old(cache)@).cache,
        match r {
            Ok(packet) => decode(source_id_context, bytes@, old(cache)@).result == Ok::<
                PacketView,
                ErrorView,
            >(packet@),
            Err(e) => decode(source_id_context, bytes@, old(cache)@).result == Err::<
                PacketView,
                ErrorView,
            >(e@),
        },
{
    let header = Header::from_bytes(bytes)?;
    assemble(header, source_id_context, bytes, cache)
}

/// Decodes the flow sets after the header `header` of the packet `bytes`.
fn assemble(header: Header, source_id: u32, bytes: &[u8], cache: &mut TemplateCache) -> (r: Result<
    Packet,
    Error,
>)
    requires
        parse_header(bytes@) == Ok::<Header, ErrorView>(header),
    ensures
        final(cache)@ == decode(source_id, bytes@, old(cache)@).cache,
        match r {
            Ok(packet) => decode(source_id, bytes@, old(cache)@).result == Ok::<
                PacketView,
                ErrorView,
            >(packet@),
            Err(e) => decode(source_id, bytes@, old(cache)@).result == Err::<
                PacketView,
                ErrorView,
            >(e@),
        },
{
    let mut flowsets: Vec<FlowSet> = Vec::new();
    let mut pos: usize = Header::LEN;
    let mut done: u16 = 0;
    proof {
        lemma_after_nothing(
            decode_flow_sets(bytes@, 20, header.count as int, source_id, cache@).result,
        );
    }
    while done < header.count && pos < bytes.len()
        invariant
            done <= header.count,
            20 <= pos,
            parse_header(bytes@) == Ok::<Header, ErrorView>(header),
            decode_flow_sets(
                bytes@,
                20,
                header.count as int,
                source_id,
                old(cache)@,
            ).cache == decode_flow_sets(
                bytes@,
                pos as int,
                header.count - done,
                source_id,
                cache@,
            ).cache,
            decode_flow_sets(
                bytes@,
                20,
                header.count as int,
                source_id,
                old(cache)@,
            ).result == after(
                flowsets@.map_values(|f: FlowSet| f@),
                decode_flow_sets(
                    bytes@,
                    pos as int,
                    header.count - done,
                    source_id,
                    cache@,
                ).result,
            ),
        decreases header.count - done,
    {
        let ghost before = flowsets@.map_values(|f: FlowSet| f@);
        let set = FlowSet::from_bytes(slice_subrange(bytes, pos, bytes.len()), source_id, cache)?;
        pos = pos + set.length() as usize;
        done = done + 1;
        flowsets.push(set);
        proof {
            assert(flowsets@.map_values(|f: FlowSet| f@) =~= before + seq![set@]);
            lemma_after_after(
                before,
                seq![set@],
                decode_flow_sets(
                    bytes@,
                    pos as int,
                    header.count - done,
                    source_id,
                    cache@,
                ).result,
            );
        }
    }
    Ok(Packet { header, flowsets })
}

/// The packet that the bytes `s` are, as a session with `cache` decodes it
/// under the source id that the packet's own header names, and the cache
/// after it.
pub open spec fn decode_by_header(s: Seq<u8>, cache: Schemas) -> Outcome<PacketView> {
    match parse_header(s) {
        Err(e) => Outcome { cache, result: Err(e) },
        Ok(header) => decode(header.source_id, s, cache),
    }
}

impl Packet {
    /// Decodes one export packet for a session, with the source id of the
    /// packet's own header as the one under which templates are stored and
    /// looked up.
    pub fn decode(data: &[u8], cache: &mut TemplateCache) -> (r: Result<Self, Error>)
        ensures
            final(cache)@ == decode_by_header(data@, old(cache)@).cache,
            match r {
                Ok(packet) => decode_by_header(data@, old(cache)@).result == Ok::<
                    PacketView,
                    ErrorView,
                >(packet@),
                Err(e) => decode_by_header(data@, old(cache)@).result == Err::<
                    PacketView,
                    ErrorView,
                >(e@),
            },
    {
        let header = Header::from_bytes(data)?;
        assemble(header, header.source_id, data, cache)
    }

    /// Parse an entire netflow v9 packet on its own: with no template known
    /// beforehand, and with what it defines forgotten afterwards.
    pub fn from_bytes(data: &[u8]) -> (r: Result<Self, Error>)
        ensures
            match r {
                Ok(packet) => decode_by_header(data@, Map::empty()).result == Ok::<
                    PacketView,
                    ErrorView,
                >(packet@),
                Err(e) => decode_by_header(data@, Map::empty()).result == Err::<
                    PacketView,
                    ErrorView,
                >(e@),
            },
    {
        let mut cache = TemplateCache::new();
        Self::decode(data, &mut cache)
    }
}

} // verus!
