//! What holds of the decoders whatever the bytes and whatever the cache.

use crate::v9::data::{
    decode_fields, decode_record, decode_records, lemma_decode_fields_extent,
    lemma_min_size_grows, min_record_size, min_size, DataFieldView,
};
use crate::v9::header::{parse_header, Header};
use crate::v9::packet::{
    decode, decode_flow_set, decode_flow_sets, put_options_templates, put_templates, Schemas,
};
use crate::v9::set::{
    body_of, frame, parse_data_flow_set, parse_flow_set_header, parse_templates, FlowSetHeader,
    FlowSetView,
};
use crate::v9::template::{
    fields_at, parse_options_template, parse_template, DefinitionView, FieldDefinition, OptionsTemplateView,
    TemplateView,
};
use crate::wire::u16_at;
use crate::{after, short, ErrorView};
use vstd::prelude::*;

verus! {

/// Storing again the definition that a key already holds changes nothing:
/// the cache is the same, and so is every packet decoded with it.
pub proof fn lemma_same_definition_again(
    cache: Schemas,
    source_id: u32,
    template_id: u16,
    definition: DefinitionView,
    context: u32,
    bytes: Seq<u8>,
)
    requires
        cache.contains_key((source_id, template_id)),
        cache[(source_id, template_id)] == definition,
    ensures
        cache.insert((source_id, template_id), definition) == cache,
        decode(context, bytes, cache.insert((source_id, template_id), definition)) == decode(
            context,
            bytes,
            cache,
        ),
{
    assert(cache.insert((source_id, template_id), definition) =~= cache);
}

/// Once a key holds a new definition, a data flow set under that key is
/// decoded by the new layout alone: the outcome is that of a session which
/// never knew anything but the new definition, whatever the key held before.
pub proof fn lemma_new_definition_takes_over(
    cache: Schemas,
    source_id: u32,
    definition: DefinitionView,
    s: Seq<u8>,
)
    requires
        frame(s) is Ok,
    ensures
        ({
            let key = (source_id, frame(s)->Ok_0.id);
            let now = parse_data_flow_set(s, source_id, cache.insert(key, definition));
            &&& now == parse_data_flow_set(
                s,
                source_id,
                Map::<(u32, u16), DefinitionView>::empty().insert(key, definition),
            )
            &&& now matches Ok(set) ==> set.resolved && decode_records(
                body_of(s, frame(s)->Ok_0),
                0,
                definition.layout(),
            ) == Ok::<Seq<Seq<DataFieldView>>, ErrorView>(set.records)
        }),
{
}

/// A packet header cut to one byte less than its 20 is short by that byte.
pub proof fn lemma_truncated_header(s: Seq<u8>)
    requires
        s.len() >= 19,
    ensures
        parse_header(s.take(19)) == Err::<Header, ErrorView>(
            short(20, 19),
        ),
{
}

/// A flow-set header cut to one byte less than its 4 is short by that byte,
/// read alone or held against the bytes at hand.
pub proof fn lemma_truncated_flow_set_header(s: Seq<u8>)
    requires
        s.len() >= 3,
    ensures
        parse_flow_set_header(s.take(3)) == Err::<
            FlowSetHeader,
            ErrorView,
        >(short(4, 3)),
        frame(s.take(3)) == Err::<FlowSetHeader, ErrorView>(short(4, 3)),
{
}

/// A template body cut to one byte less than the definition in it takes is
/// short by that byte: the whole length was expected, one less was there.
pub proof fn lemma_truncated_template(s: Seq<u8>)
    requires
        parse_template(s) is Ok,
    ensures
        ({
            let whole = parse_template(s)->Ok_0.wire_len();
            parse_template(s.take(whole - 1)) == Err::<TemplateView, ErrorView>(
                short(whole, whole - 1),
            )
        }),
{
}

/// An options-template body cut to one byte less than the definition in it
/// takes is short by that byte.
pub proof fn lemma_truncated_options_template(s: Seq<u8>)
    requires
        parse_options_template(s) is Ok,
    ensures
        ({
            let whole = parse_options_template(s)->Ok_0.wire_len();
            parse_options_template(s.take(whole - 1)) == Err::<
                OptionsTemplateView,
                ErrorView,
            >(short(whole, whole - 1))
        }),
{
}

/// Whether `record` is laid out as `fs` says: one value per field, each
/// under its field's type code, and as long as its field where the field's
/// length is fixed.
pub open spec fn follows(record: Seq<DataFieldView>, fs: Seq<FieldDefinition>) -> bool {
    &&& record.len() == fs.len()
    &&& forall|j: int|
        0 <= j < fs.len() ==> (#[trigger] record[j]).typ == fs[j].typ && (fs[j].length != 0xFFFF
            ==> record[j].value.len() == fs[j].length)
}

/// The first `k` decoded fields are laid out as the first `k` fields say.
pub proof fn lemma_fields_follow_layout(s: Seq<u8>, at: int, fs: Seq<FieldDefinition>, k: int)
    requires
        0 <= at <= s.len(),
        0 <= k <= fs.len(),
    ensures
        decode_fields(s, at, fs, k) matches Ok(decoded) ==> follows(decoded.0, fs.take(k)),
    decreases k,
{
    if k > 0 {
        lemma_fields_follow_layout(s, at, fs, k - 1);
        lemma_decode_fields_extent(s, at, fs, k - 1);
        if let Ok(decoded) = decode_fields(s, at, fs, k) {
            let earlier = decode_fields(s, at, fs, k - 1)->Ok_0;
            assert forall|j: int| 0 <= j < k implies (#[trigger] decoded.0[j]).typ == fs.take(
                k,
            )[j].typ && (fs.take(k)[j].length != 0xFFFF ==> decoded.0[j].value.len() == fs.take(
                k,
            )[j].length) by {
                if j < k - 1 {
                    assert(decoded.0[j] == earlier.0[j]);
                    assert(fs.take(k - 1)[j] == fs.take(k)[j]);
                }
            }
        }
    }
}

/// Every record that a data flow set's body decodes to is laid out as the
/// layout says: it has the layout's field count, and each fixed-length field
/// has its announced length.
pub proof fn lemma_records_follow_layout(s: Seq<u8>, at: int, fs: Seq<FieldDefinition>)
    ensures
        decode_records(s, at, fs) matches Ok(records) ==> forall|i: int|
            0 <= i < records.len() ==> follows(#[trigger] records[i], fs),
    decreases s.len() - at,
{
    if !(at < 0 || min_record_size(fs) <= 0 || s.len() - at < min_record_size(fs)) {
        lemma_decode_fields_extent(s, at, fs, fs.len() as int);
        lemma_fields_follow_layout(s, at, fs, fs.len() as int);
        assert(fs.take(fs.len() as int) =~= fs);
        if let Ok(decoded) = decode_record(s, at, fs) {
            lemma_records_follow_layout(s, decoded.1, fs);
            if let Ok(records) = decode_records(s, at, fs) {
                let rest = decode_records(s, decoded.1, fs)->Ok_0;
                assert forall|i: int| 0 <= i < records.len() implies follows(
                    #[trigger] records[i],
                    fs,
                ) by {
                    if i > 0 {
                        assert(records[i] == rest[i - 1]);
                    }
                }
            }
        }
    }
}

/// A data flow set whose template the cache holds is resolved, and each of
/// its records is laid out as that definition says.
pub proof fn lemma_data_follows_definition(s: Seq<u8>, source_id: u32, cache: Schemas)
    requires
        frame(s) is Ok,
        cache.contains_key((source_id, frame(s)->Ok_0.id)),
    ensures
        parse_data_flow_set(s, source_id, cache) matches Ok(set) ==> set.resolved && forall|i: int|
            0 <= i < set.records.len() ==> follows(
                #[trigger] set.records[i],
                cache[(source_id, frame(s)->Ok_0.id)].layout(),
            ),
{
    let h = frame(s)->Ok_0;
    lemma_records_follow_layout(body_of(s, h), 0, cache[(source_id, h.id)].layout());
}

/// After the templates of one flow set were stored, the cache holds every
/// one of them under its id, each id with the definition that came last for
/// it. Nothing that was known is forgotten, and what other sources defined
/// is as it was.
pub proof fn lemma_all_templates_stored(cache: Schemas, source_id: u32, ts: Seq<TemplateView>)
    ensures
        forall|i: int|
            0 <= i < ts.len() ==> put_templates(cache, source_id, ts).contains_key(
                (source_id, #[trigger] ts[i].id),
            ),
        forall|i: int|
            0 <= i < ts.len() && (forall|j: int| i < j < ts.len() ==> ts[j].id != ts[i].id)
                ==> put_templates(cache, source_id, ts)[(source_id, #[trigger] ts[i].id)]
                == DefinitionView::Template(ts[i]),
        forall|key: (u32, u16)| #[trigger]
            cache.contains_key(key) ==> put_templates(cache, source_id, ts).contains_key(key),
        forall|key: (u32, u16)|
            key.0 != source_id ==> (#[trigger] put_templates(cache, source_id, ts).contains_key(
                key,
            ) <==> cache.contains_key(key)),
        forall|key: (u32, u16)|
            key.0 != source_id && #[trigger] cache.contains_key(key) ==> put_templates(
                cache,
                source_id,
                ts,
            )[key] == cache[key],
    decreases ts.len(),
{
    if ts.len() > 0 {
        let front = ts.drop_last();
        lemma_all_templates_stored(cache, source_id, front);
        let stored = put_templates(cache, source_id, ts);
        assert forall|i: int| 0 <= i < ts.len() implies stored.contains_key(
            (source_id, #[trigger] ts[i].id),
        ) by {
            if i < ts.len() - 1 {
                assert(front[i] == ts[i]);
            }
        }
        assert forall|i: int|
            0 <= i < ts.len() && (forall|j: int|
                i < j < ts.len() ==> ts[j].id != ts[i].id) implies stored[(
            source_id,
            #[trigger] ts[i].id,
        )] == DefinitionView::Template(ts[i]) by {
            if i < ts.len() - 1 {
                assert(front[i] == ts[i]);
                assert(ts[ts.len() - 1].id != ts[i].id);
                assert forall|j: int| i < j < front.len() implies front[j].id != front[i].id by {
                    assert(front[j] == ts[j]);
                }
            }
        }
    }
}

/// After the options templates of one flow set were stored, the cache holds
/// every one of them under its id, each id with the definition that came
/// last for it.
pub proof fn lemma_all_options_templates_stored(
    cache: Schemas,
    source_id: u32,
    ts: Seq<OptionsTemplateView>,
)
    ensures
        forall|i: int|
            0 <= i < ts.len() ==> put_options_templates(cache, source_id, ts).contains_key(
                (source_id, #[trigger] ts[i].id),
            ),
        forall|i: int|
            0 <= i < ts.len() && (forall|j: int| i < j < ts.len() ==> ts[j].id != ts[i].id)
                ==> put_options_templates(cache, source_id, ts)[(source_id, #[trigger] ts[i].id)]
                == DefinitionView::Options(ts[i]),
    decreases ts.len(),
{
    if ts.len() > 0 {
        let front = ts.drop_last();
        lemma_all_options_templates_stored(cache, source_id, front);
        let stored = put_options_templates(cache, source_id, ts);
        assert forall|i: int| 0 <= i < ts.len() implies stored.contains_key(
            (source_id, #[trigger] ts[i].id),
        ) by {
            if i < ts.len() - 1 {
                assert(front[i] == ts[i]);
            }
        }
        assert forall|i: int|
            0 <= i < ts.len() && (forall|j: int|
                i < j < ts.len() ==> ts[j].id != ts[i].id) implies stored[(
            source_id,
            #[trigger] ts[i].id,
        )] == DefinitionView::Options(ts[i]) by {
            if i < ts.len() - 1 {
                assert(front[i] == ts[i]);
                assert(ts[ts.len() - 1].id != ts[i].id);
                assert forall|j: int| i < j < front.len() implies front[j].id != front[i].id by {
                    assert(front[j] == ts[j]);
                }
            }
        }
    }
}

/// Whether every field of `fs` has a fixed length.
pub open spec fn fixed(fs: Seq<FieldDefinition>) -> bool {
    forall|j: int| 0 <= j < fs.len() ==> (#[trigger] fs[j]).length != 0xFFFF
}

/// Fixed-length fields decode wherever their bytes are there, and take
/// exactly their minimum size.
pub proof fn lemma_fixed_fields_decode(s: Seq<u8>, at: int, fs: Seq<FieldDefinition>, k: int)
    requires
        fixed(fs),
        0 <= at,
        0 <= k <= fs.len(),
        at + min_size(fs, k) <= s.len(),
    ensures
        decode_fields(s, at, fs, k) matches Ok(decoded) && decoded.1 == at + min_size(fs, k),
    decreases k,
{
    if k > 0 {
        lemma_min_size_grows(fs, k - 1, k);
        lemma_fixed_fields_decode(s, at, fs, k - 1);
    }
}

/// Padding is tolerated: where every field has a fixed length and one
/// record takes `size > 0` bytes, a body of `n * size + pad` bytes with
/// `pad < size` decodes to exactly `n` records, and the `pad` bytes after
/// them are no error.
pub proof fn lemma_padding_is_discarded(
    s: Seq<u8>,
    at: int,
    fs: Seq<FieldDefinition>,
    n: int,
    pad: int,
)
    requires
        fixed(fs),
        min_record_size(fs) > 0,
        0 <= at,
        0 <= n,
        0 <= pad < min_record_size(fs),
        s.len() - at == n * min_record_size(fs) + pad,
    ensures
        decode_records(s, at, fs) matches Ok(records) && records.len() == n,
    decreases n,
{
    let size = min_record_size(fs);
    if n > 0 {
        assert(n * size == (n - 1) * size + size) by (nonlinear_arith);
        assert((n - 1) * size >= 0) by (nonlinear_arith)
            requires
                n >= 1,
                size > 0,
        ;
        lemma_fixed_fields_decode(s, at, fs, fs.len() as int);
        lemma_padding_is_discarded(s, at + size, fs, n - 1, pad);
    } else {
        assert(n * size == 0) by (nonlinear_arith)
            requires
                n == 0,
        ;
    }
}

/// A template definition reads the same whatever follows it.
pub proof fn lemma_template_ignores_what_follows(a: Seq<u8>, b: Seq<u8>)
    requires
        parse_template(a) is Ok,
    ensures
        parse_template(a + b) == parse_template(a),
{
    let whole = a + b;
    let n = u16_at(a, 2);
    assert(whole[0] == a[0] && whole[1] == a[1] && whole[2] == a[2] && whole[3] == a[3]);
    assert forall|i: int| 0 <= i < n implies fields_at(whole, 4, n)[i] == fields_at(a, 4, n)[i] by {
        assert(whole[4 + 4 * i] == a[4 + 4 * i]);
        assert(whole[4 + 4 * i + 1] == a[4 + 4 * i + 1]);
        assert(whole[4 + 4 * i + 2] == a[4 + 4 * i + 2]);
        assert(whole[4 + 4 * i + 3] == a[4 + 4 * i + 3]);
    }
    assert(fields_at(whole, 4, n) =~= fields_at(a, 4, n));
}

/// Templates batch: a definition that fills `a`, followed back to back by
/// the definitions of `b`, reads as that definition and then those.
pub proof fn lemma_templates_back_to_back(a: Seq<u8>, b: Seq<u8>)
    requires
        parse_template(a) is Ok,
        a.len() == parse_template(a)->Ok_0.wire_len(),
        parse_templates(b) is Ok,
    ensures
        parse_templates(a + b) == Ok::<Seq<TemplateView>, ErrorView>(
            seq![parse_template(a)->Ok_0] + parse_templates(b)->Ok_0,
        ),
{
    lemma_template_ignores_what_follows(a, b);
    assert((a + b).subrange(a.len() as int, (a + b).len() as int) =~= b);
}

/// One flow set may hold several templates: when it has been decoded, the
/// cache holds a definition under the id of every template in it.
pub proof fn lemma_template_flow_set_stores_all(s: Seq<u8>, source_id: u32, cache: Schemas)
    ensures
        decode_flow_set(s, source_id, cache).result matches Ok(FlowSetView::Template(set))
            ==> forall|i: int|
            0 <= i < set.records.len() ==> decode_flow_set(s, source_id, cache).cache.contains_key(
                (source_id, #[trigger] set.records[i].id),
            ),
        decode_flow_set(s, source_id, cache).result matches Ok(FlowSetView::Option(set))
            ==> forall|i: int|
            0 <= i < set.records.len() ==> decode_flow_set(s, source_id, cache).cache.contains_key(
                (source_id, #[trigger] set.records[i].id),
            ),
{
    match decode_flow_set(s, source_id, cache).result {
        Ok(FlowSetView::Template(set)) => {
            lemma_all_templates_stored(cache, source_id, set.records);
        },
        Ok(FlowSetView::Option(set)) => {
            lemma_all_options_templates_stored(cache, source_id, set.records);
        },
        _ => {},
    }
}

/// A template flow set, then a data flow set that cites one of its
/// templates under the same source id: the data flow set is resolved, and
/// each of its records has that template's field count and, field by field,
/// the template's fixed lengths. `index` is the place of the cited template
/// in the flow set, the last one with that id.
pub proof fn lemma_data_follows_template(
    template_set: Seq<u8>,
    data_set: Seq<u8>,
    source_id: u32,
    cache: Schemas,
    index: int,
)
    requires
        decode_flow_set(template_set, source_id, cache).result is Ok,
        decode_flow_set(template_set, source_id, cache).result->Ok_0 is Template,
        frame(data_set) is Ok,
        frame(data_set)->Ok_0.id >= 256,
        ({
            let set = decode_flow_set(template_set, source_id, cache).result->Ok_0->Template_0;
            let id = frame(data_set)->Ok_0.id;
            &&& 0 <= index < set.records.len()
            &&& set.records[index].id == id
            &&& forall|j: int| index < j < set.records.len() ==> set.records[j].id != id
        }),
    ensures
        ({
            let known = decode_flow_set(template_set, source_id, cache);
            let template = known.result->Ok_0->Template_0.records[index];
            decode_flow_set(data_set, source_id, known.cache).result matches Ok(
                FlowSetView::Data(data),
            ) ==> data.resolved && forall|i: int|
                0 <= i < data.records.len() ==> follows(#[trigger] data.records[i], template.fields)
        }),
{
    let known = decode_flow_set(template_set, source_id, cache);
    let set = known.result->Ok_0->Template_0;
    lemma_all_templates_stored(cache, source_id, set.records);
    assert(known.cache == put_templates(cache, source_id, set.records));
    assert(known.cache[(source_id, set.records[index].id)] == DefinitionView::Template(
        set.records[index],
    ));
    lemma_data_follows_definition(data_set, source_id, known.cache);
}

/// A data flow set whose template the session does not know fails nothing:
/// it comes out unresolved and without records, the cache is as it was, and
/// whatever follows in the packet is decoded as if it had not been there.
pub proof fn lemma_unknown_template_is_no_error(
    s: Seq<u8>,
    at: int,
    count: int,
    source_id: u32,
    cache: Schemas,
)
    requires
        0 <= at < s.len(),
        count > 0,
        frame(s.subrange(at, s.len() as int)) is Ok,
        frame(s.subrange(at, s.len() as int))->Ok_0.id >= 256,
        !cache.contains_key((source_id, frame(s.subrange(at, s.len() as int))->Ok_0.id)),
    ensures
        ({
            let header = frame(s.subrange(at, s.len() as int))->Ok_0;
            let step = decode_flow_set(s.subrange(at, s.len() as int), source_id, cache);
            let rest = decode_flow_sets(s, at + header.length, count - 1, source_id, cache);
            let all = decode_flow_sets(s, at, count, source_id, cache);
            &&& step.cache == cache
            &&& step.result matches Ok(FlowSetView::Data(set)) && !set.resolved
                && set.records.len() == 0 && set.id == header.id && set.source_id == source_id
            &&& all.cache == rest.cache
            &&& all.result == after(seq![step.result->Ok_0], rest.result)
        }),
{
}

} // verus!
