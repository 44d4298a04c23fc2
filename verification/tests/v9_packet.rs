use netflow::v9::{
    decode_packet, DataFlowSet, Definition, FieldDefinition, FlowSet, OptionsTemplateDefinition,
    Packet, TemplateCache, TemplateFlowSet, TemplateRecord,
};
use netflow::Error;

fn header(count: u16, source_id: u32) -> Vec<u8> {
    let mut v = vec![0, 9];
    v.extend_from_slice(&count.to_be_bytes());
    v.extend_from_slice(&3462915953u32.to_be_bytes());
    v.extend_from_slice(&1571059124u32.to_be_bytes());
    v.extend_from_slice(&3228052148u32.to_be_bytes());
    v.extend_from_slice(&source_id.to_be_bytes());
    v
}

fn template(id: u16, fields: &[(u16, u16)]) -> Vec<u8> {
    let mut v = Vec::new();
    v.extend_from_slice(&id.to_be_bytes());
    v.extend_from_slice(&(fields.len() as u16).to_be_bytes());
    for (t, l) in fields {
        v.extend_from_slice(&t.to_be_bytes());
        v.extend_from_slice(&l.to_be_bytes());
    }
    v
}

fn flow_set(id: u16, body: &[u8]) -> Vec<u8> {
    let mut v = Vec::new();
    v.extend_from_slice(&id.to_be_bytes());
    v.extend_from_slice(&((4 + body.len()) as u16).to_be_bytes());
    v.extend_from_slice(body);
    v
}

fn flow_packet_1() -> Vec<u8> {
    let mut v = header(1, 2081);
    v.extend(flow_set(324, &[0x5au8; 1368]));
    v
}

fn data(set: &FlowSet) -> &DataFlowSet {
    match set {
        FlowSet::Data(d) => d,
        other => panic!("not a data flow set: {:?}", other),
    }
}

fn templates(set: &FlowSet) -> &TemplateFlowSet {
    match set {
        FlowSet::Template(t) => t,
        other => panic!("not a template flow set: {:?}", other),
    }
}

#[test]
fn packet_parse_should_succeed_with_valid_data() {
    let result = Packet::from_bytes(&flow_packet_1());
    println!("{:?}", result);
    assert!(result.is_ok());
}

#[test]
fn packet_implements_debug() {
    println!("{:?}", Packet::from_bytes(&flow_packet_1()).unwrap());
}

#[test]
fn packet_implements_display() {
    let shown = format!("{:?}", Packet::from_bytes(&flow_packet_1()).unwrap());
    assert!(shown.contains("source_id: 2081"));
    println!("{}", shown);
}

#[test]
fn packet_on_its_own_leaves_unknown_data_unresolved() {
    let packet = Packet::from_bytes(&flow_packet_1()).unwrap();
    assert_eq!(packet.header.count, 1);
    assert_eq!(packet.header.source_id, 2081);
    assert_eq!(packet.flowsets.len(), 1);
    let set = data(&packet.flowsets[0]);
    assert_eq!(set.id, 324);
    assert_eq!(set.length, 1372);
    assert!(!set.resolved);
    assert_eq!(
        set.unknown_template(),
        Some(Error::UnknownTemplate { source_id: 2081, template_id: 324 })
    );
}

#[test]
fn unknown_template_does_not_fail_the_packet() {
    let mut bytes = header(3, 42);
    bytes.extend(flow_set(0, &template(300, &[(8, 4), (7, 2)])));
    bytes.extend(flow_set(400, &[1, 2, 3, 4]));
    bytes.extend(flow_set(300, &[10, 0, 0, 1, 0, 80, 10, 0, 0, 2, 1, 187]));
    let mut cache = TemplateCache::new();
    let packet = decode_packet(42, &bytes, &mut cache).unwrap();
    assert_eq!(packet.flowsets.len(), 3);
    let unknown = data(&packet.flowsets[1]);
    assert_eq!(
        unknown.unknown_template(),
        Some(Error::UnknownTemplate { source_id: 42, template_id: 400 })
    );
    assert!(unknown.records.is_empty());
    let known = data(&packet.flowsets[2]);
    assert_eq!(known.unknown_template(), None);
    assert!(known.resolved);
    assert_eq!(known.records.len(), 2);
    assert_eq!(known.records[0].fields.len(), 2);
    assert_eq!(known.records[0].fields[0].typ, 8);
    assert_eq!(known.records[0].fields[0].value, vec![10, 0, 0, 1]);
    assert_eq!(known.records[0].fields[1].typ, 7);
    assert_eq!(known.records[0].fields[1].value, vec![0, 80]);
    assert_eq!(known.records[1].fields[0].value, vec![10, 0, 0, 2]);
    assert_eq!(known.records[1].fields[1].value, vec![1, 187]);
    assert!(matches!(cache.get(42, 300), Some(Definition::Template(_))));
    assert!(cache.get(42, 400).is_none());
}

#[test]
fn data_follows_the_template_of_an_earlier_packet() {
    let mut cache = TemplateCache::new();
    let mut first = header(1, 7);
    first.extend(flow_set(0, &template(256, &[(1, 4), (2, 4), (4, 1)])));
    decode_packet(7, &first, &mut cache).unwrap();

    let mut second = header(1, 7);
    second.extend(flow_set(256, &[0, 0, 1, 0, 0, 0, 0, 9, 6, 0, 0, 2, 0, 0, 0, 0, 3, 17]));
    let packet = decode_packet(7, &second, &mut cache).unwrap();
    let set = data(&packet.flowsets[0]);
    assert_eq!(set.records.len(), 2);
    for record in &set.records {
        assert_eq!(record.field_count(), 3);
        let lengths: Vec<usize> = record.fields.iter().map(|f| f.value.len()).collect();
        assert_eq!(lengths, vec![4, 4, 1]);
        let types: Vec<u16> = record.fields.iter().map(|f| f.typ).collect();
        assert_eq!(types, vec![1, 2, 4]);
    }
    assert_eq!(set.records[1].fields[2].value, vec![17]);
}

#[test]
fn sources_do_not_see_each_others_templates() {
    let mut cache = TemplateCache::new();
    let mut first = header(1, 7);
    first.extend(flow_set(0, &template(256, &[(1, 2)])));
    decode_packet(7, &first, &mut cache).unwrap();
    let mut second = header(1, 8);
    second.extend(flow_set(256, &[0, 1, 0, 2]));
    let packet = decode_packet(8, &second, &mut cache).unwrap();
    assert_eq!(
        data(&packet.flowsets[0]).unknown_template(),
        Some(Error::UnknownTemplate { source_id: 8, template_id: 256 })
    );
    let mut other_session = TemplateCache::new();
    let packet = decode_packet(7, &second, &mut other_session).unwrap();
    assert!(!data(&packet.flowsets[0]).resolved);
}

#[test]
fn context_names_the_source_and_the_header_does_for_packet_decode() {
    let mut bytes = header(1, 2081);
    bytes.extend(flow_set(0, &template(300, &[(1, 2)])));
    let mut by_context = TemplateCache::new();
    decode_packet(5, &bytes, &mut by_context).unwrap();
    assert!(by_context.contains(5, 300));
    assert!(!by_context.contains(2081, 300));
    let mut by_header = TemplateCache::new();
    Packet::decode(&bytes, &mut by_header).unwrap();
    assert!(by_header.contains(2081, 300));
    assert!(!by_header.contains(5, 300));
}

#[test]
fn padding_after_three_records_is_discarded() {
    let mut cache = TemplateCache::new();
    cache.put(
        1,
        300,
        Definition::Template(TemplateRecord {
            id: 300,
            fields: vec![
                FieldDefinition { typ: 1, length: 3 },
                FieldDefinition { typ: 2, length: 2 },
            ],
        }),
    );
    let body: Vec<u8> = (1..=17).collect();
    let mut bytes = header(1, 1);
    bytes.extend(flow_set(300, &body));
    let packet = decode_packet(1, &bytes, &mut cache).unwrap();
    let set = data(&packet.flowsets[0]);
    assert_eq!(set.records.len(), 3);
    assert_eq!(set.records[0].fields[0].value, vec![1, 2, 3]);
    assert_eq!(set.records[0].fields[1].value, vec![4, 5]);
    assert_eq!(set.records[2].fields[0].value, vec![11, 12, 13]);
    assert_eq!(set.records[2].fields[1].value, vec![14, 15]);
}

#[test]
fn two_templates_in_one_flow_set_are_both_stored() {
    let mut body = template(300, &[(8, 4), (12, 4)]);
    body.extend(template(301, &[(4, 1)]));
    let mut bytes = header(1, 9);
    bytes.extend(flow_set(0, &body));
    let mut cache = TemplateCache::new();
    let packet = decode_packet(9, &bytes, &mut cache).unwrap();
    let set = templates(&packet.flowsets[0]);
    assert_eq!(set.records.len(), 2);
    assert_eq!(set.records[0].id, 300);
    assert_eq!(set.records[0].field_count(), 2);
    assert_eq!(set.records[1].id, 301);
    assert_eq!(
        cache.get(9, 300),
        Some(&Definition::Template(TemplateRecord {
            id: 300,
            fields: vec![
                FieldDefinition { typ: 8, length: 4 },
                FieldDefinition { typ: 12, length: 4 },
            ],
        }))
    );
    assert_eq!(
        cache.get(9, 301),
        Some(&Definition::Template(TemplateRecord {
            id: 301,
            fields: vec![FieldDefinition { typ: 4, length: 1 }],
        }))
    );
}

#[test]
fn putting_the_same_definition_again_changes_no_decode() {
    let definition = || {
        Definition::Template(TemplateRecord {
            id: 300,
            fields: vec![FieldDefinition { typ: 1, length: 2 }],
        })
    };
    let mut bytes = header(1, 3);
    bytes.extend(flow_set(300, &[0, 1, 0, 2, 0, 3]));
    let mut cache = TemplateCache::new();
    cache.put(3, 300, definition());
    let before = decode_packet(3, &bytes, &mut cache).unwrap();
    cache.put(3, 300, definition());
    let after = decode_packet(3, &bytes, &mut cache).unwrap();
    assert_eq!(before, after);
    assert_eq!(data(&after.flowsets[0]).records.len(), 3);
}

#[test]
fn a_new_definition_takes_the_place_of_the_old_one() {
    let mut cache = TemplateCache::new();
    cache.put(
        3,
        300,
        Definition::Template(TemplateRecord {
            id: 300,
            fields: vec![FieldDefinition { typ: 1, length: 2 }],
        }),
    );
    cache.put(
        3,
        300,
        Definition::Template(TemplateRecord {
            id: 300,
            fields: vec![
                FieldDefinition { typ: 5, length: 1 },
                FieldDefinition { typ: 6, length: 2 },
            ],
        }),
    );
    let mut bytes = header(1, 3);
    bytes.extend(flow_set(300, &[1, 2, 3, 4, 5, 6]));
    let packet = decode_packet(3, &bytes, &mut cache).unwrap();
    let set = data(&packet.flowsets[0]);
    assert_eq!(set.records.len(), 2);
    for record in &set.records {
        assert_eq!(record.fields.len(), 2);
        assert_eq!(record.fields[0].typ, 5);
        assert_eq!(record.fields[0].value.len(), 1);
        assert_eq!(record.fields[1].typ, 6);
        assert_eq!(record.fields[1].value.len(), 2);
    }
    assert_eq!(set.records[1].fields[1].value, vec![5, 6]);
}

#[test]
fn a_later_template_in_the_same_packet_redefines() {
    let mut bytes = header(3, 3);
    bytes.extend(flow_set(0, &template(300, &[(1, 2)])));
    bytes.extend(flow_set(0, &template(300, &[(9, 4)])));
    bytes.extend(flow_set(300, &[1, 2, 3, 4]));
    let mut cache = TemplateCache::new();
    let packet = decode_packet(3, &bytes, &mut cache).unwrap();
    let set = data(&packet.flowsets[2]);
    assert_eq!(set.records.len(), 1);
    assert_eq!(set.records[0].fields[0].typ, 9);
    assert_eq!(set.records[0].fields[0].value, vec![1, 2, 3, 4]);
}

#[test]
fn options_template_lays_out_scope_then_option_fields() {
    let mut options = Vec::new();
    options.extend_from_slice(&260u16.to_be_bytes());
    options.extend_from_slice(&4u16.to_be_bytes());
    options.extend_from_slice(&8u16.to_be_bytes());
    for (t, l) in [(1u16, 4u16), (41, 2), (42, 1)] {
        options.extend_from_slice(&t.to_be_bytes());
        options.extend_from_slice(&l.to_be_bytes());
    }
    options.extend_from_slice(&[0, 0]);
    let mut bytes = header(2, 11);
    bytes.extend(flow_set(1, &options));
    bytes.extend(flow_set(260, &[192, 168, 0, 1, 0, 100, 7, 0]));
    let mut cache = TemplateCache::new();
    let packet = decode_packet(11, &bytes, &mut cache).unwrap();
    assert_eq!(
        cache.get(11, 260),
        Some(&Definition::Options(OptionsTemplateDefinition {
            id: 260,
            scope_fields: vec![FieldDefinition { typ: 1, length: 4 }],
            option_fields: vec![
                FieldDefinition { typ: 41, length: 2 },
                FieldDefinition { typ: 42, length: 1 },
            ],
        }))
    );
    match &packet.flowsets[0] {
        FlowSet::Option(o) => {
            assert_eq!(o.length, 24);
            assert_eq!(o.records.len(), 1);
        }
        other => panic!("not an options flow set: {:?}", other),
    }
    let set = data(&packet.flowsets[1]);
    assert_eq!(set.records.len(), 1);
    let values: Vec<Vec<u8>> = set.records[0].fields.iter().map(|f| f.value.clone()).collect();
    assert_eq!(values, vec![vec![192, 168, 0, 1], vec![0, 100], vec![7]]);
}

#[test]
fn running_out_of_bytes_before_count_is_a_soft_end() {
    let mut bytes = header(30, 1);
    bytes.extend(flow_set(0, &template(300, &[(1, 2)])));
    let mut cache = TemplateCache::new();
    let packet = decode_packet(1, &bytes, &mut cache).unwrap();
    assert_eq!(packet.header.count, 30);
    assert_eq!(packet.flowsets.len(), 1);
    let only_header = header(4, 1);
    assert_eq!(decode_packet(1, &only_header, &mut cache).unwrap().flowsets.len(), 0);
}

#[test]
fn count_bounds_the_flow_sets_that_are_decoded() {
    let mut bytes = header(1, 1);
    bytes.extend(flow_set(0, &template(300, &[(1, 2)])));
    bytes.extend(flow_set(0, &template(301, &[(1, 2)])));
    let mut cache = TemplateCache::new();
    let packet = decode_packet(1, &bytes, &mut cache).unwrap();
    assert_eq!(packet.flowsets.len(), 1);
    assert!(cache.contains(1, 300));
    assert!(!cache.contains(1, 301));
}

#[test]
fn framing_errors_fail_the_packet() {
    let mut cache = TemplateCache::new();
    let mut bytes = header(2, 1);
    bytes.extend(flow_set(0, &template(300, &[(1, 2)])));
    bytes.extend_from_slice(&[1, 44, 0]);
    assert_eq!(
        decode_packet(1, &bytes, &mut cache),
        Err(Error::NotEnoughData { expected: 4, actual: 3 })
    );
    assert!(cache.contains(1, 300));

    let mut bytes = header(1, 1);
    bytes.extend_from_slice(&[1, 44, 0, 20, 1, 2, 3]);
    assert_eq!(
        decode_packet(1, &bytes, &mut cache),
        Err(Error::NotEnoughData { expected: 20, actual: 7 })
    );

    let mut bytes = header(1, 1);
    bytes.extend_from_slice(&[1, 44, 0, 3, 1, 2, 3]);
    assert_eq!(
        decode_packet(1, &bytes, &mut cache),
        Err(Error::NotEnoughData { expected: 3, actual: 7 })
    );
}

#[test]
fn header_errors_leave_the_cache_alone() {
    let mut cache = TemplateCache::new();
    let bytes = header(1, 1);
    assert_eq!(
        decode_packet(1, &bytes[..19], &mut cache),
        Err(Error::NotEnoughData { expected: 20, actual: 19 })
    );
    let mut wrong = header(1, 1);
    wrong[1] = 5;
    wrong.extend(flow_set(0, &template(300, &[(1, 2)])));
    assert_eq!(
        decode_packet(1, &wrong, &mut cache),
        Err(Error::InvalidVersion { expected: vec![9], actual: 5 })
    );
    assert!(!cache.contains(1, 300));
}

#[test]
fn a_malformed_template_flow_set_stores_nothing() {
    let mut body = template(300, &[(1, 2)]);
    body.extend_from_slice(&[1, 45, 0, 2, 0, 1, 0, 4]);
    let mut bytes = header(1, 1);
    bytes.extend(flow_set(0, &body));
    let mut cache = TemplateCache::new();
    assert_eq!(
        decode_packet(1, &bytes, &mut cache),
        Err(Error::NotEnoughData { expected: 12, actual: 8 })
    );
    assert!(!cache.contains(1, 300));
    assert!(!cache.contains(1, 301));
}

#[test]
fn reserved_ids_below_256_are_read_as_templates() {
    let mut bytes = header(1, 1);
    bytes.extend(flow_set(2, &template(300, &[(1, 2)])));
    let mut cache = TemplateCache::new();
    let packet = decode_packet(1, &bytes, &mut cache).unwrap();
    assert_eq!(templates(&packet.flowsets[0]).id, 2);
    assert!(cache.contains(1, 300));
}
