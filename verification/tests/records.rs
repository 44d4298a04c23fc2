use netflow::address::Ipv4Address;
use netflow::{v5, v7, Error, ERROR_NOT_ENOUGH_DATA};

fn v5_header(count: u16) -> Vec<u8> {
    let mut v = Vec::new();
    v.extend_from_slice(&5u16.to_be_bytes());
    v.extend_from_slice(&count.to_be_bytes());
    v.extend_from_slice(&51469784u32.to_be_bytes());
    v.extend_from_slice(&1544476581u32.to_be_bytes());
    v.extend_from_slice(&0u32.to_be_bytes());
    v.extend_from_slice(&873873830u32.to_be_bytes());
    v.push(0);
    v.push(0);
    v.extend_from_slice(&1000u16.to_be_bytes());
    v
}

fn v7_header(count: u16) -> Vec<u8> {
    let mut v = v5_header(count);
    v[1] = 7;
    v.truncate(20);
    v.extend_from_slice(&0u32.to_be_bytes());
    v
}

fn flow_packet_record(packets: u32) -> Vec<u8> {
    let mut v = vec![125, 238, 46, 48, 114, 23, 236, 96, 114, 23, 3, 231];
    v.extend_from_slice(&791u16.to_be_bytes());
    v.extend_from_slice(&817u16.to_be_bytes());
    v.extend_from_slice(&packets.to_be_bytes());
    v.extend_from_slice(&1708u32.to_be_bytes());
    v.extend_from_slice(&51402145u32.to_be_bytes());
    v.extend_from_slice(&51433264u32.to_be_bytes());
    v.extend_from_slice(&49233u16.to_be_bytes());
    v.extend_from_slice(&443u16.to_be_bytes());
    v.extend_from_slice(&[0, 0x10, 6, 0]);
    v.extend_from_slice(&4771u16.to_be_bytes());
    v.extend_from_slice(&56030u16.to_be_bytes());
    v.extend_from_slice(&[20, 22, 0, 0]);
    v
}

fn v7_flow_packet_record(packets: u32) -> Vec<u8> {
    let mut v = flow_packet_record(packets);
    v.extend_from_slice(&[125, 238, 46, 48]);
    v
}

fn v5_flow_packet_1() -> Vec<u8> {
    let mut v = v5_header(0x1d);
    for i in 0..0x1d {
        v.extend(flow_packet_record(4 + i));
    }
    v
}

fn v7_flow_packet_1() -> Vec<u8> {
    let mut v = v7_header(0x1d);
    for i in 0..0x1d {
        v.extend(v7_flow_packet_record(4 + i));
    }
    v
}

#[test]
fn record_new_should_succeed_with_valid_data() {
    assert!(v5::raw::Record::new(&flow_packet_record(4)).is_ok());
}

#[test]
fn record_new_should_fail_with_not_enough_data() {
    assert_eq!(
        v5::raw::Record::new(&flow_packet_record(4)[..v5::raw::Record::LEN - 1]),
        Err(ERROR_NOT_ENOUGH_DATA)
    );
}

#[test]
fn record_record_parse_should_succeed_with_valid_data() {
    assert!(v5::Record::parse(&flow_packet_record(4)).is_ok());
    assert!(v7::Record::from_bytes(&v7_flow_packet_record(4)).is_ok());
}

#[test]
fn record_record_parse_should_fail_with_not_enough_data() {
    assert_eq!(
        v5::Record::parse(&flow_packet_record(4)[..v5::Record::LEN - 1]),
        Err(ERROR_NOT_ENOUGH_DATA)
    );
    assert_eq!(
        v7::Record::from_bytes(&v7_flow_packet_record(4)[..v7::Record::LEN - 1]),
        Err(Error::NotEnoughData { expected: v7::Record::LEN, actual: v7::Record::LEN - 1 })
    );
}

#[test]
fn record_record_accessors_expose_fields() {
    let bytes = flow_packet_record(4);
    let record = v5::raw::Record::new(&bytes).unwrap();
    assert_eq!(record.source_addr(), Ipv4Address::new(125, 238, 46, 48));
    assert_eq!(record.destination_addr(), Ipv4Address::new(114, 23, 236, 96));
    assert_eq!(record.next_hop(), Ipv4Address::new(114, 23, 3, 231));
    assert_eq!(record.input(), 791);
    assert_eq!(record.output(), 817);
    assert_eq!(record.packets(), 4);
    assert_eq!(record.bytes(), 1708);
    assert_eq!(record.first_packet_sys_uptime(), 51402145);
    assert_eq!(record.last_packet_sys_uptime(), 51433264);
    assert_eq!(record.source_port(), 49233);
    assert_eq!(record.destination_port(), 443);
    assert_eq!(record.tcp_flags(), 0x10);
    assert_eq!(record.protocol(), 6);
    assert_eq!(record.type_of_service(), 0x0);
    assert_eq!(record.source_as(), 4771);
    assert_eq!(record.destination_as(), 56030);
    assert_eq!(record.source_mask(), 20);
    assert_eq!(record.destination_mask(), 22);

    let record = v5::Record::parse(&bytes).unwrap();
    assert_eq!(record.source_addr(), Ipv4Address::new(125, 238, 46, 48));
    assert_eq!(record.destination_addr(), Ipv4Address::new(114, 23, 236, 96));
    assert_eq!(record.next_hop(), Ipv4Address::new(114, 23, 3, 231));
    assert_eq!(record.input_iface(), 791);
    assert_eq!(record.output_iface(), 817);
    assert_eq!(record.packets(), 4);
    assert_eq!(record.bytes(), 1708);
    assert_eq!(record.first_packet_sys_uptime(), 51402145);
    assert_eq!(record.last_packet_sys_uptime(), 51433264);
    assert_eq!(record.source_port(), 49233);
    assert_eq!(record.destination_port(), 443);
    assert_eq!(record.tcp_flags(), 0x10);
    assert_eq!(record.protocol(), 6);
    assert_eq!(record.type_of_service(), 0x0);
    assert_eq!(record.source_as(), 4771);
    assert_eq!(record.destination_as(), 56030);
    assert_eq!(record.source_mask(), 20);
    assert_eq!(record.destination_mask(), 22);

    let record = v7::Record::from_bytes(&v7_flow_packet_record(4)).unwrap();
    assert_eq!(record.source_addr, Ipv4Address::new(125, 238, 46, 48));
    assert_eq!(record.destination_addr, Ipv4Address::new(114, 23, 236, 96));
    assert_eq!(record.next_hop, Ipv4Address::new(114, 23, 3, 231));
    assert_eq!(record.input_iface, 791);
    assert_eq!(record.output_iface, 817);
    assert_eq!(record.packets, 4);
    assert_eq!(record.bytes, 1708);
    assert_eq!(record.first_sys_uptime, 51402145);
    assert_eq!(record.last_sys_uptime, 51433264);
    assert_eq!(record.source_port, 49233);
    assert_eq!(record.destination_port, 443);
    assert_eq!(record.tcp_flags, 0x10);
    assert_eq!(record.proto, 6);
    assert_eq!(record.tos, 0x0);
    assert_eq!(record.source_as, 4771);
    assert_eq!(record.destination_as, 56030);
    assert_eq!(record.source_mask, 20);
    assert_eq!(record.destination_mask, 22);
    assert_eq!(record.flags, 0);
    assert_eq!(record.source_router, Ipv4Address::new(125, 238, 46, 48));
    assert_eq!(record.source_router.octets(), [125, 238, 46, 48]);
}

#[test]
fn record_record_implements_debug() {
    println!("{:?}", v5::raw::Record::new(&flow_packet_record(4)).unwrap());
    println!("{:?}", v5::Record::parse(&flow_packet_record(4)).unwrap());
    println!("{:?}", v7::Record::from_bytes(&v7_flow_packet_record(4)).unwrap());
}

#[test]
fn record_implements_display() {
    let shown = format!("{:?}", v7::Record::from_bytes(&v7_flow_packet_record(4)).unwrap());
    assert!(shown.contains("destination_port: 443"));
    println!("{}", shown);
}

#[test]
fn set_using_set_iterator() {
    let bytes = v5_flow_packet_1();
    let set = v5::raw::FlowSet::new(&bytes).unwrap();
    println!("{:?}", set.header());
    let mut records = set.records();
    assert_eq!(records.size_hint(), (0x1d, Some(0x1d)));
    let mut seen = 0;
    while let Some(record) = records.next() {
        println!("{:?}", record);
        assert_eq!(record.packets(), 4 + seen);
        seen += 1;
    }
    assert_eq!(seen, 0x1d);
    assert_eq!(records.size_hint(), (0, Some(0)));
    assert!(records.next().is_none());

    let set = v5::FlowSet::parse(&bytes).unwrap();
    println!("{:?}", set.header());
    assert_eq!(set.header().count(), 0x1d);
    assert_eq!(set.records().len(), 0x1d);
    for record in set.records() {
        println!("{:?}", record);
    }
    assert_eq!(set.records()[28].packets(), 32);

    let set = v7::FlowSet::from_bytes(&v7_flow_packet_1()).unwrap();
    println!("{:?}", set.header);
    assert_eq!(set.records.len(), 0x1d);
    assert_eq!(set.records[1].packets, 5);
    for record in set.records {
        println!("{:?}", record);
    }
}

#[test]
fn set_flow_set_implements_debug() {
    println!("{:?}", v5::FlowSet::parse(&v5_flow_packet_1()).unwrap());
    println!("{:?}", v7::FlowSet::from_bytes(&v7_flow_packet_1()).unwrap());
}

#[test]
fn flow_set_implements_display() {
    let shown = format!("{:?}", v7::FlowSet::from_bytes(&v7_flow_packet_1()).unwrap());
    assert!(shown.contains("sequence_number: 873873830"));
    println!("{}", shown);
}

#[test]
fn flow_sets_need_the_records_that_the_header_counts() {
    let mut v5_bytes = v5_flow_packet_1();
    v5_bytes.pop();
    assert_eq!(v5::FlowSet::parse(&v5_bytes), Err(ERROR_NOT_ENOUGH_DATA));
    let mut v7_bytes = v7_flow_packet_1();
    v7_bytes.pop();
    assert_eq!(
        v7::FlowSet::from_bytes(&v7_bytes),
        Err(Error::NotEnoughData { expected: 24 + 29 * 52, actual: 24 + 29 * 52 - 1 })
    );
    assert_eq!(
        v7::FlowSet::from_bytes(&v7_bytes[..10]),
        Err(Error::NotEnoughData { expected: 24, actual: 10 })
    );
}

#[test]
fn raw_walk_hands_out_only_the_records_that_are_there() {
    let mut bytes = v5_header(3);
    bytes.extend(flow_packet_record(1));
    bytes.extend(flow_packet_record(2));
    bytes.extend_from_slice(&[0u8; 47]);
    let set = v5::raw::FlowSet::new(&bytes).unwrap();
    let mut records = set.records();
    assert_eq!(records.size_hint(), (2, Some(2)));
    assert_eq!(records.next().unwrap().packets(), 1);
    assert_eq!(records.next().unwrap().packets(), 2);
    assert!(records.next().is_none());
    assert_eq!(v5::raw::FlowSet::new(&bytes[..23]), Err(ERROR_NOT_ENOUGH_DATA));
    assert!(v5::generic::FlowSet::<netflow::endianness::BigEndian>::new(&bytes[..2]).is_ok());
}
