use netflow::endianness::{BigEndian, LittleEndian};
use netflow::{
    greetings, peek_version, v5, v7, v9, Error, Version, ERROR_INVALID_VERSION,
    ERROR_NOT_ENOUGH_DATA,
};

fn v5_flow_packet_header() -> Vec<u8> {
    let mut v = Vec::new();
    v.extend_from_slice(&5u16.to_be_bytes());
    v.extend_from_slice(&0x1du16.to_be_bytes());
    v.extend_from_slice(&51469784u32.to_be_bytes());
    v.extend_from_slice(&1544476581u32.to_be_bytes());
    v.extend_from_slice(&0u32.to_be_bytes());
    v.extend_from_slice(&873873830u32.to_be_bytes());
    v.push(0);
    v.push(0);
    v.extend_from_slice(&1000u16.to_be_bytes());
    v
}

fn v7_flow_packet_header() -> Vec<u8> {
    let mut v = Vec::new();
    v.extend_from_slice(&7u16.to_be_bytes());
    v.extend_from_slice(&0x1du16.to_be_bytes());
    v.extend_from_slice(&51469784u32.to_be_bytes());
    v.extend_from_slice(&1544476581u32.to_be_bytes());
    v.extend_from_slice(&0u32.to_be_bytes());
    v.extend_from_slice(&873873830u32.to_be_bytes());
    v.extend_from_slice(&0u32.to_be_bytes());
    v
}

fn v9_flow_packet_header(count: u16) -> Vec<u8> {
    let mut v = Vec::new();
    v.extend_from_slice(&9u16.to_be_bytes());
    v.extend_from_slice(&count.to_be_bytes());
    v.extend_from_slice(&3462915953u32.to_be_bytes());
    v.extend_from_slice(&1571059124u32.to_be_bytes());
    v.extend_from_slice(&3228052148u32.to_be_bytes());
    v.extend_from_slice(&2081u32.to_be_bytes());
    v
}

#[test]
fn it_works() {
    assert_eq!(2 + 2, 4);
}

#[test]
fn greetings_names_the_crate() {
    assert_eq!(greetings(), "Hello from netflow-0.1.0");
}

#[test]
fn header_header_new_should_succeed_with_valid_data() {
    assert!(v5::raw::Header::new(&v5_flow_packet_header()).is_ok());
    assert!(v9::raw::Header::new(&v9_flow_packet_header(0x15)).is_ok());
}

#[test]
fn header_header_new_should_fail_with_not_enough_data() {
    assert_eq!(
        v5::raw::Header::new(&v5_flow_packet_header()[..v5::raw::Header::LEN - 1]),
        Err(ERROR_NOT_ENOUGH_DATA)
    );
    assert_eq!(
        v9::raw::Header::new(&v9_flow_packet_header(0x15)[..v9::raw::Header::LEN - 1]),
        Err(ERROR_NOT_ENOUGH_DATA)
    );
}

#[test]
fn header_header_new_should_fail_with_invalid_version() {
    let data = {
        let mut data: Vec<u8> = v5_flow_packet_header();
        data[1] = 1;
        data
    };
    let res = v5::raw::Header::new(&data);
    assert!(res.is_err());
    assert_eq!(res, Err(ERROR_INVALID_VERSION));

    let data = {
        let mut data: Vec<u8> = v9_flow_packet_header(0x15);
        data[1] = 1;
        data
    };
    let res = v9::raw::Header::new(&data);
    assert!(res.is_err());
    assert_eq!(res, Err(ERROR_INVALID_VERSION));
}

#[test]
fn header_header_accessors_expose_fields() {
    let bytes = v5_flow_packet_header();
    let header = v5::raw::Header::new(&bytes).unwrap();
    assert_eq!(header.version(), 5);
    assert_eq!(header.count(), 0x1d);
    assert_eq!(header.sys_uptime_msecs(), 51469784);
    assert_eq!(header.unix_secs(), 1544476581);
    assert_eq!(header.unix_nsecs(), 0);
    assert_eq!(header.sequence_number(), 873873830);
    assert_eq!(header.engine_type(), 0);
    assert_eq!(header.engine_id(), 0);
    assert_eq!(header.sampling(), 1000);

    let header = v5::Header::parse(&bytes).unwrap();
    assert_eq!(header.version(), 5);
    assert_eq!(header.count(), 0x1d);
    assert_eq!(header.sys_uptime_msecs(), 51469784);
    assert_eq!(header.unix_secs(), 1544476581);
    assert_eq!(header.unix_nsecs(), 0);
    assert_eq!(header.sequence_number(), 873873830);
    assert_eq!(header.engine_type(), 0);
    assert_eq!(header.engine_id(), 0);
    assert_eq!(header.sampling(), 1000);

    let header = v7::Header::from_bytes(&v7_flow_packet_header()).unwrap();
    assert_eq!(header.version, 7);
    assert_eq!(header.count, 0x1d);
    assert_eq!(header.sys_uptime_msecs, 51469784);
    assert_eq!(header.unix_secs, 1544476581);
    assert_eq!(header.unix_nsecs, 0);
    assert_eq!(header.sequence_number, 873873830);

    let header = v9::Header::from_bytes(&v9_flow_packet_header(1)).unwrap();
    assert_eq!(header.version, 9);
    assert_eq!(header.count, 1);
    assert_eq!(header.sys_uptime_msecs, 3462915953);
    assert_eq!(header.unix_secs, 1571059124);
    assert_eq!(header.sequence_number, 3228052148);
    assert_eq!(header.source_id, 2081);

    let bytes = v9_flow_packet_header(0x15);
    let header = v9::raw::Header::new(&bytes).unwrap();
    assert_eq!(header.version(), 9);
    assert_eq!(header.count(), 0x15);
    assert_eq!(header.sys_uptime_msecs(), 3462915953);
    assert_eq!(header.unix_secs(), 1571059124);
    assert_eq!(header.sequence_number(), 3228052148);
    assert_eq!(header.source_id(), 2081);
}

#[test]
fn header_header_implements_debug() {
    println!("{:?}", v5::raw::Header::new(&v5_flow_packet_header()).unwrap());
    println!("{:?}", v5::Header::parse(&v5_flow_packet_header()).unwrap());
    println!("{:?}", v7::Header::from_bytes(&v7_flow_packet_header()).unwrap());
    println!("{:?}", v9::Header::from_bytes(&v9_flow_packet_header(1)).unwrap());
    println!("{:?}", v9::raw::Header::new(&v9_flow_packet_header(0x15)).unwrap());
}

#[test]
fn header_header_implements_display() {
    let shown = format!("{:?}", v7::Header::from_bytes(&v7_flow_packet_header()).unwrap());
    assert!(shown.contains("sequence_number: 873873830"));
    println!("{}", shown);
    let shown = format!("{:?}", v9::Header::from_bytes(&v9_flow_packet_header(1)).unwrap());
    assert!(shown.contains("source_id: 2081"));
    println!("{}", shown);
}

#[test]
fn header_header_parse_should_succeed_with_valid_data() {
    assert!(v5::Header::parse(&v5_flow_packet_header()).is_ok());
    assert!(v7::Header::from_bytes(&v7_flow_packet_header()).is_ok());
    assert!(v9::Header::from_bytes(&v9_flow_packet_header(1)).is_ok());
}

#[test]
fn header_header_parse_should_fail_with_not_enough_data() {
    assert_eq!(
        v5::Header::parse(&v5_flow_packet_header()[..v5::Header::LEN - 1]),
        Err(ERROR_NOT_ENOUGH_DATA)
    );
    assert_eq!(
        v7::Header::from_bytes(&v7_flow_packet_header()[..v7::Header::LEN - 1]),
        Err(Error::NotEnoughData { expected: v7::Header::LEN, actual: v7::Header::LEN - 1 })
    );
    assert_eq!(
        v9::Header::from_bytes(&v9_flow_packet_header(1)[..v9::Header::LEN - 1]),
        Err(Error::NotEnoughData { expected: v9::Header::LEN, actual: v9::Header::LEN - 1 })
    );
}

#[test]
fn header_header_parse_should_fail_with_invalid_version() {
    let data = {
        let mut data: Vec<u8> = v5_flow_packet_header();
        data[1] = 1;
        data
    };
    let res = v5::Header::parse(&data);
    assert!(res.is_err());
    assert_eq!(res, Err(ERROR_INVALID_VERSION));

    let data = {
        let mut data: Vec<u8> = v7_flow_packet_header();
        data[1] = 1;
        data
    };
    let res = v7::Header::from_bytes(&data);
    assert!(res.is_err());
    assert_eq!(res, Err(Error::InvalidVersion { expected: vec![7], actual: 1 }));

    let data = {
        let mut data: Vec<u8> = v9_flow_packet_header(1);
        data[1] = 1;
        data
    };
    let res = v9::Header::from_bytes(&data);
    assert!(res.is_err());
    assert_eq!(res, Err(Error::InvalidVersion { expected: vec![9], actual: 1 }));
}

#[test]
fn header_length_is_judged_before_version() {
    let mut data = v9_flow_packet_header(1);
    data[1] = 5;
    data.truncate(10);
    assert_eq!(
        v9::Header::from_bytes(&data),
        Err(Error::NotEnoughData { expected: 20, actual: 10 })
    );
}

#[test]
fn packet_header_parsing_short() {
    let mut packet = v5_flow_packet_header();
    packet.extend_from_slice(&[0u8; 48]);
    let data = &packet[..v5::parsed::PacketHeader::LEN - 1];
    let res = v5::parsed::PacketHeader::parse(data);
    assert!(res.is_err());
}

#[test]
fn packet_header_parsing() {
    let mut packet = v5_flow_packet_header();
    packet.extend_from_slice(&[7u8; 48]);
    let (header, rest) = v5::parsed::PacketHeader::parse(&packet).unwrap();

    println!("Version: {:?}", header.version);
    println!("Count: {:?}", header.count);
    println!("Uptime: {:?}", header.sys_uptime_msecs);
    println!("Unix (s): {:?}", header.unix_secs);
    println!("Unix (ns): {:?}", header.unix_nsecs);
    println!("Sequence: {:?}", header.sequence_number);
    println!("Engine type: {:?}", header.engine_type);
    println!("Engine id: {:?}", header.engine_id);
    println!("Sampling: {:?}", header.sampling);

    assert_eq!(header.version, 5);
    assert_eq!(header.count, 0x1d);
    assert_eq!(header.sys_uptime_msecs, 51469784);
    assert_eq!(header.unix_secs, 1544476581);
    assert_eq!(header.unix_nsecs, 0);
    assert_eq!(header.sequence_number, 873873830);
    assert_eq!(header.engine_type, 0);
    assert_eq!(header.engine_id, 0);
    assert_eq!(header.sampling, 1000);
    assert_eq!(rest, &[7u8; 48][..]);
}

#[test]
fn peek_version_tells_the_versions_apart() {
    assert_eq!(peek_version(&[0, 5]), Ok(Version::V5));
    assert_eq!(peek_version(&[0, 7, 1, 2]), Ok(Version::V7));
    assert_eq!(peek_version(&[0, 9]), Ok(Version::V9));
    assert_eq!(Version::V9.number(), 9);
    assert_eq!(Version::Ipfix.number(), 10);
    assert_eq!(peek_version(&[9]), Err(Error::NotEnoughData { expected: 2, actual: 1 }));
    assert_eq!(
        peek_version(&[1, 0]),
        Err(Error::InvalidVersion { expected: vec![5, 7, 9], actual: 256 })
    );
}

#[test]
fn generic_header_hands_the_version_out_in_either_order() {
    let bytes = v5_flow_packet_header();
    let little = v5::generic::Header::<LittleEndian>::new(&bytes).ok().unwrap();
    assert_eq!(little.version(), 5);
    let big = v5::generic::Header::<BigEndian>::new(&bytes).ok().unwrap();
    assert_eq!(big.version(), 0x0500);
    assert!(v5::generic::Header::<BigEndian>::new(&bytes[..23]).is_err());
}
