use netflow::v9::raw::{DataFlowSet, OptionsTemplate, SetHeader, TemplateFlowSet};
use netflow::{ERROR_INVALID_FLOWSET_ID, ERROR_NOT_ENOUGH_DATA};

fn flow_packet_sets() -> Vec<u8> {
    let mut v = Vec::new();
    v.extend_from_slice(&324u16.to_be_bytes());
    v.extend_from_slice(&1372u16.to_be_bytes());
    v.resize(1372, 0xab);
    v
}

#[test]
fn data_flow_set_new_should_succeed_with_valid_data() {
    assert!(DataFlowSet::new(&flow_packet_sets()).is_ok());
}

#[test]
fn data_flow_set_new_should_fail_with_not_enough_data() {
    assert_eq!(
        DataFlowSet::new(&flow_packet_sets()[..SetHeader::LEN - 1]),
        Err(ERROR_NOT_ENOUGH_DATA)
    );
}

#[test]
fn data_flow_set_implements_debug() {
    println!("{:?}", DataFlowSet::new(&flow_packet_sets()).unwrap());
}

#[test]
fn set_header_new_should_succeed_with_valid_data() {
    assert!(SetHeader::new(&flow_packet_sets()).is_ok());
}

#[test]
fn set_header_new_should_fail_with_not_enough_data() {
    assert_eq!(
        SetHeader::new(&flow_packet_sets()[..SetHeader::LEN - 1]),
        Err(ERROR_NOT_ENOUGH_DATA)
    );
}

#[test]
fn set_header_accessors_expose_fields() {
    let bytes = flow_packet_sets();
    let header = SetHeader::new(&bytes).unwrap();

    assert_eq!(header.flowset_id(), 324);
    assert_eq!(header.length(), 1372);
}

#[test]
fn set_header_implements_debug() {
    println!("{:?}", SetHeader::new(&flow_packet_sets()).unwrap());
}

#[test]
fn raw_sets_are_told_apart_by_id() {
    let data = flow_packet_sets();
    assert_eq!(TemplateFlowSet::new(&data), Err(ERROR_INVALID_FLOWSET_ID));
    assert_eq!(OptionsTemplate::new(&data), Err(ERROR_INVALID_FLOWSET_ID));
    let template = [0u8, 0, 0, 4];
    assert!(TemplateFlowSet::new(&template).is_ok());
    assert_eq!(DataFlowSet::new(&template), Err(ERROR_INVALID_FLOWSET_ID));
    assert_eq!(TemplateFlowSet::new(&template).unwrap().bytes(), &template[..]);
    let options = [0u8, 1, 0, 4];
    assert!(OptionsTemplate::new(&options).is_ok());
    assert_eq!(TemplateFlowSet::new(&options), Err(ERROR_INVALID_FLOWSET_ID));
    let edge = [0u8, 255, 0, 4];
    assert_eq!(DataFlowSet::new(&edge), Err(ERROR_INVALID_FLOWSET_ID));
    let first_data = [1u8, 0, 0, 4];
    assert!(DataFlowSet::new(&first_data).is_ok());
    assert_eq!(OptionsTemplate::new(&options[..3]), Err(ERROR_NOT_ENOUGH_DATA));
}
