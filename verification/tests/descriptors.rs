use nusb::descriptors::{
    decode_string_descriptor, descriptor_request, string_descriptor_request,
    string_from_descriptor, validate_config_descriptor, ConfigDescriptorReader,
    DESCRIPTOR_TYPE_CONFIGURATION,
};
use nusb::transfer::{ControlType, Recipient};

/// A configuration descriptor with one interface and one endpoint.
fn sample_config() -> Vec<u8> {
    vec![
        9, 2, 25, 0, 1, 1, 0, 0x80, 50, // configuration
        9, 4, 0, 0, 1, 0xff, 0, 0, 0, // interface
        7, 5, 0x81, 2, 64, 0, 0, // endpoint
    ]
}

#[test]
fn valid_config_descriptor_gives_total_length() {
    assert_eq!(validate_config_descriptor(&sample_config()), Some(25));
}

#[test]
fn config_descriptor_may_be_followed_by_more_bytes() {
    let mut buf = sample_config();
    buf.extend_from_slice(&[0, 0, 0]);
    assert_eq!(validate_config_descriptor(&buf), Some(25));
}

#[test]
fn short_buffer_is_rejected() {
    assert_eq!(validate_config_descriptor(&[]), None);
    assert_eq!(validate_config_descriptor(&[9, 2, 9, 0, 0, 0, 0, 0]), None);
}

#[test]
fn short_header_is_rejected() {
    let mut buf = sample_config();
    buf[0] = 8;
    assert_eq!(validate_config_descriptor(&buf), None);
}

#[test]
fn wrong_type_is_rejected() {
    let mut buf = sample_config();
    buf[1] = 1;
    assert_eq!(validate_config_descriptor(&buf), None);
}

#[test]
fn total_length_past_buffer_is_rejected() {
    let mut buf = sample_config();
    buf[2] = 26;
    assert_eq!(validate_config_descriptor(&buf), None);
}

#[test]
fn total_length_inside_header_is_rejected() {
    let buf = vec![9, 2, 5, 0, 1, 1, 0, 0x80, 50];
    assert_eq!(validate_config_descriptor(&buf), None);
}

#[test]
fn header_only_descriptor_is_valid() {
    let buf = vec![9, 2, 9, 0, 0, 1, 0, 0x80, 50];
    assert_eq!(validate_config_descriptor(&buf), Some(9));
}

#[test]
fn descriptor_chain_overrunning_total_is_rejected() {
    let mut buf = sample_config();
    buf[18] = 8; // the endpoint descriptor claims one byte too many
    buf.push(0);
    assert_eq!(validate_config_descriptor(&buf), None);
}

#[test]
fn descriptor_with_tiny_length_is_rejected() {
    let mut buf = sample_config();
    buf[9] = 1;
    assert_eq!(validate_config_descriptor(&buf), None);
}

#[test]
fn config_request_values() {
    let r = descriptor_request(DESCRIPTOR_TYPE_CONFIGURATION, 3);
    assert_eq!(r.control.control_type, ControlType::Standard);
    assert_eq!(r.control.recipient, Recipient::Device);
    assert_eq!(r.control.request, 6);
    assert_eq!(r.control.value, 0x0203);
    assert_eq!(r.control.index, 0);
    assert_eq!(r.length, 255);
}

#[test]
fn config_request_index_past_a_byte_is_or_ed_in() {
    let r = descriptor_request(DESCRIPTOR_TYPE_CONFIGURATION, 0x0300);
    assert_eq!(r.control.value, 0x0300);
}

#[test]
fn string_request_values() {
    let r = string_descriptor_request(2);
    assert_eq!(r.control.value, 0x0302);
    assert_eq!(r.control.request, 6);
    assert_eq!(r.length, 255);
}

#[test]
fn reader_asks_for_each_configuration_in_order() {
    let mut reader = ConfigDescriptorReader::new(2);
    let first = reader.next_request().unwrap();
    assert_eq!(first.control.value, 0x0200);
    reader.accept(&sample_config());
    let second = reader.next_request().unwrap();
    assert_eq!(second.control.value, 0x0201);
    let mut other = sample_config();
    other[5] = 2;
    reader.accept(&other);
    assert!(reader.next_request().is_none());
    let descriptors = reader.into_descriptors();
    assert_eq!(descriptors, vec![sample_config(), other]);
}

#[test]
fn reader_with_no_configurations_asks_nothing() {
    let reader = ConfigDescriptorReader::new(0);
    assert!(reader.next_request().is_none());
    assert!(reader.into_descriptors().is_empty());
}

/// The answer to a string descriptor request for "Hi".
fn hi_descriptor() -> Vec<u8> {
    vec![6, 3, b'H', 0, b'i', 0]
}

#[test]
fn string_descriptor_units_are_little_endian() {
    assert_eq!(decode_string_descriptor(&hi_descriptor()), vec![0x48, 0x69]);
    assert_eq!(
        decode_string_descriptor(&[4, 3, 0x34, 0x12]),
        vec![0x1234]
    );
}

#[test]
fn string_descriptor_reads_zeros_past_the_answer() {
    // bLength claims six bytes but only four came back
    assert_eq!(decode_string_descriptor(&[6, 3, b'A', 0]), vec![0x41, 0]);
}

#[test]
fn empty_string_descriptor() {
    assert_eq!(decode_string_descriptor(&[2, 3]), Vec::<u16>::new());
    assert_eq!(string_from_descriptor(&[2, 3]), Some(String::new()));
}

#[test]
fn string_descriptor_text() {
    assert_eq!(string_from_descriptor(&hi_descriptor()), Some("Hi".to_string()));
    // U+00E9 and U+20AC
    assert_eq!(
        string_from_descriptor(&[6, 3, 0xe9, 0x00, 0xac, 0x20]),
        Some("é€".to_string())
    );
}

#[test]
fn string_descriptor_with_lone_surrogate_is_none() {
    assert_eq!(string_from_descriptor(&[4, 3, 0x00, 0xd8]), None);
}

#[test]
fn string_descriptor_with_surrogate_pair() {
    // U+1F600 as the pair D83D DE00
    assert_eq!(
        string_from_descriptor(&[6, 3, 0x3d, 0xd8, 0x00, 0xde]),
        Some("\u{1F600}".to_string())
    );
    // a low surrogate first is invalid
    assert_eq!(string_from_descriptor(&[6, 3, 0x00, 0xde, 0x3d, 0xd8]), None);
}
