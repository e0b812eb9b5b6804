use lib::juce_var::{read_compressed_int, read_value, Reader};
use lib::names::DeviceModel;
use lib::session::ProtocolSession;
use lib::valuetree::{parse_node, parse_property};

#[test]
fn failed_compressed_int_stops_after_the_size_byte() {
    // Too many value bytes: the size byte is consumed.
    let mut pos = 0;
    assert_eq!(read_compressed_int(&[0x05, 1, 2, 3, 4, 5], &mut pos), None);
    assert_eq!(pos, 1);
    // Not enough value bytes: likewise.
    let mut pos = 0;
    assert_eq!(read_compressed_int(&[0x02, 1], &mut pos), None);
    assert_eq!(pos, 1);
    // Nothing to read: the cursor stays.
    let mut pos = 2;
    assert_eq!(read_compressed_int(&[0x01, 0x01], &mut pos), None);
    assert_eq!(pos, 2);
}

#[test]
fn failed_value_reads_stop_where_reading_stopped() {
    // An INT frame whose 4 payload bytes are cut short: past the frame length
    // and the marker.
    let mut pos = 0;
    assert_eq!(read_value(&[0x01, 0x05, 0x01, 0x4b, 0x00], &mut pos), None);
    assert_eq!(pos, 3);
    // A string frame whose bytes are not UTF-8: past the whole payload.
    let mut pos = 0;
    assert_eq!(read_value(&[0x01, 0x03, 0x05, 0xff, 0x00], &mut pos), None);
    assert_eq!(pos, 5);
    // An array whose second element is cut short: past the first element.
    let mut pos = 0;
    let bytes = [0x01, 0x0a, 0x07, 0x01, 0x02, 0x01, 0x01, 0x02, 0x01, 0x05, 0x01, 0x07];
    assert_eq!(read_value(&bytes, &mut pos), None);
    assert_eq!(pos, 11);
    // Through the reader.
    let mut r = Reader::new(&[0x01, 0x05, 0x01, 0x4b]);
    assert_eq!(r.read_value(), None);
    assert_eq!(r.remaining(), 1);
}

#[test]
fn failed_tree_reads_stop_where_reading_stopped() {
    // A property whose name reads but whose value is cut short.
    let mut data = b"faderLevel\0".to_vec();
    data.extend_from_slice(&[0x01, 0x05, 0x01, 0x4b]);
    let mut r = Reader::new(&data);
    assert!(parse_property(&mut r).is_none());
    assert_eq!(r.remaining(), 1);
    // A node whose name has no NUL: nothing is consumed.
    let mut r = Reader::new(b"ROOT");
    assert!(parse_node(&mut r).is_none());
    assert_eq!(r.remaining(), 4);
    // A node declaring one child that is missing: past the child count.
    let mut r = Reader::new(&[b'R', 0x00, 0x00, 0x01, 0x01]);
    assert!(parse_node(&mut r).is_none());
    assert_eq!(r.remaining(), 0);
}

#[test]
fn reader_u8_takes_the_next_byte() {
    let mut r = Reader::new(&[7, 8]);
    assert_eq!(r.read_u8(), Some(7));
    assert_eq!(r.remaining(), 1);
    assert_eq!(r.read_u8(), Some(8));
    assert_eq!(r.read_u8(), None);
    assert_eq!(r.remaining(), 0);
}

#[test]
fn system_name_detection_ignores_case() {
    assert_eq!(DeviceModel::detect(Some(99), Some("rodecaster duo")), DeviceModel::Duo);
    assert_eq!(DeviceModel::from_system_name("RØDECaster DUO"), DeviceModel::Duo);
    assert_eq!(DeviceModel::from_lowercase_name("pro ii"), DeviceModel::Pro2);
    assert_eq!(DeviceModel::from_lowercase_name("duo"), DeviceModel::Duo);
}

#[test]
fn session_capabilities_follow_the_layout() {
    let mut session = ProtocolSession::new();
    assert!(session.capabilities().is_none() && session.layout().is_none());
    let payload = lib::change_frame::encode_full_sync(&lib::test_fixtures::synthetic_root());
    session.ingest(&payload).unwrap();
    let caps = session.capabilities().unwrap();
    let layout = session.layout().unwrap();
    assert_eq!(caps.model(), layout.model());
    assert_eq!(caps.channel_count(), layout.channel_count());
    session.reset();
    assert!(session.capabilities().is_none() && session.layout().is_none());
}
