use lib::frame::{frame_payload, scan_frame, FrameScan, Packet};

#[test]
fn test_packet_roundtrip() {
    let payload = vec![0x01, 0x02, 0x03, 0x04];
    let packet = Packet::new(payload.clone());
    let bytes = packet.to_bytes();

    let (parsed, len) = Packet::from_bytes(&bytes).unwrap();
    assert_eq!(len, bytes.len());
    assert_eq!(parsed.payload, payload);
}

#[test]
fn to_bytes_layout_is_magic_len_payload() {
    let packet = Packet::new(vec![0xAA, 0xBB]);
    let bytes = packet.to_bytes();
    assert_eq!(&bytes[0..4], &0xF2B4_9E2Cu32.to_le_bytes()); // magic, LE
    assert_eq!(&bytes[4..8], &2u32.to_le_bytes()); // length, LE
    assert_eq!(&bytes[8..], &[0xAA, 0xBB]);
}

#[test]
fn scan_frame_complete_returns_total_len() {
    let bytes = Packet::new(vec![0xAA, 0xBB, 0xCC]).to_bytes();
    assert_eq!(scan_frame(&bytes), FrameScan::Complete { len: bytes.len() });
}

#[test]
fn scan_frame_incomplete_when_shorter_than_header_or_frame() {
    assert_eq!(scan_frame(&[]), FrameScan::Incomplete);
    assert_eq!(scan_frame(&[0x2c, 0x9e, 0xb4]), FrameScan::Incomplete); // <8 bytes
    let full = Packet::new(vec![1, 2, 3, 4, 5]).to_bytes();
    // Valid magic + length, but one payload byte short.
    assert_eq!(scan_frame(&full[..full.len() - 1]), FrameScan::Incomplete);
}

#[test]
fn scan_frame_desync_on_bad_magic() {
    assert_eq!(scan_frame(&[0, 0, 0, 0, 0, 0, 0, 0]), FrameScan::Desync);
}

#[test]
fn scan_frame_stops_at_first_frame_boundary() {
    let first = Packet::new(vec![0x09]).to_bytes();
    let first_len = first.len();
    let mut two = first;
    two.extend_from_slice(&Packet::new(vec![0x08]).to_bytes());
    assert_eq!(scan_frame(&two), FrameScan::Complete { len: first_len });
}

#[test]
fn frame_payload_borrows_inner_bytes() {
    let payload = vec![0x02, 0xDE, 0xAD];
    let bytes = Packet::new(payload.clone()).to_bytes();
    assert_eq!(frame_payload(&bytes), Some(&payload[..]));
    // First frame's payload only, ignoring a trailing second frame.
    let mut two = bytes;
    two.extend_from_slice(&Packet::new(vec![0xFF]).to_bytes());
    assert_eq!(frame_payload(&two), Some(&payload[..]));
    // Incomplete / desync borrow nothing.
    assert_eq!(frame_payload(&[0x2c, 0x9e]), None);
    assert_eq!(frame_payload(&[0, 0, 0, 0, 0, 0, 0, 0]), None);
}

#[test]
fn frame_header_field_holds_magic() {
    let packet = Packet::new(vec![7]);
    assert_eq!(packet.header, lib::frame::MAGIC_HEADER);
    assert_eq!(packet.length, 1);
    // A length prefix that claims more than is there is incomplete, not desync.
    let mut bytes = packet.to_bytes();
    bytes[4] = 9;
    assert_eq!(scan_frame(&bytes), FrameScan::Incomplete);
    assert!(Packet::from_bytes(&bytes).is_none());
}
