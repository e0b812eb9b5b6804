use lib::usb::{
    frame_payload, handshake_bytes, scan_frame, FrameScan, Packet, MAX_MESSAGE_LEN, REPORT_ID_IN,
    REPORT_ID_OUT, REPORT_SIZE,
};

#[test]
fn packet_roundtrip_single_report() {
    let payload = vec![0x02, 0xDE, 0xAD, 0xBE, 0xEF];
    let bytes = Packet::new(payload.clone()).to_bytes();
    assert_eq!(bytes.len(), REPORT_SIZE);

    let (parsed, consumed) = Packet::from_bytes(&bytes).unwrap();
    assert_eq!(consumed, bytes.len());
    assert_eq!(parsed.payload, payload);
    assert_eq!(parsed.length as usize, payload.len());
}

#[test]
fn to_bytes_layout_is_len_payload_no_magic() {
    let bytes = Packet::new(vec![0xAA, 0xBB]).to_bytes();
    assert_eq!(bytes[0], REPORT_ID_OUT); // report id, not a magic word
    assert_eq!(&bytes[1..5], &2u32.to_le_bytes()); // length, LE
    assert_eq!(&bytes[5..7], &[0xAA, 0xBB]); // body
    assert!(bytes[7..].iter().all(|&b| b == 0)); // zero padding
}

#[test]
fn handshake_matches_known_bytes() {
    let bytes = handshake_bytes();
    assert_eq!(bytes.len(), REPORT_SIZE);
    assert_eq!(bytes[0], REPORT_ID_OUT);
    // framed handshake: [04 00 00 00][AD 10 A7 B0]
    assert_eq!(&bytes[1..9], &[0x04, 0x00, 0x00, 0x00, 0xAD, 0x10, 0xA7, 0xB0]);
    assert!(bytes[9..].iter().all(|&b| b == 0));
}

#[test]
fn packet_roundtrip_multi_report() {
    // 600-byte body -> framed 604 -> 3 reports (3 * 256 raw bytes).
    let payload: Vec<u8> = (0..600u32).map(|i| (i % 251) as u8).collect();
    let bytes = Packet::new(payload.clone()).to_bytes();
    assert_eq!(bytes.len(), 3 * REPORT_SIZE);

    let (parsed, consumed) = Packet::from_bytes(&bytes).unwrap();
    assert_eq!(consumed, 3 * REPORT_SIZE);
    assert_eq!(parsed.payload, payload);
    assert_eq!(frame_payload(&bytes), Some(payload));
}

#[test]
fn scan_frame_complete_incomplete_desync() {
    let bytes = Packet::new(vec![1, 2, 3]).to_bytes();
    assert_eq!(scan_frame(&bytes), FrameScan::Complete { len: REPORT_SIZE });

    // Fewer than one report -> Incomplete.
    assert_eq!(scan_frame(&bytes[..REPORT_SIZE - 1]), FrameScan::Incomplete);
    assert_eq!(scan_frame(&[]), FrameScan::Incomplete);

    // Multi-report message missing its last report -> Incomplete.
    let big = Packet::new(vec![7u8; 600]).to_bytes();
    assert_eq!(scan_frame(&big[..2 * REPORT_SIZE]), FrameScan::Incomplete);

    // Zero length prefix in an otherwise full report -> Desync.
    let zero = [0u8; REPORT_SIZE];
    assert_eq!(scan_frame(&zero), FrameScan::Desync);

    // Oversized length prefix -> Desync.
    let mut huge = [0u8; REPORT_SIZE];
    huge[1..5].copy_from_slice(&(MAX_MESSAGE_LEN as u32 + 1).to_le_bytes());
    assert_eq!(scan_frame(&huge), FrameScan::Desync);
}

#[test]
fn report_aligned_stops_at_first_message_boundary() {
    // Two messages back to back, each whole-report aligned.
    let first = Packet::new(vec![0x02, 0xAA]).to_bytes();
    let first_len = first.len();
    let mut two = first;
    two.extend_from_slice(&Packet::new(vec![0x02, 0xBB, 0xCC]).to_bytes());

    // scan + payload see only the first message.
    assert_eq!(scan_frame(&two), FrameScan::Complete { len: first_len });
    assert_eq!(frame_payload(&two), Some(vec![0x02, 0xAA]));

    // After draining the first, the second decodes.
    let (_, consumed) = Packet::from_bytes(&two).unwrap();
    assert_eq!(frame_payload(&two[consumed..]), Some(vec![0x02, 0xBB, 0xCC]));
}

#[test]
fn from_bytes_ignores_report_id_so_in_stream_decodes() {
    // Device->host reports carry REPORT_ID_IN; decode must still work.
    let mut bytes = Packet::new(vec![0x02, 0x11, 0x22]).to_bytes();
    bytes[0] = REPORT_ID_IN;
    assert_eq!(frame_payload(&bytes), Some(vec![0x02, 0x11, 0x22]));
}

#[test]
fn exact_report_boundary_body_fills_one_report() {
    // 251 body bytes + 4 length bytes = 255 = one report's payload exactly.
    let payload = vec![0x5A; 251];
    let bytes = Packet::new(payload.clone()).to_bytes();
    assert_eq!(bytes.len(), REPORT_SIZE);
    assert_eq!(scan_frame(&bytes), FrameScan::Complete { len: REPORT_SIZE });
    assert_eq!(frame_payload(&bytes), Some(payload));
    // One byte more spills into a second report.
    let bytes = Packet::new(vec![0x5A; 252]).to_bytes();
    assert_eq!(bytes.len(), 2 * REPORT_SIZE);
    assert_eq!(bytes[REPORT_SIZE], REPORT_ID_OUT);
}
