use lib::juce_var::{read_compressed_int, read_cstring, read_value, write_compressed_int, Reader, Value};

/// Encode a value, decode it back, and assert it survives unchanged and the
/// frame is fully consumed.
fn assert_round_trip(value: Value) {
    let mut buf = Vec::new();
    value.write_to_stream(&mut buf);
    let mut pos = 0;
    let decoded = read_value(&buf, &mut pos).expect("decodes");
    assert_eq!(decoded, value, "round-trip value mismatch");
    assert_eq!(pos, buf.len(), "frame not fully consumed for {value:?}");
}

#[test]
fn round_trips_every_variant() {
    assert_round_trip(Value::Bool(true));
    assert_round_trip(Value::Bool(false));
    assert_round_trip(Value::Int(75));
    assert_round_trip(Value::Int(-1));
    assert_round_trip(Value::Int(i32::MIN as i64));
    assert_round_trip(Value::Int64(1 << 40));
    assert_round_trip(Value::Double(0.5f64.to_bits()));
    assert_round_trip(Value::Double(1.0f64.to_bits()));
    assert_round_trip(Value::String("0.472441|0.472441".to_string()));
    assert_round_trip(Value::String(String::new()));
    assert_round_trip(Value::Binary(vec![0x01, 0x01, 0x02, 0x01, 0x01, 0x02]));
    assert_round_trip(Value::Array(vec![Value::Int(1), Value::Int(2)]));
    assert_round_trip(Value::Undefined);
}

#[test]
fn compressed_int_round_trips() {
    for v in [0i64, 1, 5, 7, 9, 300, -5, 0xFFFF, 0x0100_0000] {
        let mut buf = Vec::new();
        write_compressed_int(&mut buf, v);
        let mut pos = 0;
        assert_eq!(read_compressed_int(&buf, &mut pos), Some(v), "for {v}");
        assert_eq!(pos, buf.len());
    }
}

#[test]
fn write_matches_known_juce_frames() {
    let mut buf = Vec::new();
    Value::Bool(true).write_to_stream(&mut buf);
    assert_eq!(buf, [0x01, 0x01, 0x02]); // var bool true

    buf.clear();
    Value::Bool(false).write_to_stream(&mut buf);
    assert_eq!(buf, [0x01, 0x01, 0x03]); // var bool false

    buf.clear();
    Value::Int(75).write_to_stream(&mut buf);
    assert_eq!(buf, [0x01, 0x05, 0x01, 0x4b, 0x00, 0x00, 0x00]); // var int

    buf.clear();
    Value::Int(0xFFFF_FFFFu32 as i64).write_to_stream(&mut buf);
    assert_eq!(buf, [0x01, 0x05, 0x01, 0xff, 0xff, 0xff, 0xff]); // source_id = -1

    buf.clear();
    Value::Binary(vec![0x01, 0x01, 0x02, 0x01, 0x01, 0x02]).write_to_stream(&mut buf);
    assert_eq!(buf, [0x01, 0x07, 0x08, 0x01, 0x01, 0x02, 0x01, 0x01, 0x02]);
}

#[test]
fn reads_empty_frame_as_void() {
    // A zero-length frame (compressedInt(0)) decodes to a void var.
    let mut pos = 0;
    assert_eq!(read_value(&[0x00], &mut pos), Some(Value::Undefined));
    assert_eq!(pos, 1);
}

#[test]
fn rejects_oversized_compressed_int() {
    // More than 4 value bytes is corrupt per JUCE.
    let mut pos = 0;
    assert_eq!(read_compressed_int(&[0x05, 1, 2, 3, 4, 5], &mut pos), None);
}

#[test]
fn compressed_int_exact_bytes() {
    let mut buf = Vec::new();
    write_compressed_int(&mut buf, 300);
    assert_eq!(buf, [0x02, 0x2c, 0x01]);
    buf.clear();
    write_compressed_int(&mut buf, -5);
    assert_eq!(buf, [0x81, 0x05]);
    buf.clear();
    write_compressed_int(&mut buf, 0);
    assert_eq!(buf, [0x00]);
}

#[test]
fn double_and_unknown_frames() {
    let mut buf = Vec::new();
    Value::Double(0.5f64.to_bits()).write_to_stream(&mut buf);
    assert_eq!(buf[..2], [0x01, 0x09]);
    assert_eq!(buf[2], 0x04);
    assert_eq!(&buf[3..], &0.5f64.to_bits().to_le_bytes());
    assert_round_trip(Value::Unknown { type_id: 0x42, data: vec![9, 8, 7] });
    assert_round_trip(Value::Array(vec![
        Value::String("a".to_string()),
        Value::Array(vec![Value::Bool(false)]),
    ]));
}

#[test]
fn as_bool_and_as_int_accessors() {
    assert_eq!(Value::Bool(true).as_bool(), Some(true));
    assert_eq!(Value::Int(3).as_bool(), None);
    assert_eq!(Value::Int(3).as_int(), Some(3));
    assert_eq!(Value::Int64(-7).as_int(), Some(-7));
    assert_eq!(Value::Bool(false).as_int(), None);
}

#[test]
fn truncated_frames_are_rejected() {
    // An INT frame that claims 4 payload bytes but carries 2.
    let mut pos = 0;
    assert_eq!(read_value(&[0x01, 0x05, 0x01, 0x4b, 0x00], &mut pos), None);
    // A string without its terminating NUL is not a C string.
    let mut pos = 0;
    assert_eq!(read_cstring(b"abc", &mut pos), None);
    let mut pos = 0;
    assert_eq!(read_cstring(b"abc\0rest", &mut pos), Some("abc"));
    assert_eq!(pos, 4);
}

#[test]
fn reader_tracks_position() {
    let mut buf = Vec::new();
    write_compressed_int(&mut buf, 300);
    buf.extend_from_slice(b"name\0");
    Value::Int(1).write_to_stream(&mut buf);
    let mut r = Reader::new(&buf);
    assert_eq!(r.remaining(), buf.len());
    assert_eq!(r.read_compressed_int(), Some(300));
    assert_eq!(r.read_cstring(), Some("name"));
    assert_eq!(r.read_value(), Some(Value::Int(1)));
    assert_eq!(r.remaining(), 0);
    assert_eq!(r.read_u8(), None);
}
