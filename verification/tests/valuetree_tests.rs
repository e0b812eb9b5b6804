use lib::juce_var::{Reader, Value};
use lib::valuetree::{parse_node, parse_property, parse_valuetree, Node, Property};

#[test]
fn test_parse_simple_property() {
    // faderLevel = 75: "faderLevel\0" + frame [01][05][01][4b 00 00 00].
    let data = [
        0x66, 0x61, 0x64, 0x65, 0x72, 0x4c, 0x65, 0x76, 0x65, 0x6c,
        0x00, // "faderLevel\0"
        0x01, // data_len_len
        0x05, // data_len
        0x01, // type (int)
        0x4b, 0x00, 0x00, 0x00, // value = 75
    ];

    let mut reader = Reader::new(&data);
    let prop = parse_property(&mut reader).expect("Should parse property");
    assert_eq!(prop.name, "faderLevel");
    assert_eq!(prop.value, Value::Int(75));
}

#[test]
fn test_parse_boolean_true() {
    let data = [
        0x6d, 0x65, 0x74, 0x65, 0x72, 0x53, 0x74, 0x65, 0x72, 0x65, 0x6f,
        0x00, // "meterStereo\0"
        0x01, 0x01, 0x02, // var bool true
    ];

    let mut reader = Reader::new(&data);
    let prop = parse_property(&mut reader).expect("Should parse property");
    assert_eq!(prop.name, "meterStereo");
    assert_eq!(prop.value, Value::Bool(true));
}

#[test]
fn test_parse_double() {
    // meterPeakL = 1.0 (0x3FF0000000000000 LE).
    let data = [
        0x6d, 0x65, 0x74, 0x65, 0x72, 0x50, 0x65, 0x61, 0x6b, 0x4c,
        0x00, // "meterPeakL\0"
        0x01, 0x09, 0x04, // var double frame
        0x00, 0x00, 0x00, 0x00, 0x00, 0x00, 0xf0, 0x3f, // 1.0
    ];

    let mut reader = Reader::new(&data);
    let prop = parse_property(&mut reader).expect("Should parse property");
    assert_eq!(prop.name, "meterPeakL");
    if let Value::Double(bits) = prop.value {
        let d = f64::from_bits(bits);
        assert!((d - 1.0).abs() < 0.0001);
    } else {
        panic!("Expected Double value");
    }
}

#[test]
fn test_parse_binary_property() {
    // mixUnlinkRequest: the real 6-byte binary blob protocol::mix emits.
    let mut data = b"mixUnlinkRequest\0".to_vec();
    data.extend_from_slice(&[0x01, 0x07, 0x08, 0x01, 0x01, 0x02, 0x01, 0x01, 0x02]);

    let mut reader = Reader::new(&data);
    let prop = parse_property(&mut reader).expect("Should parse property");
    assert_eq!(prop.name, "mixUnlinkRequest");
    assert_eq!(
        prop.value,
        Value::Binary(vec![0x01, 0x01, 0x02, 0x01, 0x01, 0x02])
    );
}

#[test]
fn node_stream_round_trips() {
    let node = Node {
        name: "ROOT".to_string(),
        properties: vec![Property {
            name: "name".to_string(),
            value: Value::String("fixture".to_string()),
        }],
        children: vec![Node {
            name: "CHILD".to_string(),
            properties: vec![Property {
                name: "enabled".to_string(),
                value: Value::Bool(true),
            }],
            children: vec![],
        }],
    };
    let mut bytes = Vec::new();
    node.write_to_stream(&mut bytes);
    let mut reader = Reader::new(&bytes);
    assert_eq!(parse_node(&mut reader), Some(node));
    assert_eq!(reader.remaining(), 0);
}

#[test]
fn test_node_display() {
    let node = Node {
        name: "FADER".to_string(),
        properties: vec![
            Property {
                name: "faderLevel".to_string(),
                value: Value::Int(75),
            },
            Property {
                name: "channelOutputMute".to_string(),
                value: Value::Bool(false),
            },
        ],
        children: vec![],
    };
    assert_eq!(node.to_string(), "Node(FADER, 2 props, 0 children)");
}
