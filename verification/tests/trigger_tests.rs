use lib::juce_var::Value;
use lib::trigger::{
    bool_pair, decode_bool_pair, decode_phase, press_value, release_value, TriggerPhase,
    PRESS_BYTES, RELEASE_BYTES,
};

#[test]
fn bool_pair_encoding() {
    assert_eq!(PRESS_BYTES, [0x01, 0x01, 0x02, 0x01, 0x01, 0x02]);
    assert_eq!(RELEASE_BYTES, [0x01, 0x01, 0x03, 0x01, 0x01, 0x03]);
}

#[test]
fn bool_pair_round_trips() {
    assert_eq!(decode_bool_pair(&PRESS_BYTES), Some((true, true)));
    assert_eq!(decode_bool_pair(&RELEASE_BYTES), Some((false, false)));
    assert_eq!(decode_bool_pair(&bool_pair(true, false)), Some((true, false)));
    assert_eq!(decode_bool_pair(&bool_pair(false, true)), Some((false, true)));
}

#[test]
fn decode_phase_semantics() {
    assert_eq!(decode_phase(&press_value()), Some(TriggerPhase::Press));
    assert_eq!(decode_phase(&release_value()), Some(TriggerPhase::Release));
    assert_eq!(decode_phase(&Value::Binary(vec![0x01, 0x01, 0x02])), None);
    assert_eq!(decode_phase(&Value::Bool(true)), None);
}

#[test]
fn decode_bool_pair_rejects_bad_framing() {
    assert_eq!(decode_bool_pair(&[0x01, 0x01, 0x02, 0x01, 0x01]), None);
    assert_eq!(decode_bool_pair(&[0x02, 0x01, 0x02, 0x01, 0x01, 0x02]), None);
    assert_eq!(decode_bool_pair(&[0x01, 0x01, 0x04, 0x01, 0x01, 0x02]), None);
    assert_eq!(decode_bool_pair(&[0x01, 0x01, 0x02, 0x01, 0x01, 0x09]), None);
    assert_eq!(press_value(), Value::Binary(PRESS_BYTES.to_vec()));
    assert_eq!(release_value(), Value::Binary(RELEASE_BYTES.to_vec()));
}
