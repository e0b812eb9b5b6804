use lib::commands::Command;
use lib::events::{decode_event, DeviceEvent};
use lib::juce_var::Value;
use lib::layout::Layout;
use lib::names::{NetworkParam, RadioTxParam, RcSyncMixParam, SipRegistrationParam, TestParam};
use lib::test_fixtures::{n, nc};
use lib::valuetree::Node;

/// A tree with the required families plus name-addressed ones: `NETWORK`,
/// `TEST`, a `SIPCALLING` container of two registrations, a run of two
/// `RADIOTX` nodes and a run of two `RCSYNCMIX` nodes.
fn tree() -> Node {
    let mut children = vec![nc("PHYSICALINTERFACE", vec![n("FADER")]), n("CHANNEL")];
    for _ in 0..13 {
        children.push(n("MIX"));
    }
    children.push(n("NETWORK")); // 15
    children.push(n("TEST")); // 16
    children.push(nc(
        "SIPCALLING",
        vec![n("SIPHEADER"), n("SIPREGISTRATION"), n("SIPREGISTRATION")],
    )); // 17
    children.push(n("RADIOTX")); // 18
    children.push(n("RADIOTX")); // 19
    children.push(n("RCSYNCMIX")); // 20
    children.push(n("RCSYNCMIX")); // 21
    nc("DEVICE", children)
}

fn decode_one(cmd: &Command, l: &Layout) -> DeviceEvent {
    let payloads = cmd.encode(l).unwrap();
    assert_eq!(payloads.len(), 1);
    decode_event(&payloads[0], l).unwrap()
}

#[test]
fn singleton_name_addressed_params_round_trip() {
    let l = Layout::from_full_sync(&tree()).unwrap();
    let cmd = Command::SetNetworkParam { param: NetworkParam::BtVisible, value: Value::Bool(true) };
    assert_eq!(
        decode_one(&cmd, &l),
        DeviceEvent::NetworkParamChanged { param: NetworkParam::BtVisible, value: Value::Bool(true) }
    );
    let cmd = Command::SetTestParam { param: TestParam::ToneGeneration, value: Value::Int(3) };
    assert_eq!(
        decode_one(&cmd, &l),
        DeviceEvent::TestParamChanged { param: TestParam::ToneGeneration, value: Value::Int(3) }
    );
}

#[test]
fn indexed_name_addressed_params_round_trip() {
    let l = Layout::from_full_sync(&tree()).unwrap();
    let cmd = Command::SetSipRegistrationParam {
        registration: 1,
        param: SipRegistrationParam::IsRegistered,
        value: Value::Bool(true),
    };
    assert_eq!(
        decode_one(&cmd, &l),
        DeviceEvent::SipRegistrationParamChanged {
            registration: 1,
            param: SipRegistrationParam::IsRegistered,
            value: Value::Bool(true),
        }
    );
    // RCSYNCMIX names overlap the routing-matrix names; on their own nodes
    // they still read back as rcSync mix parameters.
    let cmd = Command::SetRcSyncMixParam {
        mix: 1,
        param: RcSyncMixParam::MixMute,
        value: Value::Bool(true),
    };
    assert_eq!(
        decode_one(&cmd, &l),
        DeviceEvent::RcSyncMixParamChanged {
            mix: 1,
            param: RcSyncMixParam::MixMute,
            value: Value::Bool(true),
        }
    );
}

#[test]
fn position_addressed_params_read_back_the_node_position() {
    let l = Layout::from_full_sync(&tree()).unwrap();
    // RADIOTX starts at root child 18: the second transmitter sits at 19, and
    // the decoder reports the position's low byte.
    let cmd = Command::SetRadioTxParam { tx: 1, param: RadioTxParam::Connected, value: Value::Bool(true) };
    assert_eq!(
        decode_one(&cmd, &l),
        DeviceEvent::RadioTxParamChanged { tx: 19, param: RadioTxParam::Connected, value: Value::Bool(true) }
    );
}

#[test]
fn fader_level_above_midi_range_reads_back_clamped() {
    let l = lib::test_fixtures::layout();
    let cmd = Command::SetFaderLevel { fader: lib::names::Fader::Physical2, level: 200 };
    assert_eq!(
        decode_one(&cmd, &l),
        DeviceEvent::FaderLevelChanged { fader: lib::names::Fader::Physical2, level: 127 }
    );
    let cmd = Command::SetFaderLevel { fader: lib::names::Fader::Physical2, level: 127 };
    assert_eq!(
        decode_one(&cmd, &l),
        DeviceEvent::FaderLevelChanged { fader: lib::names::Fader::Physical2, level: 127 }
    );
}
