use lib::commands::{Command, EncodeError};
use lib::juce_var::read_cstring;
use lib::layout::{BuildError, Layout};
use lib::names::{DeviceModel, Fader, MixOutput, Source};
use lib::session::{ProtocolSession, SessionError};
use lib::test_fixtures::{minimal_layout, n, nc};
use lib::valuetree::Node;

#[test]
fn build_error_messages() {
    let missing = BuildError::MissingNode("MIX under root");
    assert_eq!(missing.to_string(), "fullSync missing required node: MIX under root");

    let phys = nc("PHYSICALINTERFACE", vec![n("FADER")]);
    let mut children = vec![phys, n("CHANNEL")];
    for _ in 0..14 {
        children.push(n("MIX"));
    }
    let err = Layout::from_full_sync(&nc("DEVICE", children)).unwrap_err();
    assert_eq!(
        err,
        BuildError::ShapeMismatch {
            what: "MIX",
            detail: "expected mix_total divisible by MIX_COUNT_PER_SOURCE=13, got 14".to_string(),
        }
    );
    assert_eq!(
        err.to_string(),
        "fullSync shape mismatch for MIX: expected mix_total divisible by MIX_COUNT_PER_SOURCE=13, got 14"
    );
}

#[test]
fn mix_run_too_long_for_u8_sources_is_a_shape_mismatch() {
    // 256 sources * 13 mixes: one source more than a u8 counts.
    let phys = nc("PHYSICALINTERFACE", vec![n("FADER")]);
    let mut children = vec![phys, n("CHANNEL")];
    for _ in 0..(256 * 13) {
        children.push(n("MIX"));
    }
    let err = Layout::from_full_sync(&nc("DEVICE", children)).unwrap_err();
    assert_eq!(
        err,
        BuildError::ShapeMismatch {
            what: "MIX",
            detail: "source_count overflows u8 (mix_total=3328)".to_string(),
        }
    );
}

#[test]
fn encode_error_messages() {
    let l = minimal_layout();
    let err = Command::SetFaderMute { fader: Fader::Physical5, mute: true }
        .encode(&l)
        .unwrap_err();
    assert_eq!(err, EncodeError::OutOfRange { what: "fader", index: 4, bound: 1 });
    assert_eq!(err.to_string(), "fader index 4 out of range (bound 1)");

    let err = EncodeError::FaderNotOnModel { fader: Fader::Virtual4, model: DeviceModel::Pro2 };
    assert_eq!(err.to_string(), "fader virtual4 does not exist on RODECaster Pro II");

    let err = EncodeError::MissingNode { what: "MASTERCHANNEL" };
    assert_eq!(err.to_string(), "layout has no MASTERCHANNEL node");

    let err = Command::SetMixMute { source: Source::Combo2, mix: MixOutput::Chat, mute: true }
        .encode(&l)
        .unwrap_err();
    assert_eq!(
        err,
        EncodeError::MixCellOutOfRange { source: 1, mix: 8, source_bound: 1, mix_bound: 13 }
    );
    assert_eq!(err.to_string(), "mix cell (1, 8) out of range (sources 1, mixes 13)");
}

#[test]
fn session_error_messages() {
    assert_eq!(SessionError::Decode.to_string(), "invalid or incomplete protocol payload");
    assert_eq!(SessionError::NotReady.to_string(), "protocol session needs a full sync");
    let layout = SessionError::Layout(BuildError::MissingNode("CHANNEL under root"));
    assert_eq!(
        layout.to_string(),
        "could not build device layout: fullSync missing required node: CHANNEL under root"
    );
    let encode = SessionError::Encode(EncodeError::MissingNode { what: "GUI" });
    assert_eq!(encode.to_string(), "could not encode command: layout has no GUI node");

    let session = ProtocolSession::new();
    let err = session.encode(&Command::PowerOff).unwrap_err();
    assert_eq!(err.to_string(), "protocol session needs a full sync");
}

#[test]
fn node_summary_counts_in_decimal() {
    let mut children = Vec::new();
    for _ in 0..12 {
        children.push(n("MIX"));
    }
    let node = nc("DEVICE", children);
    assert_eq!(node.to_string(), "Node(DEVICE, 0 props, 12 children)");
    let empty = Node { name: String::new(), properties: vec![], children: vec![] };
    assert_eq!(empty.to_string(), "Node(, 0 props, 0 children)");
}

#[test]
fn unknown_names_report_the_hint() {
    assert_eq!(
        "nope".parse::<Fader>(),
        Err("unknown fader: nope (try: p1, fader1, v1)".to_string())
    );
    assert_eq!(
        "nope".parse::<Source>(),
        Err("unknown source: nope (try: combo1, bt, game, cm1)".to_string())
    );
    assert_eq!(
        "nope".parse::<MixOutput>(),
        Err("unknown mix output: nope (try: hp1, speaker, bt, cm1)".to_string())
    );
}

#[test]
fn invalid_utf8_name_is_rejected() {
    let mut pos = 0;
    assert_eq!(read_cstring(&[0xff, 0xfe, 0x00], &mut pos), None);
    assert_eq!(pos, 0);
    let mut pos = 0;
    assert_eq!(read_cstring("é\0".as_bytes(), &mut pos), Some("é"));
}
