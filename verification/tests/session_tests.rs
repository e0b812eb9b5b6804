use lib::change_frame::encode_property_changed;
use lib::juce_var::Value;
use lib::session::{ProtocolSession, SessionError, SessionUpdate};

#[test]
fn rejects_incremental_event_before_full_sync() {
    let mut session = ProtocolSession::new();
    let payload = encode_property_changed(&[], "property", &Value::Bool(true));
    assert!(matches!(
        session.ingest(&payload),
        Err(SessionError::NotReady)
    ));
}

#[test]
fn structural_change_invalidates_session() {
    let mut session = ProtocolSession::new();
    // The lifecycle rule does not require an existing layout: either way a
    // structural change means the next useful message must be a full sync.
    let child_moved = [0x05, 0x00, 0x01, 0x00, 0x01, 0x01];
    assert_eq!(
        session.ingest(&child_moved).unwrap(),
        SessionUpdate::NeedsFullSync
    );
    assert!(!session.is_ready());
}

#[test]
fn session_drops_layout_after_failed_resync() {
    use_synthetic_session(|session| {
        let unsupported = lib::valuetree::Node {
            name: "DEVICE".to_string(),
            properties: vec![],
            children: vec![],
        };
        assert!(matches!(
            session.ingest(&lib::change_frame::encode_full_sync(&unsupported)),
            Err(SessionError::Layout(_))
        ));
        assert!(!session.is_ready());
        assert!(session.capabilities().is_none());
        assert!(session.layout().is_none());
    });
}

#[test]
fn session_invalidates_layout_on_structure_change() {
    use_synthetic_session(|session| {
        let child_moved = [0x05, 0x00, 0x01, 0x00, 0x01, 0x01];
        assert_eq!(session.ingest(&child_moved).unwrap(), SessionUpdate::NeedsFullSync);
        assert!(!session.is_ready());
        assert!(session.capabilities().is_none());
    });
}

#[test]
fn session_decodes_events_and_encodes_commands_once_ready() {
    use_synthetic_session(|session| {
        let layout = session.layout().unwrap();
        let path = layout.channel_path(1).unwrap();
        let payload = encode_property_changed(&path, "channelOutputMute", &Value::Bool(true));
        assert_eq!(
            session.ingest(&payload).unwrap(),
            SessionUpdate::Event(lib::events::DeviceEvent::FaderMuteChanged {
                fader: lib::names::Fader::Physical2,
                muted: true,
            })
        );
        let payloads = session
            .encode(&lib::commands::Command::SetFaderMute { fader: lib::names::Fader::Physical2, mute: true })
            .unwrap();
        assert_eq!(payloads, vec![payload]);
        // A payload that is not one whole change frame is a decode error.
        assert!(matches!(session.ingest(&[0xff]), Err(SessionError::Decode)));
        assert!(session.is_ready());
        session.reset();
        assert!(!session.is_ready());
    });
}

/// Run `f` on a session readied by the synthetic full sync.
fn use_synthetic_session(f: impl FnOnce(&mut ProtocolSession)) {
    let mut session = ProtocolSession::new();
    let payload = lib::change_frame::encode_full_sync(&lib::test_fixtures::synthetic_root());
    match session.ingest(&payload).unwrap() {
        SessionUpdate::Ready { initial_events } => assert!(initial_events.is_empty()),
        other => panic!("expected Ready, got {other:?}"),
    }
    assert!(session.is_ready());
    let caps = session.capabilities().unwrap();
    assert_eq!(caps.faders().len(), 3);
    f(&mut session);
}
