//! High-level session management and connection lifecycle.
//!
//! [`ProtocolSession`] is the central state machine for communicating with a
//! RØDECaster. It manages device discovery, keeps track of the active layout,
//! decodes incoming payloads into [`DeviceEvent`]s, and encodes [`Command`]s
//! into wire payloads.
//!
//! # The Session Lifecycle
//!
//! 1. **Initialization**: Create a new session with [`ProtocolSession::new`].
//!    At this stage, the session is waiting for the device to introduce itself.
//! 2. **Full Sync**: When first connected (or after a handshake), the device sends
//!    a full state snapshot (`fullSync`). Ingesting this yields [`SessionUpdate::Ready`],
//!    which populates [`DeviceCapabilities`] and yields `initial_events` describing
//!    the current state of all faders, mutes, and routing.
//! 3. **Steady State**: While connected, incoming messages yield [`SessionUpdate::Event`]
//!    for real-time updates (fader movements, knob adjustments, button presses).
//!    You can also call [`ProtocolSession::encode`] to send commands to the device.
//! 4. **Resync**: If the device tree topology changes (e.g. major mode switch),
//!    the session yields [`SessionUpdate::NeedsFullSync`] and resets its layout.
//!    Your transport should request a fresh full sync before resuming commands.
//!
//! [`ProtocolSession::ingest`] states this lifecycle exactly, for every payload.

use vstd::prelude::*;

use crate::capabilities::{
    spec_capabilities, spec_faders, spec_mix_outputs, spec_sources, CapabilitiesView, DeviceCapabilities,
};
use crate::change_frame::{decode, spec_decode, ChangeFrame, FrameModel};
use crate::commands::{frames_view, spec_encode, spec_encode_failure_text, Command, EncodeError};
use crate::events::{
    decode_event_from_frame, event_models, extract_initial_state, spec_decode_change_frame,
    spec_initial_state, DeviceEvent,
};
use crate::layout::{spec_build, spec_build_failure_text, BuildError, Layout, LayoutView};
use crate::text::concat_str;

verus! {

/// Result of ingesting one complete JUCE change-frame payload.
#[derive(Debug, PartialEq)]
pub enum SessionUpdate {
    /// A full sync established or replaced the device layout.
    Ready {
        /// Semantic state extracted from the complete full sync.
        initial_events: Vec<DeviceEvent>,
    },
    /// One incremental device event.
    Event(DeviceEvent),
    /// Tree topology changed. Request a fresh full sync before sending commands
    /// or interpreting further property paths.
    NeedsFullSync,
}

impl Clone for SessionUpdate {
    fn clone(&self) -> (r: Self)
        ensures
            match (*self, r) {
                (SessionUpdate::Ready { initial_events: a }, SessionUpdate::Ready { initial_events: b }) =>
                    event_models(b@) == event_models(a@),
                (SessionUpdate::Event(a), SessionUpdate::Event(b)) => b@ == a@,
                (SessionUpdate::NeedsFullSync, SessionUpdate::NeedsFullSync) => true,
                _ => false,
            },
    {
        match self {
            SessionUpdate::Ready { initial_events } => {
                let mut out: Vec<DeviceEvent> = Vec::new();
                let mut i: usize = 0;
                while i < initial_events.len()
                    invariant
                        i <= initial_events@.len(),
                        event_models(out@) == event_models(initial_events@.subrange(0, i as int)),
                    decreases initial_events@.len() - i,
                {
                    let e = initial_events[i].clone();
                    let ghost before = out@;
                    out.push(e);
                    proof {
                        assert(out@.drop_last() =~= before);
                        assert(initial_events@.subrange(0, i + 1).drop_last() =~= initial_events@.subrange(
                            0,
                            i as int,
                        ));
                    }
                    i = i + 1;
                }
                proof {
                    assert(initial_events@.subrange(0, initial_events@.len() as int) =~= initial_events@);
                }
                SessionUpdate::Ready { initial_events: out }
            },
            SessionUpdate::Event(e) => SessionUpdate::Event(e.clone()),
            SessionUpdate::NeedsFullSync => SessionUpdate::NeedsFullSync,
        }
    }
}

/// Failure to decode a payload, establish a layout, or encode a command.
#[derive(Debug)]
pub enum SessionError {
    /// The payload is not exactly one valid JUCE change frame.
    Decode,
    /// A full sync did not contain the required device topology.
    Layout(BuildError),
    /// A command or incremental event was attempted before a valid full sync.
    NotReady,
    /// The command is not valid for the discovered layout.
    Encode(EncodeError),
}

/// The message of a session error.
pub open spec fn spec_session_error_text(e: SessionError) -> Seq<char> {
    match e {
        SessionError::Decode => "invalid or incomplete protocol payload"@,
        SessionError::Layout(error) => "could not build device layout: "@
            + spec_build_failure_text(error.failure()),
        SessionError::NotReady => "protocol session needs a full sync"@,
        SessionError::Encode(error) => "could not encode command: "@ + spec_encode_failure_text(
            error.failure(),
        ),
    }
}

impl SessionError {
    /// The human-readable message for this error.
    pub fn to_string(&self) -> (r: String)
        ensures
            r@ == spec_session_error_text(*self),
    {
        match self {
            SessionError::Decode => "invalid or incomplete protocol payload".to_owned(),
            SessionError::Layout(error) => {
                let detail = error.to_string();
                concat_str("could not build device layout: ", detail.as_str())
            },
            SessionError::NotReady => "protocol session needs a full sync".to_owned(),
            SessionError::Encode(error) => {
                let detail = error.to_string();
                concat_str("could not encode command: ", detail.as_str())
            },
        }
    }
}

/// Stateful, transport-independent RODECaster protocol session.
#[derive(Debug)]
pub struct ProtocolSession {
    layout: Option<Layout>,
    capabilities: Option<DeviceCapabilities>,
}

/// The state of a session: the layout and capabilities of the most recent
/// valid full sync, if any.
pub struct SessionView {
    pub layout: Option<LayoutView>,
    pub capabilities: Option<CapabilitiesView>,
}

impl View for ProtocolSession {
    type V = SessionView;

    closed spec fn view(&self) -> SessionView {
        SessionView {
            layout: match self.layout {
                Some(l) => Some(l@),
                None => None,
            },
            capabilities: match self.capabilities {
                Some(c) => Some(c@),
                None => None,
            },
        }
    }
}

/// Capabilities `c` are those a full sync with layout `l` yields: the
/// model, the fader, source and mix-output lists, and the family counts all
/// come from the layout (only the firmware text comes from the tree).
pub open spec fn capabilities_of(l: LayoutView, c: CapabilitiesView) -> bool {
    &&& c.model == l.model
    &&& c.faders == spec_faders(l.model, l.fader.count as nat)
    &&& c.sources == spec_sources(l.source_count as nat)
    &&& c.mix_outputs == spec_mix_outputs(13)
    &&& c.channel_count == l.channel.count
    &&& c.input_source_count == l.input_source.count
    &&& c.headphone_count == l.headphone.count
    &&& c.effects_count == l.effects.count
    &&& c.pad_count == l.pad.count
    &&& c.sip_call_slots_count == l.sip_call_slots.count
    &&& c.sip_registration_count == l.sip_registration.count
}

/// Every state a session reaches: capabilities are present exactly when a
/// layout is, and then they are that layout's.
pub open spec fn session_consistent(v: SessionView) -> bool {
    match (v.layout, v.capabilities) {
        (None, None) => true,
        (Some(l), Some(c)) => capabilities_of(l, c),
        _ => false,
    }
}

/// The state before any full sync.
pub open spec fn waiting() -> SessionView {
    SessionView { layout: None, capabilities: None }
}

impl Default for ProtocolSession {
    fn default() -> (r: Self)
        ensures
            r@ == waiting(),
    {
        ProtocolSession { layout: None, capabilities: None }
    }
}

impl ProtocolSession {
    /// The session invariant, held by every value of the type.
    #[verifier::type_invariant]
    spec fn consistent(self) -> bool {
        session_consistent(self@)
    }

    /// Create a session waiting for its first full sync.
    pub fn new() -> (r: Self)
        ensures
            r@ == waiting(),
    {
        ProtocolSession { layout: None, capabilities: None }
    }

    /// Whether a valid full sync has established the current address layout.
    pub fn is_ready(&self) -> (r: bool)
        ensures
            r == self@.layout is Some,
            session_consistent(self@),
    {
        proof {
            use_type_invariant(self);
        }
        self.layout.is_some()
    }

    /// Capabilities discovered from the most recent full sync.
    pub fn capabilities(&self) -> (r: Option<&DeviceCapabilities>)
        ensures
            match self@.capabilities {
                Some(c) => r matches Some(x) && x@ == c,
                None => r is None,
            },
            session_consistent(self@),
            r is Some <==> self@.layout is Some,
            r matches Some(c) ==> capabilities_of(self@.layout.unwrap(), c@),
    {
        proof {
            use_type_invariant(self);
        }
        match &self.capabilities {
            Some(c) => Some(c),
            None => None,
        }
    }

    /// Current low-level address layout for advanced consumers.
    pub fn layout(&self) -> (r: Option<&Layout>)
        ensures
            match self@.layout {
                Some(l) => r matches Some(x) && x@ == l,
                None => r is None,
            },
            session_consistent(self@),
    {
        proof {
            use_type_invariant(self);
        }
        match &self.layout {
            Some(l) => Some(l),
            None => None,
        }
    }

    /// Forget the current layout and return to the pre-full-sync state.
    pub fn reset(&mut self)
        ensures
            final(self)@ == waiting(),
    {
        *self = ProtocolSession { layout: None, capabilities: None };
    }

    /// Ingest exactly one change-frame payload, without a TCP or USB wrapper.
    ///
    /// A payload that is not one change frame is refused and changes nothing.
    /// A full sync replaces the session: on a tree with a layout the session
    /// becomes ready with that layout, its capabilities and its initial
    /// state; on a tree without one it is left waiting. A topology change
    /// leaves the session waiting for a new full sync. A property change or
    /// removal is decoded through the current layout, and refused, changing
    /// nothing, while there is none.
    #[verifier::rlimit(40)]
    pub fn ingest(&mut self, payload: &[u8]) -> (r: Result<SessionUpdate, SessionError>)
        ensures
            session_consistent(final(self)@),
            match spec_decode(payload@) {
                None => r matches Err(SessionError::Decode) && final(self)@ == old(self)@,
                Some(FrameModel::FullSync { root }) => match spec_build(root) {
                    Ok(v) => r matches Ok(SessionUpdate::Ready { initial_events }) && event_models(
                        initial_events@,
                    ) == spec_initial_state(root, v) && final(self)@ == (SessionView {
                        layout: Some(v),
                        capabilities: Some(spec_capabilities(root, v)),
                    }),
                    Err(e) => r matches Err(SessionError::Layout(x)) && x.failure() == e
                        && final(self)@ == waiting(),
                },
                Some(FrameModel::ChildAdded { .. }) => r matches Ok(SessionUpdate::NeedsFullSync)
                    && final(self)@ == waiting(),
                Some(FrameModel::ChildRemoved { .. }) => r matches Ok(SessionUpdate::NeedsFullSync)
                    && final(self)@ == waiting(),
                Some(FrameModel::ChildMoved { .. }) => r matches Ok(SessionUpdate::NeedsFullSync)
                    && final(self)@ == waiting(),
                Some(f) => final(self)@ == old(self)@ && match old(self)@.layout {
                    Some(l) => r matches Ok(SessionUpdate::Event(e)) && e@ == spec_decode_change_frame(
                        f,
                        l,
                    ),
                    None => r matches Err(SessionError::NotReady),
                },
            },
    {
        proof {
            use_type_invariant(&*self);
        }
        let frame = match decode(payload) {
            Some(f) => f,
            None => {
                return Err(SessionError::Decode);
            },
        };
        match frame {
            ChangeFrame::FullSync { root } => {
                // A replacement sync supersedes the old address space even if
                // the new topology is unsupported. Never keep encoding through
                // a stale layout after observing a failed resync.
                self.reset();
                let layout = match Layout::from_full_sync(&root) {
                    Ok(l) => l,
                    Err(e) => {
                        return Err(SessionError::Layout(e));
                    },
                };
                let capabilities = DeviceCapabilities::discover(&root, &layout);
                let initial_events = extract_initial_state(&root, &layout);
                *self = ProtocolSession { layout: Some(layout), capabilities: Some(capabilities) };
                Ok(SessionUpdate::Ready { initial_events })
            },
            ChangeFrame::ChildAdded { .. } => {
                self.reset();
                Ok(SessionUpdate::NeedsFullSync)
            },
            ChangeFrame::ChildRemoved { .. } => {
                self.reset();
                Ok(SessionUpdate::NeedsFullSync)
            },
            ChangeFrame::ChildMoved { .. } => {
                self.reset();
                Ok(SessionUpdate::NeedsFullSync)
            },
            other => {
                let layout = match &self.layout {
                    Some(l) => l,
                    None => {
                        return Err(SessionError::NotReady);
                    },
                };
                let event = decode_event_from_frame(other, layout);
                Ok(SessionUpdate::Event(event))
            },
        }
    }

    /// Encode a typed command using the layout from the most recent full sync.
    pub fn encode(&self, command: &Command) -> (r: Result<Vec<Vec<u8>>, SessionError>)
        requires
            command.fits(),
        ensures
            match self@.layout {
                None => r matches Err(SessionError::NotReady),
                Some(l) => match spec_encode(*command, l) {
                    Ok(frames) => r matches Ok(v) && frames_view(v) == frames,
                    Err(e) => r matches Err(SessionError::Encode(x)) && x.failure() == e,
                },
            },
    {
        let layout = match &self.layout {
            Some(l) => l,
            None => {
                return Err(SessionError::NotReady);
            },
        };
        match command.encode(layout) {
            Ok(frames) => Ok(frames),
            Err(e) => Err(SessionError::Encode(e)),
        }
    }
}

} // verus!
