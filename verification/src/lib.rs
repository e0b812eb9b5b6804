//! A protocol library for controlling RØDECaster Pro II and RØDECaster Duo
//! audio consoles, with its behaviour stated in contracts and proved.
//!
//! The library implements the binary protocol used by RØDECaster hardware
//! and desktop applications: typed commands and events over JUCE's
//! `ValueTreeSynchroniser` change frames. Transport I/O (sockets, USB
//! handles) stays with the caller.
//!
//! Three layers:
//!
//! 1. Domain: [`ProtocolSession`] (connection lifecycle), [`Command`]
//!    (typed writes), [`DeviceEvent`] (typed reads) and
//!    [`DeviceCapabilities`] (what the connected console has).
//! 2. Transport framing: [`usb`] (HID report chunking) and [`frame`] (TCP
//!    magic header and length prefix).
//! 3. Protocol primitives: [`valuetree`] (`ValueTree` snapshots),
//!    [`juce_var`] (the `juce::var` codec) and [`change_frame`] (change
//!    opcodes).
//!
//! [`round_trip`] states what ties the layers together: a command written on
//! a layout is read back, on the same layout, as the event naming the same
//! address and value.

pub mod capabilities;
pub mod change_frame;
pub mod command;
pub mod commands;
pub mod events;
pub mod frame;
pub mod juce_var;
pub mod layout;
pub mod names;
pub mod round_trip;
pub mod session;
pub mod test_fixtures;
pub mod text;
pub mod trigger;
pub mod usb;
pub mod valuetree;
pub mod wire;

pub use capabilities::DeviceCapabilities;
pub use change_frame::ChangeFrame;
pub use commands::Command;
pub use events::{decode_event, decode_event_from_frame, DeviceEvent, MixLinkDirection, MixLinkRequestOrigin};
pub use frame::{frame_payload, scan_frame, FrameScan, Packet, MAGIC_HEADER};
pub use juce_var::{read_value, Reader, Value};
pub use layout::Layout;
pub use names::{
    AppParam, AudioParam, BuildParam, ChannelParam, CurrentShowParam, DeviceModel, DuckerParam,
    EffectsParam, Fader, FxPresetParam, GuiParam, HeadphoneParam, InputSourceParam, MasterParam,
    MeterParam, MixMinusesParam, MixOutput, NetworkParam, OutputParam, PadParam, PadRecorderParam,
    PlayerParam, RadioParam, RadioRxParam, RadioTxParam, RcSyncMixParam, RecorderParam,
    RecordingParam, RecordingsParam, ShowControlParam, ShowParam, SipAdvancedParam,
    SipCallSlotsParam, SipCallingParam, SipRegistrationParam, Source, StorageVolumeParam,
    StreamerXMixPresetParam, StreamerXStreamMixParam, SystemParam, TestParam, ThemeParam,
    WifiScanResultParam,
};
pub use session::{ProtocolSession, SessionError, SessionUpdate};
pub use trigger::{TriggerOrigin, TriggerPhase};
pub use valuetree::{parse_valuetree, Node, Property};
