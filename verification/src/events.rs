//! Inbound typed event notifications from a RØDECaster console.
//!
//! [`DeviceEvent`] represents notifications emitted by the device in response
//! to hardware changes or user actions:
//!
//! - Physical or virtual fader movements.
//! - Mute and cue/solo button toggles.
//! - Rotary encoder adjustments and color updates.
//! - Input source assignment changes.
//! - Audio processing adjustments (EQ, dynamics, HPF, pan).
//! - Sub-mix changes and routing matrix links.
//!
//! A property change is decoded by a fixed sequence of rules ([`decode_property`]
//! follows [`spec_decode_property`]): the first rule that recognizes the
//! property's path, name and value decides the event; a property no rule
//! recognizes becomes [`DeviceEvent::Unknown`].
//!
//! `mixLevelWithAnchor` carries two decimal numbers as text (`anchor|value`);
//! [`DeviceEvent::MixLevelChanged`] keeps each as the text the device sent,
//! accepted only when it is a number in Rust's float syntax
//! ([`crate::text::is_float_text`]).

use vstd::prelude::*;

use crate::change_frame::{decode as decode_frame, ChangeFrame, FrameModel, spec_decode};
use crate::juce_var::{spec_as_int, Value, VarModel};
use crate::layout::{Layout, LayoutView};
use crate::names::{
    AppParam, ParamModel, AudioParam, BuildParam, ChannelParam, CurrentShowParam, DeviceModel, DuckerParam,
    EffectsParam, Fader, FxPresetParam, GuiParam, HeadphoneParam, InputSourceParam, MasterParam,
    MeterParam, MixMinusesParam, MixOutput, NetworkParam, OutputParam, PadParam, PadRecorderParam,
    PlayerParam, RadioParam, RadioRxParam, RadioTxParam, RcSyncMixParam, RecorderParam,
    RecordingParam, RecordingsParam, ShowControlParam, ShowParam, SipAdvancedParam,
    SipCallSlotsParam, SipCallingParam, SipRegistrationParam, Source, StorageVolumeParam,
    StreamerXMixPresetParam, StreamerXStreamMixParam, SystemParam, TestParam, ThemeParam,
    WifiScanResultParam,
};
use crate::text::{is_float_text, last_piece, first_piece, spec_is_float_text, spec_first_piece, spec_last_piece, str_eq};
use crate::trigger::{decode_phase, spec_decode_phase};
pub use crate::trigger::TriggerPhase;
use crate::valuetree::{lemma_node_models, node_model, Node, NodeModel, Property};
use crate::layout::{find_property, lemma_first_named, saturate_u8, spec_first_named, spec_first_prop, spec_run_len};

verus! {

/// A typed event emitted by a connected RØDECaster console.
#[derive(Debug, PartialEq)]
#[non_exhaustive]
pub enum DeviceEvent {
    /// Full device state received during initialization or sync.
    InitialState(Vec<DeviceEvent>),
    /// Fader mute state changed.
    FaderMuteChanged { fader: Fader, muted: bool },
    /// Fader cue/solo state changed.
    FaderCueChanged { fader: Fader, enabled: bool },
    /// Fader level changed (0..127 MIDI scale).
    FaderLevelChanged { fader: Fader, level: u8 },
    /// A fader strip was touched.
    FaderTouched { fader: Fader },
    /// Rotary encoder LED-ring colour palette index changed (`None` when cleared).
    FaderEncoderColourChanged { fader: Fader, colour: Option<i32> },
    /// Mix link or unlink request or acknowledgment trace.
    MixLinkRequested { source: Source, mix: MixOutput, direction: MixLinkDirection, origin: MixLinkRequestOrigin },
    /// A fader's input-source assignment changed (`None` when unassigned).
    FaderAssignmentChanged { fader: Fader, source: Option<Source> },
    /// A channel-strip parameter changed (EQ, dynamics, HPF, pan, tone, preamp).
    ChannelParamChanged { fader: Fader, param: ChannelParam, value: Value },
    /// An input-source parameter changed (preamp gain, phantom power, mic type).
    InputSourceParamChanged { source: Source, param: InputSourceParam, value: Value },
    /// A master-bus parameter changed (Compellor compressor, master delay).
    MasterParamChanged { param: MasterParam, value: Value },
    /// An output-bus parameter changed (monitor/Bluetooth level, mute, multi-out).
    OutputParamChanged { param: OutputParam, value: Value },
    /// Auto-ducking parameters changed.
    DuckerParamChanged { param: DuckerParam, value: Value },
    /// Recorder transport state or property changed.
    RecorderParamChanged { param: RecorderParam, value: Value },
    /// Sound player property changed (playback state, file, fade envelope).
    PlayerParamChanged { param: PlayerParam, value: Value },
    /// Per-headphone parameter changed (colour, output type).
    HeadphoneParamChanged { headphone: u8, param: HeadphoneParam, value: Value },
    /// Per-slot channel effects parameter changed (reverb, delay, pitch, distortion).
    EffectsParamChanged { effects: u8, param: EffectsParam, value: Value },
    /// Front-panel UI parameter changed (display/button brightness, pad bank).
    GuiParamChanged { param: GuiParam, value: Value },
    /// Sound-pad parameter changed (colour, sample, playback mode, routing).
    PadParamChanged { pad: u8, param: PadParam, value: Value },
    /// Device-wide system parameter changed (power, clock, USB/storage status).
    SystemParamChanged { param: SystemParam, value: Value },
    /// Routing matrix level changed (`anchor` is matrix level, `value` is live fader-tracked level).
    MixLevelChanged { source: Source, mix: MixOutput, anchor: String, value: String },
    /// Routing matrix mute state changed.
    MixMuteChanged { source: Source, mix: MixOutput, muted: bool },
    /// Routing matrix link state changed.
    MixLinkChanged { source: Source, mix: MixOutput, linked: bool },
    /// Routing matrix route disabled state changed.
    MixDisabledChanged { source: Source, mix: MixOutput, disabled: bool },
    /// Device-wide networking parameter changed (WiFi, Bluetooth, IP, DNS).
    NetworkParamChanged { param: NetworkParam, value: Value },
    /// Recordings summary parameter changed (total count, total duration).
    RecordingsParamChanged { param: RecordingsParam, value: Value },
    /// Specific recording metadata changed.
    RecordingParamChanged { recording: u8, param: RecordingParam, value: Value },
    /// Storage volume parameter changed (total bytes, used bytes).
    StorageVolumeParamChanged { volume: u8, param: StorageVolumeParam, value: Value },
    /// Rotary encoder or potentiometer position changed (0..=127).
    PotLevelChanged { pot: u8, level: u8 },
    /// Front-panel pad button press or release.
    PadButtonPressed { button: u8, pressed: bool },
    /// Front-panel mute button press or release.
    MutePressed { button: u8, pressed: bool },
    /// Device-wide audio-engine parameter changed (sample rate, buffer size, latencies).
    AudioParamChanged { param: AudioParam, value: Value },
    /// Firmware build metadata changed.
    BuildParamChanged { param: BuildParam, value: Value },
    /// Companion-app state flag changed.
    AppParamChanged { param: AppParam, value: Value },
    /// UI theme setting changed.
    ThemeParamChanged { param: ThemeParam, value: Value },
    /// Currently-loaded show identifier changed.
    CurrentShowParamChanged { param: CurrentShowParam, value: Value },
    /// Show metadata changed.
    ShowParamChanged { show: u8, param: ShowParam, value: Value },
    /// Show control or lifecycle action changed.
    ShowControlParamChanged { param: ShowControlParam, value: Value },
    /// Live level meter reading changed.
    MeterParamChanged { meter: u8, param: MeterParam, value: Value },
    /// Rotary encoder push-button press or release.
    EncoderPressed { encoder: u8, pressed: bool },
    /// Front-panel solo/listen button press or release.
    SoloPressed { button: u8, pressed: bool },
    /// Front-panel record button press or release.
    RecButtonPressed { pressed: bool },
    /// Emergency mute state changed.
    EmergencyMuteChanged { active: bool },
    /// SIP calling state parameter changed.
    SipCallingParamChanged { param: SipCallingParam, value: Value },
    /// SIP account registration parameter changed.
    SipRegistrationParamChanged { registration: u8, param: SipRegistrationParam, value: Value },
    /// SIP call slot parameter changed.
    SipCallSlotsParamChanged { slot: u8, param: SipCallSlotsParam, value: Value },
    /// SIP advanced setting changed.
    SipAdvancedParamChanged { param: SipAdvancedParam, value: Value },
    /// Streamer X mix preset parameter changed.
    StreamerXMixPresetParamChanged { preset: u8, param: StreamerXMixPresetParam, value: Value },
    /// Streamer X stream mix parameter changed.
    StreamerXStreamMixParamChanged { stream: u8, param: StreamerXStreamMixParam, value: Value },
    /// Effects preset parameter changed.
    FxPresetParamChanged { preset: u8, param: FxPresetParam, value: Value },
    /// Pad recorder parameter changed.
    PadRecorderParamChanged { pad_recorder: u8, param: PadRecorderParam, value: Value },
    /// Diagnostic or factory-test parameter changed.
    TestParamChanged { param: TestParam, value: Value },
    /// WiFi scan result entry changed.
    WifiScanResultChanged { slot: u8, param: WifiScanResultParam, value: Value },
    /// Wireless receiver lifecycle parameter changed.
    RadioParamChanged { param: RadioParam, value: Value },
    /// Wireless transmitter parameter changed.
    RadioTxParamChanged { tx: u8, param: RadioTxParam, value: Value },
    /// Wireless receiver parameter changed.
    RadioRxParamChanged { rx: u8, param: RadioRxParam, value: Value },
    /// Mix-minus routing parameter changed.
    MixMinusesParamChanged { minuses: u8, param: MixMinusesParam, value: Value },
    /// rcSync mix routing parameter changed.
    RcSyncMixParamChanged { mix: u8, param: RcSyncMixParam, value: Value },
    /// Tree topology changed (child added, removed, or moved); layout should be rebuilt.
    LayoutInvalidated,
    /// Unrecognized property name or path under the current layout.
    Unknown { prop_name: String, path: Vec<u32>, value: Option<Value> },
}

/// Direction of a mix-cell link request echo.
#[derive(Debug, Clone, Copy, PartialEq, Eq, Structural)]
pub enum MixLinkDirection {
    /// Link action (`mixLinkRequest`).
    Link,
    /// Unlink action (`mixUnlinkRequest`).
    Unlink,
}

/// Origin of a mix-cell link request observation (alias for [`TriggerPhase`]).
pub type MixLinkRequestOrigin = TriggerPhase;

/// The content of a [`DeviceEvent`]: parameters by their wire names, values
/// by their content.
pub enum EventModel {
    InitialState(Seq<EventModel>),
    FaderMuteChanged { fader: Fader, muted: bool },
    FaderCueChanged { fader: Fader, enabled: bool },
    FaderLevelChanged { fader: Fader, level: u8 },
    FaderTouched { fader: Fader },
    FaderEncoderColourChanged { fader: Fader, colour: Option<i32> },
    MixLinkRequested { source: Source, mix: MixOutput, direction: MixLinkDirection, origin: MixLinkRequestOrigin },
    FaderAssignmentChanged { fader: Fader, source: Option<Source> },
    ChannelParamChanged { fader: Fader, param: ParamModel, value: VarModel },
    InputSourceParamChanged { source: Source, param: ParamModel, value: VarModel },
    MasterParamChanged { param: ParamModel, value: VarModel },
    OutputParamChanged { param: ParamModel, value: VarModel },
    DuckerParamChanged { param: ParamModel, value: VarModel },
    RecorderParamChanged { param: ParamModel, value: VarModel },
    PlayerParamChanged { param: ParamModel, value: VarModel },
    HeadphoneParamChanged { headphone: u8, param: ParamModel, value: VarModel },
    EffectsParamChanged { effects: u8, param: ParamModel, value: VarModel },
    GuiParamChanged { param: ParamModel, value: VarModel },
    PadParamChanged { pad: u8, param: ParamModel, value: VarModel },
    SystemParamChanged { param: ParamModel, value: VarModel },
    MixLevelChanged { source: Source, mix: MixOutput, anchor: Seq<char>, value: Seq<char> },
    MixMuteChanged { source: Source, mix: MixOutput, muted: bool },
    MixLinkChanged { source: Source, mix: MixOutput, linked: bool },
    MixDisabledChanged { source: Source, mix: MixOutput, disabled: bool },
    NetworkParamChanged { param: ParamModel, value: VarModel },
    RecordingsParamChanged { param: ParamModel, value: VarModel },
    RecordingParamChanged { recording: u8, param: ParamModel, value: VarModel },
    StorageVolumeParamChanged { volume: u8, param: ParamModel, value: VarModel },
    PotLevelChanged { pot: u8, level: u8 },
    PadButtonPressed { button: u8, pressed: bool },
    MutePressed { button: u8, pressed: bool },
    AudioParamChanged { param: ParamModel, value: VarModel },
    BuildParamChanged { param: ParamModel, value: VarModel },
    AppParamChanged { param: ParamModel, value: VarModel },
    ThemeParamChanged { param: ParamModel, value: VarModel },
    CurrentShowParamChanged { param: ParamModel, value: VarModel },
    ShowParamChanged { show: u8, param: ParamModel, value: VarModel },
    ShowControlParamChanged { param: ParamModel, value: VarModel },
    MeterParamChanged { meter: u8, param: ParamModel, value: VarModel },
    EncoderPressed { encoder: u8, pressed: bool },
    SoloPressed { button: u8, pressed: bool },
    RecButtonPressed { pressed: bool },
    EmergencyMuteChanged { active: bool },
    SipCallingParamChanged { param: ParamModel, value: VarModel },
    SipRegistrationParamChanged { registration: u8, param: ParamModel, value: VarModel },
    SipCallSlotsParamChanged { slot: u8, param: ParamModel, value: VarModel },
    SipAdvancedParamChanged { param: ParamModel, value: VarModel },
    StreamerXMixPresetParamChanged { preset: u8, param: ParamModel, value: VarModel },
    StreamerXStreamMixParamChanged { stream: u8, param: ParamModel, value: VarModel },
    FxPresetParamChanged { preset: u8, param: ParamModel, value: VarModel },
    PadRecorderParamChanged { pad_recorder: u8, param: ParamModel, value: VarModel },
    TestParamChanged { param: ParamModel, value: VarModel },
    WifiScanResultChanged { slot: u8, param: ParamModel, value: VarModel },
    RadioParamChanged { param: ParamModel, value: VarModel },
    RadioTxParamChanged { tx: u8, param: ParamModel, value: VarModel },
    RadioRxParamChanged { rx: u8, param: ParamModel, value: VarModel },
    MixMinusesParamChanged { minuses: u8, param: ParamModel, value: VarModel },
    RcSyncMixParamChanged { mix: u8, param: ParamModel, value: VarModel },
    LayoutInvalidated,
    Unknown { prop_name: Seq<char>, path: Seq<u32>, value: Option<VarModel> },
}

pub open spec fn var_view(v: Option<Value>) -> Option<VarModel> {
    match v {
        Some(x) => Some(x@),
        None => None,
    }
}

pub open spec fn event_model(e: DeviceEvent) -> EventModel
    decreases e,
{
    match e {
        DeviceEvent::InitialState(es) => EventModel::InitialState(event_models(es@)),
        DeviceEvent::FaderMuteChanged { fader, muted } => EventModel::FaderMuteChanged { fader: fader, muted: muted },
        DeviceEvent::FaderCueChanged { fader, enabled } => EventModel::FaderCueChanged { fader: fader, enabled: enabled },
        DeviceEvent::FaderLevelChanged { fader, level } => EventModel::FaderLevelChanged { fader: fader, level: level },
        DeviceEvent::FaderTouched { fader } => EventModel::FaderTouched { fader: fader },
        DeviceEvent::FaderEncoderColourChanged { fader, colour } => EventModel::FaderEncoderColourChanged { fader: fader, colour: colour },
        DeviceEvent::MixLinkRequested { source, mix, direction, origin } => EventModel::MixLinkRequested { source: source, mix: mix, direction: direction, origin: origin },
        DeviceEvent::FaderAssignmentChanged { fader, source } => EventModel::FaderAssignmentChanged { fader: fader, source: source },
        DeviceEvent::ChannelParamChanged { fader, param, value } => EventModel::ChannelParamChanged { fader: fader, param: param.model(), value: value@ },
        DeviceEvent::InputSourceParamChanged { source, param, value } => EventModel::InputSourceParamChanged { source: source, param: param.model(), value: value@ },
        DeviceEvent::MasterParamChanged { param, value } => EventModel::MasterParamChanged { param: param.model(), value: value@ },
        DeviceEvent::OutputParamChanged { param, value } => EventModel::OutputParamChanged { param: param.model(), value: value@ },
        DeviceEvent::DuckerParamChanged { param, value } => EventModel::DuckerParamChanged { param: param.model(), value: value@ },
        DeviceEvent::RecorderParamChanged { param, value } => EventModel::RecorderParamChanged { param: param.model(), value: value@ },
        DeviceEvent::PlayerParamChanged { param, value } => EventModel::PlayerParamChanged { param: param.model(), value: value@ },
        DeviceEvent::HeadphoneParamChanged { headphone, param, value } => EventModel::HeadphoneParamChanged { headphone: headphone, param: param.model(), value: value@ },
        DeviceEvent::EffectsParamChanged { effects, param, value } => EventModel::EffectsParamChanged { effects: effects, param: param.model(), value: value@ },
        DeviceEvent::GuiParamChanged { param, value } => EventModel::GuiParamChanged { param: param.model(), value: value@ },
        DeviceEvent::PadParamChanged { pad, param, value } => EventModel::PadParamChanged { pad: pad, param: param.model(), value: value@ },
        DeviceEvent::SystemParamChanged { param, value } => EventModel::SystemParamChanged { param: param.model(), value: value@ },
        DeviceEvent::MixLevelChanged { source, mix, anchor, value } => EventModel::MixLevelChanged { source: source, mix: mix, anchor: anchor@, value: value@ },
        DeviceEvent::MixMuteChanged { source, mix, muted } => EventModel::MixMuteChanged { source: source, mix: mix, muted: muted },
        DeviceEvent::MixLinkChanged { source, mix, linked } => EventModel::MixLinkChanged { source: source, mix: mix, linked: linked },
        DeviceEvent::MixDisabledChanged { source, mix, disabled } => EventModel::MixDisabledChanged { source: source, mix: mix, disabled: disabled },
        DeviceEvent::NetworkParamChanged { param, value } => EventModel::NetworkParamChanged { param: param.model(), value: value@ },
        DeviceEvent::RecordingsParamChanged { param, value } => EventModel::RecordingsParamChanged { param: param.model(), value: value@ },
        DeviceEvent::RecordingParamChanged { recording, param, value } => EventModel::RecordingParamChanged { recording: recording, param: param.model(), value: value@ },
        DeviceEvent::StorageVolumeParamChanged { volume, param, value } => EventModel::StorageVolumeParamChanged { volume: volume, param: param.model(), value: value@ },
        DeviceEvent::PotLevelChanged { pot, level } => EventModel::PotLevelChanged { pot: pot, level: level },
        DeviceEvent::PadButtonPressed { button, pressed } => EventModel::PadButtonPressed { button: button, pressed: pressed },
        DeviceEvent::MutePressed { button, pressed } => EventModel::MutePressed { button: button, pressed: pressed },
        DeviceEvent::AudioParamChanged { param, value } => EventModel::AudioParamChanged { param: param.model(), value: value@ },
        DeviceEvent::BuildParamChanged { param, value } => EventModel::BuildParamChanged { param: param.model(), value: value@ },
        DeviceEvent::AppParamChanged { param, value } => EventModel::AppParamChanged { param: param.model(), value: value@ },
        DeviceEvent::ThemeParamChanged { param, value } => EventModel::ThemeParamChanged { param: param.model(), value: value@ },
        DeviceEvent::CurrentShowParamChanged { param, value } => EventModel::CurrentShowParamChanged { param: param.model(), value: value@ },
        DeviceEvent::ShowParamChanged { show, param, value } => EventModel::ShowParamChanged { show: show, param: param.model(), value: value@ },
        DeviceEvent::ShowControlParamChanged { param, value } => EventModel::ShowControlParamChanged { param: param.model(), value: value@ },
        DeviceEvent::MeterParamChanged { meter, param, value } => EventModel::MeterParamChanged { meter: meter, param: param.model(), value: value@ },
        DeviceEvent::EncoderPressed { encoder, pressed } => EventModel::EncoderPressed { encoder: encoder, pressed: pressed },
        DeviceEvent::SoloPressed { button, pressed } => EventModel::SoloPressed { button: button, pressed: pressed },
        DeviceEvent::RecButtonPressed { pressed } => EventModel::RecButtonPressed { pressed: pressed },
        DeviceEvent::EmergencyMuteChanged { active } => EventModel::EmergencyMuteChanged { active: active },
        DeviceEvent::SipCallingParamChanged { param, value } => EventModel::SipCallingParamChanged { param: param.model(), value: value@ },
        DeviceEvent::SipRegistrationParamChanged { registration, param, value } => EventModel::SipRegistrationParamChanged { registration: registration, param: param.model(), value: value@ },
        DeviceEvent::SipCallSlotsParamChanged { slot, param, value } => EventModel::SipCallSlotsParamChanged { slot: slot, param: param.model(), value: value@ },
        DeviceEvent::SipAdvancedParamChanged { param, value } => EventModel::SipAdvancedParamChanged { param: param.model(), value: value@ },
        DeviceEvent::StreamerXMixPresetParamChanged { preset, param, value } => EventModel::StreamerXMixPresetParamChanged { preset: preset, param: param.model(), value: value@ },
        DeviceEvent::StreamerXStreamMixParamChanged { stream, param, value } => EventModel::StreamerXStreamMixParamChanged { stream: stream, param: param.model(), value: value@ },
        DeviceEvent::FxPresetParamChanged { preset, param, value } => EventModel::FxPresetParamChanged { preset: preset, param: param.model(), value: value@ },
        DeviceEvent::PadRecorderParamChanged { pad_recorder, param, value } => EventModel::PadRecorderParamChanged { pad_recorder: pad_recorder, param: param.model(), value: value@ },
        DeviceEvent::TestParamChanged { param, value } => EventModel::TestParamChanged { param: param.model(), value: value@ },
        DeviceEvent::WifiScanResultChanged { slot, param, value } => EventModel::WifiScanResultChanged { slot: slot, param: param.model(), value: value@ },
        DeviceEvent::RadioParamChanged { param, value } => EventModel::RadioParamChanged { param: param.model(), value: value@ },
        DeviceEvent::RadioTxParamChanged { tx, param, value } => EventModel::RadioTxParamChanged { tx: tx, param: param.model(), value: value@ },
        DeviceEvent::RadioRxParamChanged { rx, param, value } => EventModel::RadioRxParamChanged { rx: rx, param: param.model(), value: value@ },
        DeviceEvent::MixMinusesParamChanged { minuses, param, value } => EventModel::MixMinusesParamChanged { minuses: minuses, param: param.model(), value: value@ },
        DeviceEvent::RcSyncMixParamChanged { mix, param, value } => EventModel::RcSyncMixParamChanged { mix: mix, param: param.model(), value: value@ },
        DeviceEvent::LayoutInvalidated => EventModel::LayoutInvalidated,
        DeviceEvent::Unknown { prop_name, path, value } => EventModel::Unknown { prop_name: prop_name@, path: path@, value: var_view(value) },
    }
}

pub open spec fn event_models(es: Seq<DeviceEvent>) -> Seq<EventModel>
    decreases es,
{
    if es.len() == 0 {
        Seq::empty()
    } else {
        event_models(es.drop_last()).push(event_model(es.last()))
    }
}

impl View for DeviceEvent {
    type V = EventModel;

    open spec fn view(&self) -> EventModel {
        event_model(*self)
    }
}

pub proof fn lemma_event_models(es: Seq<DeviceEvent>)
    ensures
        event_models(es).len() == es.len(),
        forall|i: int| 0 <= i < es.len() ==> #[trigger] event_models(es)[i] == event_model(es[i]),
    decreases es.len(),
{
    if es.len() > 0 {
        lemma_event_models(es.drop_last());
    }
}

/// An optional event's content.
pub open spec fn opt_event_view(e: Option<DeviceEvent>) -> Option<EventModel> {
    match e {
        Some(x) => Some(x@),
        None => None,
    }
}

fn clone_opt_value(v: &Option<Value>) -> (r: Option<Value>)
    ensures
        var_view(r) == var_view(*v),
{
    match v {
        Some(x) => Some(x.clone()),
        None => None,
    }
}

impl Clone for DeviceEvent {
    /// A deep copy with the same content.
    fn clone(&self) -> (r: DeviceEvent)
        ensures
            r@ == self@,
        decreases self,
    {
        match self {
            DeviceEvent::InitialState(es) => {
                let mut out: Vec<DeviceEvent> = Vec::new();
                let mut i: usize = 0;
                proof {
                    assert(decreases_to!(*self => *es));
                }
                while i < es.len()
                    invariant
                        i <= es@.len(),
                        decreases_to!(*self => *es),
                        event_models(out@) == event_models(es@.subrange(0, i as int)),
                    decreases es@.len() - i,
                {
                    proof {
                        assert(decreases_to!(*es => es@[i as int]));
                    }
                    let c = es[i].clone();
                    let ghost before = out@;
                    out.push(c);
                    proof {
                        assert(out@.drop_last() =~= before);
                        assert(es@.subrange(0, i + 1).drop_last() =~= es@.subrange(0, i as int));
                    }
                    i = i + 1;
                }
                proof {
                    assert(es@.subrange(0, es@.len() as int) =~= es@);
                    assert(event_models(out@) == event_models(es@));
                }
                let ghost outv = out@;
                let r = DeviceEvent::InitialState(out);
                proof {
                    assert(r@ == EventModel::InitialState(event_models(outv)));
                    assert(self@ == EventModel::InitialState(event_models(es@)));
                }
                r
            },
            DeviceEvent::FaderMuteChanged { fader, muted } => DeviceEvent::FaderMuteChanged { fader: *fader, muted: *muted },
            DeviceEvent::FaderCueChanged { fader, enabled } => DeviceEvent::FaderCueChanged { fader: *fader, enabled: *enabled },
            DeviceEvent::FaderLevelChanged { fader, level } => DeviceEvent::FaderLevelChanged { fader: *fader, level: *level },
            DeviceEvent::FaderTouched { fader } => DeviceEvent::FaderTouched { fader: *fader },
            DeviceEvent::FaderEncoderColourChanged { fader, colour } => DeviceEvent::FaderEncoderColourChanged { fader: *fader, colour: *colour },
            DeviceEvent::MixLinkRequested { source, mix, direction, origin } => DeviceEvent::MixLinkRequested { source: *source, mix: *mix, direction: *direction, origin: *origin },
            DeviceEvent::FaderAssignmentChanged { fader, source } => DeviceEvent::FaderAssignmentChanged { fader: *fader, source: *source },
            DeviceEvent::ChannelParamChanged { fader, param, value } => DeviceEvent::ChannelParamChanged { fader: *fader, param: param.clone(), value: value.clone() },
            DeviceEvent::InputSourceParamChanged { source, param, value } => DeviceEvent::InputSourceParamChanged { source: *source, param: param.clone(), value: value.clone() },
            DeviceEvent::MasterParamChanged { param, value } => DeviceEvent::MasterParamChanged { param: param.clone(), value: value.clone() },
            DeviceEvent::OutputParamChanged { param, value } => DeviceEvent::OutputParamChanged { param: param.clone(), value: value.clone() },
            DeviceEvent::DuckerParamChanged { param, value } => DeviceEvent::DuckerParamChanged { param: param.clone(), value: value.clone() },
            DeviceEvent::RecorderParamChanged { param, value } => DeviceEvent::RecorderParamChanged { param: param.clone(), value: value.clone() },
            DeviceEvent::PlayerParamChanged { param, value } => DeviceEvent::PlayerParamChanged { param: param.clone(), value: value.clone() },
            DeviceEvent::HeadphoneParamChanged { headphone, param, value } => DeviceEvent::HeadphoneParamChanged { headphone: *headphone, param: param.clone(), value: value.clone() },
            DeviceEvent::EffectsParamChanged { effects, param, value } => DeviceEvent::EffectsParamChanged { effects: *effects, param: param.clone(), value: value.clone() },
            DeviceEvent::GuiParamChanged { param, value } => DeviceEvent::GuiParamChanged { param: param.clone(), value: value.clone() },
            DeviceEvent::PadParamChanged { pad, param, value } => DeviceEvent::PadParamChanged { pad: *pad, param: param.clone(), value: value.clone() },
            DeviceEvent::SystemParamChanged { param, value } => DeviceEvent::SystemParamChanged { param: param.clone(), value: value.clone() },
            DeviceEvent::MixLevelChanged { source, mix, anchor, value } => DeviceEvent::MixLevelChanged { source: *source, mix: *mix, anchor: anchor.clone(), value: value.clone() },
            DeviceEvent::MixMuteChanged { source, mix, muted } => DeviceEvent::MixMuteChanged { source: *source, mix: *mix, muted: *muted },
            DeviceEvent::MixLinkChanged { source, mix, linked } => DeviceEvent::MixLinkChanged { source: *source, mix: *mix, linked: *linked },
            DeviceEvent::MixDisabledChanged { source, mix, disabled } => DeviceEvent::MixDisabledChanged { source: *source, mix: *mix, disabled: *disabled },
            DeviceEvent::NetworkParamChanged { param, value } => DeviceEvent::NetworkParamChanged { param: param.clone(), value: value.clone() },
            DeviceEvent::RecordingsParamChanged { param, value } => DeviceEvent::RecordingsParamChanged { param: param.clone(), value: value.clone() },
            DeviceEvent::RecordingParamChanged { recording, param, value } => DeviceEvent::RecordingParamChanged { recording: *recording, param: param.clone(), value: value.clone() },
            DeviceEvent::StorageVolumeParamChanged { volume, param, value } => DeviceEvent::StorageVolumeParamChanged { volume: *volume, param: param.clone(), value: value.clone() },
            DeviceEvent::PotLevelChanged { pot, level } => DeviceEvent::PotLevelChanged { pot: *pot, level: *level },
            DeviceEvent::PadButtonPressed { button, pressed } => DeviceEvent::PadButtonPressed { button: *button, pressed: *pressed },
            DeviceEvent::MutePressed { button, pressed } => DeviceEvent::MutePressed { button: *button, pressed: *pressed },
            DeviceEvent::AudioParamChanged { param, value } => DeviceEvent::AudioParamChanged { param: param.clone(), value: value.clone() },
            DeviceEvent::BuildParamChanged { param, value } => DeviceEvent::BuildParamChanged { param: param.clone(), value: value.clone() },
            DeviceEvent::AppParamChanged { param, value } => DeviceEvent::AppParamChanged { param: param.clone(), value: value.clone() },
            DeviceEvent::ThemeParamChanged { param, value } => DeviceEvent::ThemeParamChanged { param: param.clone(), value: value.clone() },
            DeviceEvent::CurrentShowParamChanged { param, value } => DeviceEvent::CurrentShowParamChanged { param: param.clone(), value: value.clone() },
            DeviceEvent::ShowParamChanged { show, param, value } => DeviceEvent::ShowParamChanged { show: *show, param: param.clone(), value: value.clone() },
            DeviceEvent::ShowControlParamChanged { param, value } => DeviceEvent::ShowControlParamChanged { param: param.clone(), value: value.clone() },
            DeviceEvent::MeterParamChanged { meter, param, value } => DeviceEvent::MeterParamChanged { meter: *meter, param: param.clone(), value: value.clone() },
            DeviceEvent::EncoderPressed { encoder, pressed } => DeviceEvent::EncoderPressed { encoder: *encoder, pressed: *pressed },
            DeviceEvent::SoloPressed { button, pressed } => DeviceEvent::SoloPressed { button: *button, pressed: *pressed },
            DeviceEvent::RecButtonPressed { pressed } => DeviceEvent::RecButtonPressed { pressed: *pressed },
            DeviceEvent::EmergencyMuteChanged { active } => DeviceEvent::EmergencyMuteChanged { active: *active },
            DeviceEvent::SipCallingParamChanged { param, value } => DeviceEvent::SipCallingParamChanged { param: param.clone(), value: value.clone() },
            DeviceEvent::SipRegistrationParamChanged { registration, param, value } => DeviceEvent::SipRegistrationParamChanged { registration: *registration, param: param.clone(), value: value.clone() },
            DeviceEvent::SipCallSlotsParamChanged { slot, param, value } => DeviceEvent::SipCallSlotsParamChanged { slot: *slot, param: param.clone(), value: value.clone() },
            DeviceEvent::SipAdvancedParamChanged { param, value } => DeviceEvent::SipAdvancedParamChanged { param: param.clone(), value: value.clone() },
            DeviceEvent::StreamerXMixPresetParamChanged { preset, param, value } => DeviceEvent::StreamerXMixPresetParamChanged { preset: *preset, param: param.clone(), value: value.clone() },
            DeviceEvent::StreamerXStreamMixParamChanged { stream, param, value } => DeviceEvent::StreamerXStreamMixParamChanged { stream: *stream, param: param.clone(), value: value.clone() },
            DeviceEvent::FxPresetParamChanged { preset, param, value } => DeviceEvent::FxPresetParamChanged { preset: *preset, param: param.clone(), value: value.clone() },
            DeviceEvent::PadRecorderParamChanged { pad_recorder, param, value } => DeviceEvent::PadRecorderParamChanged { pad_recorder: *pad_recorder, param: param.clone(), value: value.clone() },
            DeviceEvent::TestParamChanged { param, value } => DeviceEvent::TestParamChanged { param: param.clone(), value: value.clone() },
            DeviceEvent::WifiScanResultChanged { slot, param, value } => DeviceEvent::WifiScanResultChanged { slot: *slot, param: param.clone(), value: value.clone() },
            DeviceEvent::RadioParamChanged { param, value } => DeviceEvent::RadioParamChanged { param: param.clone(), value: value.clone() },
            DeviceEvent::RadioTxParamChanged { tx, param, value } => DeviceEvent::RadioTxParamChanged { tx: *tx, param: param.clone(), value: value.clone() },
            DeviceEvent::RadioRxParamChanged { rx, param, value } => DeviceEvent::RadioRxParamChanged { rx: *rx, param: param.clone(), value: value.clone() },
            DeviceEvent::MixMinusesParamChanged { minuses, param, value } => DeviceEvent::MixMinusesParamChanged { minuses: *minuses, param: param.clone(), value: value.clone() },
            DeviceEvent::RcSyncMixParamChanged { mix, param, value } => DeviceEvent::RcSyncMixParamChanged { mix: *mix, param: param.clone(), value: value.clone() },
            DeviceEvent::LayoutInvalidated => DeviceEvent::LayoutInvalidated,
            DeviceEvent::Unknown { prop_name, path, value } => DeviceEvent::Unknown { prop_name: prop_name.clone(), path: path.clone(), value: clone_opt_value(value) },
        }
    }
}

// ---------------------------------------------------------------------------
// Decoding rules

/// The strip at an optional wire index on the layout's model.
pub open spec fn fader_at(l: LayoutView, idx: Option<u8>) -> Option<Fader> {
    match idx {
        Some(i) => Fader::strip_at(l.model, i),
        None => None,
    }
}

/// The source an assignment value names: a non-negative int that is a
/// protocol source index.
pub open spec fn spec_source_of(value: Option<VarModel>) -> Option<Source> {
    match value {
        Some(v) => match spec_as_int(v) {
            Some(s) => if 0 <= s <= 255 {
                Source::at_index(s as u8)
            } else {
                None
            },
            None => None,
        },
        None => None,
    }
}

/// A level clamped into the MIDI range `0..=127`.
pub open spec fn spec_clamp_level(i: i64) -> u8 {
    if i < 0 {
        0
    } else if i > 127 {
        127
    } else {
        i as u8
    }
}

/// Rule 1: properties on a strip's `CHANNEL` node (mute, cue, assignment).
pub open spec fn rule_channel(path: Seq<u32>, name: Seq<char>, value: Option<VarModel>, l: LayoutView) -> Option<EventModel> {
    match fader_at(l, l.channel.spec_index(path)) {
        Some(fader) => if name == "channelOutputMute"@ {
            match value {
                Some(VarModel::Bool(muted)) => Some(EventModel::FaderMuteChanged { fader, muted }),
                _ => None,
            }
        } else if name == "channelCueEnable"@ {
            match value {
                Some(VarModel::Bool(enabled)) => Some(EventModel::FaderCueChanged { fader, enabled }),
                _ => None,
            }
        } else if name == "channelInputSource"@ {
            Some(EventModel::FaderAssignmentChanged { fader, source: spec_source_of(value) })
        } else {
            None
        },
        None => None,
    }
}

/// Rule 2: `faderLevel` on a `FADER` strip, clamped to `0..=127`.
pub open spec fn rule_fader(path: Seq<u32>, name: Seq<char>, value: Option<VarModel>, l: LayoutView) -> Option<EventModel> {
    match fader_at(l, l.fader.spec_index(path)) {
        Some(fader) => if name == "faderLevel"@ {
            match value {
                Some(v) => match spec_as_int(v) {
                    Some(level) => Some(EventModel::FaderLevelChanged { fader, level: spec_clamp_level(level) }),
                    None => None,
                },
                None => None,
            }
        } else {
            None
        },
        None => None,
    }
}

/// The named cell a path addresses in the mix matrix.
pub open spec fn spec_mix_cell_at(l: LayoutView, path: Seq<u32>) -> Option<(Source, MixOutput)> {
    match l.spec_mix_cell(path) {
        Some((s, m)) => match (Source::at_index(s), MixOutput::at_index(m)) {
            (Some(source), Some(mix)) => Some((source, mix)),
            _ => None,
        },
        None => None,
    }
}

/// Rule 3: properties on a mix-matrix cell.
pub open spec fn rule_mix(path: Seq<u32>, name: Seq<char>, value: Option<VarModel>, l: LayoutView) -> Option<EventModel> {
    match spec_mix_cell_at(l, path) {
        Some((source, mix)) => if name == "mixMute"@ {
            match value {
                Some(VarModel::Bool(muted)) => Some(EventModel::MixMuteChanged { source, mix, muted }),
                _ => None,
            }
        } else if name == "mixLink"@ {
            match value {
                Some(VarModel::Bool(linked)) => Some(EventModel::MixLinkChanged { source, mix, linked }),
                _ => None,
            }
        } else if name == "mixDisabled"@ {
            match value {
                Some(VarModel::Bool(disabled)) => Some(EventModel::MixDisabledChanged { source, mix, disabled }),
                _ => None,
            }
        } else if name == "mixLevelWithAnchor"@ {
            match value {
                Some(VarModel::Str(s)) => if spec_is_float_text(spec_first_piece(s)) && spec_is_float_text(spec_last_piece(s)) {
                    Some(EventModel::MixLevelChanged { source, mix, anchor: spec_first_piece(s), value: spec_last_piece(s) })
                } else {
                    None
                },
                _ => None,
            }
        } else if name == "mixLinkRequest"@ || name == "mixUnlinkRequest"@ {
            match value {
                Some(v) => match spec_decode_phase(v) {
                    Some(origin) => Some(EventModel::MixLinkRequested {
                        source,
                        mix,
                        direction: if name == "mixLinkRequest"@ { MixLinkDirection::Link } else { MixLinkDirection::Unlink },
                        origin,
                    }),
                    None => None,
                },
                None => None,
            }
        } else {
            None
        },
        None => None,
    }
}

/// The strip an encoder path names: its first element is the fader index.
pub open spec fn spec_encoder_fader(path: Seq<u32>, l: LayoutView) -> Option<Fader> {
    if path.len() > 0 && path[0] < l.fader.count {
        Fader::strip_at(l.model, path[0] as u8)
    } else {
        None
    }
}

/// Rule 4: `encoderSignal` (a strip touched) and `encoderColour` (its LED
/// ring; a negative int clears it).
pub open spec fn rule_encoder(path: Seq<u32>, name: Seq<char>, value: Option<VarModel>, l: LayoutView) -> Option<EventModel> {
    if name == "encoderSignal"@ {
        match spec_encoder_fader(path, l) {
            Some(fader) => Some(EventModel::FaderTouched { fader }),
            None => None,
        }
    } else if name == "encoderColour"@ {
        match (spec_encoder_fader(path, l), value) {
            (Some(fader), Some(v)) => match spec_as_int(v) {
                Some(i) => Some(EventModel::FaderEncoderColourChanged {
                    fader,
                    colour: if i < 0 { None } else { Some(i as i32) },
                }),
                None => None,
            },
            _ => None,
        }
    } else {
        None
    }
}

/// The strip a `channelInputSource` echo names: by its channel path, or else
/// at a multiple-of-six offset from the first channel.
pub open spec fn spec_echo_fader(path: Seq<u32>, l: LayoutView) -> Option<Fader> {
    match fader_at(l, l.channel.spec_index(path)) {
        Some(f) => Some(f),
        None => if path.len() > 0 && path[0] >= l.channel.first.unwrap() && (path[0] - l.channel.first.unwrap()) % 6 == 0
            && (path[0] - l.channel.first.unwrap()) / 6 < l.channel.count {
            Fader::strip_at(l.model, ((path[0] - l.channel.first.unwrap()) / 6) as u8)
        } else {
            None
        },
    }
}

/// Rule 5: a `channelInputSource` echo.
pub open spec fn rule_echo(path: Seq<u32>, name: Seq<char>, value: Option<VarModel>, l: LayoutView) -> Option<EventModel> {
    if name == "channelInputSource"@ {
        match spec_echo_fader(path, l) {
            Some(fader) => Some(EventModel::FaderAssignmentChanged { fader, source: spec_source_of(value) }),
            None => None,
        }
    } else {
        None
    }
}

/// Rule 6: hardware inputs on children of `PHYSICALINTERFACE`; the child
/// index is the low byte of the path's second element.
pub open spec fn rule_hardware(path: Seq<u32>, name: Seq<char>, value: Option<VarModel>, l: LayoutView) -> Option<EventModel> {
    if path.len() == 2 && l.fader.parent == Some(path[0]) {
        let child = path[1] as u8;
        if name == "potLevel"@ {
            match value {
                Some(VarModel::Int(level)) => Some(EventModel::PotLevelChanged { pot: child, level: spec_clamp_level(level) }),
                _ => None,
            }
        } else if name == "padButtonPressed"@ {
            match value {
                Some(VarModel::Bool(pressed)) => Some(EventModel::PadButtonPressed { button: child, pressed }),
                _ => None,
            }
        } else if name == "mutePressed"@ {
            match value {
                Some(VarModel::Bool(pressed)) => Some(EventModel::MutePressed { button: child, pressed }),
                _ => None,
            }
        } else if name == "soloPressed"@ {
            match value {
                Some(VarModel::Bool(pressed)) => Some(EventModel::SoloPressed { button: child, pressed }),
                _ => None,
            }
        } else if name == "encoderPressed"@ {
            match value {
                Some(VarModel::Bool(pressed)) => Some(EventModel::EncoderPressed { encoder: child, pressed }),
                _ => None,
            }
        } else if name == "recButtonPressed"@ {
            match value {
                Some(VarModel::Bool(pressed)) => Some(EventModel::RecButtonPressed { pressed }),
                _ => None,
            }
        } else {
            None
        }
    } else {
        None
    }
}

/// Rule 7: the `EMERGENCYMUTE` flag at a single-level path.
pub open spec fn rule_emergency(path: Seq<u32>, name: Seq<char>, value: Option<VarModel>) -> Option<EventModel> {
    if path.len() == 1 && name == "emergencyMuteActive"@ {
        match value {
            Some(VarModel::Bool(active)) => Some(EventModel::EmergencyMuteChanged { active }),
            _ => None,
        }
    } else {
        None
    }
}

/// The low byte of the path's last element (0 for an empty path).
pub open spec fn spec_last_index(path: Seq<u32>) -> u8 {
    if path.len() > 0 {
        path.last() as u8
    } else {
        0
    }
}

/// A known [`NetworkParam`] name, with a value.
pub open spec fn rule_network(path: Seq<u32>, name: Seq<char>, value: Option<VarModel>, l: LayoutView) -> Option<EventModel> {
    if true && NetworkParam::known(name) is Some && value is Some {
        Some(EventModel::NetworkParamChanged { param: NetworkParam::name_model(name), value: value.unwrap() })
    } else {
        None
    }
}

/// A known [`RecordingsParam`] name under its addressing rule, with a value.
pub open spec fn rule_recordings(path: Seq<u32>, name: Seq<char>, value: Option<VarModel>, l: LayoutView) -> Option<EventModel> {
    if path.len() == 1 && RecordingsParam::known(name) is Some && value is Some {
        Some(EventModel::RecordingsParamChanged { param: RecordingsParam::name_model(name), value: value.unwrap() })
    } else {
        None
    }
}

/// A known [`RecordingParam`] name under its addressing rule, with a value.
pub open spec fn rule_recording(path: Seq<u32>, name: Seq<char>, value: Option<VarModel>, l: LayoutView) -> Option<EventModel> {
    if path.len() == 2 && RecordingParam::known(name) is Some && value is Some {
        Some(EventModel::RecordingParamChanged { recording: path[1] as u8, param: RecordingParam::name_model(name), value: value.unwrap() })
    } else {
        None
    }
}

/// A known [`StorageVolumeParam`] name under its addressing rule, with a value.
pub open spec fn rule_storage_volume(path: Seq<u32>, name: Seq<char>, value: Option<VarModel>, l: LayoutView) -> Option<EventModel> {
    if path.len() == 2 && StorageVolumeParam::known(name) is Some && value is Some {
        Some(EventModel::StorageVolumeParamChanged { volume: path[1] as u8, param: StorageVolumeParam::name_model(name), value: value.unwrap() })
    } else {
        None
    }
}

/// A known [`AudioParam`] name under its addressing rule, with a value.
pub open spec fn rule_audio(path: Seq<u32>, name: Seq<char>, value: Option<VarModel>, l: LayoutView) -> Option<EventModel> {
    if path.len() == 1 && AudioParam::known(name) is Some && value is Some {
        Some(EventModel::AudioParamChanged { param: AudioParam::name_model(name), value: value.unwrap() })
    } else {
        None
    }
}

/// A known [`BuildParam`] name under its addressing rule, with a value.
pub open spec fn rule_build(path: Seq<u32>, name: Seq<char>, value: Option<VarModel>, l: LayoutView) -> Option<EventModel> {
    if path.len() == 1 && BuildParam::known(name) is Some && value is Some {
        Some(EventModel::BuildParamChanged { param: BuildParam::name_model(name), value: value.unwrap() })
    } else {
        None
    }
}

/// A known [`AppParam`] name under its addressing rule, with a value.
pub open spec fn rule_app(path: Seq<u32>, name: Seq<char>, value: Option<VarModel>, l: LayoutView) -> Option<EventModel> {
    if path.len() == 1 && AppParam::known(name) is Some && value is Some {
        Some(EventModel::AppParamChanged { param: AppParam::name_model(name), value: value.unwrap() })
    } else {
        None
    }
}

/// A known [`ThemeParam`] name under its addressing rule, with a value.
pub open spec fn rule_theme(path: Seq<u32>, name: Seq<char>, value: Option<VarModel>, l: LayoutView) -> Option<EventModel> {
    if path.len() == 1 && ThemeParam::known(name) is Some && value is Some {
        Some(EventModel::ThemeParamChanged { param: ThemeParam::name_model(name), value: value.unwrap() })
    } else {
        None
    }
}

/// A known [`CurrentShowParam`] name under its addressing rule, with a value.
pub open spec fn rule_current_show(path: Seq<u32>, name: Seq<char>, value: Option<VarModel>, l: LayoutView) -> Option<EventModel> {
    if path.len() == 1 && CurrentShowParam::known(name) is Some && value is Some {
        Some(EventModel::CurrentShowParamChanged { param: CurrentShowParam::name_model(name), value: value.unwrap() })
    } else {
        None
    }
}

/// A known [`ShowControlParam`] name under its addressing rule, with a value.
pub open spec fn rule_show_control(path: Seq<u32>, name: Seq<char>, value: Option<VarModel>, l: LayoutView) -> Option<EventModel> {
    if path.len() == 1 && ShowControlParam::known(name) is Some && value is Some {
        Some(EventModel::ShowControlParamChanged { param: ShowControlParam::name_model(name), value: value.unwrap() })
    } else {
        None
    }
}

/// A known [`ShowParam`] name under its addressing rule, with a value.
pub open spec fn rule_show(path: Seq<u32>, name: Seq<char>, value: Option<VarModel>, l: LayoutView) -> Option<EventModel> {
    if path.len() == 2 && ShowParam::known(name) is Some && value is Some {
        Some(EventModel::ShowParamChanged { show: path[1] as u8, param: ShowParam::name_model(name), value: value.unwrap() })
    } else {
        None
    }
}

/// A known [`MeterParam`] name under its addressing rule, with a value.
pub open spec fn rule_meter(path: Seq<u32>, name: Seq<char>, value: Option<VarModel>, l: LayoutView) -> Option<EventModel> {
    if path.len() == 2 && l.fader.parent != Some(path[0]) && MeterParam::known(name) is Some && value is Some {
        Some(EventModel::MeterParamChanged { meter: path[1] as u8, param: MeterParam::name_model(name), value: value.unwrap() })
    } else {
        None
    }
}

/// A known [`SipCallingParam`] name under its addressing rule, with a value.
pub open spec fn rule_sip_calling(path: Seq<u32>, name: Seq<char>, value: Option<VarModel>, l: LayoutView) -> Option<EventModel> {
    if l.sip_calling.spec_is_path(path) && SipCallingParam::known(name) is Some && value is Some {
        Some(EventModel::SipCallingParamChanged { param: SipCallingParam::name_model(name), value: value.unwrap() })
    } else {
        None
    }
}

/// A known [`SipAdvancedParam`] name under its addressing rule, with a value.
pub open spec fn rule_sip_advanced(path: Seq<u32>, name: Seq<char>, value: Option<VarModel>, l: LayoutView) -> Option<EventModel> {
    if l.sip_advanced.spec_is_path(path) && SipAdvancedParam::known(name) is Some && value is Some {
        Some(EventModel::SipAdvancedParamChanged { param: SipAdvancedParam::name_model(name), value: value.unwrap() })
    } else {
        None
    }
}

/// A known [`SipRegistrationParam`] name under its addressing rule, with a value.
pub open spec fn rule_sip_registration(path: Seq<u32>, name: Seq<char>, value: Option<VarModel>, l: LayoutView) -> Option<EventModel> {
    if l.sip_registration.spec_index(path) is Some && SipRegistrationParam::known(name) is Some && value is Some {
        Some(EventModel::SipRegistrationParamChanged { registration: l.sip_registration.spec_index(path).unwrap(), param: SipRegistrationParam::name_model(name), value: value.unwrap() })
    } else {
        None
    }
}

/// A known [`SipCallSlotsParam`] name under its addressing rule, with a value.
pub open spec fn rule_sip_call_slots(path: Seq<u32>, name: Seq<char>, value: Option<VarModel>, l: LayoutView) -> Option<EventModel> {
    if l.sip_call_slots.spec_index(path) is Some && SipCallSlotsParam::known(name) is Some && value is Some {
        Some(EventModel::SipCallSlotsParamChanged { slot: l.sip_call_slots.spec_index(path).unwrap(), param: SipCallSlotsParam::name_model(name), value: value.unwrap() })
    } else {
        None
    }
}

/// A known [`StreamerXMixPresetParam`] name, with a value.
pub open spec fn rule_streamerx_mix_preset(path: Seq<u32>, name: Seq<char>, value: Option<VarModel>, l: LayoutView) -> Option<EventModel> {
    if true && StreamerXMixPresetParam::known(name) is Some && value is Some {
        Some(EventModel::StreamerXMixPresetParamChanged { preset: spec_last_index(path), param: StreamerXMixPresetParam::name_model(name), value: value.unwrap() })
    } else {
        None
    }
}

/// A known [`StreamerXStreamMixParam`] name, with a value.
pub open spec fn rule_streamerx_stream_mix(path: Seq<u32>, name: Seq<char>, value: Option<VarModel>, l: LayoutView) -> Option<EventModel> {
    if true && StreamerXStreamMixParam::known(name) is Some && value is Some {
        Some(EventModel::StreamerXStreamMixParamChanged { stream: spec_last_index(path), param: StreamerXStreamMixParam::name_model(name), value: value.unwrap() })
    } else {
        None
    }
}

/// A known [`FxPresetParam`] name, with a value.
pub open spec fn rule_fx_preset(path: Seq<u32>, name: Seq<char>, value: Option<VarModel>, l: LayoutView) -> Option<EventModel> {
    if true && FxPresetParam::known(name) is Some && value is Some {
        Some(EventModel::FxPresetParamChanged { preset: spec_last_index(path), param: FxPresetParam::name_model(name), value: value.unwrap() })
    } else {
        None
    }
}

/// A known [`PadRecorderParam`] name, with a value.
pub open spec fn rule_pad_recorder(path: Seq<u32>, name: Seq<char>, value: Option<VarModel>, l: LayoutView) -> Option<EventModel> {
    if true && PadRecorderParam::known(name) is Some && value is Some {
        Some(EventModel::PadRecorderParamChanged { pad_recorder: spec_last_index(path), param: PadRecorderParam::name_model(name), value: value.unwrap() })
    } else {
        None
    }
}

/// A known [`TestParam`] name, with a value.
pub open spec fn rule_test(path: Seq<u32>, name: Seq<char>, value: Option<VarModel>, l: LayoutView) -> Option<EventModel> {
    if true && TestParam::known(name) is Some && value is Some {
        Some(EventModel::TestParamChanged { param: TestParam::name_model(name), value: value.unwrap() })
    } else {
        None
    }
}

/// A known [`WifiScanResultParam`] name, with a value.
pub open spec fn rule_wifi_scan_result(path: Seq<u32>, name: Seq<char>, value: Option<VarModel>, l: LayoutView) -> Option<EventModel> {
    if true && WifiScanResultParam::known(name) is Some && value is Some {
        Some(EventModel::WifiScanResultChanged { slot: spec_last_index(path), param: WifiScanResultParam::name_model(name), value: value.unwrap() })
    } else {
        None
    }
}

/// A known [`RadioParam`] name, with a value.
pub open spec fn rule_radio(path: Seq<u32>, name: Seq<char>, value: Option<VarModel>, l: LayoutView) -> Option<EventModel> {
    if true && RadioParam::known(name) is Some && value is Some {
        Some(EventModel::RadioParamChanged { param: RadioParam::name_model(name), value: value.unwrap() })
    } else {
        None
    }
}

/// A known [`RadioTxParam`] name, with a value.
pub open spec fn rule_radio_tx(path: Seq<u32>, name: Seq<char>, value: Option<VarModel>, l: LayoutView) -> Option<EventModel> {
    if true && RadioTxParam::known(name) is Some && value is Some {
        Some(EventModel::RadioTxParamChanged { tx: spec_last_index(path), param: RadioTxParam::name_model(name), value: value.unwrap() })
    } else {
        None
    }
}

/// A known [`RadioRxParam`] name, with a value.
pub open spec fn rule_radio_rx(path: Seq<u32>, name: Seq<char>, value: Option<VarModel>, l: LayoutView) -> Option<EventModel> {
    if true && RadioRxParam::known(name) is Some && value is Some {
        Some(EventModel::RadioRxParamChanged { rx: spec_last_index(path), param: RadioRxParam::name_model(name), value: value.unwrap() })
    } else {
        None
    }
}

/// A known [`MixMinusesParam`] name under its addressing rule, with a value.
pub open spec fn rule_mix_minuses(path: Seq<u32>, name: Seq<char>, value: Option<VarModel>, l: LayoutView) -> Option<EventModel> {
    if l.mix_minuses.spec_index(path) is Some && MixMinusesParam::known(name) is Some && value is Some {
        Some(EventModel::MixMinusesParamChanged { minuses: l.mix_minuses.spec_index(path).unwrap(), param: MixMinusesParam::name_model(name), value: value.unwrap() })
    } else {
        None
    }
}

/// A known [`RcSyncMixParam`] name under its addressing rule, with a value.
pub open spec fn rule_rcsync_mix(path: Seq<u32>, name: Seq<char>, value: Option<VarModel>, l: LayoutView) -> Option<EventModel> {
    if l.rcsync_mix.spec_index(path) is Some && RcSyncMixParam::known(name) is Some && value is Some {
        Some(EventModel::RcSyncMixParamChanged { mix: l.rcsync_mix.spec_index(path).unwrap(), param: RcSyncMixParam::name_model(name), value: value.unwrap() })
    } else {
        None
    }
}


/// Which addressable node family a property path lands on.
pub enum ParamTarget {
    Channel(Fader),
    InputSource(Source),
    Master,
    Output,
    Ducker,
    Recorder,
    Player,
    Headphone(u8),
    Effects(u8),
    Gui,
    Pad(u8),
    System,
}

/// The family a path lands on; the families' node ranges are disjoint, so
/// the first match decides. The strip's mute, cue and assignment names are
/// not strip parameters.
pub open spec fn spec_resolve_target(path: Seq<u32>, name: Seq<char>, l: LayoutView) -> Option<ParamTarget> {
    let channel = if name == "channelOutputMute"@ || name == "channelCueEnable"@ || name == "channelInputSource"@ {
        None
    } else {
        fader_at(l, l.channel.spec_index(path))
    };
    if channel is Some {
        Some(ParamTarget::Channel(channel.unwrap()))
    } else if (match l.input_source.spec_index(path) { Some(i) => Source::at_index(i) is Some, None => false }) {
        Some(ParamTarget::InputSource(Source::at_index(l.input_source.spec_index(path).unwrap()).unwrap()))
    } else if l.master_channel.spec_is_path(path) {
        Some(ParamTarget::Master)
    } else if l.output.spec_is_path(path) {
        Some(ParamTarget::Output)
    } else if l.ducker.spec_is_path(path) {
        Some(ParamTarget::Ducker)
    } else if l.recorder.spec_is_path(path) {
        Some(ParamTarget::Recorder)
    } else if l.player.spec_is_path(path) {
        Some(ParamTarget::Player)
    } else if l.headphone.spec_index(path) is Some {
        Some(ParamTarget::Headphone(l.headphone.spec_index(path).unwrap()))
    } else if l.effects.spec_index(path) is Some {
        Some(ParamTarget::Effects(l.effects.spec_index(path).unwrap()))
    } else if l.gui.spec_is_path(path) {
        Some(ParamTarget::Gui)
    } else if l.pad.spec_index(path) is Some {
        Some(ParamTarget::Pad(l.pad.spec_index(path).unwrap()))
    } else if l.system.spec_is_path(path) {
        Some(ParamTarget::System)
    } else {
        None
    }
}

/// The last rule: a property on a typed family's node becomes that family's
/// parameter event; anything else is unknown.
pub open spec fn rule_fallback(path: Seq<u32>, name: Seq<char>, value: Option<VarModel>, l: LayoutView) -> EventModel {
    match (spec_resolve_target(path, name, l), value) {
        (Some(ParamTarget::Channel(fader)), Some(v)) => EventModel::ChannelParamChanged { fader, param: ChannelParam::name_model(name), value: v },
        (Some(ParamTarget::InputSource(source)), Some(v)) => EventModel::InputSourceParamChanged { source, param: InputSourceParam::name_model(name), value: v },
        (Some(ParamTarget::Master), Some(v)) => EventModel::MasterParamChanged { param: MasterParam::name_model(name), value: v },
        (Some(ParamTarget::Output), Some(v)) => EventModel::OutputParamChanged { param: OutputParam::name_model(name), value: v },
        (Some(ParamTarget::Ducker), Some(v)) => EventModel::DuckerParamChanged { param: DuckerParam::name_model(name), value: v },
        (Some(ParamTarget::Recorder), Some(v)) => EventModel::RecorderParamChanged { param: RecorderParam::name_model(name), value: v },
        (Some(ParamTarget::Player), Some(v)) => EventModel::PlayerParamChanged { param: PlayerParam::name_model(name), value: v },
        (Some(ParamTarget::Headphone(headphone)), Some(v)) => EventModel::HeadphoneParamChanged { headphone, param: HeadphoneParam::name_model(name), value: v },
        (Some(ParamTarget::Effects(effects)), Some(v)) => EventModel::EffectsParamChanged { effects, param: EffectsParam::name_model(name), value: v },
        (Some(ParamTarget::Gui), Some(v)) => EventModel::GuiParamChanged { param: GuiParam::name_model(name), value: v },
        (Some(ParamTarget::Pad(pad)), Some(v)) => EventModel::PadParamChanged { pad, param: PadParam::name_model(name), value: v },
        (Some(ParamTarget::System), Some(v)) => EventModel::SystemParamChanged { param: SystemParam::name_model(name), value: v },
        _ => EventModel::Unknown { prop_name: name, path, value },
    }
}

/// The event a property change (or removal, with no value) decodes to: the
/// first rule that recognizes it, in order.
pub open spec fn spec_decode_property(path: Seq<u32>, name: Seq<char>, value: Option<VarModel>, l: LayoutView) -> EventModel {
    match rule_channel(path, name, value, l) {
        Some(e) => e,
        None => {
            match rule_fader(path, name, value, l) {
                Some(e) => e,
                None => {
                    match rule_mix(path, name, value, l) {
                        Some(e) => e,
                        None => {
                            match rule_encoder(path, name, value, l) {
                                Some(e) => e,
                                None => {
                                    match rule_echo(path, name, value, l) {
                                        Some(e) => e,
                                        None => {
                                            match rule_hardware(path, name, value, l) {
                                                Some(e) => e,
                                                None => {
                                                    match rule_emergency(path, name, value) {
                                                        Some(e) => e,
                                                        None => {
                                                            match rule_network(path, name, value, l) {
                                                                Some(e) => e,
                                                                None => {
                                                                    match rule_recordings(path, name, value, l) {
                                                                        Some(e) => e,
                                                                        None => {
                                                                            match rule_recording(path, name, value, l) {
                                                                                Some(e) => e,
                                                                                None => {
                                                                                    match rule_storage_volume(path, name, value, l) {
                                                                                        Some(e) => e,
                                                                                        None => {
                                                                                            match rule_audio(path, name, value, l) {
                                                                                                Some(e) => e,
                                                                                                None => {
                                                                                                    match rule_build(path, name, value, l) {
                                                                                                        Some(e) => e,
                                                                                                        None => {
                                                                                                            match rule_app(path, name, value, l) {
                                                                                                                Some(e) => e,
                                                                                                                None => {
                                                                                                                    match rule_theme(path, name, value, l) {
                                                                                                                        Some(e) => e,
                                                                                                                        None => {
                                                                                                                            match rule_current_show(path, name, value, l) {
                                                                                                                                Some(e) => e,
                                                                                                                                None => {
                                                                                                                                    match rule_show_control(path, name, value, l) {
                                                                                                                                        Some(e) => e,
                                                                                                                                        None => {
                                                                                                                                            match rule_show(path, name, value, l) {
                                                                                                                                                Some(e) => e,
                                                                                                                                                None => {
                                                                                                                                                    match rule_meter(path, name, value, l) {
                                                                                                                                                        Some(e) => e,
                                                                                                                                                        None => {
                                                                                                                                                            match rule_sip_calling(path, name, value, l) {
                                                                                                                                                                Some(e) => e,
                                                                                                                                                                None => {
                                                                                                                                                                    match rule_sip_advanced(path, name, value, l) {
                                                                                                                                                                        Some(e) => e,
                                                                                                                                                                        None => {
                                                                                                                                                                            match rule_sip_registration(path, name, value, l) {
                                                                                                                                                                                Some(e) => e,
                                                                                                                                                                                None => {
                                                                                                                                                                                    match rule_sip_call_slots(path, name, value, l) {
                                                                                                                                                                                        Some(e) => e,
                                                                                                                                                                                        None => {
                                                                                                                                                                                            match rule_streamerx_mix_preset(path, name, value, l) {
                                                                                                                                                                                                Some(e) => e,
                                                                                                                                                                                                None => {
                                                                                                                                                                                                    match rule_streamerx_stream_mix(path, name, value, l) {
                                                                                                                                                                                                        Some(e) => e,
                                                                                                                                                                                                        None => {
                                                                                                                                                                                                            match rule_fx_preset(path, name, value, l) {
                                                                                                                                                                                                                Some(e) => e,
                                                                                                                                                                                                                None => {
                                                                                                                                                                                                                    match rule_pad_recorder(path, name, value, l) {
                                                                                                                                                                                                                        Some(e) => e,
                                                                                                                                                                                                                        None => {
                                                                                                                                                                                                                            match rule_test(path, name, value, l) {
                                                                                                                                                                                                                                Some(e) => e,
                                                                                                                                                                                                                                None => {
                                                                                                                                                                                                                                    match rule_wifi_scan_result(path, name, value, l) {
                                                                                                                                                                                                                                        Some(e) => e,
                                                                                                                                                                                                                                        None => {
                                                                                                                                                                                                                                            match rule_radio(path, name, value, l) {
                                                                                                                                                                                                                                                Some(e) => e,
                                                                                                                                                                                                                                                None => {
                                                                                                                                                                                                                                                    match rule_radio_tx(path, name, value, l) {
                                                                                                                                                                                                                                                        Some(e) => e,
                                                                                                                                                                                                                                                        None => {
                                                                                                                                                                                                                                                            match rule_radio_rx(path, name, value, l) {
                                                                                                                                                                                                                                                                Some(e) => e,
                                                                                                                                                                                                                                                                None => {
                                                                                                                                                                                                                                                                    match rule_mix_minuses(path, name, value, l) {
                                                                                                                                                                                                                                                                        Some(e) => e,
                                                                                                                                                                                                                                                                        None => {
                                                                                                                                                                                                                                                                            match rule_rcsync_mix(path, name, value, l) {
                                                                                                                                                                                                                                                                                Some(e) => e,
                                                                                                                                                                                                                                                                                None => {
                                                                                                                                                                                                                                                                                    rule_fallback(path, name, value, l)
                                                                                                                                                                                                                                                                                },
                                                                                                                                                                                                                                                                            }
                                                                                                                                                                                                                                                                        },
                                                                                                                                                                                                                                                                    }
                                                                                                                                                                                                                                                                },
                                                                                                                                                                                                                                                            }
                                                                                                                                                                                                                                                        },
                                                                                                                                                                                                                                                    }
                                                                                                                                                                                                                                                },
                                                                                                                                                                                                                                            }
                                                                                                                                                                                                                                        },
                                                                                                                                                                                                                                    }
                                                                                                                                                                                                                                },
                                                                                                                                                                                                                            }
                                                                                                                                                                                                                        },
                                                                                                                                                                                                                    }
                                                                                                                                                                                                                },
                                                                                                                                                                                                            }
                                                                                                                                                                                                        },
                                                                                                                                                                                                    }
                                                                                                                                                                                                },
                                                                                                                                                                                            }
                                                                                                                                                                                        },
                                                                                                                                                                                    }
                                                                                                                                                                                },
                                                                                                                                                                            }
                                                                                                                                                                        },
                                                                                                                                                                    }
                                                                                                                                                                },
                                                                                                                                                            }
                                                                                                                                                        },
                                                                                                                                                    }
                                                                                                                                                },
                                                                                                                                            }
                                                                                                                                        },
                                                                                                                                    }
                                                                                                                                },
                                                                                                                            }
                                                                                                                        },
                                                                                                                    }
                                                                                                                },
                                                                                                            }
                                                                                                        },
                                                                                                    }
                                                                                                },
                                                                                            }
                                                                                        },
                                                                                    }
                                                                                },
                                                                            }
                                                                        },
                                                                    }
                                                                },
                                                            }
                                                        },
                                                    }
                                                },
                                            }
                                        },
                                    }
                                },
                            }
                        },
                    }
                },
            }
        },
    }
}

/// The event a change frame decodes to: a full sync becomes the initial
/// state, a topology change invalidates the layout, and a property change or
/// removal is decoded by [`spec_decode_property`].
pub open spec fn spec_decode_change_frame(f: FrameModel, l: LayoutView) -> EventModel {
    match f {
        FrameModel::FullSync { root } => EventModel::InitialState(spec_initial_state(root, l)),
        FrameModel::ChildAdded { .. } => EventModel::LayoutInvalidated,
        FrameModel::ChildRemoved { .. } => EventModel::LayoutInvalidated,
        FrameModel::ChildMoved { .. } => EventModel::LayoutInvalidated,
        FrameModel::PropertyChanged { path, name, value } => spec_decode_property(path, name, Some(value), l),
        FrameModel::PropertyRemoved { path, name } => spec_decode_property(path, name, None, l),
    }
}

// ---------------------------------------------------------------------------
// Initial state of a full sync

/// A property family that a node's properties report to.
#[derive(Debug, Clone, Copy, PartialEq, Eq, Structural)]
pub enum PropFamily {
    InputSource(Source),
    Master,
    Output,
    Ducker,
    Recorder,
    Player,
    Headphone(u8),
    Effects(u8),
    Gui,
    Pad(u8),
    System,
}

/// The event a property reports as a parameter of `fam`.
pub open spec fn family_event(fam: PropFamily, p: (Seq<char>, VarModel)) -> EventModel {
    match fam {
        PropFamily::InputSource(source) => EventModel::InputSourceParamChanged { source, param: InputSourceParam::name_model(p.0), value: p.1 },
        PropFamily::Master => EventModel::MasterParamChanged { param: MasterParam::name_model(p.0), value: p.1 },
        PropFamily::Output => EventModel::OutputParamChanged { param: OutputParam::name_model(p.0), value: p.1 },
        PropFamily::Ducker => EventModel::DuckerParamChanged { param: DuckerParam::name_model(p.0), value: p.1 },
        PropFamily::Recorder => EventModel::RecorderParamChanged { param: RecorderParam::name_model(p.0), value: p.1 },
        PropFamily::Player => EventModel::PlayerParamChanged { param: PlayerParam::name_model(p.0), value: p.1 },
        PropFamily::Headphone(headphone) => EventModel::HeadphoneParamChanged { headphone, param: HeadphoneParam::name_model(p.0), value: p.1 },
        PropFamily::Effects(effects) => EventModel::EffectsParamChanged { effects, param: EffectsParam::name_model(p.0), value: p.1 },
        PropFamily::Gui => EventModel::GuiParamChanged { param: GuiParam::name_model(p.0), value: p.1 },
        PropFamily::Pad(pad) => EventModel::PadParamChanged { pad, param: PadParam::name_model(p.0), value: p.1 },
        PropFamily::System => EventModel::SystemParamChanged { param: SystemParam::name_model(p.0), value: p.1 },
    }
}

/// Every property of a node, in order, as a parameter event of `fam`.
pub open spec fn prop_events(ps: Seq<(Seq<char>, VarModel)>, fam: PropFamily) -> Seq<EventModel> {
    ps.map_values(|p: (Seq<char>, VarModel)| family_event(fam, p))
}

/// How many of the first `n` nodes are named `name`.
pub open spec fn count_named(cs: Seq<NodeModel>, n: int, name: Seq<char>) -> nat
    decreases n,
{
    if n <= 0 || n > cs.len() {
        0
    } else {
        count_named(cs, n - 1, name) + if cs[n - 1].name == name {
            1nat
        } else {
            0nat
        }
    }
}

/// The first property of that name, as an int.
pub open spec fn spec_int_prop(ps: Seq<(Seq<char>, VarModel)>, name: Seq<char>) -> Option<i64> {
    match spec_first_prop(ps, name, 0) {
        Some(v) => spec_as_int(v),
        None => None,
    }
}

/// The first property of that name, as a bool.
pub open spec fn spec_bool_prop(ps: Seq<(Seq<char>, VarModel)>, name: Seq<char>) -> Option<bool> {
    match spec_first_prop(ps, name, 0) {
        Some(VarModel::Bool(b)) => Some(b),
        _ => None,
    }
}

/// The first property of that name, as a string.
pub open spec fn spec_string_prop(ps: Seq<(Seq<char>, VarModel)>, name: Seq<char>) -> Option<Seq<char>> {
    match spec_first_prop(ps, name, 0) {
        Some(VarModel::Str(s)) => Some(s),
        _ => None,
    }
}

/// The level of the fader at `idx`, if it has a strip and a level.
pub open spec fn fader_child_events(node: NodeModel, idx: u8, model: DeviceModel) -> Seq<EventModel> {
    match (Fader::strip_at(model, idx), spec_int_prop(node.properties, "faderLevel"@)) {
        (Some(fader), Some(level)) => seq![EventModel::FaderLevelChanged { fader, level: spec_clamp_level(level) }],
        _ => Seq::empty(),
    }
}

/// Levels of the `FADER` children among the first `n`, each numbered by how
/// many `FADER` children precede it.
pub open spec fn fader_level_events(cs: Seq<NodeModel>, n: int, model: DeviceModel) -> Seq<EventModel>
    decreases n,
{
    if n <= 0 || n > cs.len() {
        Seq::empty()
    } else {
        fader_level_events(cs, n - 1, model) + if cs[n - 1].name == "FADER"@ {
            fader_child_events(cs[n - 1], saturate_u8(count_named(cs, n - 1, "FADER"@)), model)
        } else {
            Seq::empty()
        }
    }
}

/// Whether a name is one of the strip's mute, cue and assignment properties.
pub open spec fn is_strip_control(name: Seq<char>) -> bool {
    name == "channelOutputMute"@ || name == "channelCueEnable"@ || name == "channelInputSource"@
}

/// The strip parameters among the first `n` properties of a channel.
pub open spec fn strip_param_events(ps: Seq<(Seq<char>, VarModel)>, n: int, fader: Fader) -> Seq<EventModel>
    decreases n,
{
    if n <= 0 || n > ps.len() {
        Seq::empty()
    } else {
        strip_param_events(ps, n - 1, fader) + if is_strip_control(ps[n - 1].0) {
            Seq::empty()
        } else {
            seq![EventModel::ChannelParamChanged { fader, param: ChannelParam::name_model(ps[n - 1].0), value: ps[n - 1].1 }]
        }
    }
}

/// The source an initial assignment names: none when negative.
pub open spec fn assignment_source(si: i64) -> Option<Source> {
    if si < 0 || si > 255 {
        None
    } else {
        Source::at_index(si as u8)
    }
}

/// The state of the channel at `idx`: mute, cue, assignment, then every
/// other property as a strip parameter.
pub open spec fn channel_child_events(node: NodeModel, idx: u8, model: DeviceModel) -> Seq<EventModel> {
    match Fader::strip_at(model, idx) {
        Some(fader) => {
            let ps = node.properties;
            (match spec_bool_prop(ps, "channelOutputMute"@) {
                Some(muted) => seq![EventModel::FaderMuteChanged { fader, muted }],
                None => Seq::empty(),
            }) + (match spec_bool_prop(ps, "channelCueEnable"@) {
                Some(enabled) => seq![EventModel::FaderCueChanged { fader, enabled }],
                None => Seq::empty(),
            }) + (match spec_int_prop(ps, "channelInputSource"@) {
                Some(si) => seq![EventModel::FaderAssignmentChanged { fader, source: assignment_source(si) }],
                None => Seq::empty(),
            }) + strip_param_events(ps, ps.len() as int, fader)
        },
        None => Seq::empty(),
    }
}

/// The state of the `CHANNEL` nodes among the first `n`, numbered in order.
pub open spec fn channel_events(cs: Seq<NodeModel>, n: int, model: DeviceModel) -> Seq<EventModel>
    decreases n,
{
    if n <= 0 || n > cs.len() {
        Seq::empty()
    } else {
        channel_events(cs, n - 1, model) + if cs[n - 1].name == "CHANNEL"@ {
            channel_child_events(cs[n - 1], saturate_u8(count_named(cs, n - 1, "CHANNEL"@)), model)
        } else {
            Seq::empty()
        }
    }
}

/// The state of mix cell `c` (source-major): level, mute, link, disabled.
pub open spec fn mix_child_events(node: NodeModel, c: nat) -> Seq<EventModel> {
    match (Source::at_index((c / 13) as u8), MixOutput::at_index((c % 13) as u8)) {
        (Some(source), Some(mix)) => mix_level_events(node.properties, source, mix) + mix_flag_events(node.properties, source, mix),
        _ => Seq::empty(),
    }
}

/// The state of the `MIX` nodes among the first `n`, each cell numbered by
/// how many `MIX` nodes precede it.
pub open spec fn mix_events(cs: Seq<NodeModel>, n: int) -> Seq<EventModel>
    decreases n,
{
    if n <= 0 || n > cs.len() {
        Seq::empty()
    } else {
        mix_events(cs, n - 1) + if cs[n - 1].name == "MIX"@ {
            mix_child_events(cs[n - 1], count_named(cs, n - 1, "MIX"@))
        } else {
            Seq::empty()
        }
    }
}

/// The parameters of the `INPUTSOURCE` nodes among the first `n`, each
/// numbered by how many precede it; an ordinal past the named sources is
/// skipped.
pub open spec fn input_source_events(cs: Seq<NodeModel>, n: int) -> Seq<EventModel>
    decreases n,
{
    if n <= 0 || n > cs.len() {
        Seq::empty()
    } else {
        input_source_events(cs, n - 1) + if cs[n - 1].name == "INPUTSOURCE"@ && count_named(cs, n - 1, "INPUTSOURCE"@) <= 255
            && Source::at_index(count_named(cs, n - 1, "INPUTSOURCE"@) as u8) is Some {
            prop_events(cs[n - 1].properties, PropFamily::InputSource(Source::at_index(count_named(cs, n - 1, "INPUTSOURCE"@) as u8).unwrap()))
        } else {
            Seq::empty()
        }
    }
}

/// The parameters of the `HEADPHONE` nodes among the first `n`, each
/// numbered by how many precede it.
pub open spec fn headphone_events(cs: Seq<NodeModel>, n: int) -> Seq<EventModel>
    decreases n,
{
    if n <= 0 || n > cs.len() {
        Seq::empty()
    } else {
        headphone_events(cs, n - 1) + if cs[n - 1].name == "HEADPHONE"@ {
            prop_events(cs[n - 1].properties, PropFamily::Headphone(saturate_u8(count_named(cs, n - 1, "HEADPHONE"@))))
        } else {
            Seq::empty()
        }
    }
}

/// The parameters of the first `n` nodes of a run starting at `start`,
/// numbered by position in the run (`pads` selects pads over effects slots).
pub open spec fn run_events(cs: Seq<NodeModel>, start: int, n: int, pads: bool) -> Seq<EventModel>
    decreases n,
{
    if n <= 0 || start < 0 || start + n > cs.len() {
        Seq::empty()
    } else {
        run_events(cs, start, n - 1, pads) + prop_events(
            cs[start + n - 1].properties,
            if pads {
                PropFamily::Pad(saturate_u8((n - 1) as nat))
            } else {
                PropFamily::Effects(saturate_u8((n - 1) as nat))
            },
        )
    }
}

/// The parameters of the first run of `name` nodes.
pub open spec fn first_run_events(cs: Seq<NodeModel>, name: Seq<char>, pads: bool) -> Seq<EventModel> {
    match spec_first_named(cs, name, 0) {
        Some(f) => run_events(cs, f, spec_run_len(cs, f, name) as int, pads),
        None => Seq::empty(),
    }
}

/// The parameters of the first node named `name`.
pub open spec fn singleton_events(cs: Seq<NodeModel>, name: Seq<char>, fam: PropFamily) -> Seq<EventModel> {
    match spec_first_named(cs, name, 0) {
        Some(i) => prop_events(cs[i].properties, fam),
        None => Seq::empty(),
    }
}

/// The initial device state a full sync describes, in order: fader levels,
/// channel strips, mix cells, input sources, the master, output, ducker,
/// recorder and player nodes, headphones, effects slots, the GUI node, sound
/// pads, and the system node.
pub open spec fn spec_initial_state(root: NodeModel, l: LayoutView) -> Seq<EventModel> {
    let cs = root.children;
    let model = l.model;
    let faders = match spec_first_named(cs, "PHYSICALINTERFACE"@, 0) {
        Some(i) => fader_level_events(cs[i].children, cs[i].children.len() as int, model),
        None => Seq::empty(),
    };
    let pads = match spec_first_named(cs, "SOUNDPADS"@, 0) {
        Some(i) => first_run_events(cs[i].children, "PAD"@, true),
        None => Seq::empty(),
    };
    faders + channel_events(cs, cs.len() as int, model) + mix_events(cs, cs.len() as int) + input_source_events(cs, cs.len() as int)
        + singleton_events(cs, "MASTERCHANNEL"@, PropFamily::Master) + singleton_events(cs, "OUTPUT"@, PropFamily::Output)
        + singleton_events(cs, "DUCKER"@, PropFamily::Ducker) + singleton_events(cs, "RECORDER"@, PropFamily::Recorder)
        + singleton_events(cs, "PLAYER"@, PropFamily::Player) + headphone_events(cs, cs.len() as int)
        + first_run_events(cs, "EFFECTS_PARAMETERS"@, false) + singleton_events(cs, "GUI"@, PropFamily::Gui)
        + pads + singleton_events(cs, "SYSTEM"@, PropFamily::System)
}


// ---------------------------------------------------------------------------
// Decoder

/// The strip at an optional wire index on the layout's model.
fn strip_for(layout: &Layout, idx: Option<u8>) -> (r: Option<Fader>)
    ensures
        r == fader_at(layout@, idx),
{
    match idx {
        Some(i) => Fader::from_index(layout.model(), i),
        None => None,
    }
}

/// The source an assignment value names.
fn source_of(value: &Option<Value>) -> (r: Option<Source>)
    ensures
        r == spec_source_of(var_view(*value)),
{
    match value {
        Some(v) => match v.as_int() {
            Some(s) => if 0 <= s && s <= 255 {
                Source::from_protocol(s as u8)
            } else {
                None
            },
            None => None,
        },
        None => None,
    }
}

/// A level clamped into the MIDI range `0..=127`.
fn clamp_level(i: i64) -> (r: u8)
    ensures
        r == spec_clamp_level(i),
{
    if i < 0 {
        0
    } else if i > 127 {
        127
    } else {
        i as u8
    }
}

/// The low byte of the path's last element (0 for an empty path).
fn last_index(path: &[u32]) -> (r: u8)
    ensures
        r == spec_last_index(path@),
{
    if path.len() > 0 {
        path[path.len() - 1] as u8
    } else {
        0
    }
}

fn decode_channel(path: &[u32], name: &str, value: &Option<Value>, layout: &Layout) -> (r: Option<DeviceEvent>)
    ensures
        opt_event_view(r) == rule_channel(path@, name@, var_view(*value), layout@),
{
    let fader = match strip_for(layout, layout.channel_index_from_path(path)) {
        Some(f) => f,
        None => {
            return None;
        },
    };
    if str_eq(name, "channelOutputMute") {
        match value {
            Some(Value::Bool(muted)) => Some(DeviceEvent::FaderMuteChanged { fader, muted: *muted }),
            _ => None,
        }
    } else if str_eq(name, "channelCueEnable") {
        match value {
            Some(Value::Bool(enabled)) => Some(DeviceEvent::FaderCueChanged { fader, enabled: *enabled }),
            _ => None,
        }
    } else if str_eq(name, "channelInputSource") {
        Some(DeviceEvent::FaderAssignmentChanged { fader, source: source_of(value) })
    } else {
        None
    }
}

fn decode_fader(path: &[u32], name: &str, value: &Option<Value>, layout: &Layout) -> (r: Option<DeviceEvent>)
    ensures
        opt_event_view(r) == rule_fader(path@, name@, var_view(*value), layout@),
{
    let fader = match strip_for(layout, layout.fader_index_from_path(path)) {
        Some(f) => f,
        None => {
            return None;
        },
    };
    if !str_eq(name, "faderLevel") {
        return None;
    }
    match value {
        Some(v) => match v.as_int() {
            Some(level) => Some(DeviceEvent::FaderLevelChanged { fader, level: clamp_level(level) }),
            None => None,
        },
        None => None,
    }
}

/// The named cell a path addresses in the mix matrix.
fn mix_cell_at(layout: &Layout, path: &[u32]) -> (r: Option<(Source, MixOutput)>)
    ensures
        r == spec_mix_cell_at(layout@, path@),
{
    match layout.mix_cell_from_path(path) {
        Some((s, m)) => match (Source::from_protocol(s), MixOutput::from_protocol(m)) {
            (Some(source), Some(mix)) => Some((source, mix)),
            _ => None,
        },
        None => None,
    }
}

fn decode_mix(path: &[u32], name: &str, value: &Option<Value>, layout: &Layout) -> (r: Option<DeviceEvent>)
    ensures
        opt_event_view(r) == rule_mix(path@, name@, var_view(*value), layout@),
{
    let (source, mix) = match mix_cell_at(layout, path) {
        Some(c) => c,
        None => {
            return None;
        },
    };
    if str_eq(name, "mixMute") {
        match value {
            Some(Value::Bool(muted)) => Some(DeviceEvent::MixMuteChanged { source, mix, muted: *muted }),
            _ => None,
        }
    } else if str_eq(name, "mixLink") {
        match value {
            Some(Value::Bool(linked)) => Some(DeviceEvent::MixLinkChanged { source, mix, linked: *linked }),
            _ => None,
        }
    } else if str_eq(name, "mixDisabled") {
        match value {
            Some(Value::Bool(disabled)) => Some(DeviceEvent::MixDisabledChanged { source, mix, disabled: *disabled }),
            _ => None,
        }
    } else if str_eq(name, "mixLevelWithAnchor") {
        match value {
            Some(Value::String(s)) => {
                let anchor = first_piece(s.as_str());
                let level = last_piece(s.as_str());
                if is_float_text(anchor) && is_float_text(level) {
                    Some(DeviceEvent::MixLevelChanged { source, mix, anchor: anchor.to_owned(), value: level.to_owned() })
                } else {
                    None
                }
            },
            _ => None,
        }
    } else if str_eq(name, "mixLinkRequest") || str_eq(name, "mixUnlinkRequest") {
        match value {
            Some(v) => match decode_phase(v) {
                Some(origin) => {
                    let direction = if str_eq(name, "mixLinkRequest") {
                        MixLinkDirection::Link
                    } else {
                        MixLinkDirection::Unlink
                    };
                    Some(DeviceEvent::MixLinkRequested { source, mix, direction, origin })
                },
                None => None,
            },
            None => None,
        }
    } else {
        None
    }
}

/// The strip an encoder path names: its first element is the fader index.
fn encoder_fader(path: &[u32], layout: &Layout) -> (r: Option<Fader>)
    ensures
        r == spec_encoder_fader(path@, layout@),
{
    if path.len() > 0 && path[0] < layout.fader_count() as u32 {
        Fader::from_index(layout.model(), path[0] as u8)
    } else {
        None
    }
}

fn decode_encoder(path: &[u32], name: &str, value: &Option<Value>, layout: &Layout) -> (r: Option<DeviceEvent>)
    ensures
        opt_event_view(r) == rule_encoder(path@, name@, var_view(*value), layout@),
{
    if str_eq(name, "encoderSignal") {
        match encoder_fader(path, layout) {
            Some(fader) => Some(DeviceEvent::FaderTouched { fader }),
            None => None,
        }
    } else if str_eq(name, "encoderColour") {
        match (encoder_fader(path, layout), value) {
            (Some(fader), Some(v)) => match v.as_int() {
                Some(i) => {
                    let colour = if i < 0 {
                        None
                    } else {
                        Some(i as i32)
                    };
                    Some(DeviceEvent::FaderEncoderColourChanged { fader, colour })
                },
                None => None,
            },
            _ => None,
        }
    } else {
        None
    }
}

/// The strip a `channelInputSource` echo names.
fn echo_fader(path: &[u32], layout: &Layout) -> (r: Option<Fader>)
    ensures
        r == spec_echo_fader(path@, layout@),
{
    if let Some(f) = strip_for(layout, layout.channel_index_from_path(path)) {
        return Some(f);
    }
    if path.len() == 0 {
        return None;
    }
    let first = layout.first_channel();
    if path[0] < first {
        return None;
    }
    let offset = path[0] - first;
    if offset % 6 == 0 && offset / 6 < layout.channel_count() as u32 {
        Fader::from_index(layout.model(), (offset / 6) as u8)
    } else {
        None
    }
}

fn decode_echo(path: &[u32], name: &str, value: &Option<Value>, layout: &Layout) -> (r: Option<DeviceEvent>)
    ensures
        opt_event_view(r) == rule_echo(path@, name@, var_view(*value), layout@),
{
    if !str_eq(name, "channelInputSource") {
        return None;
    }
    match echo_fader(path, layout) {
        Some(fader) => Some(DeviceEvent::FaderAssignmentChanged { fader, source: source_of(value) }),
        None => None,
    }
}

fn decode_hardware(path: &[u32], name: &str, value: &Option<Value>, layout: &Layout) -> (r: Option<DeviceEvent>)
    ensures
        opt_event_view(r) == rule_hardware(path@, name@, var_view(*value), layout@),
{
    if !(path.len() == 2 && path[0] == layout.physical_interface_idx()) {
        return None;
    }
    let child = path[1] as u8;
    if str_eq(name, "potLevel") {
        match value {
            Some(Value::Int(level)) => Some(DeviceEvent::PotLevelChanged { pot: child, level: clamp_level(*level) }),
            _ => None,
        }
    } else if str_eq(name, "padButtonPressed") {
        match value {
            Some(Value::Bool(pressed)) => Some(DeviceEvent::PadButtonPressed { button: child, pressed: *pressed }),
            _ => None,
        }
    } else if str_eq(name, "mutePressed") {
        match value {
            Some(Value::Bool(pressed)) => Some(DeviceEvent::MutePressed { button: child, pressed: *pressed }),
            _ => None,
        }
    } else if str_eq(name, "soloPressed") {
        match value {
            Some(Value::Bool(pressed)) => Some(DeviceEvent::SoloPressed { button: child, pressed: *pressed }),
            _ => None,
        }
    } else if str_eq(name, "encoderPressed") {
        match value {
            Some(Value::Bool(pressed)) => Some(DeviceEvent::EncoderPressed { encoder: child, pressed: *pressed }),
            _ => None,
        }
    } else if str_eq(name, "recButtonPressed") {
        match value {
            Some(Value::Bool(pressed)) => Some(DeviceEvent::RecButtonPressed { pressed: *pressed }),
            _ => None,
        }
    } else {
        None
    }
}

fn decode_emergency(path: &[u32], name: &str, value: &Option<Value>) -> (r: Option<DeviceEvent>)
    ensures
        opt_event_view(r) == rule_emergency(path@, name@, var_view(*value)),
{
    if path.len() == 1 && str_eq(name, "emergencyMuteActive") {
        match value {
            Some(Value::Bool(active)) => Some(DeviceEvent::EmergencyMuteChanged { active: *active }),
            _ => None,
        }
    } else {
        None
    }
}

fn decode_network(path: &[u32], name: &str, value: &Option<Value>, layout: &Layout) -> (r: Option<DeviceEvent>)
    ensures
        opt_event_view(r) == rule_network(path@, name@, var_view(*value), layout@),
{
    let param = match NetworkParam::from_known_name(name) {
        Some(p) => p,
        None => {
            return None;
        },
    };
    match value {
        Some(v) => Some(DeviceEvent::NetworkParamChanged { param, value: v.clone() }),
        None => None,
    }
}

fn decode_recordings(path: &[u32], name: &str, value: &Option<Value>, layout: &Layout) -> (r: Option<DeviceEvent>)
    ensures
        opt_event_view(r) == rule_recordings(path@, name@, var_view(*value), layout@),
{
    if !(path.len() == 1) {
        return None;
    }
    let param = match RecordingsParam::from_known_name(name) {
        Some(p) => p,
        None => {
            return None;
        },
    };
    match value {
        Some(v) => Some(DeviceEvent::RecordingsParamChanged { param, value: v.clone() }),
        None => None,
    }
}

fn decode_recording(path: &[u32], name: &str, value: &Option<Value>, layout: &Layout) -> (r: Option<DeviceEvent>)
    ensures
        opt_event_view(r) == rule_recording(path@, name@, var_view(*value), layout@),
{
    if !(path.len() == 2) {
        return None;
    }
    let recording = path[1] as u8;
    let param = match RecordingParam::from_known_name(name) {
        Some(p) => p,
        None => {
            return None;
        },
    };
    match value {
        Some(v) => Some(DeviceEvent::RecordingParamChanged { recording, param, value: v.clone() }),
        None => None,
    }
}

fn decode_storage_volume(path: &[u32], name: &str, value: &Option<Value>, layout: &Layout) -> (r: Option<DeviceEvent>)
    ensures
        opt_event_view(r) == rule_storage_volume(path@, name@, var_view(*value), layout@),
{
    if !(path.len() == 2) {
        return None;
    }
    let volume = path[1] as u8;
    let param = match StorageVolumeParam::from_known_name(name) {
        Some(p) => p,
        None => {
            return None;
        },
    };
    match value {
        Some(v) => Some(DeviceEvent::StorageVolumeParamChanged { volume, param, value: v.clone() }),
        None => None,
    }
}

fn decode_audio(path: &[u32], name: &str, value: &Option<Value>, layout: &Layout) -> (r: Option<DeviceEvent>)
    ensures
        opt_event_view(r) == rule_audio(path@, name@, var_view(*value), layout@),
{
    if !(path.len() == 1) {
        return None;
    }
    let param = match AudioParam::from_known_name(name) {
        Some(p) => p,
        None => {
            return None;
        },
    };
    match value {
        Some(v) => Some(DeviceEvent::AudioParamChanged { param, value: v.clone() }),
        None => None,
    }
}

fn decode_build(path: &[u32], name: &str, value: &Option<Value>, layout: &Layout) -> (r: Option<DeviceEvent>)
    ensures
        opt_event_view(r) == rule_build(path@, name@, var_view(*value), layout@),
{
    if !(path.len() == 1) {
        return None;
    }
    let param = match BuildParam::from_known_name(name) {
        Some(p) => p,
        None => {
            return None;
        },
    };
    match value {
        Some(v) => Some(DeviceEvent::BuildParamChanged { param, value: v.clone() }),
        None => None,
    }
}

fn decode_app(path: &[u32], name: &str, value: &Option<Value>, layout: &Layout) -> (r: Option<DeviceEvent>)
    ensures
        opt_event_view(r) == rule_app(path@, name@, var_view(*value), layout@),
{
    if !(path.len() == 1) {
        return None;
    }
    let param = match AppParam::from_known_name(name) {
        Some(p) => p,
        None => {
            return None;
        },
    };
    match value {
        Some(v) => Some(DeviceEvent::AppParamChanged { param, value: v.clone() }),
        None => None,
    }
}

fn decode_theme(path: &[u32], name: &str, value: &Option<Value>, layout: &Layout) -> (r: Option<DeviceEvent>)
    ensures
        opt_event_view(r) == rule_theme(path@, name@, var_view(*value), layout@),
{
    if !(path.len() == 1) {
        return None;
    }
    let param = match ThemeParam::from_known_name(name) {
        Some(p) => p,
        None => {
            return None;
        },
    };
    match value {
        Some(v) => Some(DeviceEvent::ThemeParamChanged { param, value: v.clone() }),
        None => None,
    }
}

fn decode_current_show(path: &[u32], name: &str, value: &Option<Value>, layout: &Layout) -> (r: Option<DeviceEvent>)
    ensures
        opt_event_view(r) == rule_current_show(path@, name@, var_view(*value), layout@),
{
    if !(path.len() == 1) {
        return None;
    }
    let param = match CurrentShowParam::from_known_name(name) {
        Some(p) => p,
        None => {
            return None;
        },
    };
    match value {
        Some(v) => Some(DeviceEvent::CurrentShowParamChanged { param, value: v.clone() }),
        None => None,
    }
}

fn decode_show_control(path: &[u32], name: &str, value: &Option<Value>, layout: &Layout) -> (r: Option<DeviceEvent>)
    ensures
        opt_event_view(r) == rule_show_control(path@, name@, var_view(*value), layout@),
{
    if !(path.len() == 1) {
        return None;
    }
    let param = match ShowControlParam::from_known_name(name) {
        Some(p) => p,
        None => {
            return None;
        },
    };
    match value {
        Some(v) => Some(DeviceEvent::ShowControlParamChanged { param, value: v.clone() }),
        None => None,
    }
}

fn decode_show(path: &[u32], name: &str, value: &Option<Value>, layout: &Layout) -> (r: Option<DeviceEvent>)
    ensures
        opt_event_view(r) == rule_show(path@, name@, var_view(*value), layout@),
{
    if !(path.len() == 2) {
        return None;
    }
    let show = path[1] as u8;
    let param = match ShowParam::from_known_name(name) {
        Some(p) => p,
        None => {
            return None;
        },
    };
    match value {
        Some(v) => Some(DeviceEvent::ShowParamChanged { show, param, value: v.clone() }),
        None => None,
    }
}

fn decode_meter(path: &[u32], name: &str, value: &Option<Value>, layout: &Layout) -> (r: Option<DeviceEvent>)
    ensures
        opt_event_view(r) == rule_meter(path@, name@, var_view(*value), layout@),
{
    if !(path.len() == 2 && path[0] != layout.physical_interface_idx()) {
        return None;
    }
    let meter = path[1] as u8;
    let param = match MeterParam::from_known_name(name) {
        Some(p) => p,
        None => {
            return None;
        },
    };
    match value {
        Some(v) => Some(DeviceEvent::MeterParamChanged { meter, param, value: v.clone() }),
        None => None,
    }
}

fn decode_sip_calling(path: &[u32], name: &str, value: &Option<Value>, layout: &Layout) -> (r: Option<DeviceEvent>)
    ensures
        opt_event_view(r) == rule_sip_calling(path@, name@, var_view(*value), layout@),
{
    if !(layout.is_sip_calling_path(path)) {
        return None;
    }
    let param = match SipCallingParam::from_known_name(name) {
        Some(p) => p,
        None => {
            return None;
        },
    };
    match value {
        Some(v) => Some(DeviceEvent::SipCallingParamChanged { param, value: v.clone() }),
        None => None,
    }
}

fn decode_sip_advanced(path: &[u32], name: &str, value: &Option<Value>, layout: &Layout) -> (r: Option<DeviceEvent>)
    ensures
        opt_event_view(r) == rule_sip_advanced(path@, name@, var_view(*value), layout@),
{
    if !(layout.is_sip_advanced_path(path)) {
        return None;
    }
    let param = match SipAdvancedParam::from_known_name(name) {
        Some(p) => p,
        None => {
            return None;
        },
    };
    match value {
        Some(v) => Some(DeviceEvent::SipAdvancedParamChanged { param, value: v.clone() }),
        None => None,
    }
}

fn decode_sip_registration(path: &[u32], name: &str, value: &Option<Value>, layout: &Layout) -> (r: Option<DeviceEvent>)
    ensures
        opt_event_view(r) == rule_sip_registration(path@, name@, var_view(*value), layout@),
{
    let registration = match layout.sip_registration_index_from_path(path) {
        Some(i) => i,
        None => {
            return None;
        },
    };
    let param = match SipRegistrationParam::from_known_name(name) {
        Some(p) => p,
        None => {
            return None;
        },
    };
    match value {
        Some(v) => Some(DeviceEvent::SipRegistrationParamChanged { registration, param, value: v.clone() }),
        None => None,
    }
}

fn decode_sip_call_slots(path: &[u32], name: &str, value: &Option<Value>, layout: &Layout) -> (r: Option<DeviceEvent>)
    ensures
        opt_event_view(r) == rule_sip_call_slots(path@, name@, var_view(*value), layout@),
{
    let slot = match layout.sip_call_slots_index_from_path(path) {
        Some(i) => i,
        None => {
            return None;
        },
    };
    let param = match SipCallSlotsParam::from_known_name(name) {
        Some(p) => p,
        None => {
            return None;
        },
    };
    match value {
        Some(v) => Some(DeviceEvent::SipCallSlotsParamChanged { slot, param, value: v.clone() }),
        None => None,
    }
}

fn decode_streamerx_mix_preset(path: &[u32], name: &str, value: &Option<Value>, layout: &Layout) -> (r: Option<DeviceEvent>)
    ensures
        opt_event_view(r) == rule_streamerx_mix_preset(path@, name@, var_view(*value), layout@),
{
    let preset = last_index(path);
    let param = match StreamerXMixPresetParam::from_known_name(name) {
        Some(p) => p,
        None => {
            return None;
        },
    };
    match value {
        Some(v) => Some(DeviceEvent::StreamerXMixPresetParamChanged { preset, param, value: v.clone() }),
        None => None,
    }
}

fn decode_streamerx_stream_mix(path: &[u32], name: &str, value: &Option<Value>, layout: &Layout) -> (r: Option<DeviceEvent>)
    ensures
        opt_event_view(r) == rule_streamerx_stream_mix(path@, name@, var_view(*value), layout@),
{
    let stream = last_index(path);
    let param = match StreamerXStreamMixParam::from_known_name(name) {
        Some(p) => p,
        None => {
            return None;
        },
    };
    match value {
        Some(v) => Some(DeviceEvent::StreamerXStreamMixParamChanged { stream, param, value: v.clone() }),
        None => None,
    }
}

fn decode_fx_preset(path: &[u32], name: &str, value: &Option<Value>, layout: &Layout) -> (r: Option<DeviceEvent>)
    ensures
        opt_event_view(r) == rule_fx_preset(path@, name@, var_view(*value), layout@),
{
    let preset = last_index(path);
    let param = match FxPresetParam::from_known_name(name) {
        Some(p) => p,
        None => {
            return None;
        },
    };
    match value {
        Some(v) => Some(DeviceEvent::FxPresetParamChanged { preset, param, value: v.clone() }),
        None => None,
    }
}

fn decode_pad_recorder(path: &[u32], name: &str, value: &Option<Value>, layout: &Layout) -> (r: Option<DeviceEvent>)
    ensures
        opt_event_view(r) == rule_pad_recorder(path@, name@, var_view(*value), layout@),
{
    let pad_recorder = last_index(path);
    let param = match PadRecorderParam::from_known_name(name) {
        Some(p) => p,
        None => {
            return None;
        },
    };
    match value {
        Some(v) => Some(DeviceEvent::PadRecorderParamChanged { pad_recorder, param, value: v.clone() }),
        None => None,
    }
}

fn decode_test(path: &[u32], name: &str, value: &Option<Value>, layout: &Layout) -> (r: Option<DeviceEvent>)
    ensures
        opt_event_view(r) == rule_test(path@, name@, var_view(*value), layout@),
{
    let param = match TestParam::from_known_name(name) {
        Some(p) => p,
        None => {
            return None;
        },
    };
    match value {
        Some(v) => Some(DeviceEvent::TestParamChanged { param, value: v.clone() }),
        None => None,
    }
}

fn decode_wifi_scan_result(path: &[u32], name: &str, value: &Option<Value>, layout: &Layout) -> (r: Option<DeviceEvent>)
    ensures
        opt_event_view(r) == rule_wifi_scan_result(path@, name@, var_view(*value), layout@),
{
    let slot = last_index(path);
    let param = match WifiScanResultParam::from_known_name(name) {
        Some(p) => p,
        None => {
            return None;
        },
    };
    match value {
        Some(v) => Some(DeviceEvent::WifiScanResultChanged { slot, param, value: v.clone() }),
        None => None,
    }
}

fn decode_radio(path: &[u32], name: &str, value: &Option<Value>, layout: &Layout) -> (r: Option<DeviceEvent>)
    ensures
        opt_event_view(r) == rule_radio(path@, name@, var_view(*value), layout@),
{
    let param = match RadioParam::from_known_name(name) {
        Some(p) => p,
        None => {
            return None;
        },
    };
    match value {
        Some(v) => Some(DeviceEvent::RadioParamChanged { param, value: v.clone() }),
        None => None,
    }
}

fn decode_radio_tx(path: &[u32], name: &str, value: &Option<Value>, layout: &Layout) -> (r: Option<DeviceEvent>)
    ensures
        opt_event_view(r) == rule_radio_tx(path@, name@, var_view(*value), layout@),
{
    let tx = last_index(path);
    let param = match RadioTxParam::from_known_name(name) {
        Some(p) => p,
        None => {
            return None;
        },
    };
    match value {
        Some(v) => Some(DeviceEvent::RadioTxParamChanged { tx, param, value: v.clone() }),
        None => None,
    }
}

fn decode_radio_rx(path: &[u32], name: &str, value: &Option<Value>, layout: &Layout) -> (r: Option<DeviceEvent>)
    ensures
        opt_event_view(r) == rule_radio_rx(path@, name@, var_view(*value), layout@),
{
    let rx = last_index(path);
    let param = match RadioRxParam::from_known_name(name) {
        Some(p) => p,
        None => {
            return None;
        },
    };
    match value {
        Some(v) => Some(DeviceEvent::RadioRxParamChanged { rx, param, value: v.clone() }),
        None => None,
    }
}

fn decode_mix_minuses(path: &[u32], name: &str, value: &Option<Value>, layout: &Layout) -> (r: Option<DeviceEvent>)
    ensures
        opt_event_view(r) == rule_mix_minuses(path@, name@, var_view(*value), layout@),
{
    let minuses = match layout.mix_minuses_index_from_path(path) {
        Some(i) => i,
        None => {
            return None;
        },
    };
    let param = match MixMinusesParam::from_known_name(name) {
        Some(p) => p,
        None => {
            return None;
        },
    };
    match value {
        Some(v) => Some(DeviceEvent::MixMinusesParamChanged { minuses, param, value: v.clone() }),
        None => None,
    }
}

fn decode_rcsync_mix(path: &[u32], name: &str, value: &Option<Value>, layout: &Layout) -> (r: Option<DeviceEvent>)
    ensures
        opt_event_view(r) == rule_rcsync_mix(path@, name@, var_view(*value), layout@),
{
    let mix = match layout.rcsync_mix_index_from_path(path) {
        Some(i) => i,
        None => {
            return None;
        },
    };
    let param = match RcSyncMixParam::from_known_name(name) {
        Some(p) => p,
        None => {
            return None;
        },
    };
    match value {
        Some(v) => Some(DeviceEvent::RcSyncMixParamChanged { mix, param, value: v.clone() }),
        None => None,
    }
}


/// Resolve a property path to its addressable node family, if any. The node
/// index ranges are disjoint, so the first match wins and the order is for
/// readability only.
fn resolve_param_target(path: &[u32], name: &str, layout: &Layout) -> (r: Option<ParamTarget>)
    ensures
        r == spec_resolve_target(path@, name@, layout@),
{
    // CHANNEL strip. The three specialized props that own dedicated variants
    // are excluded so a malformed one of those falls to Unknown rather than
    // masquerading as a generic strip param.
    if !(str_eq(name, "channelOutputMute") || str_eq(name, "channelCueEnable") || str_eq(name, "channelInputSource")) {
        if let Some(fader) = strip_for(layout, layout.channel_index_from_path(path)) {
            return Some(ParamTarget::Channel(fader));
        }
    }
    // INPUTSOURCE: an ordinal past the named vocabulary doesn't map.
    if let Some(i) = layout.input_source_index_from_path(path) {
        if let Some(source) = Source::from_protocol(i) {
            return Some(ParamTarget::InputSource(source));
        }
    }
    if layout.is_master_channel_path(path) {
        return Some(ParamTarget::Master);
    }
    if layout.is_output_path(path) {
        return Some(ParamTarget::Output);
    }
    if layout.is_ducker_path(path) {
        return Some(ParamTarget::Ducker);
    }
    if layout.is_recorder_path(path) {
        return Some(ParamTarget::Recorder);
    }
    if layout.is_player_path(path) {
        return Some(ParamTarget::Player);
    }
    if let Some(headphone) = layout.headphone_index_from_path(path) {
        return Some(ParamTarget::Headphone(headphone));
    }
    if let Some(effects) = layout.effects_index_from_path(path) {
        return Some(ParamTarget::Effects(effects));
    }
    if layout.is_gui_path(path) {
        return Some(ParamTarget::Gui);
    }
    if let Some(pad) = layout.pad_index_from_path(path) {
        return Some(ParamTarget::Pad(pad));
    }
    if layout.is_system_path(path) {
        return Some(ParamTarget::System);
    }
    None
}

/// Copy a path into an owned vector.
fn copy_path(path: &[u32]) -> (r: Vec<u32>)
    ensures
        r@ == path@,
{
    let mut v: Vec<u32> = Vec::new();
    let mut i: usize = 0;
    while i < path.len()
        invariant
            i <= path@.len(),
            v@ == path@.subrange(0, i as int),
        decreases path@.len() - i,
    {
        v.push(path[i]);
        proof {
            assert(v@ =~= path@.subrange(0, i + 1));
        }
        i = i + 1;
    }
    proof {
        assert(path@.subrange(0, path@.len() as int) =~= path@);
    }
    v
}

/// The last rule: typed family parameter, or unknown.
fn decode_fallback(path: &[u32], name: &str, value: Option<Value>, layout: &Layout) -> (r: DeviceEvent)
    ensures
        r@ == rule_fallback(path@, name@, var_view(value), layout@),
{
    match (resolve_param_target(path, name, layout), value) {
        (Some(ParamTarget::Channel(fader)), Some(value)) => DeviceEvent::ChannelParamChanged {
            fader,
            param: ChannelParam::from_name(name),
            value,
        },
        (Some(ParamTarget::InputSource(source)), Some(value)) => DeviceEvent::InputSourceParamChanged {
            source,
            param: InputSourceParam::from_name(name),
            value,
        },
        (Some(ParamTarget::Master), Some(value)) => DeviceEvent::MasterParamChanged {
            param: MasterParam::from_name(name),
            value,
        },
        (Some(ParamTarget::Output), Some(value)) => DeviceEvent::OutputParamChanged {
            param: OutputParam::from_name(name),
            value,
        },
        (Some(ParamTarget::Ducker), Some(value)) => DeviceEvent::DuckerParamChanged {
            param: DuckerParam::from_name(name),
            value,
        },
        (Some(ParamTarget::Recorder), Some(value)) => DeviceEvent::RecorderParamChanged {
            param: RecorderParam::from_name(name),
            value,
        },
        (Some(ParamTarget::Player), Some(value)) => DeviceEvent::PlayerParamChanged {
            param: PlayerParam::from_name(name),
            value,
        },
        (Some(ParamTarget::Headphone(headphone)), Some(value)) => DeviceEvent::HeadphoneParamChanged {
            headphone,
            param: HeadphoneParam::from_name(name),
            value,
        },
        (Some(ParamTarget::Effects(effects)), Some(value)) => DeviceEvent::EffectsParamChanged {
            effects,
            param: EffectsParam::from_name(name),
            value,
        },
        (Some(ParamTarget::Gui), Some(value)) => DeviceEvent::GuiParamChanged {
            param: GuiParam::from_name(name),
            value,
        },
        (Some(ParamTarget::Pad(pad)), Some(value)) => DeviceEvent::PadParamChanged {
            pad,
            param: PadParam::from_name(name),
            value,
        },
        (Some(ParamTarget::System), Some(value)) => DeviceEvent::SystemParamChanged {
            param: SystemParam::from_name(name),
            value,
        },
        (_, value) => DeviceEvent::Unknown { prop_name: name.to_owned(), path: copy_path(path), value },
    }
}

/// Decode one property change (or removal, with no value) through the
/// layout: the first rule that recognizes it decides the event.
#[verifier::rlimit(50)]
fn decode_property(path: &[u32], name: &str, value: Option<Value>, layout: &Layout) -> (r: DeviceEvent)
    ensures
        r@ == spec_decode_property(path@, name@, var_view(value), layout@),
{
    if let Some(e) = decode_channel(path, name, &value, layout) {
        return e;
    }
    if let Some(e) = decode_fader(path, name, &value, layout) {
        return e;
    }
    if let Some(e) = decode_mix(path, name, &value, layout) {
        return e;
    }
    if let Some(e) = decode_encoder(path, name, &value, layout) {
        return e;
    }
    if let Some(e) = decode_echo(path, name, &value, layout) {
        return e;
    }
    if let Some(e) = decode_hardware(path, name, &value, layout) {
        return e;
    }
    if let Some(e) = decode_emergency(path, name, &value) {
        return e;
    }
    if let Some(e) = decode_network(path, name, &value, layout) {
        return e;
    }
    if let Some(e) = decode_recordings(path, name, &value, layout) {
        return e;
    }
    if let Some(e) = decode_recording(path, name, &value, layout) {
        return e;
    }
    if let Some(e) = decode_storage_volume(path, name, &value, layout) {
        return e;
    }
    if let Some(e) = decode_audio(path, name, &value, layout) {
        return e;
    }
    if let Some(e) = decode_build(path, name, &value, layout) {
        return e;
    }
    if let Some(e) = decode_app(path, name, &value, layout) {
        return e;
    }
    if let Some(e) = decode_theme(path, name, &value, layout) {
        return e;
    }
    if let Some(e) = decode_current_show(path, name, &value, layout) {
        return e;
    }
    if let Some(e) = decode_show_control(path, name, &value, layout) {
        return e;
    }
    if let Some(e) = decode_show(path, name, &value, layout) {
        return e;
    }
    if let Some(e) = decode_meter(path, name, &value, layout) {
        return e;
    }
    if let Some(e) = decode_sip_calling(path, name, &value, layout) {
        return e;
    }
    if let Some(e) = decode_sip_advanced(path, name, &value, layout) {
        return e;
    }
    if let Some(e) = decode_sip_registration(path, name, &value, layout) {
        return e;
    }
    if let Some(e) = decode_sip_call_slots(path, name, &value, layout) {
        return e;
    }
    if let Some(e) = decode_streamerx_mix_preset(path, name, &value, layout) {
        return e;
    }
    if let Some(e) = decode_streamerx_stream_mix(path, name, &value, layout) {
        return e;
    }
    if let Some(e) = decode_fx_preset(path, name, &value, layout) {
        return e;
    }
    if let Some(e) = decode_pad_recorder(path, name, &value, layout) {
        return e;
    }
    if let Some(e) = decode_test(path, name, &value, layout) {
        return e;
    }
    if let Some(e) = decode_wifi_scan_result(path, name, &value, layout) {
        return e;
    }
    if let Some(e) = decode_radio(path, name, &value, layout) {
        return e;
    }
    if let Some(e) = decode_radio_tx(path, name, &value, layout) {
        return e;
    }
    if let Some(e) = decode_radio_rx(path, name, &value, layout) {
        return e;
    }
    if let Some(e) = decode_mix_minuses(path, name, &value, layout) {
        return e;
    }
    if let Some(e) = decode_rcsync_mix(path, name, &value, layout) {
        return e;
    }
    decode_fallback(path, name, value, layout)
}

/// Decode an already-parsed [`ChangeFrame`] through the discovered [`Layout`]
/// into a typed [`DeviceEvent`].
pub fn decode_event_from_frame(frame: ChangeFrame, layout: &Layout) -> (r: DeviceEvent)
    ensures
        r@ == spec_decode_change_frame(frame@, layout@),
{
    match frame {
        ChangeFrame::FullSync { root } => DeviceEvent::InitialState(extract_initial_state(&root, layout)),
        ChangeFrame::ChildAdded { .. } => DeviceEvent::LayoutInvalidated,
        ChangeFrame::ChildRemoved { .. } => DeviceEvent::LayoutInvalidated,
        ChangeFrame::ChildMoved { .. } => DeviceEvent::LayoutInvalidated,
        ChangeFrame::PropertyChanged { path, name, value } => decode_property(
            path.as_slice(),
            name.as_str(),
            Some(value),
            layout,
        ),
        ChangeFrame::PropertyRemoved { path, name } => decode_property(path.as_slice(), name.as_str(), None, layout),
    }
}

/// Decode one wire payload (the change-frame, not including transport frame)
/// into a typed event. Returns `None` if the payload isn't a recognized JUCE
/// change-frame at all.
pub fn decode_event(payload: &[u8], layout: &Layout) -> (r: Option<DeviceEvent>)
    ensures
        match spec_decode(payload@) {
            Some(f) => r matches Some(e) && e@ == spec_decode_change_frame(f, layout@),
            None => r is None,
        },
{
    match decode_frame(payload) {
        Some(frame) => Some(decode_event_from_frame(frame, layout)),
        None => None,
    }
}

/// Append one event.
fn push_event(out: &mut Vec<DeviceEvent>, e: DeviceEvent)
    ensures
        event_models(final(out)@) == event_models(old(out)@).push(e@),
{
    let ghost before = out@;
    out.push(e);
    proof {
        assert(out@.drop_last() =~= before);
    }
}

/// The parameter event a property reports to `fam`.
fn make_family_event(fam: PropFamily, p: &Property) -> (r: DeviceEvent)
    ensures
        r@ == family_event(fam, p@),
{
    let name = p.name.as_str();
    let value = p.value.clone();
    match fam {
        PropFamily::InputSource(source) => DeviceEvent::InputSourceParamChanged { source, param: InputSourceParam::from_name(name), value },
        PropFamily::Master => DeviceEvent::MasterParamChanged { param: MasterParam::from_name(name), value },
        PropFamily::Output => DeviceEvent::OutputParamChanged { param: OutputParam::from_name(name), value },
        PropFamily::Ducker => DeviceEvent::DuckerParamChanged { param: DuckerParam::from_name(name), value },
        PropFamily::Recorder => DeviceEvent::RecorderParamChanged { param: RecorderParam::from_name(name), value },
        PropFamily::Player => DeviceEvent::PlayerParamChanged { param: PlayerParam::from_name(name), value },
        PropFamily::Headphone(headphone) => DeviceEvent::HeadphoneParamChanged { headphone, param: HeadphoneParam::from_name(name), value },
        PropFamily::Effects(effects) => DeviceEvent::EffectsParamChanged { effects, param: EffectsParam::from_name(name), value },
        PropFamily::Gui => DeviceEvent::GuiParamChanged { param: GuiParam::from_name(name), value },
        PropFamily::Pad(pad) => DeviceEvent::PadParamChanged { pad, param: PadParam::from_name(name), value },
        PropFamily::System => DeviceEvent::SystemParamChanged { param: SystemParam::from_name(name), value },
    }
}

/// Append every property of `node` as a parameter event of `fam`.
fn push_prop_events(out: &mut Vec<DeviceEvent>, node: &Node, fam: PropFamily)
    ensures
        event_models(final(out)@) == event_models(old(out)@) + prop_events(node@.properties, fam),
{
    let ghost base = event_models(out@);
    let ghost ps = node@.properties;
    let mut j: usize = 0;
    while j < node.properties.len()
        invariant
            j <= node.properties@.len(),
            ps == node@.properties,
            ps.len() == node.properties@.len(),
            forall|k: int| 0 <= k < ps.len() ==> #[trigger] ps[k] == node.properties@[k]@,
            event_models(out@) == base + prop_events(ps.subrange(0, j as int), fam),
        decreases node.properties@.len() - j,
    {
        let e = make_family_event(fam, &node.properties[j]);
        push_event(out, e);
        proof {
            assert(prop_events(ps.subrange(0, j + 1), fam) =~= prop_events(ps.subrange(0, j as int), fam).push(
                family_event(fam, ps[j as int]),
            ));
            assert(base + prop_events(ps.subrange(0, j + 1), fam) =~= (base + prop_events(ps.subrange(0, j as int), fam)).push(
                family_event(fam, ps[j as int]),
            ));
        }
        j = j + 1;
    }
    proof {
        assert(ps.subrange(0, ps.len() as int) =~= ps);
    }
}

/// The index of the first child named `name`.
fn first_child(parent: &Node, name: &str) -> (r: Option<usize>)
    ensures
        match r {
            Some(i) => spec_first_named(parent@.children, name@, 0) == Some(i as int) && i < parent.children@.len(),
            None => spec_first_named(parent@.children, name@, 0) is None,
        },
{
    let ghost cs = parent@.children;
    proof {
        lemma_node_models(parent.children@);
        lemma_first_named(cs, name@, 0);
    }
    let mut i: usize = 0;
    while i < parent.children.len()
        invariant
            i <= parent.children@.len(),
            cs == parent@.children,
            cs.len() == parent.children@.len(),
            forall|k: int| 0 <= k < cs.len() ==> #[trigger] cs[k] == node_model(parent.children@[k]),
            spec_first_named(cs, name@, 0) == spec_first_named(cs, name@, i as int),
        decreases parent.children@.len() - i,
    {
        if str_eq(parent.children[i].name.as_str(), name) {
            return Some(i);
        }
        i = i + 1;
    }
    None
}

fn int_prop(node: &Node, name: &str) -> (r: Option<i64>)
    ensures
        r == spec_int_prop(node@.properties, name@),
{
    match find_property(node, name) {
        Some(v) => v.as_int(),
        None => None,
    }
}

fn bool_prop(node: &Node, name: &str) -> (r: Option<bool>)
    ensures
        r == spec_bool_prop(node@.properties, name@),
{
    match find_property(node, name) {
        Some(v) => v.as_bool(),
        None => None,
    }
}

fn string_prop<'a>(node: &'a Node, name: &str) -> (r: Option<&'a str>)
    ensures
        match spec_string_prop(node@.properties, name@) {
            Some(s) => r matches Some(t) && t@ == s,
            None => r is None,
        },
{
    match find_property(node, name) {
        Some(Value::String(s)) => Some(s.as_str()),
        _ => None,
    }
}

fn push_fader_levels(out: &mut Vec<DeviceEvent>, phys: &Node, model: DeviceModel)
    ensures
        event_models(final(out)@) == event_models(old(out)@) + fader_level_events(
            phys@.children,
            phys@.children.len() as int,
            model,
        ),
{
    let ghost base = event_models(out@);
    let ghost cs = phys@.children;
    proof {
        lemma_node_models(phys.children@);
    }
    let mut fader_idx: u8 = 0;
    let mut i: usize = 0;
    while i < phys.children.len()
        invariant
            i <= phys.children@.len(),
            cs == phys@.children,
            cs.len() == phys.children@.len(),
            forall|k: int| 0 <= k < cs.len() ==> #[trigger] cs[k] == node_model(phys.children@[k]),
            fader_idx == saturate_u8(count_named(cs, i as int, "FADER"@)),
            event_models(out@) == base + fader_level_events(cs, i as int, model),
        decreases phys.children@.len() - i,
    {
        let child = &phys.children[i];
        if str_eq(child.name.as_str(), "FADER") {
            let ghost mid = event_models(out@);
            match (Fader::from_index(model, fader_idx), int_prop(child, "faderLevel")) {
                (Some(fader), Some(level)) => {
                    push_event(out, DeviceEvent::FaderLevelChanged { fader, level: clamp_level(level) });
                },
                _ => {},
            }
            proof {
                assert(event_models(out@) =~= mid + fader_child_events(cs[i as int], fader_idx, model));
            }
            fader_idx = fader_idx.saturating_add(1);
        }
        proof {
            assert(base + fader_level_events(cs, i + 1, model) =~= event_models(out@));
        }
        i = i + 1;
    }
}

fn push_channel_controls(out: &mut Vec<DeviceEvent>, node: &Node, fader: Fader)
    ensures
        event_models(final(out)@) == event_models(old(out)@) + (match spec_bool_prop(node@.properties, "channelOutputMute"@) {
            Some(muted) => seq![EventModel::FaderMuteChanged { fader, muted }],
            None => Seq::empty(),
        }) + (match spec_bool_prop(node@.properties, "channelCueEnable"@) {
            Some(enabled) => seq![EventModel::FaderCueChanged { fader, enabled }],
            None => Seq::empty(),
        }) + (match spec_int_prop(node@.properties, "channelInputSource"@) {
            Some(si) => seq![EventModel::FaderAssignmentChanged { fader, source: assignment_source(si) }],
            None => Seq::empty(),
        }),
{
    let ghost base = event_models(out@);
    if let Some(muted) = bool_prop(node, "channelOutputMute") {
        push_event(out, DeviceEvent::FaderMuteChanged { fader, muted });
    }
    let ghost a = event_models(out@);
    if let Some(enabled) = bool_prop(node, "channelCueEnable") {
        push_event(out, DeviceEvent::FaderCueChanged { fader, enabled });
    }
    let ghost b = event_models(out@);
    if let Some(source_i) = int_prop(node, "channelInputSource") {
        let source = if source_i < 0 || source_i > 255 {
            None
        } else {
            Source::from_protocol(source_i as u8)
        };
        push_event(out, DeviceEvent::FaderAssignmentChanged { fader, source });
    }
    proof {
        assert(event_models(out@) =~= base + (match spec_bool_prop(node@.properties, "channelOutputMute"@) {
            Some(muted) => seq![EventModel::FaderMuteChanged { fader, muted }],
            None => Seq::empty(),
        }) + (match spec_bool_prop(node@.properties, "channelCueEnable"@) {
            Some(enabled) => seq![EventModel::FaderCueChanged { fader, enabled }],
            None => Seq::empty(),
        }) + (match spec_int_prop(node@.properties, "channelInputSource"@) {
            Some(si) => seq![EventModel::FaderAssignmentChanged { fader, source: assignment_source(si) }],
            None => Seq::empty(),
        }));
    }
}

fn push_strip_params(out: &mut Vec<DeviceEvent>, node: &Node, fader: Fader)
    ensures
        event_models(final(out)@) == event_models(old(out)@) + strip_param_events(
            node@.properties,
            node@.properties.len() as int,
            fader,
        ),
{
    let ghost head = event_models(out@);
    let ghost ps = node@.properties;
    let mut j: usize = 0;
    while j < node.properties.len()
        invariant
            j <= node.properties@.len(),
            ps == node@.properties,
            ps.len() == node.properties@.len(),
            forall|k: int| 0 <= k < ps.len() ==> #[trigger] ps[k] == node.properties@[k]@,
            event_models(out@) == head + strip_param_events(ps, j as int, fader),
        decreases node.properties@.len() - j,
    {
        let p = &node.properties[j];
        let name = p.name.as_str();
        if !(str_eq(name, "channelOutputMute") || str_eq(name, "channelCueEnable") || str_eq(name, "channelInputSource")) {
            push_event(out, DeviceEvent::ChannelParamChanged { fader, param: ChannelParam::from_name(name), value: p.value.clone() });
        }
        proof {
            assert(head + strip_param_events(ps, j + 1, fader) =~= event_models(out@));
        }
        j = j + 1;
    }
}

fn push_channel_child(out: &mut Vec<DeviceEvent>, node: &Node, idx: u8, model: DeviceModel)
    ensures
        event_models(final(out)@) == event_models(old(out)@) + channel_child_events(node@, idx, model),
{
    let ghost base = event_models(out@);
    let fader = match Fader::from_index(model, idx) {
        Some(f) => f,
        None => {
            proof {
                assert(event_models(out@) =~= event_models(out@) + Seq::<EventModel>::empty());
            }
            return;
        },
    };
    push_channel_controls(out, node, fader);
    push_strip_params(out, node, fader);
    proof {
        assert(event_models(out@) =~= base + channel_child_events(node@, idx, model));
    }
}

fn push_channels(out: &mut Vec<DeviceEvent>, root: &Node, model: DeviceModel)
    ensures
        event_models(final(out)@) == event_models(old(out)@) + channel_events(
            root@.children,
            root@.children.len() as int,
            model,
        ),
{
    let ghost base = event_models(out@);
    let ghost cs = root@.children;
    proof {
        lemma_node_models(root.children@);
    }
    let mut channel_idx: u8 = 0;
    let mut i: usize = 0;
    while i < root.children.len()
        invariant
            i <= root.children@.len(),
            cs == root@.children,
            cs.len() == root.children@.len(),
            forall|k: int| 0 <= k < cs.len() ==> #[trigger] cs[k] == node_model(root.children@[k]),
            channel_idx == saturate_u8(count_named(cs, i as int, "CHANNEL"@)),
            event_models(out@) == base + channel_events(cs, i as int, model),
        decreases root.children@.len() - i,
    {
        let child = &root.children[i];
        if str_eq(child.name.as_str(), "CHANNEL") {
            push_channel_child(out, child, channel_idx, model);
            channel_idx = channel_idx.saturating_add(1);
        }
        proof {
            assert(base + channel_events(cs, i + 1, model) =~= event_models(out@));
        }
        i = i + 1;
    }
}

/// The level event of a mix cell, when its `mixLevelWithAnchor` text holds
/// two numbers.
pub open spec fn mix_level_events(ps: Seq<(Seq<char>, VarModel)>, source: Source, mix: MixOutput) -> Seq<EventModel> {
    match spec_string_prop(ps, "mixLevelWithAnchor"@) {
        Some(t) => if spec_is_float_text(spec_first_piece(t)) && spec_is_float_text(spec_last_piece(t)) {
            seq![EventModel::MixLevelChanged { source, mix, anchor: spec_first_piece(t), value: spec_last_piece(t) }]
        } else {
            Seq::empty()
        },
        None => Seq::empty(),
    }
}

fn push_mix_level(out: &mut Vec<DeviceEvent>, node: &Node, source: Source, mix: MixOutput)
    ensures
        event_models(final(out)@) == event_models(old(out)@) + mix_level_events(node@.properties, source, mix),
{
    let ghost base = event_models(out@);
    if let Some(level_s) = string_prop(node, "mixLevelWithAnchor") {
        let anchor = first_piece(level_s);
        let level = last_piece(level_s);
        if is_float_text(anchor) && is_float_text(level) {
            push_event(out, DeviceEvent::MixLevelChanged { source, mix, anchor: anchor.to_owned(), value: level.to_owned() });
        }
    }
    proof {
        assert(event_models(out@) =~= base + mix_level_events(node@.properties, source, mix));
    }
}

/// The mute, link and disabled events of a mix cell.
pub open spec fn mix_flag_events(ps: Seq<(Seq<char>, VarModel)>, source: Source, mix: MixOutput) -> Seq<EventModel> {
    (match spec_bool_prop(ps, "mixMute"@) {
        Some(muted) => seq![EventModel::MixMuteChanged { source, mix, muted }],
        None => Seq::empty(),
    }) + (match spec_bool_prop(ps, "mixLink"@) {
        Some(linked) => seq![EventModel::MixLinkChanged { source, mix, linked }],
        None => Seq::empty(),
    }) + (match spec_bool_prop(ps, "mixDisabled"@) {
        Some(disabled) => seq![EventModel::MixDisabledChanged { source, mix, disabled }],
        None => Seq::empty(),
    })
}

fn push_mix_flags(out: &mut Vec<DeviceEvent>, node: &Node, source: Source, mix: MixOutput)
    ensures
        event_models(final(out)@) == event_models(old(out)@) + mix_flag_events(node@.properties, source, mix),
{
    let ghost base = event_models(out@);
    if let Some(muted) = bool_prop(node, "mixMute") {
        push_event(out, DeviceEvent::MixMuteChanged { source, mix, muted });
    }
    let ghost b = event_models(out@);
    if let Some(linked) = bool_prop(node, "mixLink") {
        push_event(out, DeviceEvent::MixLinkChanged { source, mix, linked });
    }
    let ghost d = event_models(out@);
    if let Some(disabled) = bool_prop(node, "mixDisabled") {
        push_event(out, DeviceEvent::MixDisabledChanged { source, mix, disabled });
    }
    proof {
        assert(event_models(out@) =~= base + mix_flag_events(node@.properties, source, mix));
    }
}

fn push_mix_child(out: &mut Vec<DeviceEvent>, node: &Node, c: u64)
    ensures
        event_models(final(out)@) == event_models(old(out)@) + mix_child_events(node@, c as nat),
{
    let ghost base = event_models(out@);
    let (source, mix) = match (Source::from_protocol((c / 13) as u8), MixOutput::from_protocol((c % 13) as u8)) {
        (Some(s), Some(m)) => (s, m),
        _ => {
            proof {
                assert(event_models(out@) =~= base + Seq::<EventModel>::empty());
            }
            return;
        },
    };
    push_mix_level(out, node, source, mix);
    push_mix_flags(out, node, source, mix);
    proof {
        assert(event_models(out@) =~= base + mix_child_events(node@, c as nat));
    }
}

fn push_mixes(out: &mut Vec<DeviceEvent>, root: &Node)
    ensures
        event_models(final(out)@) == event_models(old(out)@) + mix_events(root@.children, root@.children.len() as int),
{
    let ghost base = event_models(out@);
    let ghost cs = root@.children;
    proof {
        lemma_node_models(root.children@);
    }
    let mut mix_counter: u64 = 0;
    let mut i: usize = 0;
    while i < root.children.len()
        invariant
            i <= root.children@.len(),
            cs == root@.children,
            cs.len() == root.children@.len(),
            forall|k: int| 0 <= k < cs.len() ==> #[trigger] cs[k] == node_model(root.children@[k]),
            mix_counter == count_named(cs, i as int, "MIX"@),
            count_named(cs, i as int, "MIX"@) <= i,
            event_models(out@) == base + mix_events(cs, i as int),
        decreases root.children@.len() - i,
    {
        let child = &root.children[i];
        if str_eq(child.name.as_str(), "MIX") {
            push_mix_child(out, child, mix_counter);
            mix_counter = mix_counter + 1;
        }
        proof {
            assert(base + mix_events(cs, i + 1) =~= event_models(out@));
        }
        i = i + 1;
    }
}

fn push_input_sources(out: &mut Vec<DeviceEvent>, root: &Node)
    ensures
        event_models(final(out)@) == event_models(old(out)@) + input_source_events(
            root@.children,
            root@.children.len() as int,
        ),
{
    let ghost base = event_models(out@);
    let ghost cs = root@.children;
    proof {
        lemma_node_models(root.children@);
    }
    let mut input_source_idx: u64 = 0;
    let mut i: usize = 0;
    while i < root.children.len()
        invariant
            i <= root.children@.len(),
            cs == root@.children,
            cs.len() == root.children@.len(),
            forall|k: int| 0 <= k < cs.len() ==> #[trigger] cs[k] == node_model(root.children@[k]),
            input_source_idx == count_named(cs, i as int, "INPUTSOURCE"@),
            count_named(cs, i as int, "INPUTSOURCE"@) <= i,
            event_models(out@) == base + input_source_events(cs, i as int),
        decreases root.children@.len() - i,
    {
        let child = &root.children[i];
        if str_eq(child.name.as_str(), "INPUTSOURCE") {
            let ordinal = input_source_idx;
            input_source_idx = input_source_idx + 1;
            if ordinal <= 255 {
                if let Some(source) = Source::from_protocol(ordinal as u8) {
                    push_prop_events(out, child, PropFamily::InputSource(source));
                }
            }
        }
        proof {
            assert(base + input_source_events(cs, i + 1) =~= event_models(out@));
        }
        i = i + 1;
    }
}

fn push_headphones(out: &mut Vec<DeviceEvent>, root: &Node)
    ensures
        event_models(final(out)@) == event_models(old(out)@) + headphone_events(root@.children, root@.children.len() as int),
{
    let ghost base = event_models(out@);
    let ghost cs = root@.children;
    proof {
        lemma_node_models(root.children@);
    }
    let mut headphone_idx: u8 = 0;
    let mut i: usize = 0;
    while i < root.children.len()
        invariant
            i <= root.children@.len(),
            cs == root@.children,
            cs.len() == root.children@.len(),
            forall|k: int| 0 <= k < cs.len() ==> #[trigger] cs[k] == node_model(root.children@[k]),
            headphone_idx == saturate_u8(count_named(cs, i as int, "HEADPHONE"@)),
            event_models(out@) == base + headphone_events(cs, i as int),
        decreases root.children@.len() - i,
    {
        let child = &root.children[i];
        if str_eq(child.name.as_str(), "HEADPHONE") {
            let headphone = headphone_idx;
            headphone_idx = headphone_idx.saturating_add(1);
            push_prop_events(out, child, PropFamily::Headphone(headphone));
        }
        proof {
            assert(base + headphone_events(cs, i + 1) =~= event_models(out@));
        }
        i = i + 1;
    }
}

/// Append the parameters of the first run of `name` children of `parent`,
/// numbered by position in the run; a node of another name ends the run.
fn push_first_run(out: &mut Vec<DeviceEvent>, parent: &Node, name: &str, pads: bool)
    ensures
        event_models(final(out)@) == event_models(old(out)@) + first_run_events(parent@.children, name@, pads),
{
    let ghost base = event_models(out@);
    let ghost cs = parent@.children;
    proof {
        lemma_node_models(parent.children@);
    }
    let first = match first_child(parent, name) {
        Some(f) => f,
        None => {
            proof {
                assert(event_models(out@) =~= base + Seq::<EventModel>::empty());
            }
            return;
        },
    };
    let mut idx: u8 = 0;
    let mut i: usize = first;
    while i < parent.children.len() && str_eq(parent.children[i].name.as_str(), name)
        invariant
            first <= i <= parent.children@.len(),
            cs == parent@.children,
            cs.len() == parent.children@.len(),
            forall|k: int| 0 <= k < cs.len() ==> #[trigger] cs[k] == node_model(parent.children@[k]),
            idx == saturate_u8((i - first) as nat),
            spec_run_len(cs, first as int, name@) == (i - first) + spec_run_len(cs, i as int, name@),
            event_models(out@) == base + run_events(cs, first as int, i - first, pads),
        decreases parent.children@.len() - i,
    {
        let fam = if pads {
            PropFamily::Pad(idx)
        } else {
            PropFamily::Effects(idx)
        };
        push_prop_events(out, &parent.children[i], fam);
        idx = idx.saturating_add(1);
        proof {
            assert(base + run_events(cs, first as int, i + 1 - first, pads) =~= event_models(out@));
        }
        i = i + 1;
    }
    proof {
        assert(spec_run_len(cs, i as int, name@) == 0);
    }
}

/// Append the parameters of the first child named `name`.
fn push_singleton(out: &mut Vec<DeviceEvent>, root: &Node, name: &str, fam: PropFamily)
    ensures
        event_models(final(out)@) == event_models(old(out)@) + singleton_events(root@.children, name@, fam),
{
    proof {
        lemma_node_models(root.children@);
    }
    match first_child(root, name) {
        Some(i) => {
            proof {
                assert(root@.children[i as int] == root.children@[i as int]@);
            }
            push_prop_events(out, &root.children[i], fam)
        },
        None => {
            proof {
                assert(event_models(out@) =~= event_models(out@) + Seq::<EventModel>::empty());
            }
        },
    }
}

/// Walk a parsed fullSync tree and extract the initial device state as a list of [`DeviceEvent`]s.
pub fn extract_initial_state(root: &Node, layout: &Layout) -> (r: Vec<DeviceEvent>)
    ensures
        event_models(r@) == spec_initial_state(root@, layout@),
{
    let mut out: Vec<DeviceEvent> = Vec::new();
    let model = layout.model();
    let ghost cs = root@.children;
    proof {
        lemma_node_models(root.children@);
        assert(event_models(out@) =~= Seq::<EventModel>::empty());
    }
    // 1. PHYSICALINTERFACE -> FADER initial levels (physical strips only).
    match first_child(root, "PHYSICALINTERFACE") {
        Some(i) => {
            proof {
                assert(cs[i as int] == root.children@[i as int]@);
            }
            push_fader_levels(&mut out, &root.children[i], model)
        },
        None => {},
    }
    let ghost s1 = event_models(out@);
    proof {
        assert(s1 =~= match spec_first_named(cs, "PHYSICALINTERFACE"@, 0) {
            Some(i) => fader_level_events(cs[i].children, cs[i].children.len() as int, model),
            None => Seq::empty(),
        });
    }
    // 2. CHANNEL initial mute/cue/assignment and strip parameters.
    push_channels(&mut out, root, model);
    // 3. MIX cells, source-major.
    push_mixes(&mut out, root);
    // 4. INPUTSOURCE preamp/source params.
    push_input_sources(&mut out, root);
    // 5. and 6. Singletons.
    push_singleton(&mut out, root, "MASTERCHANNEL", PropFamily::Master);
    push_singleton(&mut out, root, "OUTPUT", PropFamily::Output);
    push_singleton(&mut out, root, "DUCKER", PropFamily::Ducker);
    push_singleton(&mut out, root, "RECORDER", PropFamily::Recorder);
    push_singleton(&mut out, root, "PLAYER", PropFamily::Player);
    // 7. HEADPHONE jacks.
    push_headphones(&mut out, root);
    // 8. The first run of EFFECTS_PARAMETERS slots.
    push_first_run(&mut out, root, "EFFECTS_PARAMETERS", false);
    // 9. GUI.
    push_singleton(&mut out, root, "GUI", PropFamily::Gui);
    let ghost s9 = event_models(out@);
    // 10. The first run of PAD nodes inside SOUNDPADS.
    match first_child(root, "SOUNDPADS") {
        Some(i) => {
            proof {
                assert(cs[i as int] == root.children@[i as int]@);
            }
            push_first_run(&mut out, &root.children[i], "PAD", true)
        },
        None => {},
    }
    proof {
        assert(event_models(out@) =~= s9 + match spec_first_named(cs, "SOUNDPADS"@, 0) {
            Some(i) => first_run_events(cs[i].children, "PAD"@, true),
            None => Seq::empty(),
        });
    }
    // 11. SYSTEM.
    push_singleton(&mut out, root, "SYSTEM", PropFamily::System);
    proof {
        assert(event_models(out@) =~= spec_initial_state(root@, layout@));
    }
    out
}



/// A button press on a `PHYSICALINTERFACE` child reports that button: a bool
/// `mutePressed`, `soloPressed`, `padButtonPressed` or `encoderPressed` change
/// on child `child` decodes to a press of the mute, solo, pad or encoder
/// button numbered `child`, carrying the value.
pub proof fn lemma_hardware_buttons_decode(l: LayoutView, parent: u32, child: u8, pressed: bool)
    requires
        l.fader.parent == Some(parent),
    ensures
        spec_decode_change_frame(
            FrameModel::PropertyChanged { path: seq![parent, child as u32], name: "mutePressed"@, value: VarModel::Bool(pressed) },
            l,
        ) == (EventModel::MutePressed { button: child, pressed }),
        spec_decode_change_frame(
            FrameModel::PropertyChanged { path: seq![parent, child as u32], name: "soloPressed"@, value: VarModel::Bool(pressed) },
            l,
        ) == (EventModel::SoloPressed { button: child, pressed }),
        spec_decode_change_frame(
            FrameModel::PropertyChanged { path: seq![parent, child as u32], name: "padButtonPressed"@, value: VarModel::Bool(pressed) },
            l,
        ) == (EventModel::PadButtonPressed { button: child, pressed }),
        spec_decode_change_frame(
            FrameModel::PropertyChanged { path: seq![parent, child as u32], name: "encoderPressed"@, value: VarModel::Bool(pressed) },
            l,
        ) == (EventModel::EncoderPressed { encoder: child, pressed }),
{
    reveal_strlit("mutePressed");
    reveal_strlit("soloPressed");
    reveal_strlit("padButtonPressed");
    reveal_strlit("encoderPressed");
    reveal_strlit("potLevel");
    reveal_strlit("faderLevel");
    reveal_strlit("channelOutputMute");
    reveal_strlit("channelCueEnable");
    reveal_strlit("channelInputSource");
    reveal_strlit("encoderSignal");
    reveal_strlit("encoderColour");
    let path = seq![parent, child as u32];
    assert((child as u32) as u8 == child);
    assert("mutePressed"@[0] != "soloPressed"@[0]);
    assert("mutePressed"@[0] != "padButtonPressed"@[0]);
    assert("soloPressed"@[0] != "padButtonPressed"@[0]);
    assert("encoderPressed"@[7] != "encoderSignal"@[7]);
    assert("encoderPressed"@[7] != "encoderColour"@[7]);
    assert("mutePressed"@.len() != "faderLevel"@.len());
    assert("soloPressed"@.len() != "faderLevel"@.len());
    assert("mutePressed"@.len() != "potLevel"@.len());
    assert("soloPressed"@.len() != "potLevel"@.len());
    assert("encoderPressed"@.len() != "potLevel"@.len());
    assert("padButtonPressed"@[0] != "potLevel"@[1]);
    assert(l.channel.spec_index(path) is None);
    assert(l.spec_mix_cell(path) is None);
}

/// The initial state reports each mix cell's flags as its `MIX` node holds
/// them: for the `MIX` node numbered `13 * source + mix` (by how many `MIX`
/// nodes precede it), a bool first `mixMute`, `mixLink` or `mixDisabled`
/// property is reported as that cell's mute, link or disabled state, each
/// read from its own property.
pub proof fn lemma_mix_flags_reported(root: NodeModel, l: LayoutView, k: int, source: Source, mix: MixOutput)
    requires
        0 <= k < root.children.len(),
        root.children[k].name == "MIX"@,
        count_named(root.children, k, "MIX"@) == 13 * source.index() + mix.index(),
    ensures
        ({
            let ps = root.children[k].properties;
            let state = spec_initial_state(root, l);
            &&& spec_first_prop(ps, "mixMute"@, 0) matches Some(VarModel::Bool(muted)) ==> state.contains(
                EventModel::MixMuteChanged { source, mix, muted },
            )
            &&& spec_first_prop(ps, "mixLink"@, 0) matches Some(VarModel::Bool(linked)) ==> state.contains(
                EventModel::MixLinkChanged { source, mix, linked },
            )
            &&& spec_first_prop(ps, "mixDisabled"@, 0) matches Some(VarModel::Bool(disabled)) ==> state.contains(
                EventModel::MixDisabledChanged { source, mix, disabled },
            )
        }),
{
    let cs = root.children;
    let ps = cs[k].properties;
    lemma_cell_flags(cs[k], source, mix);
    if let Some(VarModel::Bool(muted)) = spec_first_prop(ps, "mixMute"@, 0) {
        lemma_initial_state_holds_mix_event(root, l, k, EventModel::MixMuteChanged { source, mix, muted });
    }
    if let Some(VarModel::Bool(linked)) = spec_first_prop(ps, "mixLink"@, 0) {
        lemma_initial_state_holds_mix_event(root, l, k, EventModel::MixLinkChanged { source, mix, linked });
    }
    if let Some(VarModel::Bool(disabled)) = spec_first_prop(ps, "mixDisabled"@, 0) {
        lemma_initial_state_holds_mix_event(root, l, k, EventModel::MixDisabledChanged { source, mix, disabled });
    }
}

/// Cell `13 * source + mix` of the matrix is that source's and mix's.
proof fn lemma_cell_numbering(source: Source, mix: MixOutput)
    ensures
        ({
            let c = 13 * source.index() + mix.index();
            &&& Source::at_index((c / 13) as u8) == Some(source)
            &&& MixOutput::at_index((c % 13) as u8) == Some(mix)
        }),
{
    let c = 13 * source.index() + mix.index();
    vstd::arithmetic::div_mod::lemma_fundamental_div_mod_converse(c as int, 13, source.index() as int, mix.index() as int);
}

#[verifier::spinoff_prover]
proof fn lemma_cell_flags(node: NodeModel, source: Source, mix: MixOutput)
    ensures
        ({
            let ps = node.properties;
            let events = mix_child_events(node, (13 * source.index() + mix.index()) as nat);
            &&& spec_first_prop(ps, "mixMute"@, 0) matches Some(VarModel::Bool(muted)) ==> events.contains(
                EventModel::MixMuteChanged { source, mix, muted },
            )
            &&& spec_first_prop(ps, "mixLink"@, 0) matches Some(VarModel::Bool(linked)) ==> events.contains(
                EventModel::MixLinkChanged { source, mix, linked },
            )
            &&& spec_first_prop(ps, "mixDisabled"@, 0) matches Some(VarModel::Bool(disabled)) ==> events.contains(
                EventModel::MixDisabledChanged { source, mix, disabled },
            )
        }),
{
    let ps = node.properties;
    let c = (13 * source.index() + mix.index()) as nat;
    lemma_cell_numbering(source, mix);
    let events = mix_child_events(node, c);
    let mute = match spec_bool_prop(ps, "mixMute"@) {
        Some(muted) => seq![EventModel::MixMuteChanged { source, mix, muted }],
        None => Seq::empty(),
    };
    let link = match spec_bool_prop(ps, "mixLink"@) {
        Some(linked) => seq![EventModel::MixLinkChanged { source, mix, linked }],
        None => Seq::empty(),
    };
    let dis = match spec_bool_prop(ps, "mixDisabled"@) {
        Some(disabled) => seq![EventModel::MixDisabledChanged { source, mix, disabled }],
        None => Seq::empty(),
    };
    let lv = mix_level_events(ps, source, mix);
    assert(events == lv + mute + link + dis);
    if let Some(VarModel::Bool(muted)) = spec_first_prop(ps, "mixMute"@, 0) {
        assert(events[lv.len() as int] == EventModel::MixMuteChanged { source, mix, muted });
    }
    if let Some(VarModel::Bool(linked)) = spec_first_prop(ps, "mixLink"@, 0) {
        assert(events[(lv.len() + mute.len()) as int] == EventModel::MixLinkChanged { source, mix, linked });
    }
    if let Some(VarModel::Bool(disabled)) = spec_first_prop(ps, "mixDisabled"@, 0) {
        assert(events[(lv.len() + mute.len() + link.len()) as int] == EventModel::MixDisabledChanged { source, mix, disabled });
    }
}

proof fn lemma_in_left(a: Seq<EventModel>, b: Seq<EventModel>, e: EventModel)
    requires
        a.contains(e),
    ensures
        (a + b).contains(e),
{
    let i = choose|i: int| 0 <= i < a.len() && a[i] == e;
    assert((a + b)[i] == e);
}

proof fn lemma_in_right(a: Seq<EventModel>, b: Seq<EventModel>, e: EventModel)
    requires
        b.contains(e),
    ensures
        (a + b).contains(e),
{
    let i = choose|i: int| 0 <= i < b.len() && b[i] == e;
    assert((a + b)[a.len() + i] == e);
}

proof fn lemma_mix_events_hold(cs: Seq<NodeModel>, n: int, k: int, e: EventModel)
    requires
        0 <= k < n <= cs.len(),
        cs[k].name == "MIX"@,
        mix_child_events(cs[k], count_named(cs, k, "MIX"@)).contains(e),
    ensures
        mix_events(cs, n).contains(e),
    decreases n,
{
    if k == n - 1 {
        lemma_in_right(mix_events(cs, n - 1), mix_child_events(cs[k], count_named(cs, k, "MIX"@)), e);
    } else {
        lemma_mix_events_hold(cs, n - 1, k, e);
        let tail = if cs[n - 1].name == "MIX"@ {
            mix_child_events(cs[n - 1], count_named(cs, n - 1, "MIX"@))
        } else {
            Seq::empty()
        };
        lemma_in_left(mix_events(cs, n - 1), tail, e);
    }
}

#[verifier::spinoff_prover]
#[verifier::rlimit(40)]
proof fn lemma_initial_state_holds_mix_event(root: NodeModel, l: LayoutView, k: int, e: EventModel)
    requires
        0 <= k < root.children.len(),
        root.children[k].name == "MIX"@,
        mix_child_events(root.children[k], count_named(root.children, k, "MIX"@)).contains(e),
    ensures
        spec_initial_state(root, l).contains(e),
{
    let cs = root.children;
    let model = l.model;
    let faders = match spec_first_named(cs, "PHYSICALINTERFACE"@, 0) {
        Some(i) => fader_level_events(cs[i].children, cs[i].children.len() as int, model),
        None => Seq::empty(),
    };
    let pads = match spec_first_named(cs, "SOUNDPADS"@, 0) {
        Some(i) => first_run_events(cs[i].children, "PAD"@, true),
        None => Seq::empty(),
    };
    let mixes = mix_events(cs, cs.len() as int);
    lemma_mix_events_hold(cs, cs.len() as int, k, e);
    let a = faders + channel_events(cs, cs.len() as int, model);
    let rest = input_source_events(cs, cs.len() as int)
        + singleton_events(cs, "MASTERCHANNEL"@, PropFamily::Master) + singleton_events(cs, "OUTPUT"@, PropFamily::Output)
        + singleton_events(cs, "DUCKER"@, PropFamily::Ducker) + singleton_events(cs, "RECORDER"@, PropFamily::Recorder)
        + singleton_events(cs, "PLAYER"@, PropFamily::Player) + headphone_events(cs, cs.len() as int)
        + first_run_events(cs, "EFFECTS_PARAMETERS"@, false) + singleton_events(cs, "GUI"@, PropFamily::Gui)
        + pads + singleton_events(cs, "SYSTEM"@, PropFamily::System);
    lemma_in_right(a, mixes, e);
    lemma_in_left(a + mixes, rest, e);
    assert(spec_initial_state(root, l) =~= (a + mixes) + rest);
}

} // verus!
