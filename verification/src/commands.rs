//! Typed Rodecaster commands.
//!
//! `Command` is the outgoing vocabulary the server (or any consumer) builds.
//! [`Command::encode`] produces one or more JUCE change-frame payloads,
//! addressed through a [`crate::layout::Layout`] discovered from the device's
//! fullSync. The encoder routes every command through
//! [`crate::change_frame::encode_property_changed`], so the wire format is
//! always JUCE-faithful and the ID math lives in one place (the `Layout`),
//! never duplicated across files.
//!
//! Wrap each returned payload in a [`crate::frame::Packet`] for the transport.

use vstd::prelude::*;

use crate::change_frame::{
    encode_property_changed, lemma_property_changed_round_trip, spec_decode, spec_encode_property_changed, FrameModel,
};
use crate::juce_var::{lemma_compressed_int_len, low_bits, spec_write_value, Value, VarModel};
use crate::text::{concat_str, no_nul, push_decimal, spec_decimal};
use crate::wire::lemma_le_bytes_len;
use crate::layout::{path_view, Indexed, Layout, LayoutView, Singleton, TwoLevel};
use crate::names::{
    AppParam, AudioParam, BuildParam, ChannelParam, CurrentShowParam, DeviceModel, DuckerParam,
    EffectsParam, Fader, FxPresetParam, GuiParam, HeadphoneParam, InputSourceParam, MasterParam,
    MixMinusesParam, MixOutput, NetworkParam, OutputParam, PadParam, PadRecorderParam, PlayerParam,
    RadioParam, RadioRxParam, RadioTxParam, RcSyncMixParam, RecorderParam, RecordingParam,
    RecordingsParam, ShowControlParam, ShowParam, SipAdvancedParam, SipCallSlotsParam,
    SipCallingParam, SipRegistrationParam, Source, StorageVolumeParam, StreamerXMixPresetParam,
    StreamerXStreamMixParam, SystemParam, TestParam, ThemeParam, WifiScanResultParam,
};
use crate::trigger::{press_value, spec_bool_pair};

verus! {

/// JUCE `Int` value representing unassigned for `channelInputSource`.
const CHANNEL_INPUT_SOURCE_UNASSIGNED: i64 = -1;

/// Verbatim wire bytes for the screen-wake message ([`Command::ScreenTouched`]).
///
/// Anatomy: PropertyChanged changeType (0x01), path depth 1 (0x01, 0x01),
/// child node 1 prefix (0x01), followed by null-terminated "screenTouched\0".
/// Emitted verbatim by RØDE Central to wake the touchscreen display on node index 1.
pub const SCREEN_TOUCHED_FRAME: [u8; 18] = [
    0x01, 0x01, 0x01, 0x01, 0x73, 0x63, 0x72, 0x65, 0x65, 0x6e, 0x54, 0x6f, 0x75, 0x63, 0x68, 0x65,
    0x64, 0x00,
];

/// Mix offset index for CallMe return channel routing requests.
///
/// Used in `(source << 8) | (CALLME_MIX_PATH_OFFSET + mix)` to address
/// external SIP/CallMe return channels outside the primary mix matrix.
pub const CALLME_MIX_PATH_OFFSET: u32 = 4;

/// Outgoing Rodecaster command.
///
/// Each variant addresses a logical entity by *name* ([`Fader`], [`Source`],
/// [`MixOutput`]); [`Command::encode`] resolves the name to a wire index
/// through the [`Layout`] (and its [`DeviceModel`]), so this enum has zero
/// knowledge of any firmware-specific position constant, and callers never
/// pass a bare index.
#[derive(Debug, Clone, PartialEq)]
#[non_exhaustive]
pub enum Command {
    /// Set the output mute on a fader strip.
    SetFaderMute { fader: Fader, mute: bool },
    /// Set the cue (pre-fader-listen) enable on a fader strip.
    SetFaderCue { fader: Fader, enable: bool },
    /// Set a virtual fader's level (0..127 MIDI scale).
    /// Physical fader levels come from hardware over MIDI/UART, not this path.
    SetFaderLevel { fader: Fader, level: u8 },
    /// Assign (or clear, with `None`) the input source for a fader strip.
    AssignFaderSource { fader: Fader, source: Option<Source> },
    /// Enable or disable a routing matrix cell.
    SetMixDisabled { source: Source, mix: MixOutput, disabled: bool },
    /// Mute or unmute a routing matrix cell. This is the per-cell `mixMute`,
    /// distinct from the per-strip [`Command::SetFaderMute`].
    SetMixMute { source: Source, mix: MixOutput, mute: bool },
    /// Link a routing matrix cell with the device-validated minimal sequence:
    /// enable (`mixDisabled=false`), unmute (`mixMute=false`), then a single
    /// `Binary` trigger write to `mixLinkRequest`. `encode` returns three
    /// frames in order.
    LinkMix { source: Source, mix: MixOutput },
    /// Unlink a routing matrix cell with a single `Binary` trigger write to
    /// `mixUnlinkRequest`. `mixDisabled` and `mixMute` retain their prior
    /// values.
    UnlinkMix { source: Source, mix: MixOutput },
    /// Wake the device display. A fixed, layout-independent message; see
    /// [`SCREEN_TOUCHED_FRAME`].
    ScreenTouched,
    /// Request the device power off.
    PowerOff,
    /// Link a CallMe return channel into a mix through its dedicated request
    /// path: a single `mixLinkRequest` blob.
    LinkCallMe { source: Source, mix: MixOutput },
    /// Unlink a CallMe return channel from a mix. See [`Command::LinkCallMe`].
    UnlinkCallMe { source: Source, mix: MixOutput },
    /// Set a channel-strip DSP parameter on a fader's CHANNEL node.
    SetChannelParam { fader: Fader, param: ChannelParam, value: Value },
    /// Set an input-source parameter on a source's INPUTSOURCE node.
    SetInputSourceParam { source: Source, param: InputSourceParam, value: Value },
    /// Set a master-bus parameter on the MASTERCHANNEL node.
    SetMasterParam { param: MasterParam, value: Value },
    /// Set an output-bus parameter on the OUTPUT node.
    SetOutputParam { param: OutputParam, value: Value },
    /// Set the auto-duck depth on the DUCKER node.
    SetDuckerParam { param: DuckerParam, value: Value },
    /// Set a recorder transport property on the RECORDER node.
    SetRecorderParam { param: RecorderParam, value: Value },
    /// Set a player property on the PLAYER node.
    SetPlayerParam { param: PlayerParam, value: Value },
    /// Set a front-panel UI parameter on the GUI node.
    SetGuiParam { param: GuiParam, value: Value },
    /// Set a device-wide system parameter on the SYSTEM node.
    SetSystemParam { param: SystemParam, value: Value },
    /// Set a SIP calling parameter on the SIPCALLING node.
    SetSipCallingParam { param: SipCallingParam, value: Value },
    /// Set a SIP advanced parameter on the SIPADVANCED node.
    SetSipAdvancedParam { param: SipAdvancedParam, value: Value },
    /// Set a diagnostic parameter on the TEST node.
    SetTestParam { param: TestParam, value: Value },
    /// Set a networking parameter on the singleton `NETWORK` node.
    SetNetworkParam { param: NetworkParam, value: Value },
    /// Set an audio engine parameter on the singleton `AUDIO` node.
    SetAudioParam { param: AudioParam, value: Value },
    /// Set a build parameter on the singleton `BUILD` node.
    SetBuildParam { param: BuildParam, value: Value },
    /// Set a companion-app parameter on the singleton `APP` node.
    SetAppParam { param: AppParam, value: Value },
    /// Set a theme parameter on the singleton `THEME` node.
    SetThemeParam { param: ThemeParam, value: Value },
    /// Set a current-show parameter on the singleton `CURRENTSHOW` node.
    SetCurrentShowParam { param: CurrentShowParam, value: Value },
    /// Set a show-control parameter on the singleton `SHOWCONTROL` node.
    SetShowControlParam { param: ShowControlParam, value: Value },
    /// Set a recordings-container parameter on the singleton `RECORDINGS` node.
    SetRecordingsParam { param: RecordingsParam, value: Value },
    /// Set a wireless-radio parameter on the singleton `RADIO` node.
    SetRadioParam { param: RadioParam, value: Value },
    /// Set a per-registration SIP parameter on a SIPREGISTRATION node.
    SetSipRegistrationParam { registration: u8, param: SipRegistrationParam, value: Value },
    /// Set a per-call-slot SIP parameter on a SIPCALLSLOTS node.
    SetSipCallSlotsParam { slot: u8, param: SipCallSlotsParam, value: Value },
    /// Set a pad recorder parameter on a PADRECORDER node.
    SetPadRecorderParam { pad_recorder: u8, param: PadRecorderParam, value: Value },
    /// Set an effects preset parameter on an FXPRESET node.
    SetFxPresetParam { preset: u8, param: FxPresetParam, value: Value },
    /// Set a per-show parameter on one of the `SHOW` child nodes under `SHOWS`.
    SetShowParam { show: u8, param: ShowParam, value: Value },
    /// Set a per-recording parameter on one of the `RECORDING` child nodes under `RECORDINGS`.
    SetRecordingParam { recording: u8, param: RecordingParam, value: Value },
    /// Set a storage volume parameter on one of the `STORAGEVOLUME` nodes.
    SetStorageVolumeParam { volume: u8, param: StorageVolumeParam, value: Value },
    /// Set a wireless-radio transmitter parameter on one of the `RADIOTX` nodes.
    SetRadioTxParam { tx: u8, param: RadioTxParam, value: Value },
    /// Set a wireless-radio receiver parameter on one of the `RADIORX` nodes.
    SetRadioRxParam { rx: u8, param: RadioRxParam, value: Value },
    /// Set a WiFi scan result entry parameter on one of the `WIFISCANRESULT` nodes.
    SetWifiScanResultParam { slot: u8, param: WifiScanResultParam, value: Value },
    /// Set a StreamerX mix preset parameter on one of the `STREAMERXMIXPRESET` nodes.
    SetStreamerXMixPresetParam { preset: u8, param: StreamerXMixPresetParam, value: Value },
    /// Set a StreamerX stream mix parameter on one of the `STREAMERXSTREAMMIX` nodes.
    SetStreamerXStreamMixParam { stream: u8, param: StreamerXStreamMixParam, value: Value },
    /// Set an rcSync mix parameter on one of the `RCSYNCMIX` nodes.
    SetRcSyncMixParam { mix: u8, param: RcSyncMixParam, value: Value },
    /// Set a mix-minus parameter on one of the `MIXMINUSES` nodes.
    SetMixMinusesParam { minuses: u8, param: MixMinusesParam, value: Value },
    /// Set a headphone property on a HEADPHONE node.
    SetHeadphoneParam { headphone: u8, param: HeadphoneParam, value: Value },
    /// Set an effects parameter on an EFFECTS_PARAMETERS node.
    SetEffectsParam { effects: u8, param: EffectsParam, value: Value },
    /// Set a sound-pad parameter on a PAD node.
    SetPadParam { pad: u8, param: PadParam, value: Value },
    /// Skip initial setup mode and configure language and timezone.
    SetupSkip { language: Option<String>, timezone: Option<String> },
}

/// Why a command cannot be encoded on a layout.
pub enum EncodeFailure {
    OutOfRange { what: Seq<char>, index: u32, bound: u32 },
    MixCellOutOfRange { source: u8, mix: u8, source_bound: u8, mix_bound: u8 },
    FaderNotOnModel { fader: Fader, model: DeviceModel },
    MissingNode { what: Seq<char> },
}

/// Error from [`Command::encode`].
#[derive(Debug, Clone, PartialEq)]
pub enum EncodeError {
    OutOfRange { what: &'static str, index: u32, bound: u32 },
    MixCellOutOfRange { source: u8, mix: u8, source_bound: u8, mix_bound: u8 },
    /// The named fader strip does not exist on this device model (e.g.
    /// `Physical6` on a Duo, or `Virtual4` on a Pro II).
    FaderNotOnModel { fader: Fader, model: DeviceModel },
    /// A singleton node the command addresses (e.g. `MASTERCHANNEL`, `OUTPUT`)
    /// was not present in the layout's fullSync. Unlike [`EncodeError::OutOfRange`]
    /// there is no index: the whole family is absent.
    MissingNode { what: &'static str },
}

impl EncodeError {
    /// The failure this error reports.
    pub open spec fn failure(&self) -> EncodeFailure {
        match self {
            EncodeError::OutOfRange { what, index, bound } => EncodeFailure::OutOfRange {
                what: what@,
                index: *index,
                bound: *bound,
            },
            EncodeError::MixCellOutOfRange { source, mix, source_bound, mix_bound } =>
                EncodeFailure::MixCellOutOfRange {
                source: *source,
                mix: *mix,
                source_bound: *source_bound,
                mix_bound: *mix_bound,
            },
            EncodeError::FaderNotOnModel { fader, model } => EncodeFailure::FaderNotOnModel {
                fader: *fader,
                model: *model,
            },
            EncodeError::MissingNode { what } => EncodeFailure::MissingNode { what: what@ },
        }
    }

    /// The human-readable message for this error.
    pub fn to_string(&self) -> (r: String)
        ensures
            r@ == spec_encode_failure_text(self.failure()),
    {
        match self {
            EncodeError::OutOfRange { what, index, bound } => {
                let mut r = String::new();
                r.append(what);
                r.append(" index ");
                push_decimal(&mut r, *index as u64);
                r.append(" out of range (bound ");
                push_decimal(&mut r, *bound as u64);
                r.append(")");
                r
            },
            EncodeError::FaderNotOnModel { fader, model } => {
                let mut r = concat_str("fader ", fader.name());
                r.append(" does not exist on ");
                let m = model.to_string();
                r.append(m.as_str());
                r
            },
            EncodeError::MissingNode { what } => {
                let mut r = concat_str("layout has no ", what);
                r.append(" node");
                r
            },
            EncodeError::MixCellOutOfRange { source, mix, source_bound, mix_bound } => {
                let mut r = "mix cell (".to_owned();
                push_decimal(&mut r, *source as u64);
                r.append(", ");
                push_decimal(&mut r, *mix as u64);
                r.append(") out of range (sources ");
                push_decimal(&mut r, *source_bound as u64);
                r.append(", mixes ");
                push_decimal(&mut r, *mix_bound as u64);
                r.append(")");
                r
            },
        }
    }
}

/// The message of an encoding failure.
pub open spec fn spec_encode_failure_text(f: EncodeFailure) -> Seq<char> {
    match f {
        EncodeFailure::OutOfRange { what, index, bound } => what + " index "@ + spec_decimal(
            index as nat,
        ) + " out of range (bound "@ + spec_decimal(bound as nat) + ")"@,
        EncodeFailure::FaderNotOnModel { fader, model } => "fader "@ + fader.spec_name()
            + " does not exist on "@ + model.spec_title(),
        EncodeFailure::MissingNode { what } => "layout has no "@ + what + " node"@,
        EncodeFailure::MixCellOutOfRange { source, mix, source_bound, mix_bound } => "mix cell ("@
            + spec_decimal(source as nat) + ", "@ + spec_decimal(mix as nat)
            + ") out of range (sources "@ + spec_decimal(source_bound as nat) + ", mixes "@
            + spec_decimal(mix_bound as nat) + ")"@,
    }
}

// ---------------------------------------------------------------------------
// The encoding rules

/// The payloads of a command, each as bytes.
pub open spec fn frames_view(v: Vec<Vec<u8>>) -> Seq<Seq<u8>> {
    v@.map_values(|f: Vec<u8>| f@)
}

/// A value whose encoding has a length an `i64` can carry.
pub open spec fn value_fits(v: VarModel) -> bool {
    spec_write_value(v).len() <= i64::MAX
}

/// The momentary press written to a request property.
pub open spec fn spec_trigger() -> VarModel {
    VarModel::Binary(spec_bool_pair(true, true))
}

/// One `propertyChanged` payload.
pub open spec fn spec_one(path: Seq<u32>, name: Seq<char>, value: VarModel) -> Seq<Seq<u8>> {
    seq![spec_encode_property_changed(path, name, value)]
}

/// A property write to a singleton node, which must be present.
pub open spec fn spec_singleton_frame(
    s: Singleton,
    what: Seq<char>,
    name: Seq<char>,
    value: VarModel,
) -> Result<Seq<Seq<u8>>, EncodeFailure> {
    match s.spec_path() {
        Some(p) => Ok(spec_one(p, name, value)),
        None => Err(EncodeFailure::MissingNode { what }),
    }
}

/// A property write to the `i`th node of a run; a missing node is reported
/// as missing.
pub open spec fn spec_run_frame(
    r: Indexed,
    i: u8,
    what: Seq<char>,
    name: Seq<char>,
    value: VarModel,
) -> Result<Seq<Seq<u8>>, EncodeFailure> {
    match r.spec_path(i) {
        Some(p) => Ok(spec_one(p, name, value)),
        None => Err(EncodeFailure::MissingNode { what }),
    }
}

/// A property write to the `i`th child of a container; a missing node is
/// reported as missing.
pub open spec fn spec_two_level_frame(
    r: TwoLevel,
    i: u8,
    what: Seq<char>,
    name: Seq<char>,
    value: VarModel,
) -> Result<Seq<Seq<u8>>, EncodeFailure> {
    match r.spec_path(i) {
        Some(p) => Ok(spec_one(p, name, value)),
        None => Err(EncodeFailure::MissingNode { what }),
    }
}

/// A property write to the `i`th node of a run; a missing node is reported
/// as an index out of the run's range.
pub open spec fn spec_ranged_run_frame(
    r: Indexed,
    i: u8,
    what: Seq<char>,
    name: Seq<char>,
    value: VarModel,
) -> Result<Seq<Seq<u8>>, EncodeFailure> {
    match r.spec_path(i) {
        Some(p) => Ok(spec_one(p, name, value)),
        None => Err(EncodeFailure::OutOfRange { what, index: i as u32, bound: r.count as u32 }),
    }
}

/// A property write to the `i`th child of a container; a missing node is
/// reported as an index out of the run's range.
pub open spec fn spec_ranged_two_level_frame(
    r: TwoLevel,
    i: u8,
    what: Seq<char>,
    name: Seq<char>,
    value: VarModel,
) -> Result<Seq<Seq<u8>>, EncodeFailure> {
    match r.spec_path(i) {
        Some(p) => Ok(spec_one(p, name, value)),
        None => Err(EncodeFailure::OutOfRange { what, index: i as u32, bound: r.count as u32 }),
    }
}

/// The channel path of a strip: the strip must exist on the model and its
/// index must fall inside the `CHANNEL` run.
pub open spec fn spec_channel_target(l: LayoutView, fader: Fader) -> Result<Seq<u32>, EncodeFailure> {
    match fader.spec_index(l.model) {
        None => Err(EncodeFailure::FaderNotOnModel { fader, model: l.model }),
        Some(idx) => match l.channel.spec_path(idx) {
            Some(p) => Ok(p),
            None => Err(
                EncodeFailure::OutOfRange { what: "fader"@, index: idx as u32, bound: l.channel.count as u32 },
            ),
        },
    }
}

/// The fader path of a strip: the strip must exist on the model and its
/// index must fall inside the `FADER` run.
pub open spec fn spec_fader_target(l: LayoutView, fader: Fader) -> Result<Seq<u32>, EncodeFailure> {
    match fader.spec_index(l.model) {
        None => Err(EncodeFailure::FaderNotOnModel { fader, model: l.model }),
        Some(idx) => match l.fader.spec_path(idx) {
            Some(p) => Ok(p),
            None => Err(
                EncodeFailure::OutOfRange { what: "fader"@, index: idx as u32, bound: l.fader.count as u32 },
            ),
        },
    }
}

/// The `INPUTSOURCE` path of a source.
pub open spec fn spec_input_source_target(l: LayoutView, source: Source) -> Result<Seq<u32>, EncodeFailure> {
    match l.input_source.spec_path(source.index()) {
        Some(p) => Ok(p),
        None => Err(
            EncodeFailure::OutOfRange {
                what: "input source"@,
                index: source.index() as u32,
                bound: l.input_source.count as u32,
            },
        ),
    }
}

/// The path of a mix cell.
pub open spec fn spec_mix_target(l: LayoutView, source: Source, mix: MixOutput) -> Result<Seq<u32>, EncodeFailure> {
    match l.spec_mix_cell_path(source.index(), mix.index()) {
        Some(p) => Ok(p),
        None => Err(
            EncodeFailure::MixCellOutOfRange {
                source: source.index(),
                mix: mix.index(),
                source_bound: l.source_count,
                mix_bound: 13,
            },
        ),
    }
}

/// The dedicated request path of a CallMe routing cell:
/// `(source << 8) | (4 + mix)`.
pub open spec fn spec_callme_path(source: Source, mix: MixOutput) -> Seq<u32> {
    seq![(source.index() * 256 + CALLME_MIX_PATH_OFFSET + mix.index()) as u32]
}

/// Writes of one property to a resolved path.
pub open spec fn spec_at(
    target: Result<Seq<u32>, EncodeFailure>,
    name: Seq<char>,
    value: VarModel,
) -> Result<Seq<Seq<u8>>, EncodeFailure> {
    match target {
        Ok(p) => Ok(spec_one(p, name, value)),
        Err(e) => Err(e),
    }
}

/// The setup-skip sequence: language on `GUI`, then timezone and 24-hour
/// clock on `SYSTEM`, then a muted default show, then re-enabled controls and
/// outputs with no channel selected. A part whose node is absent is left
/// out.
pub open spec fn spec_setup_skip(
    l: LayoutView,
    language: Option<Seq<char>>,
    timezone: Option<Seq<char>>,
) -> Seq<Seq<u8>> {
    let lang = match (language, l.gui.spec_path()) {
        (Some(s), Some(p)) => spec_one(p, "lang"@, VarModel::Str(s)),
        _ => Seq::empty(),
    };
    let tz = match (timezone, l.system.spec_path()) {
        (Some(s), Some(p)) => seq![
            spec_encode_property_changed(p, "systemDateTimezone"@, VarModel::Str(s)),
            spec_encode_property_changed(p, "systemDateTime24h"@, VarModel::Bool(true)),
            spec_encode_property_changed(p, "systemDateTimeOnHome"@, VarModel::Bool(true)),
        ],
        _ => Seq::empty(),
    };
    let show = match l.show_control.spec_path() {
        Some(p) => spec_one(p, "showControlNewFromDefaultMuted"@, VarModel::Bool(true)),
        None => Seq::empty(),
    };
    let sys = match l.system.spec_path() {
        Some(p) => seq![
            spec_encode_property_changed(p, "disableAllPhysicalButtons"@, VarModel::Bool(false)),
            spec_encode_property_changed(p, "disableAllLineoutOutputs"@, VarModel::Bool(false)),
            spec_encode_property_changed(p, "disableAllHeadphoneOutputs"@, VarModel::Bool(false)),
            spec_encode_property_changed(p, "systemChannelSelected"@, VarModel::Int(-1i64)),
        ],
        None => Seq::empty(),
    };
    lang + tz + show + sys
}

pub open spec fn opt_text(s: Option<String>) -> Option<Seq<char>> {
    match s {
        Some(t) => Some(t@),
        None => None,
    }
}

/// The payloads a command encodes to on a layout, or why it cannot.
pub open spec fn spec_encode(cmd: Command, l: LayoutView) -> Result<Seq<Seq<u8>>, EncodeFailure> {
    match cmd {
        Command::SetFaderMute { fader, mute } => spec_at(
            spec_channel_target(l, fader),
            "channelOutputMute"@,
            VarModel::Bool(mute),
        ),
        Command::SetFaderCue { fader, enable } => spec_at(
            spec_channel_target(l, fader),
            "channelCueEnable"@,
            VarModel::Bool(enable),
        ),
        Command::SetFaderLevel { fader, level } => spec_at(
            spec_fader_target(l, fader),
            "faderLevel"@,
            VarModel::Int(level as i64),
        ),
        Command::AssignFaderSource { fader, source } => spec_at(
            spec_channel_target(l, fader),
            "channelInputSource"@,
            VarModel::Int(
                match source {
                    Some(s) => s.index() as i64,
                    None => -1i64,
                },
            ),
        ),
        Command::SetMixDisabled { source, mix, disabled } => spec_at(
            spec_mix_target(l, source, mix),
            "mixDisabled"@,
            VarModel::Bool(disabled),
        ),
        Command::SetMixMute { source, mix, mute } => spec_at(
            spec_mix_target(l, source, mix),
            "mixMute"@,
            VarModel::Bool(mute),
        ),
        Command::LinkMix { source, mix } => match spec_mix_target(l, source, mix) {
            Ok(p) => Ok(
                seq![
                    spec_encode_property_changed(p, "mixDisabled"@, VarModel::Bool(false)),
                    spec_encode_property_changed(p, "mixMute"@, VarModel::Bool(false)),
                    spec_encode_property_changed(p, "mixLinkRequest"@, spec_trigger()),
                ],
            ),
            Err(e) => Err(e),
        },
        Command::UnlinkMix { source, mix } => spec_at(
            spec_mix_target(l, source, mix),
            "mixUnlinkRequest"@,
            spec_trigger(),
        ),
        Command::ScreenTouched => Ok(seq![SCREEN_TOUCHED_FRAME@]),
        Command::PowerOff => spec_singleton_frame(
            l.system,
            "SYSTEM"@,
            "powerOffRequest"@,
            VarModel::Bool(true),
        ),
        Command::LinkCallMe { source, mix } => Ok(
            spec_one(spec_callme_path(source, mix), "mixLinkRequest"@, spec_trigger()),
        ),
        Command::UnlinkCallMe { source, mix } => Ok(
            spec_one(spec_callme_path(source, mix), "mixUnlinkRequest"@, spec_trigger()),
        ),
        Command::SetChannelParam { fader, param, value } => spec_at(
            spec_channel_target(l, fader),
            param.wire_name(),
            value@,
        ),
        Command::SetInputSourceParam { source, param, value } => spec_at(
            spec_input_source_target(l, source),
            param.wire_name(),
            value@,
        ),
        Command::SetMasterParam { param, value } => spec_singleton_frame(l.master_channel, "MASTERCHANNEL"@, param.wire_name(), value@),
        Command::SetOutputParam { param, value } => spec_singleton_frame(l.output, "OUTPUT"@, param.wire_name(), value@),
        Command::SetDuckerParam { param, value } => spec_singleton_frame(l.ducker, "DUCKER"@, param.wire_name(), value@),
        Command::SetRecorderParam { param, value } => spec_singleton_frame(l.recorder, "RECORDER"@, param.wire_name(), value@),
        Command::SetPlayerParam { param, value } => spec_singleton_frame(l.player, "PLAYER"@, param.wire_name(), value@),
        Command::SetGuiParam { param, value } => spec_singleton_frame(l.gui, "GUI"@, param.wire_name(), value@),
        Command::SetSystemParam { param, value } => spec_singleton_frame(l.system, "SYSTEM"@, param.wire_name(), value@),
        Command::SetSipCallingParam { param, value } => spec_singleton_frame(l.sip_calling, "SIPCALLING"@, param.wire_name(), value@),
        Command::SetSipAdvancedParam { param, value } => spec_singleton_frame(l.sip_advanced, "SIPADVANCED"@, param.wire_name(), value@),
        Command::SetTestParam { param, value } => spec_singleton_frame(l.test, "TEST"@, param.wire_name(), value@),
        Command::SetNetworkParam { param, value } => spec_singleton_frame(l.network, "NETWORK"@, param.wire_name(), value@),
        Command::SetAudioParam { param, value } => spec_singleton_frame(l.audio, "AUDIO"@, param.wire_name(), value@),
        Command::SetBuildParam { param, value } => spec_singleton_frame(l.build, "BUILD"@, param.wire_name(), value@),
        Command::SetAppParam { param, value } => spec_singleton_frame(l.app, "APP"@, param.wire_name(), value@),
        Command::SetThemeParam { param, value } => spec_singleton_frame(l.theme, "THEME"@, param.wire_name(), value@),
        Command::SetCurrentShowParam { param, value } => spec_singleton_frame(l.current_show, "CURRENTSHOW"@, param.wire_name(), value@),
        Command::SetShowControlParam { param, value } => spec_singleton_frame(l.show_control, "SHOWCONTROL"@, param.wire_name(), value@),
        Command::SetRecordingsParam { param, value } => spec_singleton_frame(l.recordings, "RECORDINGS"@, param.wire_name(), value@),
        Command::SetRadioParam { param, value } => spec_singleton_frame(l.radio, "RADIO"@, param.wire_name(), value@),
        Command::SetSipRegistrationParam { registration, param, value } => spec_two_level_frame(l.sip_registration, registration, "SIPREGISTRATION"@, param.wire_name(), value@),
        Command::SetSipCallSlotsParam { slot, param, value } => spec_run_frame(l.sip_call_slots, slot, "SIPCALLSLOTS"@, param.wire_name(), value@),
        Command::SetPadRecorderParam { pad_recorder, param, value } => spec_run_frame(l.pad_recorder, pad_recorder, "PADRECORDER"@, param.wire_name(), value@),
        Command::SetFxPresetParam { preset, param, value } => spec_two_level_frame(l.fx_preset, preset, "FXPRESET"@, param.wire_name(), value@),
        Command::SetShowParam { show, param, value } => spec_two_level_frame(l.show, show, "SHOW"@, param.wire_name(), value@),
        Command::SetRecordingParam { recording, param, value } => spec_two_level_frame(l.recording, recording, "RECORDING"@, param.wire_name(), value@),
        Command::SetStorageVolumeParam { volume, param, value } => spec_run_frame(l.storage_volume, volume, "STORAGEVOLUME"@, param.wire_name(), value@),
        Command::SetRadioTxParam { tx, param, value } => spec_run_frame(l.radio_tx, tx, "RADIOTX"@, param.wire_name(), value@),
        Command::SetRadioRxParam { rx, param, value } => spec_run_frame(l.radio_rx, rx, "RADIORX"@, param.wire_name(), value@),
        Command::SetWifiScanResultParam { slot, param, value } => spec_run_frame(l.wifi_scan_result, slot, "WIFISCANRESULT"@, param.wire_name(), value@),
        Command::SetStreamerXMixPresetParam { preset, param, value } => spec_run_frame(l.streamerx_mix_preset, preset, "STREAMERXMIXPRESET"@, param.wire_name(), value@),
        Command::SetStreamerXStreamMixParam { stream, param, value } => spec_run_frame(l.streamerx_stream_mix, stream, "STREAMERXSTREAMMIX"@, param.wire_name(), value@),
        Command::SetRcSyncMixParam { mix, param, value } => spec_run_frame(l.rcsync_mix, mix, "RCSYNCMIX"@, param.wire_name(), value@),
        Command::SetMixMinusesParam { minuses, param, value } => spec_run_frame(l.mix_minuses, minuses, "MIXMINUSES"@, param.wire_name(), value@),
        Command::SetHeadphoneParam { headphone, param, value } => spec_ranged_run_frame(l.headphone, headphone, "headphone"@, param.wire_name(), value@),
        Command::SetEffectsParam { effects, param, value } => spec_ranged_run_frame(l.effects, effects, "effects"@, param.wire_name(), value@),
        Command::SetPadParam { pad, param, value } => spec_ranged_two_level_frame(l.pad, pad, "pad"@, param.wire_name(), value@),
        Command::SetupSkip { language, timezone } => Ok(
            spec_setup_skip(l, opt_text(language), opt_text(timezone)),
        ),
    }
}

impl Command {
    /// Every value the command writes has an encoding whose length an `i64`
    /// can carry (a machine limit: lengths travel as `i64`).
    pub open spec fn fits(self) -> bool {
        match self {
            Command::SetChannelParam { value, .. } => value_fits(value@),
            Command::SetInputSourceParam { value, .. } => value_fits(value@),
        Command::SetMasterParam { value, .. } => value_fits(value@),
        Command::SetOutputParam { value, .. } => value_fits(value@),
        Command::SetDuckerParam { value, .. } => value_fits(value@),
        Command::SetRecorderParam { value, .. } => value_fits(value@),
        Command::SetPlayerParam { value, .. } => value_fits(value@),
        Command::SetGuiParam { value, .. } => value_fits(value@),
        Command::SetSystemParam { value, .. } => value_fits(value@),
        Command::SetSipCallingParam { value, .. } => value_fits(value@),
        Command::SetSipAdvancedParam { value, .. } => value_fits(value@),
        Command::SetTestParam { value, .. } => value_fits(value@),
        Command::SetNetworkParam { value, .. } => value_fits(value@),
        Command::SetAudioParam { value, .. } => value_fits(value@),
        Command::SetBuildParam { value, .. } => value_fits(value@),
        Command::SetAppParam { value, .. } => value_fits(value@),
        Command::SetThemeParam { value, .. } => value_fits(value@),
        Command::SetCurrentShowParam { value, .. } => value_fits(value@),
        Command::SetShowControlParam { value, .. } => value_fits(value@),
        Command::SetRecordingsParam { value, .. } => value_fits(value@),
        Command::SetRadioParam { value, .. } => value_fits(value@),
        Command::SetSipRegistrationParam { value, .. } => value_fits(value@),
        Command::SetSipCallSlotsParam { value, .. } => value_fits(value@),
        Command::SetPadRecorderParam { value, .. } => value_fits(value@),
        Command::SetFxPresetParam { value, .. } => value_fits(value@),
        Command::SetShowParam { value, .. } => value_fits(value@),
        Command::SetRecordingParam { value, .. } => value_fits(value@),
        Command::SetStorageVolumeParam { value, .. } => value_fits(value@),
        Command::SetRadioTxParam { value, .. } => value_fits(value@),
        Command::SetRadioRxParam { value, .. } => value_fits(value@),
        Command::SetWifiScanResultParam { value, .. } => value_fits(value@),
        Command::SetStreamerXMixPresetParam { value, .. } => value_fits(value@),
        Command::SetStreamerXStreamMixParam { value, .. } => value_fits(value@),
        Command::SetRcSyncMixParam { value, .. } => value_fits(value@),
        Command::SetMixMinusesParam { value, .. } => value_fits(value@),
        Command::SetHeadphoneParam { value, .. } => value_fits(value@),
        Command::SetEffectsParam { value, .. } => value_fits(value@),
        Command::SetPadParam { value, .. } => value_fits(value@),
            Command::SetupSkip { language, timezone } => (language matches Some(s) ==> value_fits(
                VarModel::Str(s@),
            )) && (timezone matches Some(s) ==> value_fits(VarModel::Str(s@))),
            _ => true,
        }
    }
}

/// Booleans, ints and the trigger press are a handful of bytes on the wire.
proof fn lemma_small_values_fit()
    ensures
        forall|b: bool| #[trigger] value_fits(VarModel::Bool(b)),
        forall|i: i64| #[trigger] value_fits(VarModel::Int(i)),
        value_fits(spec_trigger()),
{
    lemma_compressed_int_len(1);
    lemma_compressed_int_len(5);
    lemma_compressed_int_len(7);
    assert forall|i: i64| #[trigger] value_fits(VarModel::Int(i)) by {
        lemma_le_bytes_len(low_bits(i as int, 0x1_0000_0000), 4);
    }
}

// ---------------------------------------------------------------------------
// Encoder

/// One `propertyChanged` payload, as the only frame of a command.
fn single_prop_frame(path: &[u32], name: &str, value: &Value) -> (r: Vec<Vec<u8>>)
    requires
        path@.len() <= 2,
        value_fits(value@),
    ensures
        frames_view(r) == spec_one(path@, name@, value@),
{
    let mut frames: Vec<Vec<u8>> = Vec::new();
    frames.push(encode_property_changed(path, name, value));
    proof {
        assert(frames_view(frames) =~= spec_one(path@, name@, value@));
    }
    frames
}

fn singleton_frame(path: Option<Vec<u32>>, what: &'static str, name: &str, value: &Value) -> (r: Result<Vec<Vec<u8>>, EncodeError>)
    requires
        path matches Some(p) ==> p@.len() <= 2,
        value_fits(value@),
    ensures
        match path_view(path) {
            Some(p) => r matches Ok(v) && frames_view(v) == spec_one(p, name@, value@),
            None => r matches Err(e) && e.failure() == (EncodeFailure::MissingNode { what: what@ }),
        },
{
    match path {
        Some(p) => Ok(single_prop_frame(p.as_slice(), name, value)),
        None => Err(EncodeError::MissingNode { what }),
    }
}

fn indexed_frame(path: Option<Vec<u32>>, what: &'static str, name: &str, value: &Value) -> (r: Result<Vec<Vec<u8>>, EncodeError>)
    requires
        path matches Some(p) ==> p@.len() <= 2,
        value_fits(value@),
    ensures
        match path_view(path) {
            Some(p) => r matches Ok(v) && frames_view(v) == spec_one(p, name@, value@),
            None => r matches Err(e) && e.failure() == (EncodeFailure::MissingNode { what: what@ }),
        },
{
    singleton_frame(path, what, name, value)
}

fn ranged_frame(
    path: Option<Vec<u32>>,
    what: &'static str,
    index: u8,
    bound: u8,
    name: &str,
    value: &Value,
) -> (r: Result<Vec<Vec<u8>>, EncodeError>)
    requires
        path matches Some(p) ==> p@.len() <= 2,
        value_fits(value@),
    ensures
        match path_view(path) {
            Some(p) => r matches Ok(v) && frames_view(v) == spec_one(p, name@, value@),
            None => r matches Err(e) && e.failure() == (EncodeFailure::OutOfRange {
                what: what@,
                index: index as u32,
                bound: bound as u32,
            }),
        },
{
    match path {
        Some(p) => Ok(single_prop_frame(p.as_slice(), name, value)),
        None => Err(EncodeError::OutOfRange { what, index: index as u32, bound: bound as u32 }),
    }
}

/// Resolve a named fader strip to its wire fader/channel index on the layout's
/// device model. `Err(FaderNotOnModel)` if the strip does not exist there
/// (e.g. `Physical6` on a Duo).
fn fader_index(layout: &Layout, fader: Fader) -> (r: Result<u8, EncodeError>)
    ensures
        match fader.spec_index(layout@.model) {
            Some(i) => r == Ok::<u8, EncodeError>(i),
            None => r matches Err(e) && e.failure() == (EncodeFailure::FaderNotOnModel {
                fader,
                model: layout@.model,
            }),
        },
{
    match fader.to_index(layout.model()) {
        Some(i) => Ok(i),
        None => Err(EncodeError::FaderNotOnModel { fader, model: layout.model() }),
    }
}

/// The channel path of a strip.
fn channel_target(layout: &Layout, fader: Fader) -> (r: Result<Vec<u32>, EncodeError>)
    ensures
        match spec_channel_target(layout@, fader) {
            Ok(p) => r matches Ok(v) && v@ == p,
            Err(e) => r matches Err(x) && x.failure() == e,
        },
{
    let idx = match fader_index(layout, fader) {
        Ok(i) => i,
        Err(e) => {
            return Err(e);
        },
    };
    match layout.channel_path(idx) {
        Some(p) => Ok(p),
        None => Err(
            EncodeError::OutOfRange { what: "fader", index: idx as u32, bound: layout.channel_count() as u32 },
        ),
    }
}

/// The fader path of a strip.
fn fader_target(layout: &Layout, fader: Fader) -> (r: Result<Vec<u32>, EncodeError>)
    ensures
        match spec_fader_target(layout@, fader) {
            Ok(p) => r matches Ok(v) && v@ == p,
            Err(e) => r matches Err(x) && x.failure() == e,
        },
{
    let idx = match fader_index(layout, fader) {
        Ok(i) => i,
        Err(e) => {
            return Err(e);
        },
    };
    match layout.fader_path(idx) {
        Some(p) => Ok(p),
        None => Err(
            EncodeError::OutOfRange { what: "fader", index: idx as u32, bound: layout.fader_count() as u32 },
        ),
    }
}

/// The `INPUTSOURCE` path of a source.
fn input_source_target(layout: &Layout, source: Source) -> (r: Result<Vec<u32>, EncodeError>)
    ensures
        match spec_input_source_target(layout@, source) {
            Ok(p) => r matches Ok(v) && v@ == p,
            Err(e) => r matches Err(x) && x.failure() == e,
        },
{
    let idx = source.to_protocol();
    match layout.input_source_path(idx) {
        Some(p) => Ok(p),
        None => Err(
            EncodeError::OutOfRange {
                what: "input source",
                index: idx as u32,
                bound: layout.input_source_count() as u32,
            },
        ),
    }
}

/// The path of a mix cell.
fn mix_target(layout: &Layout, source: Source, mix: MixOutput) -> (r: Result<Vec<u32>, EncodeError>)
    ensures
        match spec_mix_target(layout@, source, mix) {
            Ok(p) => r matches Ok(v) && v@ == p,
            Err(e) => r matches Err(x) && x.failure() == e,
        },
{
    match layout.mix_cell_path(source.to_protocol(), mix.to_protocol()) {
        Some(p) => Ok(p),
        None => Err(
            EncodeError::MixCellOutOfRange {
                source: source.to_protocol(),
                mix: mix.to_protocol(),
                source_bound: layout.source_count(),
                mix_bound: layout.mix_count_per_source(),
            },
        ),
    }
}

/// Single-level request path for a CallMe routing cell. See
/// [`CALLME_MIX_PATH_OFFSET`].
fn callme_request_path(source: Source, mix: MixOutput) -> (r: Vec<u32>)
    ensures
        r@ == spec_callme_path(source, mix),
{
    let s = source.to_protocol() as u32;
    let m = mix.to_protocol() as u32;
    let p = (s << 8) | (CALLME_MIX_PATH_OFFSET + m);
    proof {
        assert(s < 256 && m < 252 ==> ((s << 8) | ((4 + m) as u32)) == s * 256 + 4 + m) by (bit_vector);
    }
    let mut v: Vec<u32> = Vec::new();
    v.push(p);
    proof {
        assert(v@ =~= spec_callme_path(source, mix));
    }
    v
}

/// A property write through a resolved target.
fn frame_at(target: Result<Vec<u32>, EncodeError>, name: &str, value: &Value) -> (r: Result<Vec<Vec<u8>>, EncodeError>)
    requires
        target matches Ok(p) ==> p@.len() <= 2,
        value_fits(value@),
    ensures
        match target {
            Ok(p) => r matches Ok(v) && frames_view(v) == spec_one(p@, name@, value@),
            Err(e) => r matches Err(x) && x.failure() == e.failure(),
        },
{
    match target {
        Ok(p) => Ok(single_prop_frame(p.as_slice(), name, value)),
        Err(e) => Err(e),
    }
}

fn screen_touched_frame() -> (r: Vec<u8>)
    ensures
        r@ == SCREEN_TOUCHED_FRAME@,
{
    let mut v: Vec<u8> = Vec::new();
    let mut i: usize = 0;
    while i < 18
        invariant
            i <= 18,
            v@ == SCREEN_TOUCHED_FRAME@.subrange(0, i as int),
        decreases 18 - i,
    {
        v.push(SCREEN_TOUCHED_FRAME[i]);
        proof {
            assert(v@ =~= SCREEN_TOUCHED_FRAME@.subrange(0, i + 1));
        }
        i = i + 1;
    }
    proof {
        assert(SCREEN_TOUCHED_FRAME@.subrange(0, 18) =~= SCREEN_TOUCHED_FRAME@);
    }
    v
}

/// The setup-skip sequence.
fn setup_skip(layout: &Layout, language: &Option<String>, timezone: &Option<String>) -> (r: Vec<Vec<u8>>)
    requires
        language matches Some(s) ==> value_fits(VarModel::Str(s@)),
        timezone matches Some(s) ==> value_fits(VarModel::Str(s@)),
    ensures
        frames_view(r) == spec_setup_skip(layout@, opt_text(*language), opt_text(*timezone)),
{
    let mut frames: Vec<Vec<u8>> = Vec::new();
    let ghost l = layout@;
    proof {
        lemma_small_values_fit();
        assert(value_fits(VarModel::Int(-1i64)));
    }
    if let Some(lang) = language {
        if let Some(path) = layout.gui_path() {
            frames.push(encode_property_changed(path.as_slice(), "lang", &Value::String(lang.clone())));
        }
    }
    let ghost f1 = frames_view(frames);
    proof {
        assert(f1 =~= match (opt_text(*language), l.gui.spec_path()) {
            (Some(s), Some(p)) => spec_one(p, "lang"@, VarModel::Str(s)),
            _ => Seq::empty(),
        });
    }
    if let Some(tz) = timezone {
        if let Some(path) = layout.system_path() {
            frames.push(encode_property_changed(path.as_slice(), "systemDateTimezone", &Value::String(tz.clone())));
            frames.push(encode_property_changed(path.as_slice(), "systemDateTime24h", &Value::Bool(true)));
            frames.push(encode_property_changed(path.as_slice(), "systemDateTimeOnHome", &Value::Bool(true)));
        }
    }
    let ghost f2 = frames_view(frames);
    if let Some(path) = layout.show_control_path() {
        frames.push(encode_property_changed(path.as_slice(), "showControlNewFromDefaultMuted", &Value::Bool(true)));
    }
    let ghost f3 = frames_view(frames);
    if let Some(path) = layout.system_path() {
        frames.push(encode_property_changed(path.as_slice(), "disableAllPhysicalButtons", &Value::Bool(false)));
        frames.push(encode_property_changed(path.as_slice(), "disableAllLineoutOutputs", &Value::Bool(false)));
        frames.push(encode_property_changed(path.as_slice(), "disableAllHeadphoneOutputs", &Value::Bool(false)));
        frames.push(encode_property_changed(path.as_slice(), "systemChannelSelected", &Value::Int(-1)));
    }
    proof {
        assert(frames_view(frames) =~= spec_setup_skip(l, opt_text(*language), opt_text(*timezone)));
    }
    frames
}

impl Command {
    /// Encode this command into one or more change-frame payloads to send in
    /// order. `Err(EncodeError::OutOfRange)` if the addressed entity does not
    /// exist in the layout (e.g., fader index past `Layout::fader_count`).
    ///
    /// Wrap each payload in a [`crate::frame::Packet`] for the transport.
    #[verifier::rlimit(100)]
    pub fn encode(&self, layout: &Layout) -> (r: Result<Vec<Vec<u8>>, EncodeError>)
        requires
            self.fits(),
        ensures
            match spec_encode(*self, layout@) {
                Ok(frames) => r matches Ok(v) && frames_view(v) == frames,
                Err(e) => r matches Err(x) && x.failure() == e,
            },
    {
        proof {
            lemma_small_values_fit();
        }
        match self {
            Command::SetFaderMute { fader, mute } => frame_at(
                channel_target(layout, *fader),
                "channelOutputMute",
                &Value::Bool(*mute),
            ),
            Command::SetFaderCue { fader, enable } => frame_at(
                channel_target(layout, *fader),
                "channelCueEnable",
                &Value::Bool(*enable),
            ),
            Command::SetFaderLevel { fader, level } => frame_at(
                fader_target(layout, *fader),
                "faderLevel",
                &Value::Int(*level as i64),
            ),
            Command::AssignFaderSource { fader, source } => {
                let source_value = match source {
                    Some(s) => s.to_protocol() as i64,
                    None => CHANNEL_INPUT_SOURCE_UNASSIGNED,
                };
                frame_at(channel_target(layout, *fader), "channelInputSource", &Value::Int(source_value))
            },
            Command::SetMixDisabled { source, mix, disabled } => frame_at(
                mix_target(layout, *source, *mix),
                "mixDisabled",
                &Value::Bool(*disabled),
            ),
            Command::SetMixMute { source, mix, mute } => frame_at(
                mix_target(layout, *source, *mix),
                "mixMute",
                &Value::Bool(*mute),
            ),
            Command::LinkMix { source, mix } => {
                let path = match mix_target(layout, *source, *mix) {
                    Ok(p) => p,
                    Err(e) => {
                        return Err(e);
                    },
                };
                // Link sequence: enable (the press alone does NOT auto-clear
                // mixDisabled), unmute (same for mixMute), then a single
                // Binary trigger write to mixLinkRequest.
                let mut frames: Vec<Vec<u8>> = Vec::new();
                frames.push(encode_property_changed(path.as_slice(), "mixDisabled", &Value::Bool(false)));
                frames.push(encode_property_changed(path.as_slice(), "mixMute", &Value::Bool(false)));
                frames.push(encode_property_changed(path.as_slice(), "mixLinkRequest", &press_value()));
                proof {
                    assert(frames_view(frames) =~= seq![
                        spec_encode_property_changed(path@, "mixDisabled"@, VarModel::Bool(false)),
                        spec_encode_property_changed(path@, "mixMute"@, VarModel::Bool(false)),
                        spec_encode_property_changed(path@, "mixLinkRequest"@, spec_trigger()),
                    ]);
                }
                Ok(frames)
            },
            Command::UnlinkMix { source, mix } => frame_at(
                mix_target(layout, *source, *mix),
                "mixUnlinkRequest",
                &press_value(),
            ),
            Command::ScreenTouched => {
                let mut frames: Vec<Vec<u8>> = Vec::new();
                frames.push(screen_touched_frame());
                proof {
                    assert(frames_view(frames) =~= seq![SCREEN_TOUCHED_FRAME@]);
                }
                Ok(frames)
            },
            Command::PowerOff => singleton_frame(
                layout.system_path(),
                "SYSTEM",
                "powerOffRequest",
                &Value::Bool(true),
            ),
            Command::LinkCallMe { source, mix } => Ok(
                single_prop_frame(callme_request_path(*source, *mix).as_slice(), "mixLinkRequest", &press_value()),
            ),
            Command::UnlinkCallMe { source, mix } => Ok(
                single_prop_frame(callme_request_path(*source, *mix).as_slice(), "mixUnlinkRequest", &press_value()),
            ),
            Command::SetChannelParam { fader, param, value } => frame_at(
                channel_target(layout, *fader),
                param.as_str(),
                value,
            ),
            Command::SetInputSourceParam { source, param, value } => frame_at(
                input_source_target(layout, *source),
                param.as_str(),
                value,
            ),
            Command::SetMasterParam { param, value } => singleton_frame(layout.master_channel_path(), "MASTERCHANNEL", param.as_str(), value),
            Command::SetOutputParam { param, value } => singleton_frame(layout.output_path(), "OUTPUT", param.as_str(), value),
            Command::SetDuckerParam { param, value } => singleton_frame(layout.ducker_path(), "DUCKER", param.as_str(), value),
            Command::SetRecorderParam { param, value } => singleton_frame(layout.recorder_path(), "RECORDER", param.as_str(), value),
            Command::SetPlayerParam { param, value } => singleton_frame(layout.player_path(), "PLAYER", param.as_str(), value),
            Command::SetGuiParam { param, value } => singleton_frame(layout.gui_path(), "GUI", param.as_str(), value),
            Command::SetSystemParam { param, value } => singleton_frame(layout.system_path(), "SYSTEM", param.as_str(), value),
            Command::SetSipCallingParam { param, value } => singleton_frame(layout.sip_calling_path(), "SIPCALLING", param.as_str(), value),
            Command::SetSipAdvancedParam { param, value } => singleton_frame(layout.sip_advanced_path(), "SIPADVANCED", param.as_str(), value),
            Command::SetTestParam { param, value } => singleton_frame(layout.test_path(), "TEST", param.as_str(), value),
            Command::SetNetworkParam { param, value } => singleton_frame(layout.network_path(), "NETWORK", param.as_str(), value),
            Command::SetAudioParam { param, value } => singleton_frame(layout.audio_path(), "AUDIO", param.as_str(), value),
            Command::SetBuildParam { param, value } => singleton_frame(layout.build_path(), "BUILD", param.as_str(), value),
            Command::SetAppParam { param, value } => singleton_frame(layout.app_path(), "APP", param.as_str(), value),
            Command::SetThemeParam { param, value } => singleton_frame(layout.theme_path(), "THEME", param.as_str(), value),
            Command::SetCurrentShowParam { param, value } => singleton_frame(layout.current_show_path(), "CURRENTSHOW", param.as_str(), value),
            Command::SetShowControlParam { param, value } => singleton_frame(layout.show_control_path(), "SHOWCONTROL", param.as_str(), value),
            Command::SetRecordingsParam { param, value } => singleton_frame(layout.recordings_path(), "RECORDINGS", param.as_str(), value),
            Command::SetRadioParam { param, value } => singleton_frame(layout.radio_path(), "RADIO", param.as_str(), value),
            Command::SetSipRegistrationParam { registration, param, value } => indexed_frame(layout.sip_registration_path(*registration), "SIPREGISTRATION", param.as_str(), value),
            Command::SetSipCallSlotsParam { slot, param, value } => indexed_frame(layout.sip_call_slots_path(*slot), "SIPCALLSLOTS", param.as_str(), value),
            Command::SetPadRecorderParam { pad_recorder, param, value } => indexed_frame(layout.pad_recorder_path(*pad_recorder), "PADRECORDER", param.as_str(), value),
            Command::SetFxPresetParam { preset, param, value } => indexed_frame(layout.fx_preset_path(*preset), "FXPRESET", param.as_str(), value),
            Command::SetShowParam { show, param, value } => indexed_frame(layout.show_path(*show), "SHOW", param.as_str(), value),
            Command::SetRecordingParam { recording, param, value } => indexed_frame(layout.recording_path(*recording), "RECORDING", param.as_str(), value),
            Command::SetStorageVolumeParam { volume, param, value } => indexed_frame(layout.storage_volume_path(*volume), "STORAGEVOLUME", param.as_str(), value),
            Command::SetRadioTxParam { tx, param, value } => indexed_frame(layout.radio_tx_path(*tx), "RADIOTX", param.as_str(), value),
            Command::SetRadioRxParam { rx, param, value } => indexed_frame(layout.radio_rx_path(*rx), "RADIORX", param.as_str(), value),
            Command::SetWifiScanResultParam { slot, param, value } => indexed_frame(layout.wifi_scan_result_path(*slot), "WIFISCANRESULT", param.as_str(), value),
            Command::SetStreamerXMixPresetParam { preset, param, value } => indexed_frame(layout.streamerx_mix_preset_path(*preset), "STREAMERXMIXPRESET", param.as_str(), value),
            Command::SetStreamerXStreamMixParam { stream, param, value } => indexed_frame(layout.streamerx_stream_mix_path(*stream), "STREAMERXSTREAMMIX", param.as_str(), value),
            Command::SetRcSyncMixParam { mix, param, value } => indexed_frame(layout.rcsync_mix_path(*mix), "RCSYNCMIX", param.as_str(), value),
            Command::SetMixMinusesParam { minuses, param, value } => indexed_frame(layout.mix_minuses_path(*minuses), "MIXMINUSES", param.as_str(), value),
            Command::SetHeadphoneParam { headphone, param, value } => ranged_frame(layout.headphone_path(*headphone), "headphone", *headphone, layout.headphone_count(), param.as_str(), value),
            Command::SetEffectsParam { effects, param, value } => ranged_frame(layout.effects_path(*effects), "effects", *effects, layout.effects_count(), param.as_str(), value),
            Command::SetPadParam { pad, param, value } => ranged_frame(layout.pad_path(*pad), "pad", *pad, layout.pad_count(), param.as_str(), value),
            Command::SetupSkip { language, timezone } => Ok(setup_skip(layout, language, timezone)),
        }
    }
}

/// Whether one of `frames` decodes to setting `name` to `value` on `path`.
pub open spec fn writes_property(frames: Seq<Seq<u8>>, path: Seq<u32>, name: Seq<char>, value: VarModel) -> bool {
    exists|k: int| 0 <= k < frames.len() && #[trigger] spec_decode(frames[k]) == Some(FrameModel::PropertyChanged { path, name, value })
}

/// Skipping setup re-enables the console: on a layout with a `SYSTEM` node,
/// whatever language and time zone are given, it succeeds and writes
/// `disableAllPhysicalButtons`, `disableAllLineoutOutputs` and
/// `disableAllHeadphoneOutputs` as `false` on the `SYSTEM` path.
#[verifier::spinoff_prover]
pub proof fn lemma_setup_skip_reenables_controls(
    l: LayoutView,
    language: Option<String>,
    timezone: Option<String>,
    system: u32,
)
    requires
        l.system.idx == Some(system),
    ensures
        spec_encode(Command::SetupSkip { language, timezone }, l) matches Ok(frames) && {
            &&& writes_property(frames, seq![system], "disableAllPhysicalButtons"@, VarModel::Bool(false))
            &&& writes_property(frames, seq![system], "disableAllLineoutOutputs"@, VarModel::Bool(false))
            &&& writes_property(frames, seq![system], "disableAllHeadphoneOutputs"@, VarModel::Bool(false))
        },
{
    assert(spec_encode(Command::SetupSkip { language, timezone }, l) == Ok::<Seq<Seq<u8>>, EncodeFailure>(
        spec_setup_skip(l, opt_text(language), opt_text(timezone)),
    ));
    lemma_setup_skip_tail(l, opt_text(language), opt_text(timezone), system);
    lemma_control_names_no_nul();
    let frames = spec_setup_skip(l, opt_text(language), opt_text(timezone));
    let k = frames.len() - 4;
    let p = seq![system];
    lemma_property_changed_round_trip(p, "disableAllPhysicalButtons"@, VarModel::Bool(false));
    lemma_property_changed_round_trip(p, "disableAllLineoutOutputs"@, VarModel::Bool(false));
    lemma_property_changed_round_trip(p, "disableAllHeadphoneOutputs"@, VarModel::Bool(false));
    assert(spec_decode(frames[k]) == Some(FrameModel::PropertyChanged { path: p, name: "disableAllPhysicalButtons"@, value: VarModel::Bool(false) }));
    assert(spec_decode(frames[k + 1]) == Some(FrameModel::PropertyChanged { path: p, name: "disableAllLineoutOutputs"@, value: VarModel::Bool(false) }));
    assert(spec_decode(frames[k + 2]) == Some(FrameModel::PropertyChanged { path: p, name: "disableAllHeadphoneOutputs"@, value: VarModel::Bool(false) }));
}

proof fn lemma_control_names_no_nul()
    ensures
        no_nul("disableAllPhysicalButtons"@),
        no_nul("disableAllLineoutOutputs"@),
        no_nul("disableAllHeadphoneOutputs"@),
{
    reveal_strlit("disableAllPhysicalButtons");
    reveal_strlit("disableAllLineoutOutputs");
    reveal_strlit("disableAllHeadphoneOutputs");
}

/// With a `SYSTEM` node, the last four frames of the setup-skip sequence
/// are the controls and outputs re-enabled and the channel selection cleared.
#[verifier::spinoff_prover]
proof fn lemma_setup_skip_tail(
    l: LayoutView,
    language: Option<Seq<char>>,
    timezone: Option<Seq<char>>,
    system: u32,
)
    requires
        l.system.idx == Some(system),
    ensures
        ({
            let frames = spec_setup_skip(l, language, timezone);
            let k = frames.len() - 4;
            &&& frames.len() >= 4
            &&& frames[k] == spec_encode_property_changed(seq![system], "disableAllPhysicalButtons"@, VarModel::Bool(false))
            &&& frames[k + 1] == spec_encode_property_changed(seq![system], "disableAllLineoutOutputs"@, VarModel::Bool(false))
            &&& frames[k + 2] == spec_encode_property_changed(seq![system], "disableAllHeadphoneOutputs"@, VarModel::Bool(false))
        }),
{
    let frames = spec_setup_skip(l, language, timezone);
    let lang = match (language, l.gui.spec_path()) {
        (Some(s), Some(q)) => spec_one(q, "lang"@, VarModel::Str(s)),
        _ => Seq::empty(),
    };
    let tz = match (timezone, l.system.spec_path()) {
        (Some(s), Some(q)) => seq![
            spec_encode_property_changed(q, "systemDateTimezone"@, VarModel::Str(s)),
            spec_encode_property_changed(q, "systemDateTime24h"@, VarModel::Bool(true)),
            spec_encode_property_changed(q, "systemDateTimeOnHome"@, VarModel::Bool(true)),
        ],
        _ => Seq::empty(),
    };
    let show = match l.show_control.spec_path() {
        Some(q) => spec_one(q, "showControlNewFromDefaultMuted"@, VarModel::Bool(true)),
        None => Seq::empty(),
    };
    let pre = lang + tz + show;
    let p = seq![system];
    let sys = seq![
        spec_encode_property_changed(p, "disableAllPhysicalButtons"@, VarModel::Bool(false)),
        spec_encode_property_changed(p, "disableAllLineoutOutputs"@, VarModel::Bool(false)),
        spec_encode_property_changed(p, "disableAllHeadphoneOutputs"@, VarModel::Bool(false)),
        spec_encode_property_changed(p, "systemChannelSelected"@, VarModel::Int(-1i64)),
    ];
    assert(frames == pre + sys);
}

} // verus!
