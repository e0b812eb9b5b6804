//! Named Rodecaster entities: the typed vocabulary the public API speaks.
//!
//! ## Why names, not indices
//!
//! On the wire every entity is purely positional: a source is "the Nth
//! `INPUTSOURCE` node", a mix cell is "source-major cell N", a fader is "the
//! Nth `FADER` node". Those ordinals are an implementation detail of the JUCE
//! tree, not a stable contract: they shift with firmware and differ across
//! device models. This module pins each ordinal to a *named* entity
//! ([`Source`], [`MixOutput`], [`Fader`]) so consumers address "Combo 1" or
//! "Virtual 2", never a bare `7`.
//!
//! The name <-> ordinal mapping is irreducible reverse-engineering knowledge:
//! the nodes carry no labels, so it cannot be recovered from a fullSync. It
//! lives here as data.
//!
//! ## Per-model split
//!
//! [`Source`] (19) and [`MixOutput`] (13) are model-independent: the RODECaster
//! Pro family shares one source/output vocabulary (one shared device picker).
//! Only [`Fader`] differs: the Pro II exposes 6 physical + 3 virtual strips,
//! the Duo 4 physical + 5 virtual. So the fader name <-> index map is
//! parameterized by [`DeviceModel`], which [`crate::layout::Layout`] detects
//! from the fullSync's `SYSTEM` node.
//!
//! Each node-scoped property family lives in its own file (`channel`,
//! `input_source`, `master`, ...); every type is re-exported here so the
//! public path stays `crate::names::X`.

use std::str::FromStr;
use vstd::prelude::*;

use crate::text::{contains, spec_to_lowercase, spec_unknown_name, str_eq, str_contains, to_lowercase, unknown_name_error};

mod app;
mod audio;
mod build_info;
mod channel;
mod ducker;
mod effects;
mod fx_preset;
mod gui;
mod headphone;
mod input_source;
mod master;
mod meter;
mod mix_minuses;
mod network;
mod output;
mod pad;
mod pad_recorder;
mod player;
mod radio;
mod rcsync;
mod recorder;
mod recording;
mod show;
mod sip;
mod storage;
mod streamerx;
mod system;
mod test;
mod theme;
mod wifi_scan_result;

pub use app::AppParam;
pub use audio::AudioParam;
pub use build_info::BuildParam;
pub use channel::ChannelParam;
pub use ducker::DuckerParam;
pub use effects::EffectsParam;
pub use fx_preset::FxPresetParam;
pub use gui::GuiParam;
pub use headphone::HeadphoneParam;
pub use input_source::InputSourceParam;
pub use master::MasterParam;
pub use meter::MeterParam;
pub use mix_minuses::MixMinusesParam;
pub use network::NetworkParam;
pub use output::OutputParam;
pub use pad::PadParam;
pub use pad_recorder::PadRecorderParam;
pub use player::PlayerParam;
pub use radio::{RadioParam, RadioRxParam, RadioTxParam};
pub use rcsync::RcSyncMixParam;
pub use recorder::RecorderParam;
pub use recording::{RecordingParam, RecordingsParam};
pub use show::{CurrentShowParam, ShowControlParam, ShowParam};
pub use sip::{SipAdvancedParam, SipCallSlotsParam, SipCallingParam, SipRegistrationParam};
pub use storage::StorageVolumeParam;
pub use streamerx::{StreamerXMixPresetParam, StreamerXStreamMixParam};
pub use system::SystemParam;
pub use test::TestParam;
pub use theme::ThemeParam;
pub use wifi_scan_result::WifiScanResultParam;

pub use app::lemma_app_param_name_round_trip;
pub use audio::lemma_audio_param_name_round_trip;
pub use build_info::lemma_build_param_name_round_trip;
pub use channel::lemma_channel_param_name_round_trip;
pub use ducker::lemma_ducker_param_name_round_trip;
pub use effects::lemma_effects_param_name_round_trip;
pub use fx_preset::lemma_fx_preset_param_name_round_trip;
pub use gui::lemma_gui_param_name_round_trip;
pub use headphone::lemma_headphone_param_name_round_trip;
pub use input_source::lemma_input_source_param_name_round_trip;
pub use master::lemma_master_param_name_round_trip;
pub use meter::lemma_meter_param_name_round_trip;
pub use mix_minuses::lemma_mix_minuses_param_name_round_trip;
pub use network::lemma_network_param_name_round_trip;
pub use output::lemma_output_param_name_round_trip;
pub use pad::lemma_pad_param_name_round_trip;
pub use pad_recorder::lemma_pad_recorder_param_name_round_trip;
pub use player::lemma_player_param_name_round_trip;
pub use radio::lemma_radio_param_name_round_trip;
pub use radio::lemma_radio_tx_param_name_round_trip;
pub use radio::lemma_radio_rx_param_name_round_trip;
pub use rcsync::lemma_rc_sync_mix_param_name_round_trip;
pub use recorder::lemma_recorder_param_name_round_trip;
pub use recording::lemma_recordings_param_name_round_trip;
pub use recording::lemma_recording_param_name_round_trip;
pub use show::lemma_show_param_name_round_trip;
pub use show::lemma_current_show_param_name_round_trip;
pub use show::lemma_show_control_param_name_round_trip;
pub use sip::lemma_sip_calling_param_name_round_trip;
pub use sip::lemma_sip_registration_param_name_round_trip;
pub use sip::lemma_sip_call_slots_param_name_round_trip;
pub use sip::lemma_sip_advanced_param_name_round_trip;
pub use storage::lemma_storage_volume_param_name_round_trip;
pub use streamerx::lemma_streamer_x_mix_preset_param_name_round_trip;
pub use streamerx::lemma_streamer_x_stream_mix_param_name_round_trip;
pub use system::lemma_system_param_name_round_trip;
pub use test::lemma_test_param_name_round_trip;
pub use theme::lemma_theme_param_name_round_trip;
pub use wifi_scan_result::lemma_wifi_scan_result_param_name_round_trip;

verus! {

/// A parameter as events report it: its wire name, and whether it is one of
/// the family's typed variants (`false` for a name held by `Other`).
pub struct ParamModel {
    pub name: Seq<char>,
    pub typed: bool,
}

/// Which RODECaster a fullSync came from. Detected from the `SYSTEM` node;
/// selects the per-model [`Fader`] layout.
#[derive(Debug, Clone, Copy, PartialEq, Eq, Hash, Structural)]
pub enum DeviceModel {
    /// RODECaster Pro II: 6 physical + 3 virtual faders.
    Pro2,
    /// RODECaster Duo: 4 physical + 5 virtual faders.
    Duo,
}

/// The model a `SYSTEM.boardType` integer names.
pub open spec fn spec_board_type(board_type: i64) -> Option<DeviceModel> {
    if board_type == 0 {
        Some(DeviceModel::Pro2)
    } else if board_type == 1 {
        Some(DeviceModel::Duo)
    } else {
        None
    }
}

/// The model a `SYSTEM.systemName` string names: a Duo exactly when its
/// lowercase form contains "duo".
pub open spec fn spec_system_name(name: Seq<char>) -> DeviceModel {
    if contains(spec_to_lowercase(name), "duo"@) {
        DeviceModel::Duo
    } else {
        DeviceModel::Pro2
    }
}

/// The model detection rule: a recognized `boardType` wins, then the
/// `systemName`, then the Pro II.
pub open spec fn spec_detect(board_type: Option<i64>, system_name: Option<Seq<char>>) -> DeviceModel {
    match board_type {
        Some(b) if spec_board_type(b) is Some => spec_board_type(b).unwrap(),
        _ => match system_name {
            Some(n) => spec_system_name(n),
            None => DeviceModel::Pro2,
        },
    }
}

impl DeviceModel {
    /// Map the `SYSTEM.boardType` integer (`0` = Pro II, `1` = Duo). Returns
    /// `None` for an unrecognized board so [`DeviceModel::detect`] can fall back
    /// to the name.
    pub fn from_board_type(board_type: i64) -> (r: Option<Self>)
        ensures
            r == spec_board_type(board_type),
    {
        match board_type {
            0 => Some(Self::Pro2),
            1 => Some(Self::Duo),
            _ => None,
        }
    }

    /// Map the `SYSTEM.systemName` string: contains "duo" (case-insensitive) =>
    /// Duo, else Pro II. Firmware 1.6.8 omits this property; newer firmware
    /// includes it, which is why [`DeviceModel::detect`] prefers `boardType`.
    pub fn from_system_name(system_name: &str) -> (r: Self)
        ensures
            r == spec_system_name(system_name@),
    {
        let lower = to_lowercase(system_name);
        Self::from_lowercase_name(lower.as_str())
    }

    /// The model a lowercase system name names: a Duo exactly when it
    /// contains "duo", else a Pro II.
    pub fn from_lowercase_name(lower: &str) -> (r: Self)
        ensures
            r == (if contains(lower@, "duo"@) {
                DeviceModel::Duo
            } else {
                DeviceModel::Pro2
            }),
    {
        if str_contains(lower, "duo") {
            Self::Duo
        } else {
            Self::Pro2
        }
    }

    /// Detect the model from the `SYSTEM` node's `boardType` and `systemName`.
    /// `boardType` is authoritative (present and correct on every firmware
    /// observed); `systemName` is the fallback; with neither, default to Pro II.
    pub fn detect(board_type: Option<i64>, system_name: Option<&str>) -> (r: Self)
        ensures
            r == spec_detect(
                board_type,
                match system_name {
                    Some(n) => Some(n@),
                    None => None,
                },
            ),
    {
        if let Some(b) = board_type {
            if let Some(model) = Self::from_board_type(b) {
                return model;
            }
        }
        if let Some(name) = system_name {
            return Self::from_system_name(name);
        }
        Self::Pro2
    }

    /// The model's marketing name.
    pub open spec fn spec_title(self) -> Seq<char> {
        match self {
            Self::Pro2 => "RODECaster Pro II"@,
            Self::Duo => "RODECaster Duo"@,
        }
    }

    /// The model's marketing name, as shown to users.
    pub fn to_string(self) -> (r: String)
        ensures
            r@ == self.spec_title(),
    {
        match self {
            Self::Pro2 => "RODECaster Pro II".to_owned(),
            Self::Duo => "RODECaster Duo".to_owned(),
        }
    }
}

/// A mix output bus: where audio is routed *to*. Model-independent (13 buses).
/// The protocol mix index equals enum order (`Headphone1` = 0 .. `CallMe3` =
/// 12); it is the second dimension of the source-major mix matrix.
#[derive(Debug, Clone, Copy, PartialEq, Eq, Hash, Structural)]
pub enum MixOutput {
    Headphone1,
    Headphone2,
    Headphone3,
    Headphone4,
    Speaker,
    Recording,
    Bluetooth,
    Usb1,
    Chat,
    Usb2,
    CallMe1,
    CallMe2,
    CallMe3,
}

/// An audio source: where audio comes *from*. Model-independent (19 sources,
/// one shared device picker across the Pro family). The protocol source index
/// equals enum order (`Combo1` = 0 .. `CallMe3` = 18); it is the first
/// dimension (source-major) of the mix matrix.
///
/// `CallMe1..=CallMe3` (16..=18) are return channels addressed outside the
/// regular matrix on some firmware; see [`Source::is_callme`].
#[derive(Debug, Clone, Copy, PartialEq, Eq, Hash, Structural)]
pub enum Source {
    Combo1,
    Combo2,
    Combo3,
    Combo4,
    Combo1_2,
    Combo2_3,
    Combo3_4,
    Usb1,
    Chat,
    Usb2,
    Bluetooth,
    SoundPad,
    VirtualGame,
    VirtualMusic,
    VirtualA,
    VirtualB,
    CallMe1,
    CallMe2,
    CallMe3,
}

impl Source {
    /// CallMe return channels are routed through a dedicated request path
    /// outside the regular mix matrix on firmware where they sit past
    /// `Layout::source_count`. Encoders use this to pick the wire form.
    pub fn is_callme(self) -> (r: bool)
        ensures
            r == (self is CallMe1 || self is CallMe2 || self is CallMe3),
    {
        match self {
            Self::CallMe1 | Self::CallMe2 | Self::CallMe3 => true,
            _ => false,
        }
    }
}

/// A fader strip: a physical or virtual channel the user mixes. The strip <->
/// wire-index map is **model-dependent**, so [`Fader::to_index`] and
/// [`Fader::from_index`] both take a [`DeviceModel`]:
///
/// - Pro II: `Physical1..=Physical6` => 0..=5, `Virtual1..=Virtual3` => 6..=8.
/// - Duo: `Physical1..=Physical4` => 0..=3, `Virtual1..=Virtual5` => 4..=8.
///
/// A variant absent on a model (e.g. `Physical6` on the Duo) has no index
/// there; the conversions return `None`.
#[derive(Debug, Clone, Copy, PartialEq, Eq, Hash, Structural)]
pub enum Fader {
    Physical1,
    Physical2,
    Physical3,
    Physical4,
    Physical5,
    Physical6,
    Virtual1,
    Virtual2,
    Virtual3,
    Virtual4,
    Virtual5,
}

impl Fader {
    /// Position among the physical strips (0-based), if physical.
    pub open spec fn physical_ordinal(self) -> Option<nat> {
        match self {
            Self::Physical1 => Some(0),
            Self::Physical2 => Some(1),
            Self::Physical3 => Some(2),
            Self::Physical4 => Some(3),
            Self::Physical5 => Some(4),
            Self::Physical6 => Some(5),
            _ => None,
        }
    }

    /// Position among the virtual strips (0-based), if virtual.
    pub open spec fn virtual_ordinal(self) -> Option<nat> {
        match self {
            Self::Virtual1 => Some(0),
            Self::Virtual2 => Some(1),
            Self::Virtual3 => Some(2),
            Self::Virtual4 => Some(3),
            Self::Virtual5 => Some(4),
            _ => None,
        }
    }

    /// How many physical strips `model` has; the virtual ones follow them.
    pub open spec fn physical_count(model: DeviceModel) -> nat {
        match model {
            DeviceModel::Pro2 => 6,
            DeviceModel::Duo => 4,
        }
    }

    /// The wire index of a strip on `model`: physical strips first, then the
    /// virtual ones, nine in all.
    pub open spec fn spec_index(self, model: DeviceModel) -> Option<u8> {
        match self.physical_ordinal() {
            Some(p) => if p < Self::physical_count(model) {
                Some(p as u8)
            } else {
                None
            },
            None => {
                let v = self.virtual_ordinal().unwrap();
                if Self::physical_count(model) + v < 9 {
                    Some((Self::physical_count(model) + v) as u8)
                } else {
                    None
                }
            },
        }
    }

    /// The wire fader/channel index for this strip on `model`, or `None` if the
    /// strip does not exist on that model.
    pub fn to_index(self, model: DeviceModel) -> (r: Option<u8>)
        ensures
            r == self.spec_index(model),
    {
        match model {
            DeviceModel::Pro2 => match self {
                Self::Physical1 => Some(0),
                Self::Physical2 => Some(1),
                Self::Physical3 => Some(2),
                Self::Physical4 => Some(3),
                Self::Physical5 => Some(4),
                Self::Physical6 => Some(5),
                Self::Virtual1 => Some(6),
                Self::Virtual2 => Some(7),
                Self::Virtual3 => Some(8),
                Self::Virtual4 | Self::Virtual5 => None,
            },
            DeviceModel::Duo => match self {
                Self::Physical1 => Some(0),
                Self::Physical2 => Some(1),
                Self::Physical3 => Some(2),
                Self::Physical4 => Some(3),
                Self::Physical5 | Self::Physical6 => None,
                Self::Virtual1 => Some(4),
                Self::Virtual2 => Some(5),
                Self::Virtual3 => Some(6),
                Self::Virtual4 => Some(7),
                Self::Virtual5 => Some(8),
            },
        }
    }

    /// The strip at wire index `idx` on `model`, if any.
    pub open spec fn strip_at(model: DeviceModel, idx: u8) -> Option<Self> {
        match model {
            DeviceModel::Pro2 => if idx == 0 {
                Some(Self::Physical1)
            } else if idx == 1 {
                Some(Self::Physical2)
            } else if idx == 2 {
                Some(Self::Physical3)
            } else if idx == 3 {
                Some(Self::Physical4)
            } else if idx == 4 {
                Some(Self::Physical5)
            } else if idx == 5 {
                Some(Self::Physical6)
            } else if idx == 6 {
                Some(Self::Virtual1)
            } else if idx == 7 {
                Some(Self::Virtual2)
            } else if idx == 8 {
                Some(Self::Virtual3)
            } else {
                None
            },
            DeviceModel::Duo => if idx == 0 {
                Some(Self::Physical1)
            } else if idx == 1 {
                Some(Self::Physical2)
            } else if idx == 2 {
                Some(Self::Physical3)
            } else if idx == 3 {
                Some(Self::Physical4)
            } else if idx == 4 {
                Some(Self::Virtual1)
            } else if idx == 5 {
                Some(Self::Virtual2)
            } else if idx == 6 {
                Some(Self::Virtual3)
            } else if idx == 7 {
                Some(Self::Virtual4)
            } else if idx == 8 {
                Some(Self::Virtual5)
            } else {
                None
            },
        }
    }

    /// Inverse of [`Fader::to_index`]: the strip at wire index `idx` on `model`,
    /// or `None` if no strip maps there (e.g. index 9, the master channel).
    pub fn from_index(model: DeviceModel, idx: u8) -> (r: Option<Self>)
        ensures
            r == Self::strip_at(model, idx),
    {
        match model {
            DeviceModel::Pro2 => match idx {
                0 => Some(Self::Physical1),
                1 => Some(Self::Physical2),
                2 => Some(Self::Physical3),
                3 => Some(Self::Physical4),
                4 => Some(Self::Physical5),
                5 => Some(Self::Physical6),
                6 => Some(Self::Virtual1),
                7 => Some(Self::Virtual2),
                8 => Some(Self::Virtual3),
                _ => None,
            },
            DeviceModel::Duo => match idx {
                0 => Some(Self::Physical1),
                1 => Some(Self::Physical2),
                2 => Some(Self::Physical3),
                3 => Some(Self::Physical4),
                4 => Some(Self::Virtual1),
                5 => Some(Self::Virtual2),
                6 => Some(Self::Virtual3),
                7 => Some(Self::Virtual4),
                8 => Some(Self::Virtual5),
                _ => None,
            },
        }
    }

    /// `true` if this strip is a hardware fader on `model` (driven by the motor
    /// fader over MIDI/UART), as opposed to a virtual strip set in software.
    pub fn is_physical(self, model: DeviceModel) -> (r: bool)
        ensures
            r == (self.physical_ordinal() matches Some(p) && p < Self::physical_count(model)),
    {
        match model {
            DeviceModel::Pro2 => match self {
                Self::Physical1 | Self::Physical2 | Self::Physical3 | Self::Physical4
                | Self::Physical5 | Self::Physical6 => true,
                _ => false,
            },
            DeviceModel::Duo => match self {
                Self::Physical1 | Self::Physical2 | Self::Physical3 | Self::Physical4 => true,
                _ => false,
            },
        }
    }
}

/// On each model [`Fader::from_index`] and [`Fader::to_index`] are inverse:
/// a strip sits at an index exactly when that index holds the strip, and the
/// indices in use are exactly `0..9`.
pub proof fn lemma_fader_index_round_trip(model: DeviceModel, f: Fader, idx: u8)
    ensures
        Fader::strip_at(model, idx) == Some(f) <==> f.spec_index(model) == Some(idx),
        Fader::strip_at(model, idx) is Some <==> idx < 9,
{
}

impl MixOutput {
    /// The protocol index: the position in declaration order.
    pub open spec fn index(self) -> u8 {
        match self {
            Self::Headphone1 => 0,
            Self::Headphone2 => 1,
            Self::Headphone3 => 2,
            Self::Headphone4 => 3,
            Self::Speaker => 4,
            Self::Recording => 5,
            Self::Bluetooth => 6,
            Self::Usb1 => 7,
            Self::Chat => 8,
            Self::Usb2 => 9,
            Self::CallMe1 => 10,
            Self::CallMe2 => 11,
            Self::CallMe3 => 12,
        }
    }

    /// The mix output at a protocol index, if any.
    pub open spec fn at_index(idx: u8) -> Option<Self> {
        if idx == 0 {
            Some(Self::Headphone1)
        } else if idx == 1 {
            Some(Self::Headphone2)
        } else if idx == 2 {
            Some(Self::Headphone3)
        } else if idx == 3 {
            Some(Self::Headphone4)
        } else if idx == 4 {
            Some(Self::Speaker)
        } else if idx == 5 {
            Some(Self::Recording)
        } else if idx == 6 {
            Some(Self::Bluetooth)
        } else if idx == 7 {
            Some(Self::Usb1)
        } else if idx == 8 {
            Some(Self::Chat)
        } else if idx == 9 {
            Some(Self::Usb2)
        } else if idx == 10 {
            Some(Self::CallMe1)
        } else if idx == 11 {
            Some(Self::CallMe2)
        } else if idx == 12 {
            Some(Self::CallMe3)
        } else {
            None
        }
    }

    /// The protocol mix index (0..=12).
    pub fn to_protocol(self) -> (r: u8)
        ensures
            r == self.index(),
    {
        match self {
            Self::Headphone1 => 0,
            Self::Headphone2 => 1,
            Self::Headphone3 => 2,
            Self::Headphone4 => 3,
            Self::Speaker => 4,
            Self::Recording => 5,
            Self::Bluetooth => 6,
            Self::Usb1 => 7,
            Self::Chat => 8,
            Self::Usb2 => 9,
            Self::CallMe1 => 10,
            Self::CallMe2 => 11,
            Self::CallMe3 => 12,
        }
    }

    /// Inverse of [`MixOutput::to_protocol`]; `None` for an out-of-range index.
    pub fn from_protocol(idx: u8) -> (r: Option<Self>)
        ensures
            r == Self::at_index(idx),
    {
        match idx {
            0 => Some(Self::Headphone1),
            1 => Some(Self::Headphone2),
            2 => Some(Self::Headphone3),
            3 => Some(Self::Headphone4),
            4 => Some(Self::Speaker),
            5 => Some(Self::Recording),
            6 => Some(Self::Bluetooth),
            7 => Some(Self::Usb1),
            8 => Some(Self::Chat),
            9 => Some(Self::Usb2),
            10 => Some(Self::CallMe1),
            11 => Some(Self::CallMe2),
            12 => Some(Self::CallMe3),
            _ => None,
        }
    }

    /// The human-readable label.
    pub open spec fn spec_label(self) -> Seq<char> {
        match self {
            Self::Headphone1 => "Headphone 1"@,
            Self::Headphone2 => "Headphone 2"@,
            Self::Headphone3 => "Headphone 3"@,
            Self::Headphone4 => "Headphone 4"@,
            Self::Speaker => "Speaker"@,
            Self::Recording => "Recording"@,
            Self::Bluetooth => "Bluetooth"@,
            Self::Usb1 => "USB 1"@,
            Self::Chat => "Chat"@,
            Self::Usb2 => "USB 2"@,
            Self::CallMe1 => "CallMe 1"@,
            Self::CallMe2 => "CallMe 2"@,
            Self::CallMe3 => "CallMe 3"@,
        }
    }

    /// Human-readable label for UIs and logs.
    pub fn label(self) -> (r: &'static str)
        ensures
            r@ == self.spec_label(),
    {
        match self {
            Self::Headphone1 => "Headphone 1",
            Self::Headphone2 => "Headphone 2",
            Self::Headphone3 => "Headphone 3",
            Self::Headphone4 => "Headphone 4",
            Self::Speaker => "Speaker",
            Self::Recording => "Recording",
            Self::Bluetooth => "Bluetooth",
            Self::Usb1 => "USB 1",
            Self::Chat => "Chat",
            Self::Usb2 => "USB 2",
            Self::CallMe1 => "CallMe 1",
            Self::CallMe2 => "CallMe 2",
            Self::CallMe3 => "CallMe 3",
        }
    }

    /// The canonical lowercase name.
    pub open spec fn spec_name(self) -> Seq<char> {
        match self {
            Self::Headphone1 => "headphone1"@,
            Self::Headphone2 => "headphone2"@,
            Self::Headphone3 => "headphone3"@,
            Self::Headphone4 => "headphone4"@,
            Self::Speaker => "speaker"@,
            Self::Recording => "recording"@,
            Self::Bluetooth => "bluetooth"@,
            Self::Usb1 => "usb1"@,
            Self::Chat => "chat"@,
            Self::Usb2 => "usb2"@,
            Self::CallMe1 => "callme1"@,
            Self::CallMe2 => "callme2"@,
            Self::CallMe3 => "callme3"@,
        }
    }

    /// The canonical lowercase name (the form [`FromStr`] reads back).
    pub fn name(self) -> (r: &'static str)
        ensures
            r@ == self.spec_name(),
    {
        match self {
            Self::Headphone1 => "headphone1",
            Self::Headphone2 => "headphone2",
            Self::Headphone3 => "headphone3",
            Self::Headphone4 => "headphone4",
            Self::Speaker => "speaker",
            Self::Recording => "recording",
            Self::Bluetooth => "bluetooth",
            Self::Usb1 => "usb1",
            Self::Chat => "chat",
            Self::Usb2 => "usb2",
            Self::CallMe1 => "callme1",
            Self::CallMe2 => "callme2",
            Self::CallMe3 => "callme3",
        }
    }

    /// The canonical lowercase name as an owned string.
    pub fn to_string(self) -> (r: String)
        ensures
            r@ == self.spec_name(),
    {
        self.name().to_owned()
    }

    /// The variant a lowercase name or alias denotes, if any.
    pub open spec fn alias(name: Seq<char>) -> Option<Self> {
        if name == "headphone1"@ {
            Some(Self::Headphone1)
        } else if name == "hp1"@ {
            Some(Self::Headphone1)
        } else if name == "headphone2"@ {
            Some(Self::Headphone2)
        } else if name == "hp2"@ {
            Some(Self::Headphone2)
        } else if name == "headphone3"@ {
            Some(Self::Headphone3)
        } else if name == "hp3"@ {
            Some(Self::Headphone3)
        } else if name == "headphone4"@ {
            Some(Self::Headphone4)
        } else if name == "hp4"@ {
            Some(Self::Headphone4)
        } else if name == "speaker"@ {
            Some(Self::Speaker)
        } else if name == "spk"@ {
            Some(Self::Speaker)
        } else if name == "monitor"@ {
            Some(Self::Speaker)
        } else if name == "recording"@ {
            Some(Self::Recording)
        } else if name == "rec"@ {
            Some(Self::Recording)
        } else if name == "bluetooth"@ {
            Some(Self::Bluetooth)
        } else if name == "bt"@ {
            Some(Self::Bluetooth)
        } else if name == "usb1"@ {
            Some(Self::Usb1)
        } else if name == "chat"@ {
            Some(Self::Chat)
        } else if name == "usb2"@ {
            Some(Self::Usb2)
        } else if name == "callme1"@ {
            Some(Self::CallMe1)
        } else if name == "cm1"@ {
            Some(Self::CallMe1)
        } else if name == "callme2"@ {
            Some(Self::CallMe2)
        } else if name == "cm2"@ {
            Some(Self::CallMe2)
        } else if name == "callme3"@ {
            Some(Self::CallMe3)
        } else if name == "cm3"@ {
            Some(Self::CallMe3)
        } else {
            None
        }
    }

    /// Look up a lowercase name or alias.
    pub fn from_alias(name: &str) -> (r: Option<Self>)
        ensures
            r == Self::alias(name@),
    {
        if str_eq(name, "headphone1") {
            return Some(Self::Headphone1);
        }
        if str_eq(name, "hp1") {
            return Some(Self::Headphone1);
        }
        if str_eq(name, "headphone2") {
            return Some(Self::Headphone2);
        }
        if str_eq(name, "hp2") {
            return Some(Self::Headphone2);
        }
        if str_eq(name, "headphone3") {
            return Some(Self::Headphone3);
        }
        if str_eq(name, "hp3") {
            return Some(Self::Headphone3);
        }
        if str_eq(name, "headphone4") {
            return Some(Self::Headphone4);
        }
        if str_eq(name, "hp4") {
            return Some(Self::Headphone4);
        }
        if str_eq(name, "speaker") {
            return Some(Self::Speaker);
        }
        if str_eq(name, "spk") {
            return Some(Self::Speaker);
        }
        if str_eq(name, "monitor") {
            return Some(Self::Speaker);
        }
        if str_eq(name, "recording") {
            return Some(Self::Recording);
        }
        if str_eq(name, "rec") {
            return Some(Self::Recording);
        }
        if str_eq(name, "bluetooth") {
            return Some(Self::Bluetooth);
        }
        if str_eq(name, "bt") {
            return Some(Self::Bluetooth);
        }
        if str_eq(name, "usb1") {
            return Some(Self::Usb1);
        }
        if str_eq(name, "chat") {
            return Some(Self::Chat);
        }
        if str_eq(name, "usb2") {
            return Some(Self::Usb2);
        }
        if str_eq(name, "callme1") {
            return Some(Self::CallMe1);
        }
        if str_eq(name, "cm1") {
            return Some(Self::CallMe1);
        }
        if str_eq(name, "callme2") {
            return Some(Self::CallMe2);
        }
        if str_eq(name, "cm2") {
            return Some(Self::CallMe2);
        }
        if str_eq(name, "callme3") {
            return Some(Self::CallMe3);
        }
        if str_eq(name, "cm3") {
            return Some(Self::CallMe3);
        }
        None
    }
}

impl FromStr for MixOutput {
    type Err = String;

    fn from_str(s: &str) -> (r: Result<Self, Self::Err>)
        ensures
            match Self::alias(spec_to_lowercase(s@)) {
                Some(v) => r == Ok::<Self, String>(v),
                None => r matches Err(e) && e@ == spec_unknown_name("mix output"@, s@, "hp1, speaker, bt, cm1"@),
            },
    {
        let lower = to_lowercase(s);
        match Self::from_alias(lower.as_str()) {
            Some(v) => Ok(v),
            None => Err(unknown_name_error("mix output", s, "hp1, speaker, bt, cm1")),
        }
    }
}

/// The protocol index of every mix output leads back to it, and the indices
/// are exactly `0..13`.
pub proof fn lemma_mix_output_protocol_round_trip(v: MixOutput, idx: u8)
    ensures
        MixOutput::at_index(v.index()) == Some(v),
        MixOutput::at_index(idx) matches Some(w) ==> w.index() == idx,
        MixOutput::at_index(idx) is Some <==> idx < 13,
{
}

/// The canonical name of every mix output parses back to it.
pub proof fn lemma_mix_output_name_round_trip(v: MixOutput)
    ensures
        MixOutput::alias(v.spec_name()) == Some(v),
{
    reveal_strlit("headphone1");
    reveal_strlit("hp1");
    reveal_strlit("headphone2");
    reveal_strlit("hp2");
    reveal_strlit("headphone3");
    reveal_strlit("hp3");
    reveal_strlit("headphone4");
    reveal_strlit("hp4");
    reveal_strlit("speaker");
    reveal_strlit("spk");
    reveal_strlit("monitor");
    reveal_strlit("recording");
    reveal_strlit("rec");
    reveal_strlit("bluetooth");
    reveal_strlit("bt");
    reveal_strlit("usb1");
    reveal_strlit("chat");
    reveal_strlit("usb2");
    reveal_strlit("callme1");
    reveal_strlit("cm1");
    reveal_strlit("callme2");
    reveal_strlit("cm2");
    reveal_strlit("callme3");
    reveal_strlit("cm3");
    assert("headphone1"@.len() == 10);
    assert("hp1"@.len() == 3);
    assert("headphone2"@.len() == 10);
    assert("hp2"@.len() == 3);
    assert("headphone3"@.len() == 10);
    assert("hp3"@.len() == 3);
    assert("headphone4"@.len() == 10);
    assert("hp4"@.len() == 3);
    assert("speaker"@.len() == 7);
    assert("spk"@.len() == 3);
    assert("monitor"@.len() == 7);
    assert("recording"@.len() == 9);
    assert("rec"@.len() == 3);
    assert("bluetooth"@.len() == 9);
    assert("bt"@.len() == 2);
    assert("usb1"@.len() == 4);
    assert("chat"@.len() == 4);
    assert("usb2"@.len() == 4);
    assert("callme1"@.len() == 7);
    assert("cm1"@.len() == 3);
    assert("callme2"@.len() == 7);
    assert("cm2"@.len() == 3);
    assert("callme3"@.len() == 7);
    assert("cm3"@.len() == 3);
    assert("headphone1"@[9] != "headphone2"@[9]);
    assert("headphone1"@[9] != "headphone3"@[9]);
    assert("headphone1"@[9] != "headphone4"@[9]);
    assert("hp1"@[2] != "hp2"@[2]);
    assert("hp1"@[2] != "hp3"@[2]);
    assert("hp1"@[2] != "hp4"@[2]);
    assert("hp1"@[0] != "spk"@[0]);
    assert("hp1"@[0] != "rec"@[0]);
    assert("hp1"@[0] != "cm1"@[0]);
    assert("hp1"@[0] != "cm2"@[0]);
    assert("hp1"@[0] != "cm3"@[0]);
    assert("headphone2"@[9] != "headphone3"@[9]);
    assert("headphone2"@[9] != "headphone4"@[9]);
    assert("hp2"@[2] != "hp3"@[2]);
    assert("hp2"@[2] != "hp4"@[2]);
    assert("hp2"@[0] != "spk"@[0]);
    assert("hp2"@[0] != "rec"@[0]);
    assert("hp2"@[0] != "cm1"@[0]);
    assert("hp2"@[0] != "cm2"@[0]);
    assert("hp2"@[0] != "cm3"@[0]);
    assert("headphone3"@[9] != "headphone4"@[9]);
    assert("hp3"@[2] != "hp4"@[2]);
    assert("hp3"@[0] != "spk"@[0]);
    assert("hp3"@[0] != "rec"@[0]);
    assert("hp3"@[0] != "cm1"@[0]);
    assert("hp3"@[0] != "cm2"@[0]);
    assert("hp3"@[0] != "cm3"@[0]);
    assert("hp4"@[0] != "spk"@[0]);
    assert("hp4"@[0] != "rec"@[0]);
    assert("hp4"@[0] != "cm1"@[0]);
    assert("hp4"@[0] != "cm2"@[0]);
    assert("hp4"@[0] != "cm3"@[0]);
    assert("speaker"@[0] != "monitor"@[0]);
    assert("speaker"@[0] != "callme1"@[0]);
    assert("speaker"@[0] != "callme2"@[0]);
    assert("speaker"@[0] != "callme3"@[0]);
    assert("spk"@[0] != "rec"@[0]);
    assert("spk"@[0] != "cm1"@[0]);
    assert("spk"@[0] != "cm2"@[0]);
    assert("spk"@[0] != "cm3"@[0]);
    assert("monitor"@[0] != "callme1"@[0]);
    assert("monitor"@[0] != "callme2"@[0]);
    assert("monitor"@[0] != "callme3"@[0]);
    assert("recording"@[0] != "bluetooth"@[0]);
    assert("rec"@[0] != "cm1"@[0]);
    assert("rec"@[0] != "cm2"@[0]);
    assert("rec"@[0] != "cm3"@[0]);
    assert("usb1"@[0] != "chat"@[0]);
    assert("usb1"@[3] != "usb2"@[3]);
    assert("chat"@[0] != "usb2"@[0]);
    assert("callme1"@[6] != "callme2"@[6]);
    assert("callme1"@[6] != "callme3"@[6]);
    assert("cm1"@[2] != "cm2"@[2]);
    assert("cm1"@[2] != "cm3"@[2]);
    assert("callme2"@[6] != "callme3"@[6]);
    assert("cm2"@[2] != "cm3"@[2]);
}

impl Source {
    /// The protocol index: the position in declaration order.
    pub open spec fn index(self) -> u8 {
        match self {
            Self::Combo1 => 0,
            Self::Combo2 => 1,
            Self::Combo3 => 2,
            Self::Combo4 => 3,
            Self::Combo1_2 => 4,
            Self::Combo2_3 => 5,
            Self::Combo3_4 => 6,
            Self::Usb1 => 7,
            Self::Chat => 8,
            Self::Usb2 => 9,
            Self::Bluetooth => 10,
            Self::SoundPad => 11,
            Self::VirtualGame => 12,
            Self::VirtualMusic => 13,
            Self::VirtualA => 14,
            Self::VirtualB => 15,
            Self::CallMe1 => 16,
            Self::CallMe2 => 17,
            Self::CallMe3 => 18,
        }
    }

    /// The source at a protocol index, if any.
    pub open spec fn at_index(idx: u8) -> Option<Self> {
        if idx == 0 {
            Some(Self::Combo1)
        } else if idx == 1 {
            Some(Self::Combo2)
        } else if idx == 2 {
            Some(Self::Combo3)
        } else if idx == 3 {
            Some(Self::Combo4)
        } else if idx == 4 {
            Some(Self::Combo1_2)
        } else if idx == 5 {
            Some(Self::Combo2_3)
        } else if idx == 6 {
            Some(Self::Combo3_4)
        } else if idx == 7 {
            Some(Self::Usb1)
        } else if idx == 8 {
            Some(Self::Chat)
        } else if idx == 9 {
            Some(Self::Usb2)
        } else if idx == 10 {
            Some(Self::Bluetooth)
        } else if idx == 11 {
            Some(Self::SoundPad)
        } else if idx == 12 {
            Some(Self::VirtualGame)
        } else if idx == 13 {
            Some(Self::VirtualMusic)
        } else if idx == 14 {
            Some(Self::VirtualA)
        } else if idx == 15 {
            Some(Self::VirtualB)
        } else if idx == 16 {
            Some(Self::CallMe1)
        } else if idx == 17 {
            Some(Self::CallMe2)
        } else if idx == 18 {
            Some(Self::CallMe3)
        } else {
            None
        }
    }

    /// The protocol source index (0..=18).
    pub fn to_protocol(self) -> (r: u8)
        ensures
            r == self.index(),
    {
        match self {
            Self::Combo1 => 0,
            Self::Combo2 => 1,
            Self::Combo3 => 2,
            Self::Combo4 => 3,
            Self::Combo1_2 => 4,
            Self::Combo2_3 => 5,
            Self::Combo3_4 => 6,
            Self::Usb1 => 7,
            Self::Chat => 8,
            Self::Usb2 => 9,
            Self::Bluetooth => 10,
            Self::SoundPad => 11,
            Self::VirtualGame => 12,
            Self::VirtualMusic => 13,
            Self::VirtualA => 14,
            Self::VirtualB => 15,
            Self::CallMe1 => 16,
            Self::CallMe2 => 17,
            Self::CallMe3 => 18,
        }
    }

    /// Inverse of [`Source::to_protocol`]; `None` for an out-of-range index.
    pub fn from_protocol(idx: u8) -> (r: Option<Self>)
        ensures
            r == Self::at_index(idx),
    {
        match idx {
            0 => Some(Self::Combo1),
            1 => Some(Self::Combo2),
            2 => Some(Self::Combo3),
            3 => Some(Self::Combo4),
            4 => Some(Self::Combo1_2),
            5 => Some(Self::Combo2_3),
            6 => Some(Self::Combo3_4),
            7 => Some(Self::Usb1),
            8 => Some(Self::Chat),
            9 => Some(Self::Usb2),
            10 => Some(Self::Bluetooth),
            11 => Some(Self::SoundPad),
            12 => Some(Self::VirtualGame),
            13 => Some(Self::VirtualMusic),
            14 => Some(Self::VirtualA),
            15 => Some(Self::VirtualB),
            16 => Some(Self::CallMe1),
            17 => Some(Self::CallMe2),
            18 => Some(Self::CallMe3),
            _ => None,
        }
    }

    /// The human-readable label.
    pub open spec fn spec_label(self) -> Seq<char> {
        match self {
            Self::Combo1 => "Combo 1"@,
            Self::Combo2 => "Combo 2"@,
            Self::Combo3 => "Combo 3"@,
            Self::Combo4 => "Combo 4"@,
            Self::Combo1_2 => "Combo 1+2"@,
            Self::Combo2_3 => "Combo 2+3"@,
            Self::Combo3_4 => "Combo 3+4"@,
            Self::Usb1 => "USB 1"@,
            Self::Chat => "Chat"@,
            Self::Usb2 => "USB 2"@,
            Self::Bluetooth => "Bluetooth"@,
            Self::SoundPad => "Sound Pad"@,
            Self::VirtualGame => "Game"@,
            Self::VirtualMusic => "Music"@,
            Self::VirtualA => "Virtual A"@,
            Self::VirtualB => "Virtual B"@,
            Self::CallMe1 => "CallMe 1"@,
            Self::CallMe2 => "CallMe 2"@,
            Self::CallMe3 => "CallMe 3"@,
        }
    }

    /// Human-readable label for UIs and logs.
    pub fn label(self) -> (r: &'static str)
        ensures
            r@ == self.spec_label(),
    {
        match self {
            Self::Combo1 => "Combo 1",
            Self::Combo2 => "Combo 2",
            Self::Combo3 => "Combo 3",
            Self::Combo4 => "Combo 4",
            Self::Combo1_2 => "Combo 1+2",
            Self::Combo2_3 => "Combo 2+3",
            Self::Combo3_4 => "Combo 3+4",
            Self::Usb1 => "USB 1",
            Self::Chat => "Chat",
            Self::Usb2 => "USB 2",
            Self::Bluetooth => "Bluetooth",
            Self::SoundPad => "Sound Pad",
            Self::VirtualGame => "Game",
            Self::VirtualMusic => "Music",
            Self::VirtualA => "Virtual A",
            Self::VirtualB => "Virtual B",
            Self::CallMe1 => "CallMe 1",
            Self::CallMe2 => "CallMe 2",
            Self::CallMe3 => "CallMe 3",
        }
    }

    /// The canonical lowercase name.
    pub open spec fn spec_name(self) -> Seq<char> {
        match self {
            Self::Combo1 => "combo1"@,
            Self::Combo2 => "combo2"@,
            Self::Combo3 => "combo3"@,
            Self::Combo4 => "combo4"@,
            Self::Combo1_2 => "combo1_2"@,
            Self::Combo2_3 => "combo2_3"@,
            Self::Combo3_4 => "combo3_4"@,
            Self::Usb1 => "usb1"@,
            Self::Chat => "chat"@,
            Self::Usb2 => "usb2"@,
            Self::Bluetooth => "bluetooth"@,
            Self::SoundPad => "soundpad"@,
            Self::VirtualGame => "game"@,
            Self::VirtualMusic => "music"@,
            Self::VirtualA => "virtuala"@,
            Self::VirtualB => "virtualb"@,
            Self::CallMe1 => "callme1"@,
            Self::CallMe2 => "callme2"@,
            Self::CallMe3 => "callme3"@,
        }
    }

    /// The canonical lowercase name (the form [`FromStr`] reads back).
    pub fn name(self) -> (r: &'static str)
        ensures
            r@ == self.spec_name(),
    {
        match self {
            Self::Combo1 => "combo1",
            Self::Combo2 => "combo2",
            Self::Combo3 => "combo3",
            Self::Combo4 => "combo4",
            Self::Combo1_2 => "combo1_2",
            Self::Combo2_3 => "combo2_3",
            Self::Combo3_4 => "combo3_4",
            Self::Usb1 => "usb1",
            Self::Chat => "chat",
            Self::Usb2 => "usb2",
            Self::Bluetooth => "bluetooth",
            Self::SoundPad => "soundpad",
            Self::VirtualGame => "game",
            Self::VirtualMusic => "music",
            Self::VirtualA => "virtuala",
            Self::VirtualB => "virtualb",
            Self::CallMe1 => "callme1",
            Self::CallMe2 => "callme2",
            Self::CallMe3 => "callme3",
        }
    }

    /// The canonical lowercase name as an owned string.
    pub fn to_string(self) -> (r: String)
        ensures
            r@ == self.spec_name(),
    {
        self.name().to_owned()
    }

    /// The variant a lowercase name or alias denotes, if any.
    pub open spec fn alias(name: Seq<char>) -> Option<Self> {
        if name == "combo1"@ {
            Some(Self::Combo1)
        } else if name == "mic1"@ {
            Some(Self::Combo1)
        } else if name == "combo2"@ {
            Some(Self::Combo2)
        } else if name == "mic2"@ {
            Some(Self::Combo2)
        } else if name == "combo3"@ {
            Some(Self::Combo3)
        } else if name == "mic3"@ {
            Some(Self::Combo3)
        } else if name == "combo4"@ {
            Some(Self::Combo4)
        } else if name == "mic4"@ {
            Some(Self::Combo4)
        } else if name == "combo1_2"@ {
            Some(Self::Combo1_2)
        } else if name == "combo12"@ {
            Some(Self::Combo1_2)
        } else if name == "combo2_3"@ {
            Some(Self::Combo2_3)
        } else if name == "combo23"@ {
            Some(Self::Combo2_3)
        } else if name == "combo3_4"@ {
            Some(Self::Combo3_4)
        } else if name == "combo34"@ {
            Some(Self::Combo3_4)
        } else if name == "usb1"@ {
            Some(Self::Usb1)
        } else if name == "chat"@ {
            Some(Self::Chat)
        } else if name == "usb2"@ {
            Some(Self::Usb2)
        } else if name == "bluetooth"@ {
            Some(Self::Bluetooth)
        } else if name == "bt"@ {
            Some(Self::Bluetooth)
        } else if name == "soundpad"@ {
            Some(Self::SoundPad)
        } else if name == "pad"@ {
            Some(Self::SoundPad)
        } else if name == "virtualgame"@ {
            Some(Self::VirtualGame)
        } else if name == "game"@ {
            Some(Self::VirtualGame)
        } else if name == "vgame"@ {
            Some(Self::VirtualGame)
        } else if name == "virtualmusic"@ {
            Some(Self::VirtualMusic)
        } else if name == "music"@ {
            Some(Self::VirtualMusic)
        } else if name == "vmusic"@ {
            Some(Self::VirtualMusic)
        } else if name == "virtuala"@ {
            Some(Self::VirtualA)
        } else if name == "va"@ {
            Some(Self::VirtualA)
        } else if name == "virtualb"@ {
            Some(Self::VirtualB)
        } else if name == "vb"@ {
            Some(Self::VirtualB)
        } else if name == "callme1"@ {
            Some(Self::CallMe1)
        } else if name == "cm1"@ {
            Some(Self::CallMe1)
        } else if name == "callme2"@ {
            Some(Self::CallMe2)
        } else if name == "cm2"@ {
            Some(Self::CallMe2)
        } else if name == "callme3"@ {
            Some(Self::CallMe3)
        } else if name == "cm3"@ {
            Some(Self::CallMe3)
        } else {
            None
        }
    }

    /// Look up a lowercase name or alias.
    pub fn from_alias(name: &str) -> (r: Option<Self>)
        ensures
            r == Self::alias(name@),
    {
        if str_eq(name, "combo1") {
            return Some(Self::Combo1);
        }
        if str_eq(name, "mic1") {
            return Some(Self::Combo1);
        }
        if str_eq(name, "combo2") {
            return Some(Self::Combo2);
        }
        if str_eq(name, "mic2") {
            return Some(Self::Combo2);
        }
        if str_eq(name, "combo3") {
            return Some(Self::Combo3);
        }
        if str_eq(name, "mic3") {
            return Some(Self::Combo3);
        }
        if str_eq(name, "combo4") {
            return Some(Self::Combo4);
        }
        if str_eq(name, "mic4") {
            return Some(Self::Combo4);
        }
        if str_eq(name, "combo1_2") {
            return Some(Self::Combo1_2);
        }
        if str_eq(name, "combo12") {
            return Some(Self::Combo1_2);
        }
        if str_eq(name, "combo2_3") {
            return Some(Self::Combo2_3);
        }
        if str_eq(name, "combo23") {
            return Some(Self::Combo2_3);
        }
        if str_eq(name, "combo3_4") {
            return Some(Self::Combo3_4);
        }
        if str_eq(name, "combo34") {
            return Some(Self::Combo3_4);
        }
        if str_eq(name, "usb1") {
            return Some(Self::Usb1);
        }
        if str_eq(name, "chat") {
            return Some(Self::Chat);
        }
        if str_eq(name, "usb2") {
            return Some(Self::Usb2);
        }
        if str_eq(name, "bluetooth") {
            return Some(Self::Bluetooth);
        }
        if str_eq(name, "bt") {
            return Some(Self::Bluetooth);
        }
        if str_eq(name, "soundpad") {
            return Some(Self::SoundPad);
        }
        if str_eq(name, "pad") {
            return Some(Self::SoundPad);
        }
        if str_eq(name, "virtualgame") {
            return Some(Self::VirtualGame);
        }
        if str_eq(name, "game") {
            return Some(Self::VirtualGame);
        }
        if str_eq(name, "vgame") {
            return Some(Self::VirtualGame);
        }
        if str_eq(name, "virtualmusic") {
            return Some(Self::VirtualMusic);
        }
        if str_eq(name, "music") {
            return Some(Self::VirtualMusic);
        }
        if str_eq(name, "vmusic") {
            return Some(Self::VirtualMusic);
        }
        if str_eq(name, "virtuala") {
            return Some(Self::VirtualA);
        }
        if str_eq(name, "va") {
            return Some(Self::VirtualA);
        }
        if str_eq(name, "virtualb") {
            return Some(Self::VirtualB);
        }
        if str_eq(name, "vb") {
            return Some(Self::VirtualB);
        }
        if str_eq(name, "callme1") {
            return Some(Self::CallMe1);
        }
        if str_eq(name, "cm1") {
            return Some(Self::CallMe1);
        }
        if str_eq(name, "callme2") {
            return Some(Self::CallMe2);
        }
        if str_eq(name, "cm2") {
            return Some(Self::CallMe2);
        }
        if str_eq(name, "callme3") {
            return Some(Self::CallMe3);
        }
        if str_eq(name, "cm3") {
            return Some(Self::CallMe3);
        }
        None
    }
}

impl FromStr for Source {
    type Err = String;

    fn from_str(s: &str) -> (r: Result<Self, Self::Err>)
        ensures
            match Self::alias(spec_to_lowercase(s@)) {
                Some(v) => r == Ok::<Self, String>(v),
                None => r matches Err(e) && e@ == spec_unknown_name("source"@, s@, "combo1, bt, game, cm1"@),
            },
    {
        let lower = to_lowercase(s);
        match Self::from_alias(lower.as_str()) {
            Some(v) => Ok(v),
            None => Err(unknown_name_error("source", s, "combo1, bt, game, cm1")),
        }
    }
}

/// The protocol index of every source leads back to it, and the indices
/// are exactly `0..19`.
pub proof fn lemma_source_protocol_round_trip(v: Source, idx: u8)
    ensures
        Source::at_index(v.index()) == Some(v),
        Source::at_index(idx) matches Some(w) ==> w.index() == idx,
        Source::at_index(idx) is Some <==> idx < 19,
{
}

/// The canonical name of every source parses back to it.
pub proof fn lemma_source_name_round_trip(v: Source)
    ensures
        Source::alias(v.spec_name()) == Some(v),
{
    reveal_strlit("combo1");
    reveal_strlit("mic1");
    reveal_strlit("combo2");
    reveal_strlit("mic2");
    reveal_strlit("combo3");
    reveal_strlit("mic3");
    reveal_strlit("combo4");
    reveal_strlit("mic4");
    reveal_strlit("combo1_2");
    reveal_strlit("combo12");
    reveal_strlit("combo2_3");
    reveal_strlit("combo23");
    reveal_strlit("combo3_4");
    reveal_strlit("combo34");
    reveal_strlit("usb1");
    reveal_strlit("chat");
    reveal_strlit("usb2");
    reveal_strlit("bluetooth");
    reveal_strlit("bt");
    reveal_strlit("soundpad");
    reveal_strlit("pad");
    reveal_strlit("virtualgame");
    reveal_strlit("game");
    reveal_strlit("vgame");
    reveal_strlit("virtualmusic");
    reveal_strlit("music");
    reveal_strlit("vmusic");
    reveal_strlit("virtuala");
    reveal_strlit("va");
    reveal_strlit("virtualb");
    reveal_strlit("vb");
    reveal_strlit("callme1");
    reveal_strlit("cm1");
    reveal_strlit("callme2");
    reveal_strlit("cm2");
    reveal_strlit("callme3");
    reveal_strlit("cm3");
    assert("combo1"@.len() == 6);
    assert("mic1"@.len() == 4);
    assert("combo2"@.len() == 6);
    assert("mic2"@.len() == 4);
    assert("combo3"@.len() == 6);
    assert("mic3"@.len() == 4);
    assert("combo4"@.len() == 6);
    assert("mic4"@.len() == 4);
    assert("combo1_2"@.len() == 8);
    assert("combo12"@.len() == 7);
    assert("combo2_3"@.len() == 8);
    assert("combo23"@.len() == 7);
    assert("combo3_4"@.len() == 8);
    assert("combo34"@.len() == 7);
    assert("usb1"@.len() == 4);
    assert("chat"@.len() == 4);
    assert("usb2"@.len() == 4);
    assert("bluetooth"@.len() == 9);
    assert("bt"@.len() == 2);
    assert("soundpad"@.len() == 8);
    assert("pad"@.len() == 3);
    assert("virtualgame"@.len() == 11);
    assert("game"@.len() == 4);
    assert("vgame"@.len() == 5);
    assert("virtualmusic"@.len() == 12);
    assert("music"@.len() == 5);
    assert("vmusic"@.len() == 6);
    assert("virtuala"@.len() == 8);
    assert("va"@.len() == 2);
    assert("virtualb"@.len() == 8);
    assert("vb"@.len() == 2);
    assert("callme1"@.len() == 7);
    assert("cm1"@.len() == 3);
    assert("callme2"@.len() == 7);
    assert("cm2"@.len() == 3);
    assert("callme3"@.len() == 7);
    assert("cm3"@.len() == 3);
    assert("combo1"@[5] != "combo2"@[5]);
    assert("combo1"@[5] != "combo3"@[5]);
    assert("combo1"@[5] != "combo4"@[5]);
    assert("combo1"@[0] != "vmusic"@[0]);
    assert("mic1"@[3] != "mic2"@[3]);
    assert("mic1"@[3] != "mic3"@[3]);
    assert("mic1"@[3] != "mic4"@[3]);
    assert("mic1"@[0] != "usb1"@[0]);
    assert("mic1"@[0] != "chat"@[0]);
    assert("mic1"@[0] != "usb2"@[0]);
    assert("mic1"@[0] != "game"@[0]);
    assert("combo2"@[5] != "combo3"@[5]);
    assert("combo2"@[5] != "combo4"@[5]);
    assert("combo2"@[0] != "vmusic"@[0]);
    assert("mic2"@[3] != "mic3"@[3]);
    assert("mic2"@[3] != "mic4"@[3]);
    assert("mic2"@[0] != "usb1"@[0]);
    assert("mic2"@[0] != "chat"@[0]);
    assert("mic2"@[0] != "usb2"@[0]);
    assert("mic2"@[0] != "game"@[0]);
    assert("combo3"@[5] != "combo4"@[5]);
    assert("combo3"@[0] != "vmusic"@[0]);
    assert("mic3"@[3] != "mic4"@[3]);
    assert("mic3"@[0] != "usb1"@[0]);
    assert("mic3"@[0] != "chat"@[0]);
    assert("mic3"@[0] != "usb2"@[0]);
    assert("mic3"@[0] != "game"@[0]);
    assert("combo4"@[0] != "vmusic"@[0]);
    assert("mic4"@[0] != "usb1"@[0]);
    assert("mic4"@[0] != "chat"@[0]);
    assert("mic4"@[0] != "usb2"@[0]);
    assert("mic4"@[0] != "game"@[0]);
    assert("combo1_2"@[5] != "combo2_3"@[5]);
    assert("combo1_2"@[5] != "combo3_4"@[5]);
    assert("combo1_2"@[0] != "soundpad"@[0]);
    assert("combo1_2"@[0] != "virtuala"@[0]);
    assert("combo1_2"@[0] != "virtualb"@[0]);
    assert("combo12"@[5] != "combo23"@[5]);
    assert("combo12"@[5] != "combo34"@[5]);
    assert("combo12"@[1] != "callme1"@[1]);
    assert("combo12"@[1] != "callme2"@[1]);
    assert("combo12"@[1] != "callme3"@[1]);
    assert("combo2_3"@[5] != "combo3_4"@[5]);
    assert("combo2_3"@[0] != "soundpad"@[0]);
    assert("combo2_3"@[0] != "virtuala"@[0]);
    assert("combo2_3"@[0] != "virtualb"@[0]);
    assert("combo23"@[5] != "combo34"@[5]);
    assert("combo23"@[1] != "callme1"@[1]);
    assert("combo23"@[1] != "callme2"@[1]);
    assert("combo23"@[1] != "callme3"@[1]);
    assert("combo3_4"@[0] != "soundpad"@[0]);
    assert("combo3_4"@[0] != "virtuala"@[0]);
    assert("combo3_4"@[0] != "virtualb"@[0]);
    assert("combo34"@[1] != "callme1"@[1]);
    assert("combo34"@[1] != "callme2"@[1]);
    assert("combo34"@[1] != "callme3"@[1]);
    assert("usb1"@[0] != "chat"@[0]);
    assert("usb1"@[3] != "usb2"@[3]);
    assert("usb1"@[0] != "game"@[0]);
    assert("chat"@[0] != "usb2"@[0]);
    assert("chat"@[0] != "game"@[0]);
    assert("usb2"@[0] != "game"@[0]);
    assert("bt"@[0] != "va"@[0]);
    assert("bt"@[0] != "vb"@[0]);
    assert("soundpad"@[0] != "virtuala"@[0]);
    assert("soundpad"@[0] != "virtualb"@[0]);
    assert("pad"@[0] != "cm1"@[0]);
    assert("pad"@[0] != "cm2"@[0]);
    assert("pad"@[0] != "cm3"@[0]);
    assert("vgame"@[0] != "music"@[0]);
    assert("virtuala"@[7] != "virtualb"@[7]);
    assert("va"@[1] != "vb"@[1]);
    assert("callme1"@[6] != "callme2"@[6]);
    assert("callme1"@[6] != "callme3"@[6]);
    assert("cm1"@[2] != "cm2"@[2]);
    assert("cm1"@[2] != "cm3"@[2]);
    assert("callme2"@[6] != "callme3"@[6]);
    assert("cm2"@[2] != "cm3"@[2]);
}

impl Fader {
    /// The human-readable label.
    pub open spec fn spec_label(self) -> Seq<char> {
        match self {
            Self::Physical1 => "Fader 1"@,
            Self::Physical2 => "Fader 2"@,
            Self::Physical3 => "Fader 3"@,
            Self::Physical4 => "Fader 4"@,
            Self::Physical5 => "Fader 5"@,
            Self::Physical6 => "Fader 6"@,
            Self::Virtual1 => "Virtual 1"@,
            Self::Virtual2 => "Virtual 2"@,
            Self::Virtual3 => "Virtual 3"@,
            Self::Virtual4 => "Virtual 4"@,
            Self::Virtual5 => "Virtual 5"@,
        }
    }

    /// Human-readable label for UIs and logs.
    pub fn label(self) -> (r: &'static str)
        ensures
            r@ == self.spec_label(),
    {
        match self {
            Self::Physical1 => "Fader 1",
            Self::Physical2 => "Fader 2",
            Self::Physical3 => "Fader 3",
            Self::Physical4 => "Fader 4",
            Self::Physical5 => "Fader 5",
            Self::Physical6 => "Fader 6",
            Self::Virtual1 => "Virtual 1",
            Self::Virtual2 => "Virtual 2",
            Self::Virtual3 => "Virtual 3",
            Self::Virtual4 => "Virtual 4",
            Self::Virtual5 => "Virtual 5",
        }
    }

    /// The canonical lowercase name.
    pub open spec fn spec_name(self) -> Seq<char> {
        match self {
            Self::Physical1 => "physical1"@,
            Self::Physical2 => "physical2"@,
            Self::Physical3 => "physical3"@,
            Self::Physical4 => "physical4"@,
            Self::Physical5 => "physical5"@,
            Self::Physical6 => "physical6"@,
            Self::Virtual1 => "virtual1"@,
            Self::Virtual2 => "virtual2"@,
            Self::Virtual3 => "virtual3"@,
            Self::Virtual4 => "virtual4"@,
            Self::Virtual5 => "virtual5"@,
        }
    }

    /// The canonical lowercase name (the form [`FromStr`] reads back).
    pub fn name(self) -> (r: &'static str)
        ensures
            r@ == self.spec_name(),
    {
        match self {
            Self::Physical1 => "physical1",
            Self::Physical2 => "physical2",
            Self::Physical3 => "physical3",
            Self::Physical4 => "physical4",
            Self::Physical5 => "physical5",
            Self::Physical6 => "physical6",
            Self::Virtual1 => "virtual1",
            Self::Virtual2 => "virtual2",
            Self::Virtual3 => "virtual3",
            Self::Virtual4 => "virtual4",
            Self::Virtual5 => "virtual5",
        }
    }

    /// The canonical lowercase name as an owned string.
    pub fn to_string(self) -> (r: String)
        ensures
            r@ == self.spec_name(),
    {
        self.name().to_owned()
    }

    /// The variant a lowercase name or alias denotes, if any.
    pub open spec fn alias(name: Seq<char>) -> Option<Self> {
        if name == "physical1"@ {
            Some(Self::Physical1)
        } else if name == "p1"@ {
            Some(Self::Physical1)
        } else if name == "fader1"@ {
            Some(Self::Physical1)
        } else if name == "physical2"@ {
            Some(Self::Physical2)
        } else if name == "p2"@ {
            Some(Self::Physical2)
        } else if name == "fader2"@ {
            Some(Self::Physical2)
        } else if name == "physical3"@ {
            Some(Self::Physical3)
        } else if name == "p3"@ {
            Some(Self::Physical3)
        } else if name == "fader3"@ {
            Some(Self::Physical3)
        } else if name == "physical4"@ {
            Some(Self::Physical4)
        } else if name == "p4"@ {
            Some(Self::Physical4)
        } else if name == "fader4"@ {
            Some(Self::Physical4)
        } else if name == "physical5"@ {
            Some(Self::Physical5)
        } else if name == "p5"@ {
            Some(Self::Physical5)
        } else if name == "fader5"@ {
            Some(Self::Physical5)
        } else if name == "physical6"@ {
            Some(Self::Physical6)
        } else if name == "p6"@ {
            Some(Self::Physical6)
        } else if name == "fader6"@ {
            Some(Self::Physical6)
        } else if name == "virtual1"@ {
            Some(Self::Virtual1)
        } else if name == "v1"@ {
            Some(Self::Virtual1)
        } else if name == "vfader1"@ {
            Some(Self::Virtual1)
        } else if name == "virtual2"@ {
            Some(Self::Virtual2)
        } else if name == "v2"@ {
            Some(Self::Virtual2)
        } else if name == "vfader2"@ {
            Some(Self::Virtual2)
        } else if name == "virtual3"@ {
            Some(Self::Virtual3)
        } else if name == "v3"@ {
            Some(Self::Virtual3)
        } else if name == "vfader3"@ {
            Some(Self::Virtual3)
        } else if name == "virtual4"@ {
            Some(Self::Virtual4)
        } else if name == "v4"@ {
            Some(Self::Virtual4)
        } else if name == "vfader4"@ {
            Some(Self::Virtual4)
        } else if name == "virtual5"@ {
            Some(Self::Virtual5)
        } else if name == "v5"@ {
            Some(Self::Virtual5)
        } else if name == "vfader5"@ {
            Some(Self::Virtual5)
        } else {
            None
        }
    }

    /// Look up a lowercase name or alias.
    pub fn from_alias(name: &str) -> (r: Option<Self>)
        ensures
            r == Self::alias(name@),
    {
        if str_eq(name, "physical1") {
            return Some(Self::Physical1);
        }
        if str_eq(name, "p1") {
            return Some(Self::Physical1);
        }
        if str_eq(name, "fader1") {
            return Some(Self::Physical1);
        }
        if str_eq(name, "physical2") {
            return Some(Self::Physical2);
        }
        if str_eq(name, "p2") {
            return Some(Self::Physical2);
        }
        if str_eq(name, "fader2") {
            return Some(Self::Physical2);
        }
        if str_eq(name, "physical3") {
            return Some(Self::Physical3);
        }
        if str_eq(name, "p3") {
            return Some(Self::Physical3);
        }
        if str_eq(name, "fader3") {
            return Some(Self::Physical3);
        }
        if str_eq(name, "physical4") {
            return Some(Self::Physical4);
        }
        if str_eq(name, "p4") {
            return Some(Self::Physical4);
        }
        if str_eq(name, "fader4") {
            return Some(Self::Physical4);
        }
        if str_eq(name, "physical5") {
            return Some(Self::Physical5);
        }
        if str_eq(name, "p5") {
            return Some(Self::Physical5);
        }
        if str_eq(name, "fader5") {
            return Some(Self::Physical5);
        }
        if str_eq(name, "physical6") {
            return Some(Self::Physical6);
        }
        if str_eq(name, "p6") {
            return Some(Self::Physical6);
        }
        if str_eq(name, "fader6") {
            return Some(Self::Physical6);
        }
        if str_eq(name, "virtual1") {
            return Some(Self::Virtual1);
        }
        if str_eq(name, "v1") {
            return Some(Self::Virtual1);
        }
        if str_eq(name, "vfader1") {
            return Some(Self::Virtual1);
        }
        if str_eq(name, "virtual2") {
            return Some(Self::Virtual2);
        }
        if str_eq(name, "v2") {
            return Some(Self::Virtual2);
        }
        if str_eq(name, "vfader2") {
            return Some(Self::Virtual2);
        }
        if str_eq(name, "virtual3") {
            return Some(Self::Virtual3);
        }
        if str_eq(name, "v3") {
            return Some(Self::Virtual3);
        }
        if str_eq(name, "vfader3") {
            return Some(Self::Virtual3);
        }
        if str_eq(name, "virtual4") {
            return Some(Self::Virtual4);
        }
        if str_eq(name, "v4") {
            return Some(Self::Virtual4);
        }
        if str_eq(name, "vfader4") {
            return Some(Self::Virtual4);
        }
        if str_eq(name, "virtual5") {
            return Some(Self::Virtual5);
        }
        if str_eq(name, "v5") {
            return Some(Self::Virtual5);
        }
        if str_eq(name, "vfader5") {
            return Some(Self::Virtual5);
        }
        None
    }
}

impl FromStr for Fader {
    type Err = String;

    fn from_str(s: &str) -> (r: Result<Self, Self::Err>)
        ensures
            match Self::alias(spec_to_lowercase(s@)) {
                Some(v) => r == Ok::<Self, String>(v),
                None => r matches Err(e) && e@ == spec_unknown_name("fader"@, s@, "p1, fader1, v1"@),
            },
    {
        let lower = to_lowercase(s);
        match Self::from_alias(lower.as_str()) {
            Some(v) => Ok(v),
            None => Err(unknown_name_error("fader", s, "p1, fader1, v1")),
        }
    }
}

/// The canonical name of every fader parses back to it.
pub proof fn lemma_fader_name_round_trip(v: Fader)
    ensures
        Fader::alias(v.spec_name()) == Some(v),
{
    reveal_strlit("physical1");
    reveal_strlit("p1");
    reveal_strlit("fader1");
    reveal_strlit("physical2");
    reveal_strlit("p2");
    reveal_strlit("fader2");
    reveal_strlit("physical3");
    reveal_strlit("p3");
    reveal_strlit("fader3");
    reveal_strlit("physical4");
    reveal_strlit("p4");
    reveal_strlit("fader4");
    reveal_strlit("physical5");
    reveal_strlit("p5");
    reveal_strlit("fader5");
    reveal_strlit("physical6");
    reveal_strlit("p6");
    reveal_strlit("fader6");
    reveal_strlit("virtual1");
    reveal_strlit("v1");
    reveal_strlit("vfader1");
    reveal_strlit("virtual2");
    reveal_strlit("v2");
    reveal_strlit("vfader2");
    reveal_strlit("virtual3");
    reveal_strlit("v3");
    reveal_strlit("vfader3");
    reveal_strlit("virtual4");
    reveal_strlit("v4");
    reveal_strlit("vfader4");
    reveal_strlit("virtual5");
    reveal_strlit("v5");
    reveal_strlit("vfader5");
    assert("physical1"@.len() == 9);
    assert("p1"@.len() == 2);
    assert("fader1"@.len() == 6);
    assert("physical2"@.len() == 9);
    assert("p2"@.len() == 2);
    assert("fader2"@.len() == 6);
    assert("physical3"@.len() == 9);
    assert("p3"@.len() == 2);
    assert("fader3"@.len() == 6);
    assert("physical4"@.len() == 9);
    assert("p4"@.len() == 2);
    assert("fader4"@.len() == 6);
    assert("physical5"@.len() == 9);
    assert("p5"@.len() == 2);
    assert("fader5"@.len() == 6);
    assert("physical6"@.len() == 9);
    assert("p6"@.len() == 2);
    assert("fader6"@.len() == 6);
    assert("virtual1"@.len() == 8);
    assert("v1"@.len() == 2);
    assert("vfader1"@.len() == 7);
    assert("virtual2"@.len() == 8);
    assert("v2"@.len() == 2);
    assert("vfader2"@.len() == 7);
    assert("virtual3"@.len() == 8);
    assert("v3"@.len() == 2);
    assert("vfader3"@.len() == 7);
    assert("virtual4"@.len() == 8);
    assert("v4"@.len() == 2);
    assert("vfader4"@.len() == 7);
    assert("virtual5"@.len() == 8);
    assert("v5"@.len() == 2);
    assert("vfader5"@.len() == 7);
    assert("physical1"@[8] != "physical2"@[8]);
    assert("physical1"@[8] != "physical3"@[8]);
    assert("physical1"@[8] != "physical4"@[8]);
    assert("physical1"@[8] != "physical5"@[8]);
    assert("physical1"@[8] != "physical6"@[8]);
    assert("p1"@[1] != "p2"@[1]);
    assert("p1"@[1] != "p3"@[1]);
    assert("p1"@[1] != "p4"@[1]);
    assert("p1"@[1] != "p5"@[1]);
    assert("p1"@[1] != "p6"@[1]);
    assert("p1"@[0] != "v1"@[0]);
    assert("p1"@[0] != "v2"@[0]);
    assert("p1"@[0] != "v3"@[0]);
    assert("p1"@[0] != "v4"@[0]);
    assert("p1"@[0] != "v5"@[0]);
    assert("fader1"@[5] != "fader2"@[5]);
    assert("fader1"@[5] != "fader3"@[5]);
    assert("fader1"@[5] != "fader4"@[5]);
    assert("fader1"@[5] != "fader5"@[5]);
    assert("fader1"@[5] != "fader6"@[5]);
    assert("physical2"@[8] != "physical3"@[8]);
    assert("physical2"@[8] != "physical4"@[8]);
    assert("physical2"@[8] != "physical5"@[8]);
    assert("physical2"@[8] != "physical6"@[8]);
    assert("p2"@[1] != "p3"@[1]);
    assert("p2"@[1] != "p4"@[1]);
    assert("p2"@[1] != "p5"@[1]);
    assert("p2"@[1] != "p6"@[1]);
    assert("p2"@[0] != "v1"@[0]);
    assert("p2"@[0] != "v2"@[0]);
    assert("p2"@[0] != "v3"@[0]);
    assert("p2"@[0] != "v4"@[0]);
    assert("p2"@[0] != "v5"@[0]);
    assert("fader2"@[5] != "fader3"@[5]);
    assert("fader2"@[5] != "fader4"@[5]);
    assert("fader2"@[5] != "fader5"@[5]);
    assert("fader2"@[5] != "fader6"@[5]);
    assert("physical3"@[8] != "physical4"@[8]);
    assert("physical3"@[8] != "physical5"@[8]);
    assert("physical3"@[8] != "physical6"@[8]);
    assert("p3"@[1] != "p4"@[1]);
    assert("p3"@[1] != "p5"@[1]);
    assert("p3"@[1] != "p6"@[1]);
    assert("p3"@[0] != "v1"@[0]);
    assert("p3"@[0] != "v2"@[0]);
    assert("p3"@[0] != "v3"@[0]);
    assert("p3"@[0] != "v4"@[0]);
    assert("p3"@[0] != "v5"@[0]);
    assert("fader3"@[5] != "fader4"@[5]);
    assert("fader3"@[5] != "fader5"@[5]);
    assert("fader3"@[5] != "fader6"@[5]);
    assert("physical4"@[8] != "physical5"@[8]);
    assert("physical4"@[8] != "physical6"@[8]);
    assert("p4"@[1] != "p5"@[1]);
    assert("p4"@[1] != "p6"@[1]);
    assert("p4"@[0] != "v1"@[0]);
    assert("p4"@[0] != "v2"@[0]);
    assert("p4"@[0] != "v3"@[0]);
    assert("p4"@[0] != "v4"@[0]);
    assert("p4"@[0] != "v5"@[0]);
    assert("fader4"@[5] != "fader5"@[5]);
    assert("fader4"@[5] != "fader6"@[5]);
    assert("physical5"@[8] != "physical6"@[8]);
    assert("p5"@[1] != "p6"@[1]);
    assert("p5"@[0] != "v1"@[0]);
    assert("p5"@[0] != "v2"@[0]);
    assert("p5"@[0] != "v3"@[0]);
    assert("p5"@[0] != "v4"@[0]);
    assert("p5"@[0] != "v5"@[0]);
    assert("fader5"@[5] != "fader6"@[5]);
    assert("p6"@[0] != "v1"@[0]);
    assert("p6"@[0] != "v2"@[0]);
    assert("p6"@[0] != "v3"@[0]);
    assert("p6"@[0] != "v4"@[0]);
    assert("p6"@[0] != "v5"@[0]);
    assert("virtual1"@[7] != "virtual2"@[7]);
    assert("virtual1"@[7] != "virtual3"@[7]);
    assert("virtual1"@[7] != "virtual4"@[7]);
    assert("virtual1"@[7] != "virtual5"@[7]);
    assert("v1"@[1] != "v2"@[1]);
    assert("v1"@[1] != "v3"@[1]);
    assert("v1"@[1] != "v4"@[1]);
    assert("v1"@[1] != "v5"@[1]);
    assert("vfader1"@[6] != "vfader2"@[6]);
    assert("vfader1"@[6] != "vfader3"@[6]);
    assert("vfader1"@[6] != "vfader4"@[6]);
    assert("vfader1"@[6] != "vfader5"@[6]);
    assert("virtual2"@[7] != "virtual3"@[7]);
    assert("virtual2"@[7] != "virtual4"@[7]);
    assert("virtual2"@[7] != "virtual5"@[7]);
    assert("v2"@[1] != "v3"@[1]);
    assert("v2"@[1] != "v4"@[1]);
    assert("v2"@[1] != "v5"@[1]);
    assert("vfader2"@[6] != "vfader3"@[6]);
    assert("vfader2"@[6] != "vfader4"@[6]);
    assert("vfader2"@[6] != "vfader5"@[6]);
    assert("virtual3"@[7] != "virtual4"@[7]);
    assert("virtual3"@[7] != "virtual5"@[7]);
    assert("v3"@[1] != "v4"@[1]);
    assert("v3"@[1] != "v5"@[1]);
    assert("vfader3"@[6] != "vfader4"@[6]);
    assert("vfader3"@[6] != "vfader5"@[6]);
    assert("virtual4"@[7] != "virtual5"@[7]);
    assert("v4"@[1] != "v5"@[1]);
    assert("vfader4"@[6] != "vfader5"@[6]);
}

} // verus!
