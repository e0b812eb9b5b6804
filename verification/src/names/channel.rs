//! [`ChannelParam`]: the per-fader `CHANNEL`-node parameter family.

use vstd::prelude::*;

use crate::names::ParamModel;
use crate::text::{no_nul, str_eq};

verus! {

/// A per-channel-strip parameter: one of the flat properties the device
/// carries on a `CHANNEL` node (the EQ, dynamics, HPF, aphex, pan and tone
/// controls for one fader).
///
/// The preamp controls (gain, 48V, mic type) are **not** here: a source
/// exists independently of which fader it is assigned to, so they live on
/// the separate `INPUTSOURCE` node and are typed as [`InputSourceParam`].
/// `CHANNEL` only references its source via `channelInputSource`.
#[derive(Debug, PartialEq, Eq, Hash)]
#[non_exhaustive]
pub enum ChannelParam {
    EqOn,
    EqLowOn,
    EqLowGain,
    EqLowQ,
    EqLowShelf,
    EqMidOn,
    EqMidGain,
    EqMidQ,
    EqMidBell,
    EqHighOn,
    EqHighGain,
    EqHighQ,
    EqHighBell,
    CompressorOn,
    CompressorThreshold,
    CompressorRatio,
    CompressorAttack,
    CompressorRelease,
    CompressorGain,
    DeesserOn,
    DeesserThreshold,
    DeesserRatio,
    DeesserAttack,
    DeesserRelease,
    DeesserGain,
    DeesserFrequency,
    NoiseGateOn,
    NoiseGateThreshold,
    NoiseGateRange,
    NoiseGateAttack,
    NoiseGateHold,
    NoiseGateRelease,
    NoiseGateHysteresis,
    HpfOn,
    HpfFrequency,
    HpfSlope,
    HpfLowerOn,
    HpfHigherOn,
    AphexOn,
    AphexAeMix,
    AphexAeTune,
    AphexBbDrive,
    AphexBbTune,
    PanOn,
    Pan,
    PanL,
    PanR,
    PanMode,
    Depth,
    Sparkle,
    Punch,
    AdvancedProcessing,
    BypassProcessing,
    CurrentFxPreset,
    ListenSource,
    TalkbackEnable,
    WirelessMute,
    ChannelIndex,
    /// A property without a typed [`ChannelParam`] identifier yet. Holds the raw wire
    /// name; the value still rides in the carrying event/command.
    Other(String),
}

impl ChannelParam {
    /// The wire property name.
    pub open spec fn wire_name(self) -> Seq<char> {
        match self {
            ChannelParam::EqOn => "eqOn"@,
            ChannelParam::EqLowOn => "eqLowOn"@,
            ChannelParam::EqLowGain => "eqLowGain"@,
            ChannelParam::EqLowQ => "eqLowQ"@,
            ChannelParam::EqLowShelf => "eqLowShelf"@,
            ChannelParam::EqMidOn => "eqMidOn"@,
            ChannelParam::EqMidGain => "eqMidGain"@,
            ChannelParam::EqMidQ => "eqMidQ"@,
            ChannelParam::EqMidBell => "eqMidBell"@,
            ChannelParam::EqHighOn => "eqHighOn"@,
            ChannelParam::EqHighGain => "eqHighGain"@,
            ChannelParam::EqHighQ => "eqHighQ"@,
            ChannelParam::EqHighBell => "eqHighBell"@,
            ChannelParam::CompressorOn => "compressorOn"@,
            ChannelParam::CompressorThreshold => "compressorThreshold"@,
            ChannelParam::CompressorRatio => "compressorRatio"@,
            ChannelParam::CompressorAttack => "compressorAttack"@,
            ChannelParam::CompressorRelease => "compressorRelease"@,
            ChannelParam::CompressorGain => "compressorGain"@,
            ChannelParam::DeesserOn => "deesserOn"@,
            ChannelParam::DeesserThreshold => "deesserThreshold"@,
            ChannelParam::DeesserRatio => "deesserRatio"@,
            ChannelParam::DeesserAttack => "deesserAttack"@,
            ChannelParam::DeesserRelease => "deesserRelease"@,
            ChannelParam::DeesserGain => "deesserGain"@,
            ChannelParam::DeesserFrequency => "deesserFrequency"@,
            ChannelParam::NoiseGateOn => "noiseGateOn"@,
            ChannelParam::NoiseGateThreshold => "noiseGateThreshold"@,
            ChannelParam::NoiseGateRange => "noiseGateRange"@,
            ChannelParam::NoiseGateAttack => "noiseGateAttack"@,
            ChannelParam::NoiseGateHold => "noiseGateHold"@,
            ChannelParam::NoiseGateRelease => "noiseGateRelease"@,
            ChannelParam::NoiseGateHysteresis => "noiseGateHysteresis"@,
            ChannelParam::HpfOn => "hpfOn"@,
            ChannelParam::HpfFrequency => "hpfFrequency"@,
            ChannelParam::HpfSlope => "hpfSlope"@,
            ChannelParam::HpfLowerOn => "hpfLowerOn"@,
            ChannelParam::HpfHigherOn => "hpfHigherOn"@,
            ChannelParam::AphexOn => "aphexOn"@,
            ChannelParam::AphexAeMix => "aphexAEMix"@,
            ChannelParam::AphexAeTune => "aphexAETune"@,
            ChannelParam::AphexBbDrive => "aphexBBDrive"@,
            ChannelParam::AphexBbTune => "aphexBBTune"@,
            ChannelParam::PanOn => "channelPanOn"@,
            ChannelParam::Pan => "channelPan"@,
            ChannelParam::PanL => "channelPanL"@,
            ChannelParam::PanR => "channelPanR"@,
            ChannelParam::PanMode => "channelPanMode"@,
            ChannelParam::Depth => "channelDepth"@,
            ChannelParam::Sparkle => "channelSparkle"@,
            ChannelParam::Punch => "channelPunch"@,
            ChannelParam::AdvancedProcessing => "channelAdvancedProcessing"@,
            ChannelParam::BypassProcessing => "channelBypassProcessing"@,
            ChannelParam::CurrentFxPreset => "channelCurrentFxPreset"@,
            ChannelParam::ListenSource => "channelListenSource"@,
            ChannelParam::TalkbackEnable => "channelTalkbackEnable"@,
            ChannelParam::WirelessMute => "channelWirelessMute"@,
            ChannelParam::ChannelIndex => "channelIndex"@,
            ChannelParam::Other(s) => s@,
        }
    }

    /// The typed variant a wire name denotes, if any.
    pub open spec fn known(name: Seq<char>) -> Option<ChannelParam> {
        if name == "eqOn"@ {
            Some(ChannelParam::EqOn)
        } else if name == "eqLowOn"@ {
            Some(ChannelParam::EqLowOn)
        } else if name == "eqLowGain"@ {
            Some(ChannelParam::EqLowGain)
        } else if name == "eqLowQ"@ {
            Some(ChannelParam::EqLowQ)
        } else if name == "eqLowShelf"@ {
            Some(ChannelParam::EqLowShelf)
        } else if name == "eqMidOn"@ {
            Some(ChannelParam::EqMidOn)
        } else if name == "eqMidGain"@ {
            Some(ChannelParam::EqMidGain)
        } else if name == "eqMidQ"@ {
            Some(ChannelParam::EqMidQ)
        } else if name == "eqMidBell"@ {
            Some(ChannelParam::EqMidBell)
        } else if name == "eqHighOn"@ {
            Some(ChannelParam::EqHighOn)
        } else if name == "eqHighGain"@ {
            Some(ChannelParam::EqHighGain)
        } else if name == "eqHighQ"@ {
            Some(ChannelParam::EqHighQ)
        } else if name == "eqHighBell"@ {
            Some(ChannelParam::EqHighBell)
        } else if name == "compressorOn"@ {
            Some(ChannelParam::CompressorOn)
        } else if name == "compressorThreshold"@ {
            Some(ChannelParam::CompressorThreshold)
        } else if name == "compressorRatio"@ {
            Some(ChannelParam::CompressorRatio)
        } else if name == "compressorAttack"@ {
            Some(ChannelParam::CompressorAttack)
        } else if name == "compressorRelease"@ {
            Some(ChannelParam::CompressorRelease)
        } else if name == "compressorGain"@ {
            Some(ChannelParam::CompressorGain)
        } else if name == "deesserOn"@ {
            Some(ChannelParam::DeesserOn)
        } else if name == "deesserThreshold"@ {
            Some(ChannelParam::DeesserThreshold)
        } else if name == "deesserRatio"@ {
            Some(ChannelParam::DeesserRatio)
        } else if name == "deesserAttack"@ {
            Some(ChannelParam::DeesserAttack)
        } else if name == "deesserRelease"@ {
            Some(ChannelParam::DeesserRelease)
        } else if name == "deesserGain"@ {
            Some(ChannelParam::DeesserGain)
        } else if name == "deesserFrequency"@ {
            Some(ChannelParam::DeesserFrequency)
        } else if name == "noiseGateOn"@ {
            Some(ChannelParam::NoiseGateOn)
        } else if name == "noiseGateThreshold"@ {
            Some(ChannelParam::NoiseGateThreshold)
        } else if name == "noiseGateRange"@ {
            Some(ChannelParam::NoiseGateRange)
        } else if name == "noiseGateAttack"@ {
            Some(ChannelParam::NoiseGateAttack)
        } else if name == "noiseGateHold"@ {
            Some(ChannelParam::NoiseGateHold)
        } else if name == "noiseGateRelease"@ {
            Some(ChannelParam::NoiseGateRelease)
        } else if name == "noiseGateHysteresis"@ {
            Some(ChannelParam::NoiseGateHysteresis)
        } else if name == "hpfOn"@ {
            Some(ChannelParam::HpfOn)
        } else if name == "hpfFrequency"@ {
            Some(ChannelParam::HpfFrequency)
        } else if name == "hpfSlope"@ {
            Some(ChannelParam::HpfSlope)
        } else if name == "hpfLowerOn"@ {
            Some(ChannelParam::HpfLowerOn)
        } else if name == "hpfHigherOn"@ {
            Some(ChannelParam::HpfHigherOn)
        } else if name == "aphexOn"@ {
            Some(ChannelParam::AphexOn)
        } else if name == "aphexAEMix"@ {
            Some(ChannelParam::AphexAeMix)
        } else if name == "aphexAETune"@ {
            Some(ChannelParam::AphexAeTune)
        } else if name == "aphexBBDrive"@ {
            Some(ChannelParam::AphexBbDrive)
        } else if name == "aphexBBTune"@ {
            Some(ChannelParam::AphexBbTune)
        } else if name == "channelPanOn"@ {
            Some(ChannelParam::PanOn)
        } else if name == "channelPan"@ {
            Some(ChannelParam::Pan)
        } else if name == "channelPanL"@ {
            Some(ChannelParam::PanL)
        } else if name == "channelPanR"@ {
            Some(ChannelParam::PanR)
        } else if name == "channelPanMode"@ {
            Some(ChannelParam::PanMode)
        } else if name == "channelDepth"@ {
            Some(ChannelParam::Depth)
        } else if name == "channelSparkle"@ {
            Some(ChannelParam::Sparkle)
        } else if name == "channelPunch"@ {
            Some(ChannelParam::Punch)
        } else if name == "channelAdvancedProcessing"@ {
            Some(ChannelParam::AdvancedProcessing)
        } else if name == "channelBypassProcessing"@ {
            Some(ChannelParam::BypassProcessing)
        } else if name == "channelCurrentFxPreset"@ {
            Some(ChannelParam::CurrentFxPreset)
        } else if name == "channelListenSource"@ {
            Some(ChannelParam::ListenSource)
        } else if name == "channelTalkbackEnable"@ {
            Some(ChannelParam::TalkbackEnable)
        } else if name == "channelWirelessMute"@ {
            Some(ChannelParam::WirelessMute)
        } else if name == "channelIndex"@ {
            Some(ChannelParam::ChannelIndex)
        } else {
            None
        }
    }

    /// The parameter as events report it: its wire name, and whether it is a
    /// typed variant.
    pub open spec fn model(self) -> ParamModel {
        ParamModel { name: self.wire_name(), typed: !(self is Other) }
    }

    /// The parameter a wire name decodes to, as events report it: the name,
    /// typed exactly when a typed variant carries it.
    #[verifier::opaque]
    pub open spec fn name_model(name: Seq<char>) -> ParamModel {
        ParamModel { name, typed: Self::known(name) is Some }
    }

    /// Map a wire property name to its typed [`ChannelParam`] variant if known, without
    /// allocating.
    pub fn from_known_name(name: &str) -> (r: Option<ChannelParam>)
        ensures
            r == Self::known(name@),
            r matches Some(p) ==> p.wire_name() == name@,
            r matches Some(p) ==> p.model() == Self::name_model(name@),
    {
        proof {
            reveal(ChannelParam::name_model);
        }
        if str_eq(name, "eqOn") {
            return Some(ChannelParam::EqOn);
        }
        if str_eq(name, "eqLowOn") {
            return Some(ChannelParam::EqLowOn);
        }
        if str_eq(name, "eqLowGain") {
            return Some(ChannelParam::EqLowGain);
        }
        if str_eq(name, "eqLowQ") {
            return Some(ChannelParam::EqLowQ);
        }
        if str_eq(name, "eqLowShelf") {
            return Some(ChannelParam::EqLowShelf);
        }
        if str_eq(name, "eqMidOn") {
            return Some(ChannelParam::EqMidOn);
        }
        if str_eq(name, "eqMidGain") {
            return Some(ChannelParam::EqMidGain);
        }
        if str_eq(name, "eqMidQ") {
            return Some(ChannelParam::EqMidQ);
        }
        if str_eq(name, "eqMidBell") {
            return Some(ChannelParam::EqMidBell);
        }
        if str_eq(name, "eqHighOn") {
            return Some(ChannelParam::EqHighOn);
        }
        if str_eq(name, "eqHighGain") {
            return Some(ChannelParam::EqHighGain);
        }
        if str_eq(name, "eqHighQ") {
            return Some(ChannelParam::EqHighQ);
        }
        if str_eq(name, "eqHighBell") {
            return Some(ChannelParam::EqHighBell);
        }
        if str_eq(name, "compressorOn") {
            return Some(ChannelParam::CompressorOn);
        }
        if str_eq(name, "compressorThreshold") {
            return Some(ChannelParam::CompressorThreshold);
        }
        if str_eq(name, "compressorRatio") {
            return Some(ChannelParam::CompressorRatio);
        }
        if str_eq(name, "compressorAttack") {
            return Some(ChannelParam::CompressorAttack);
        }
        if str_eq(name, "compressorRelease") {
            return Some(ChannelParam::CompressorRelease);
        }
        if str_eq(name, "compressorGain") {
            return Some(ChannelParam::CompressorGain);
        }
        if str_eq(name, "deesserOn") {
            return Some(ChannelParam::DeesserOn);
        }
        if str_eq(name, "deesserThreshold") {
            return Some(ChannelParam::DeesserThreshold);
        }
        if str_eq(name, "deesserRatio") {
            return Some(ChannelParam::DeesserRatio);
        }
        if str_eq(name, "deesserAttack") {
            return Some(ChannelParam::DeesserAttack);
        }
        if str_eq(name, "deesserRelease") {
            return Some(ChannelParam::DeesserRelease);
        }
        if str_eq(name, "deesserGain") {
            return Some(ChannelParam::DeesserGain);
        }
        if str_eq(name, "deesserFrequency") {
            return Some(ChannelParam::DeesserFrequency);
        }
        if str_eq(name, "noiseGateOn") {
            return Some(ChannelParam::NoiseGateOn);
        }
        if str_eq(name, "noiseGateThreshold") {
            return Some(ChannelParam::NoiseGateThreshold);
        }
        if str_eq(name, "noiseGateRange") {
            return Some(ChannelParam::NoiseGateRange);
        }
        if str_eq(name, "noiseGateAttack") {
            return Some(ChannelParam::NoiseGateAttack);
        }
        if str_eq(name, "noiseGateHold") {
            return Some(ChannelParam::NoiseGateHold);
        }
        if str_eq(name, "noiseGateRelease") {
            return Some(ChannelParam::NoiseGateRelease);
        }
        if str_eq(name, "noiseGateHysteresis") {
            return Some(ChannelParam::NoiseGateHysteresis);
        }
        if str_eq(name, "hpfOn") {
            return Some(ChannelParam::HpfOn);
        }
        if str_eq(name, "hpfFrequency") {
            return Some(ChannelParam::HpfFrequency);
        }
        if str_eq(name, "hpfSlope") {
            return Some(ChannelParam::HpfSlope);
        }
        if str_eq(name, "hpfLowerOn") {
            return Some(ChannelParam::HpfLowerOn);
        }
        if str_eq(name, "hpfHigherOn") {
            return Some(ChannelParam::HpfHigherOn);
        }
        if str_eq(name, "aphexOn") {
            return Some(ChannelParam::AphexOn);
        }
        if str_eq(name, "aphexAEMix") {
            return Some(ChannelParam::AphexAeMix);
        }
        if str_eq(name, "aphexAETune") {
            return Some(ChannelParam::AphexAeTune);
        }
        if str_eq(name, "aphexBBDrive") {
            return Some(ChannelParam::AphexBbDrive);
        }
        if str_eq(name, "aphexBBTune") {
            return Some(ChannelParam::AphexBbTune);
        }
        if str_eq(name, "channelPanOn") {
            return Some(ChannelParam::PanOn);
        }
        if str_eq(name, "channelPan") {
            return Some(ChannelParam::Pan);
        }
        if str_eq(name, "channelPanL") {
            return Some(ChannelParam::PanL);
        }
        if str_eq(name, "channelPanR") {
            return Some(ChannelParam::PanR);
        }
        if str_eq(name, "channelPanMode") {
            return Some(ChannelParam::PanMode);
        }
        if str_eq(name, "channelDepth") {
            return Some(ChannelParam::Depth);
        }
        if str_eq(name, "channelSparkle") {
            return Some(ChannelParam::Sparkle);
        }
        if str_eq(name, "channelPunch") {
            return Some(ChannelParam::Punch);
        }
        if str_eq(name, "channelAdvancedProcessing") {
            return Some(ChannelParam::AdvancedProcessing);
        }
        if str_eq(name, "channelBypassProcessing") {
            return Some(ChannelParam::BypassProcessing);
        }
        if str_eq(name, "channelCurrentFxPreset") {
            return Some(ChannelParam::CurrentFxPreset);
        }
        if str_eq(name, "channelListenSource") {
            return Some(ChannelParam::ListenSource);
        }
        if str_eq(name, "channelTalkbackEnable") {
            return Some(ChannelParam::TalkbackEnable);
        }
        if str_eq(name, "channelWirelessMute") {
            return Some(ChannelParam::WirelessMute);
        }
        if str_eq(name, "channelIndex") {
            return Some(ChannelParam::ChannelIndex);
        }
        None
    }

    /// Check if a wire property name matches a known [`ChannelParam`] variant without
    /// allocating.
    pub fn is_known_name(name: &str) -> (r: bool)
        ensures
            r == Self::known(name@) is Some,
    {
        Self::from_known_name(name).is_some()
    }

    /// Map a wire property name to its typed [`ChannelParam`] variant. Unknown names map
    /// to [`ChannelParam::Other`], so this is total (never fails).
    pub fn from_name(name: &str) -> (r: ChannelParam)
        ensures
            match Self::known(name@) {
                Some(p) => r == p,
                None => r matches ChannelParam::Other(s) && s@ == name@,
            },
            r.wire_name() == name@,
            r.model() == Self::name_model(name@),
    {
        proof {
            reveal(ChannelParam::name_model);
        }
        match Self::from_known_name(name) {
            Some(p) => p,
            None => ChannelParam::Other(name.to_owned()),
        }
    }

    /// The wire property name for this parameter (inverse of [`ChannelParam::from_name`]).
    pub fn as_str(&self) -> (r: &str)
        ensures
            r@ == self.wire_name(),
    {
        match self {
            ChannelParam::EqOn => "eqOn",
            ChannelParam::EqLowOn => "eqLowOn",
            ChannelParam::EqLowGain => "eqLowGain",
            ChannelParam::EqLowQ => "eqLowQ",
            ChannelParam::EqLowShelf => "eqLowShelf",
            ChannelParam::EqMidOn => "eqMidOn",
            ChannelParam::EqMidGain => "eqMidGain",
            ChannelParam::EqMidQ => "eqMidQ",
            ChannelParam::EqMidBell => "eqMidBell",
            ChannelParam::EqHighOn => "eqHighOn",
            ChannelParam::EqHighGain => "eqHighGain",
            ChannelParam::EqHighQ => "eqHighQ",
            ChannelParam::EqHighBell => "eqHighBell",
            ChannelParam::CompressorOn => "compressorOn",
            ChannelParam::CompressorThreshold => "compressorThreshold",
            ChannelParam::CompressorRatio => "compressorRatio",
            ChannelParam::CompressorAttack => "compressorAttack",
            ChannelParam::CompressorRelease => "compressorRelease",
            ChannelParam::CompressorGain => "compressorGain",
            ChannelParam::DeesserOn => "deesserOn",
            ChannelParam::DeesserThreshold => "deesserThreshold",
            ChannelParam::DeesserRatio => "deesserRatio",
            ChannelParam::DeesserAttack => "deesserAttack",
            ChannelParam::DeesserRelease => "deesserRelease",
            ChannelParam::DeesserGain => "deesserGain",
            ChannelParam::DeesserFrequency => "deesserFrequency",
            ChannelParam::NoiseGateOn => "noiseGateOn",
            ChannelParam::NoiseGateThreshold => "noiseGateThreshold",
            ChannelParam::NoiseGateRange => "noiseGateRange",
            ChannelParam::NoiseGateAttack => "noiseGateAttack",
            ChannelParam::NoiseGateHold => "noiseGateHold",
            ChannelParam::NoiseGateRelease => "noiseGateRelease",
            ChannelParam::NoiseGateHysteresis => "noiseGateHysteresis",
            ChannelParam::HpfOn => "hpfOn",
            ChannelParam::HpfFrequency => "hpfFrequency",
            ChannelParam::HpfSlope => "hpfSlope",
            ChannelParam::HpfLowerOn => "hpfLowerOn",
            ChannelParam::HpfHigherOn => "hpfHigherOn",
            ChannelParam::AphexOn => "aphexOn",
            ChannelParam::AphexAeMix => "aphexAEMix",
            ChannelParam::AphexAeTune => "aphexAETune",
            ChannelParam::AphexBbDrive => "aphexBBDrive",
            ChannelParam::AphexBbTune => "aphexBBTune",
            ChannelParam::PanOn => "channelPanOn",
            ChannelParam::Pan => "channelPan",
            ChannelParam::PanL => "channelPanL",
            ChannelParam::PanR => "channelPanR",
            ChannelParam::PanMode => "channelPanMode",
            ChannelParam::Depth => "channelDepth",
            ChannelParam::Sparkle => "channelSparkle",
            ChannelParam::Punch => "channelPunch",
            ChannelParam::AdvancedProcessing => "channelAdvancedProcessing",
            ChannelParam::BypassProcessing => "channelBypassProcessing",
            ChannelParam::CurrentFxPreset => "channelCurrentFxPreset",
            ChannelParam::ListenSource => "channelListenSource",
            ChannelParam::TalkbackEnable => "channelTalkbackEnable",
            ChannelParam::WirelessMute => "channelWirelessMute",
            ChannelParam::ChannelIndex => "channelIndex",
            ChannelParam::Other(s) => s.as_str(),
        }
    }

    /// The wire property name as an owned string.
    pub fn to_string(&self) -> (r: String)
        ensures
            r@ == self.wire_name(),
    {
        self.as_str().to_owned()
    }

    /// `true` if this is a typed variant (not [`ChannelParam::Other`]).
    pub fn is_known(&self) -> (r: bool)
        ensures
            r == !(self is Other),
    {
        !matches!(self, ChannelParam::Other(_))
    }
}

impl Clone for ChannelParam {
    fn clone(&self) -> (r: Self)
        ensures
            r.wire_name() == self.wire_name(),
            self is Other ==> r is Other,
            !(self is Other) ==> r == *self,
    {
        match self {
            ChannelParam::EqOn => ChannelParam::EqOn,
            ChannelParam::EqLowOn => ChannelParam::EqLowOn,
            ChannelParam::EqLowGain => ChannelParam::EqLowGain,
            ChannelParam::EqLowQ => ChannelParam::EqLowQ,
            ChannelParam::EqLowShelf => ChannelParam::EqLowShelf,
            ChannelParam::EqMidOn => ChannelParam::EqMidOn,
            ChannelParam::EqMidGain => ChannelParam::EqMidGain,
            ChannelParam::EqMidQ => ChannelParam::EqMidQ,
            ChannelParam::EqMidBell => ChannelParam::EqMidBell,
            ChannelParam::EqHighOn => ChannelParam::EqHighOn,
            ChannelParam::EqHighGain => ChannelParam::EqHighGain,
            ChannelParam::EqHighQ => ChannelParam::EqHighQ,
            ChannelParam::EqHighBell => ChannelParam::EqHighBell,
            ChannelParam::CompressorOn => ChannelParam::CompressorOn,
            ChannelParam::CompressorThreshold => ChannelParam::CompressorThreshold,
            ChannelParam::CompressorRatio => ChannelParam::CompressorRatio,
            ChannelParam::CompressorAttack => ChannelParam::CompressorAttack,
            ChannelParam::CompressorRelease => ChannelParam::CompressorRelease,
            ChannelParam::CompressorGain => ChannelParam::CompressorGain,
            ChannelParam::DeesserOn => ChannelParam::DeesserOn,
            ChannelParam::DeesserThreshold => ChannelParam::DeesserThreshold,
            ChannelParam::DeesserRatio => ChannelParam::DeesserRatio,
            ChannelParam::DeesserAttack => ChannelParam::DeesserAttack,
            ChannelParam::DeesserRelease => ChannelParam::DeesserRelease,
            ChannelParam::DeesserGain => ChannelParam::DeesserGain,
            ChannelParam::DeesserFrequency => ChannelParam::DeesserFrequency,
            ChannelParam::NoiseGateOn => ChannelParam::NoiseGateOn,
            ChannelParam::NoiseGateThreshold => ChannelParam::NoiseGateThreshold,
            ChannelParam::NoiseGateRange => ChannelParam::NoiseGateRange,
            ChannelParam::NoiseGateAttack => ChannelParam::NoiseGateAttack,
            ChannelParam::NoiseGateHold => ChannelParam::NoiseGateHold,
            ChannelParam::NoiseGateRelease => ChannelParam::NoiseGateRelease,
            ChannelParam::NoiseGateHysteresis => ChannelParam::NoiseGateHysteresis,
            ChannelParam::HpfOn => ChannelParam::HpfOn,
            ChannelParam::HpfFrequency => ChannelParam::HpfFrequency,
            ChannelParam::HpfSlope => ChannelParam::HpfSlope,
            ChannelParam::HpfLowerOn => ChannelParam::HpfLowerOn,
            ChannelParam::HpfHigherOn => ChannelParam::HpfHigherOn,
            ChannelParam::AphexOn => ChannelParam::AphexOn,
            ChannelParam::AphexAeMix => ChannelParam::AphexAeMix,
            ChannelParam::AphexAeTune => ChannelParam::AphexAeTune,
            ChannelParam::AphexBbDrive => ChannelParam::AphexBbDrive,
            ChannelParam::AphexBbTune => ChannelParam::AphexBbTune,
            ChannelParam::PanOn => ChannelParam::PanOn,
            ChannelParam::Pan => ChannelParam::Pan,
            ChannelParam::PanL => ChannelParam::PanL,
            ChannelParam::PanR => ChannelParam::PanR,
            ChannelParam::PanMode => ChannelParam::PanMode,
            ChannelParam::Depth => ChannelParam::Depth,
            ChannelParam::Sparkle => ChannelParam::Sparkle,
            ChannelParam::Punch => ChannelParam::Punch,
            ChannelParam::AdvancedProcessing => ChannelParam::AdvancedProcessing,
            ChannelParam::BypassProcessing => ChannelParam::BypassProcessing,
            ChannelParam::CurrentFxPreset => ChannelParam::CurrentFxPreset,
            ChannelParam::ListenSource => ChannelParam::ListenSource,
            ChannelParam::TalkbackEnable => ChannelParam::TalkbackEnable,
            ChannelParam::WirelessMute => ChannelParam::WirelessMute,
            ChannelParam::ChannelIndex => ChannelParam::ChannelIndex,
            ChannelParam::Other(s) => ChannelParam::Other(s.clone()),
        }
    }
}

/// Every typed [`ChannelParam`] variant is found again from its wire name.
pub proof fn lemma_channel_param_name_round_trip(p: ChannelParam)
    requires
        !(p is Other),
    ensures
        ChannelParam::known(p.wire_name()) == Some(p),
        no_nul(p.wire_name()),
{
    reveal_strlit("eqOn");
    reveal_strlit("eqLowOn");
    reveal_strlit("eqLowGain");
    reveal_strlit("eqLowQ");
    reveal_strlit("eqLowShelf");
    reveal_strlit("eqMidOn");
    reveal_strlit("eqMidGain");
    reveal_strlit("eqMidQ");
    reveal_strlit("eqMidBell");
    reveal_strlit("eqHighOn");
    reveal_strlit("eqHighGain");
    reveal_strlit("eqHighQ");
    reveal_strlit("eqHighBell");
    reveal_strlit("compressorOn");
    reveal_strlit("compressorThreshold");
    reveal_strlit("compressorRatio");
    reveal_strlit("compressorAttack");
    reveal_strlit("compressorRelease");
    reveal_strlit("compressorGain");
    reveal_strlit("deesserOn");
    reveal_strlit("deesserThreshold");
    reveal_strlit("deesserRatio");
    reveal_strlit("deesserAttack");
    reveal_strlit("deesserRelease");
    reveal_strlit("deesserGain");
    reveal_strlit("deesserFrequency");
    reveal_strlit("noiseGateOn");
    reveal_strlit("noiseGateThreshold");
    reveal_strlit("noiseGateRange");
    reveal_strlit("noiseGateAttack");
    reveal_strlit("noiseGateHold");
    reveal_strlit("noiseGateRelease");
    reveal_strlit("noiseGateHysteresis");
    reveal_strlit("hpfOn");
    reveal_strlit("hpfFrequency");
    reveal_strlit("hpfSlope");
    reveal_strlit("hpfLowerOn");
    reveal_strlit("hpfHigherOn");
    reveal_strlit("aphexOn");
    reveal_strlit("aphexAEMix");
    reveal_strlit("aphexAETune");
    reveal_strlit("aphexBBDrive");
    reveal_strlit("aphexBBTune");
    reveal_strlit("channelPanOn");
    reveal_strlit("channelPan");
    reveal_strlit("channelPanL");
    reveal_strlit("channelPanR");
    reveal_strlit("channelPanMode");
    reveal_strlit("channelDepth");
    reveal_strlit("channelSparkle");
    reveal_strlit("channelPunch");
    reveal_strlit("channelAdvancedProcessing");
    reveal_strlit("channelBypassProcessing");
    reveal_strlit("channelCurrentFxPreset");
    reveal_strlit("channelListenSource");
    reveal_strlit("channelTalkbackEnable");
    reveal_strlit("channelWirelessMute");
    reveal_strlit("channelIndex");
    assert("eqOn"@.len() == 4);
    assert("eqLowOn"@.len() == 7);
    assert("eqLowGain"@.len() == 9);
    assert("eqLowQ"@.len() == 6);
    assert("eqLowShelf"@.len() == 10);
    assert("eqMidOn"@.len() == 7);
    assert("eqMidGain"@.len() == 9);
    assert("eqMidQ"@.len() == 6);
    assert("eqMidBell"@.len() == 9);
    assert("eqHighOn"@.len() == 8);
    assert("eqHighGain"@.len() == 10);
    assert("eqHighQ"@.len() == 7);
    assert("eqHighBell"@.len() == 10);
    assert("compressorOn"@.len() == 12);
    assert("compressorThreshold"@.len() == 19);
    assert("compressorRatio"@.len() == 15);
    assert("compressorAttack"@.len() == 16);
    assert("compressorRelease"@.len() == 17);
    assert("compressorGain"@.len() == 14);
    assert("deesserOn"@.len() == 9);
    assert("deesserThreshold"@.len() == 16);
    assert("deesserRatio"@.len() == 12);
    assert("deesserAttack"@.len() == 13);
    assert("deesserRelease"@.len() == 14);
    assert("deesserGain"@.len() == 11);
    assert("deesserFrequency"@.len() == 16);
    assert("noiseGateOn"@.len() == 11);
    assert("noiseGateThreshold"@.len() == 18);
    assert("noiseGateRange"@.len() == 14);
    assert("noiseGateAttack"@.len() == 15);
    assert("noiseGateHold"@.len() == 13);
    assert("noiseGateRelease"@.len() == 16);
    assert("noiseGateHysteresis"@.len() == 19);
    assert("hpfOn"@.len() == 5);
    assert("hpfFrequency"@.len() == 12);
    assert("hpfSlope"@.len() == 8);
    assert("hpfLowerOn"@.len() == 10);
    assert("hpfHigherOn"@.len() == 11);
    assert("aphexOn"@.len() == 7);
    assert("aphexAEMix"@.len() == 10);
    assert("aphexAETune"@.len() == 11);
    assert("aphexBBDrive"@.len() == 12);
    assert("aphexBBTune"@.len() == 11);
    assert("channelPanOn"@.len() == 12);
    assert("channelPan"@.len() == 10);
    assert("channelPanL"@.len() == 11);
    assert("channelPanR"@.len() == 11);
    assert("channelPanMode"@.len() == 14);
    assert("channelDepth"@.len() == 12);
    assert("channelSparkle"@.len() == 14);
    assert("channelPunch"@.len() == 12);
    assert("channelAdvancedProcessing"@.len() == 25);
    assert("channelBypassProcessing"@.len() == 23);
    assert("channelCurrentFxPreset"@.len() == 22);
    assert("channelListenSource"@.len() == 19);
    assert("channelTalkbackEnable"@.len() == 21);
    assert("channelWirelessMute"@.len() == 19);
    assert("channelIndex"@.len() == 12);
    assert("eqLowOn"@[2] != "eqMidOn"@[2]);
    assert("eqLowOn"@[2] != "eqHighQ"@[2]);
    assert("eqLowOn"@[0] != "aphexOn"@[0]);
    assert("eqLowGain"@[2] != "eqMidGain"@[2]);
    assert("eqLowGain"@[2] != "eqMidBell"@[2]);
    assert("eqLowGain"@[0] != "deesserOn"@[0]);
    assert("eqLowQ"@[2] != "eqMidQ"@[2]);
    assert("eqLowShelf"@[2] != "eqHighGain"@[2]);
    assert("eqLowShelf"@[2] != "eqHighBell"@[2]);
    assert("eqLowShelf"@[0] != "hpfLowerOn"@[0]);
    assert("eqLowShelf"@[0] != "aphexAEMix"@[0]);
    assert("eqLowShelf"@[0] != "channelPan"@[0]);
    assert("eqMidOn"@[2] != "eqHighQ"@[2]);
    assert("eqMidOn"@[0] != "aphexOn"@[0]);
    assert("eqMidGain"@[5] != "eqMidBell"@[5]);
    assert("eqMidGain"@[0] != "deesserOn"@[0]);
    assert("eqMidBell"@[0] != "deesserOn"@[0]);
    assert("eqHighOn"@[0] != "hpfSlope"@[0]);
    assert("eqHighGain"@[6] != "eqHighBell"@[6]);
    assert("eqHighGain"@[0] != "hpfLowerOn"@[0]);
    assert("eqHighGain"@[0] != "aphexAEMix"@[0]);
    assert("eqHighGain"@[0] != "channelPan"@[0]);
    assert("eqHighQ"@[0] != "aphexOn"@[0]);
    assert("eqHighBell"@[0] != "hpfLowerOn"@[0]);
    assert("eqHighBell"@[0] != "aphexAEMix"@[0]);
    assert("eqHighBell"@[0] != "channelPan"@[0]);
    assert("compressorOn"@[0] != "deesserRatio"@[0]);
    assert("compressorOn"@[0] != "hpfFrequency"@[0]);
    assert("compressorOn"@[0] != "aphexBBDrive"@[0]);
    assert("compressorOn"@[1] != "channelPanOn"@[1]);
    assert("compressorOn"@[1] != "channelDepth"@[1]);
    assert("compressorOn"@[1] != "channelPunch"@[1]);
    assert("compressorOn"@[1] != "channelIndex"@[1]);
    assert("compressorThreshold"@[0] != "noiseGateHysteresis"@[0]);
    assert("compressorThreshold"@[1] != "channelListenSource"@[1]);
    assert("compressorThreshold"@[1] != "channelWirelessMute"@[1]);
    assert("compressorRatio"@[0] != "noiseGateAttack"@[0]);
    assert("compressorAttack"@[0] != "deesserThreshold"@[0]);
    assert("compressorAttack"@[0] != "deesserFrequency"@[0]);
    assert("compressorAttack"@[0] != "noiseGateRelease"@[0]);
    assert("compressorGain"@[0] != "deesserRelease"@[0]);
    assert("compressorGain"@[0] != "noiseGateRange"@[0]);
    assert("compressorGain"@[1] != "channelPanMode"@[1]);
    assert("compressorGain"@[1] != "channelSparkle"@[1]);
    assert("deesserThreshold"@[7] != "deesserFrequency"@[7]);
    assert("deesserThreshold"@[0] != "noiseGateRelease"@[0]);
    assert("deesserRatio"@[0] != "hpfFrequency"@[0]);
    assert("deesserRatio"@[0] != "aphexBBDrive"@[0]);
    assert("deesserRatio"@[0] != "channelPanOn"@[0]);
    assert("deesserRatio"@[0] != "channelDepth"@[0]);
    assert("deesserRatio"@[0] != "channelPunch"@[0]);
    assert("deesserRatio"@[0] != "channelIndex"@[0]);
    assert("deesserAttack"@[0] != "noiseGateHold"@[0]);
    assert("deesserRelease"@[0] != "noiseGateRange"@[0]);
    assert("deesserRelease"@[0] != "channelPanMode"@[0]);
    assert("deesserRelease"@[0] != "channelSparkle"@[0]);
    assert("deesserGain"@[0] != "noiseGateOn"@[0]);
    assert("deesserGain"@[0] != "hpfHigherOn"@[0]);
    assert("deesserGain"@[0] != "aphexAETune"@[0]);
    assert("deesserGain"@[0] != "aphexBBTune"@[0]);
    assert("deesserGain"@[0] != "channelPanL"@[0]);
    assert("deesserGain"@[0] != "channelPanR"@[0]);
    assert("deesserFrequency"@[0] != "noiseGateRelease"@[0]);
    assert("noiseGateOn"@[0] != "hpfHigherOn"@[0]);
    assert("noiseGateOn"@[0] != "aphexAETune"@[0]);
    assert("noiseGateOn"@[0] != "aphexBBTune"@[0]);
    assert("noiseGateOn"@[0] != "channelPanL"@[0]);
    assert("noiseGateOn"@[0] != "channelPanR"@[0]);
    assert("noiseGateRange"@[0] != "channelPanMode"@[0]);
    assert("noiseGateRange"@[0] != "channelSparkle"@[0]);
    assert("noiseGateHysteresis"@[0] != "channelListenSource"@[0]);
    assert("noiseGateHysteresis"@[0] != "channelWirelessMute"@[0]);
    assert("hpfFrequency"@[0] != "aphexBBDrive"@[0]);
    assert("hpfFrequency"@[0] != "channelPanOn"@[0]);
    assert("hpfFrequency"@[0] != "channelDepth"@[0]);
    assert("hpfFrequency"@[0] != "channelPunch"@[0]);
    assert("hpfFrequency"@[0] != "channelIndex"@[0]);
    assert("hpfLowerOn"@[0] != "aphexAEMix"@[0]);
    assert("hpfLowerOn"@[0] != "channelPan"@[0]);
    assert("hpfHigherOn"@[0] != "aphexAETune"@[0]);
    assert("hpfHigherOn"@[0] != "aphexBBTune"@[0]);
    assert("hpfHigherOn"@[0] != "channelPanL"@[0]);
    assert("hpfHigherOn"@[0] != "channelPanR"@[0]);
    assert("aphexAEMix"@[0] != "channelPan"@[0]);
    assert("aphexAETune"@[5] != "aphexBBTune"@[5]);
    assert("aphexAETune"@[0] != "channelPanL"@[0]);
    assert("aphexAETune"@[0] != "channelPanR"@[0]);
    assert("aphexBBDrive"@[0] != "channelPanOn"@[0]);
    assert("aphexBBDrive"@[0] != "channelDepth"@[0]);
    assert("aphexBBDrive"@[0] != "channelPunch"@[0]);
    assert("aphexBBDrive"@[0] != "channelIndex"@[0]);
    assert("aphexBBTune"@[0] != "channelPanL"@[0]);
    assert("aphexBBTune"@[0] != "channelPanR"@[0]);
    assert("channelPanOn"@[7] != "channelDepth"@[7]);
    assert("channelPanOn"@[8] != "channelPunch"@[8]);
    assert("channelPanOn"@[7] != "channelIndex"@[7]);
    assert("channelPanL"@[10] != "channelPanR"@[10]);
    assert("channelPanMode"@[7] != "channelSparkle"@[7]);
    assert("channelDepth"@[7] != "channelPunch"@[7]);
    assert("channelDepth"@[7] != "channelIndex"@[7]);
    assert("channelPunch"@[7] != "channelIndex"@[7]);
    assert("channelListenSource"@[7] != "channelWirelessMute"@[7]);
}

} // verus!
