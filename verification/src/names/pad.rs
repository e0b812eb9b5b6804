//! [`PadParam`]: the per-pad `PAD`-node parameter family (nested under `SOUNDPADS`).

use vstd::prelude::*;

use crate::names::ParamModel;
use crate::text::{no_nul, str_eq};

verus! {

/// A sound-pad parameter: one of the flat properties the device carries on
/// one `PAD` node (nested under the single root `SOUNDPADS` node, one per
/// pad). Pads are addressed by index; `padIdx` echoes that index. Covers the
/// loaded sample + playback envelope, per-pad mixer routing (the
/// `padMixerBackChannel*` sends), the trigger / MIDI mapping
/// (`padTrigger*`), the SIP / phone-book binding (`padSIP*`), gain, colour
/// and the effects input.
///
/// `padProgressRequestSignal` is a request/command pulse (a JUCE binary blob),
/// not a scalar; it rides byte-faithfully like any other value.
#[derive(Debug, PartialEq, Eq, Hash)]
#[non_exhaustive]
pub enum PadParam {
    Idx,
    ColourIndex,
    Name,
    Type,
    IsInternal,
    RcvSyncPadType,
    FilePath,
    Active,
    Loop,
    Replay,
    PlayMode,
    Progress,
    ProgressRequestSignal,
    Gain,
    EnvStart,
    EnvStop,
    EnvFadeIn,
    EnvFadeOut,
    MixerMode,
    MixerTriggerMode,
    MixerCensorCustom,
    MixerCensorFilePath,
    MixerFadeInSeconds,
    MixerFadeOutSeconds,
    MixerFadeExcludeHost,
    MixerBackChannelMic2,
    MixerBackChannelMic3,
    MixerBackChannelMic4,
    MixerBackChannelUsb1Comms,
    MixerBackChannelUsb2Main,
    MixerBackChannelBluetooth,
    MixerBackChannelCallMe1,
    MixerBackChannelCallMe2,
    MixerBackChannelCallMe3,
    EffectInput,
    EffectTriggerMode,
    SipPhoneBookEntry,
    SipCallSlot,
    SipFlashState,
    SipQdLock,
    TriggerMode,
    TriggerSend,
    TriggerType,
    TriggerCustom,
    TriggerControl,
    TriggerChannel,
    TriggerOn,
    TriggerOff,
    /// A property without a typed [`PadParam`] identifier yet. Holds the raw wire
    /// name; the value still rides in the carrying event/command.
    Other(String),
}

impl PadParam {
    /// The wire property name.
    pub open spec fn wire_name(self) -> Seq<char> {
        match self {
            PadParam::Idx => "padIdx"@,
            PadParam::ColourIndex => "padColourIndex"@,
            PadParam::Name => "padName"@,
            PadParam::Type => "padType"@,
            PadParam::IsInternal => "padIsInternal"@,
            PadParam::RcvSyncPadType => "padRCVSyncPadType"@,
            PadParam::FilePath => "padFilePath"@,
            PadParam::Active => "padActive"@,
            PadParam::Loop => "padLoop"@,
            PadParam::Replay => "padReplay"@,
            PadParam::PlayMode => "padPlayMode"@,
            PadParam::Progress => "padProgress"@,
            PadParam::ProgressRequestSignal => "padProgressRequestSignal"@,
            PadParam::Gain => "padGain"@,
            PadParam::EnvStart => "padEnvStart"@,
            PadParam::EnvStop => "padEnvStop"@,
            PadParam::EnvFadeIn => "padEnvFadeIn"@,
            PadParam::EnvFadeOut => "padEnvFadeOut"@,
            PadParam::MixerMode => "padMixerMode"@,
            PadParam::MixerTriggerMode => "padMixerTriggerMode"@,
            PadParam::MixerCensorCustom => "padMixerCensorCustom"@,
            PadParam::MixerCensorFilePath => "padMixerCensorFilePath"@,
            PadParam::MixerFadeInSeconds => "padMixerFadeInSeconds"@,
            PadParam::MixerFadeOutSeconds => "padMixerFadeOutSeconds"@,
            PadParam::MixerFadeExcludeHost => "padMixerFadeExcludeHost"@,
            PadParam::MixerBackChannelMic2 => "padMixerBackChannelMic2"@,
            PadParam::MixerBackChannelMic3 => "padMixerBackChannelMic3"@,
            PadParam::MixerBackChannelMic4 => "padMixerBackChannelMic4"@,
            PadParam::MixerBackChannelUsb1Comms => "padMixerBackChannelUsb1Comms"@,
            PadParam::MixerBackChannelUsb2Main => "padMixerBackChannelUsb2Main"@,
            PadParam::MixerBackChannelBluetooth => "padMixerBackChannelBluetooth"@,
            PadParam::MixerBackChannelCallMe1 => "padMixerBackChannelCallMe1"@,
            PadParam::MixerBackChannelCallMe2 => "padMixerBackChannelCallMe2"@,
            PadParam::MixerBackChannelCallMe3 => "padMixerBackChannelCallMe3"@,
            PadParam::EffectInput => "padEffectInput"@,
            PadParam::EffectTriggerMode => "padEffectTriggerMode"@,
            PadParam::SipPhoneBookEntry => "padSIPPhoneBookEntry"@,
            PadParam::SipCallSlot => "padSIPCallSlot"@,
            PadParam::SipFlashState => "padSIPFlashState"@,
            PadParam::SipQdLock => "padSIPQdLock"@,
            PadParam::TriggerMode => "padTriggerMode"@,
            PadParam::TriggerSend => "padTriggerSend"@,
            PadParam::TriggerType => "padTriggerType"@,
            PadParam::TriggerCustom => "padTriggerCustom"@,
            PadParam::TriggerControl => "padTriggerControl"@,
            PadParam::TriggerChannel => "padTriggerChannel"@,
            PadParam::TriggerOn => "padTriggerOn"@,
            PadParam::TriggerOff => "padTriggerOff"@,
            PadParam::Other(s) => s@,
        }
    }

    /// The typed variant a wire name denotes, if any.
    pub open spec fn known(name: Seq<char>) -> Option<PadParam> {
        if name == "padIdx"@ {
            Some(PadParam::Idx)
        } else if name == "padColourIndex"@ {
            Some(PadParam::ColourIndex)
        } else if name == "padName"@ {
            Some(PadParam::Name)
        } else if name == "padType"@ {
            Some(PadParam::Type)
        } else if name == "padIsInternal"@ {
            Some(PadParam::IsInternal)
        } else if name == "padRCVSyncPadType"@ {
            Some(PadParam::RcvSyncPadType)
        } else if name == "padFilePath"@ {
            Some(PadParam::FilePath)
        } else if name == "padActive"@ {
            Some(PadParam::Active)
        } else if name == "padLoop"@ {
            Some(PadParam::Loop)
        } else if name == "padReplay"@ {
            Some(PadParam::Replay)
        } else if name == "padPlayMode"@ {
            Some(PadParam::PlayMode)
        } else if name == "padProgress"@ {
            Some(PadParam::Progress)
        } else if name == "padProgressRequestSignal"@ {
            Some(PadParam::ProgressRequestSignal)
        } else if name == "padGain"@ {
            Some(PadParam::Gain)
        } else if name == "padEnvStart"@ {
            Some(PadParam::EnvStart)
        } else if name == "padEnvStop"@ {
            Some(PadParam::EnvStop)
        } else if name == "padEnvFadeIn"@ {
            Some(PadParam::EnvFadeIn)
        } else if name == "padEnvFadeOut"@ {
            Some(PadParam::EnvFadeOut)
        } else if name == "padMixerMode"@ {
            Some(PadParam::MixerMode)
        } else if name == "padMixerTriggerMode"@ {
            Some(PadParam::MixerTriggerMode)
        } else if name == "padMixerCensorCustom"@ {
            Some(PadParam::MixerCensorCustom)
        } else if name == "padMixerCensorFilePath"@ {
            Some(PadParam::MixerCensorFilePath)
        } else if name == "padMixerFadeInSeconds"@ {
            Some(PadParam::MixerFadeInSeconds)
        } else if name == "padMixerFadeOutSeconds"@ {
            Some(PadParam::MixerFadeOutSeconds)
        } else if name == "padMixerFadeExcludeHost"@ {
            Some(PadParam::MixerFadeExcludeHost)
        } else if name == "padMixerBackChannelMic2"@ {
            Some(PadParam::MixerBackChannelMic2)
        } else if name == "padMixerBackChannelMic3"@ {
            Some(PadParam::MixerBackChannelMic3)
        } else if name == "padMixerBackChannelMic4"@ {
            Some(PadParam::MixerBackChannelMic4)
        } else if name == "padMixerBackChannelUsb1Comms"@ {
            Some(PadParam::MixerBackChannelUsb1Comms)
        } else if name == "padMixerBackChannelUsb2Main"@ {
            Some(PadParam::MixerBackChannelUsb2Main)
        } else if name == "padMixerBackChannelBluetooth"@ {
            Some(PadParam::MixerBackChannelBluetooth)
        } else if name == "padMixerBackChannelCallMe1"@ {
            Some(PadParam::MixerBackChannelCallMe1)
        } else if name == "padMixerBackChannelCallMe2"@ {
            Some(PadParam::MixerBackChannelCallMe2)
        } else if name == "padMixerBackChannelCallMe3"@ {
            Some(PadParam::MixerBackChannelCallMe3)
        } else if name == "padEffectInput"@ {
            Some(PadParam::EffectInput)
        } else if name == "padEffectTriggerMode"@ {
            Some(PadParam::EffectTriggerMode)
        } else if name == "padSIPPhoneBookEntry"@ {
            Some(PadParam::SipPhoneBookEntry)
        } else if name == "padSIPCallSlot"@ {
            Some(PadParam::SipCallSlot)
        } else if name == "padSIPFlashState"@ {
            Some(PadParam::SipFlashState)
        } else if name == "padSIPQdLock"@ {
            Some(PadParam::SipQdLock)
        } else if name == "padTriggerMode"@ {
            Some(PadParam::TriggerMode)
        } else if name == "padTriggerSend"@ {
            Some(PadParam::TriggerSend)
        } else if name == "padTriggerType"@ {
            Some(PadParam::TriggerType)
        } else if name == "padTriggerCustom"@ {
            Some(PadParam::TriggerCustom)
        } else if name == "padTriggerControl"@ {
            Some(PadParam::TriggerControl)
        } else if name == "padTriggerChannel"@ {
            Some(PadParam::TriggerChannel)
        } else if name == "padTriggerOn"@ {
            Some(PadParam::TriggerOn)
        } else if name == "padTriggerOff"@ {
            Some(PadParam::TriggerOff)
        } else {
            None
        }
    }

    /// The parameter as events report it: its wire name, and whether it is a
    /// typed variant.
    pub open spec fn model(self) -> ParamModel {
        ParamModel { name: self.wire_name(), typed: !(self is Other) }
    }

    /// The parameter a wire name decodes to, as events report it: the name,
    /// typed exactly when a typed variant carries it.
    #[verifier::opaque]
    pub open spec fn name_model(name: Seq<char>) -> ParamModel {
        ParamModel { name, typed: Self::known(name) is Some }
    }

    /// Map a wire property name to its typed [`PadParam`] variant if known, without
    /// allocating.
    pub fn from_known_name(name: &str) -> (r: Option<PadParam>)
        ensures
            r == Self::known(name@),
            r matches Some(p) ==> p.wire_name() == name@,
            r matches Some(p) ==> p.model() == Self::name_model(name@),
    {
        proof {
            reveal(PadParam::name_model);
        }
        if str_eq(name, "padIdx") {
            return Some(PadParam::Idx);
        }
        if str_eq(name, "padColourIndex") {
            return Some(PadParam::ColourIndex);
        }
        if str_eq(name, "padName") {
            return Some(PadParam::Name);
        }
        if str_eq(name, "padType") {
            return Some(PadParam::Type);
        }
        if str_eq(name, "padIsInternal") {
            return Some(PadParam::IsInternal);
        }
        if str_eq(name, "padRCVSyncPadType") {
            return Some(PadParam::RcvSyncPadType);
        }
        if str_eq(name, "padFilePath") {
            return Some(PadParam::FilePath);
        }
        if str_eq(name, "padActive") {
            return Some(PadParam::Active);
        }
        if str_eq(name, "padLoop") {
            return Some(PadParam::Loop);
        }
        if str_eq(name, "padReplay") {
            return Some(PadParam::Replay);
        }
        if str_eq(name, "padPlayMode") {
            return Some(PadParam::PlayMode);
        }
        if str_eq(name, "padProgress") {
            return Some(PadParam::Progress);
        }
        if str_eq(name, "padProgressRequestSignal") {
            return Some(PadParam::ProgressRequestSignal);
        }
        if str_eq(name, "padGain") {
            return Some(PadParam::Gain);
        }
        if str_eq(name, "padEnvStart") {
            return Some(PadParam::EnvStart);
        }
        if str_eq(name, "padEnvStop") {
            return Some(PadParam::EnvStop);
        }
        if str_eq(name, "padEnvFadeIn") {
            return Some(PadParam::EnvFadeIn);
        }
        if str_eq(name, "padEnvFadeOut") {
            return Some(PadParam::EnvFadeOut);
        }
        if str_eq(name, "padMixerMode") {
            return Some(PadParam::MixerMode);
        }
        if str_eq(name, "padMixerTriggerMode") {
            return Some(PadParam::MixerTriggerMode);
        }
        if str_eq(name, "padMixerCensorCustom") {
            return Some(PadParam::MixerCensorCustom);
        }
        if str_eq(name, "padMixerCensorFilePath") {
            return Some(PadParam::MixerCensorFilePath);
        }
        if str_eq(name, "padMixerFadeInSeconds") {
            return Some(PadParam::MixerFadeInSeconds);
        }
        if str_eq(name, "padMixerFadeOutSeconds") {
            return Some(PadParam::MixerFadeOutSeconds);
        }
        if str_eq(name, "padMixerFadeExcludeHost") {
            return Some(PadParam::MixerFadeExcludeHost);
        }
        if str_eq(name, "padMixerBackChannelMic2") {
            return Some(PadParam::MixerBackChannelMic2);
        }
        if str_eq(name, "padMixerBackChannelMic3") {
            return Some(PadParam::MixerBackChannelMic3);
        }
        if str_eq(name, "padMixerBackChannelMic4") {
            return Some(PadParam::MixerBackChannelMic4);
        }
        if str_eq(name, "padMixerBackChannelUsb1Comms") {
            return Some(PadParam::MixerBackChannelUsb1Comms);
        }
        if str_eq(name, "padMixerBackChannelUsb2Main") {
            return Some(PadParam::MixerBackChannelUsb2Main);
        }
        if str_eq(name, "padMixerBackChannelBluetooth") {
            return Some(PadParam::MixerBackChannelBluetooth);
        }
        if str_eq(name, "padMixerBackChannelCallMe1") {
            return Some(PadParam::MixerBackChannelCallMe1);
        }
        if str_eq(name, "padMixerBackChannelCallMe2") {
            return Some(PadParam::MixerBackChannelCallMe2);
        }
        if str_eq(name, "padMixerBackChannelCallMe3") {
            return Some(PadParam::MixerBackChannelCallMe3);
        }
        if str_eq(name, "padEffectInput") {
            return Some(PadParam::EffectInput);
        }
        if str_eq(name, "padEffectTriggerMode") {
            return Some(PadParam::EffectTriggerMode);
        }
        if str_eq(name, "padSIPPhoneBookEntry") {
            return Some(PadParam::SipPhoneBookEntry);
        }
        if str_eq(name, "padSIPCallSlot") {
            return Some(PadParam::SipCallSlot);
        }
        if str_eq(name, "padSIPFlashState") {
            return Some(PadParam::SipFlashState);
        }
        if str_eq(name, "padSIPQdLock") {
            return Some(PadParam::SipQdLock);
        }
        if str_eq(name, "padTriggerMode") {
            return Some(PadParam::TriggerMode);
        }
        if str_eq(name, "padTriggerSend") {
            return Some(PadParam::TriggerSend);
        }
        if str_eq(name, "padTriggerType") {
            return Some(PadParam::TriggerType);
        }
        if str_eq(name, "padTriggerCustom") {
            return Some(PadParam::TriggerCustom);
        }
        if str_eq(name, "padTriggerControl") {
            return Some(PadParam::TriggerControl);
        }
        if str_eq(name, "padTriggerChannel") {
            return Some(PadParam::TriggerChannel);
        }
        if str_eq(name, "padTriggerOn") {
            return Some(PadParam::TriggerOn);
        }
        if str_eq(name, "padTriggerOff") {
            return Some(PadParam::TriggerOff);
        }
        None
    }

    /// Check if a wire property name matches a known [`PadParam`] variant without
    /// allocating.
    pub fn is_known_name(name: &str) -> (r: bool)
        ensures
            r == Self::known(name@) is Some,
    {
        Self::from_known_name(name).is_some()
    }

    /// Map a wire property name to its typed [`PadParam`] variant. Unknown names map
    /// to [`PadParam::Other`], so this is total (never fails).
    pub fn from_name(name: &str) -> (r: PadParam)
        ensures
            match Self::known(name@) {
                Some(p) => r == p,
                None => r matches PadParam::Other(s) && s@ == name@,
            },
            r.wire_name() == name@,
            r.model() == Self::name_model(name@),
    {
        proof {
            reveal(PadParam::name_model);
        }
        match Self::from_known_name(name) {
            Some(p) => p,
            None => PadParam::Other(name.to_owned()),
        }
    }

    /// The wire property name for this parameter (inverse of [`PadParam::from_name`]).
    pub fn as_str(&self) -> (r: &str)
        ensures
            r@ == self.wire_name(),
    {
        match self {
            PadParam::Idx => "padIdx",
            PadParam::ColourIndex => "padColourIndex",
            PadParam::Name => "padName",
            PadParam::Type => "padType",
            PadParam::IsInternal => "padIsInternal",
            PadParam::RcvSyncPadType => "padRCVSyncPadType",
            PadParam::FilePath => "padFilePath",
            PadParam::Active => "padActive",
            PadParam::Loop => "padLoop",
            PadParam::Replay => "padReplay",
            PadParam::PlayMode => "padPlayMode",
            PadParam::Progress => "padProgress",
            PadParam::ProgressRequestSignal => "padProgressRequestSignal",
            PadParam::Gain => "padGain",
            PadParam::EnvStart => "padEnvStart",
            PadParam::EnvStop => "padEnvStop",
            PadParam::EnvFadeIn => "padEnvFadeIn",
            PadParam::EnvFadeOut => "padEnvFadeOut",
            PadParam::MixerMode => "padMixerMode",
            PadParam::MixerTriggerMode => "padMixerTriggerMode",
            PadParam::MixerCensorCustom => "padMixerCensorCustom",
            PadParam::MixerCensorFilePath => "padMixerCensorFilePath",
            PadParam::MixerFadeInSeconds => "padMixerFadeInSeconds",
            PadParam::MixerFadeOutSeconds => "padMixerFadeOutSeconds",
            PadParam::MixerFadeExcludeHost => "padMixerFadeExcludeHost",
            PadParam::MixerBackChannelMic2 => "padMixerBackChannelMic2",
            PadParam::MixerBackChannelMic3 => "padMixerBackChannelMic3",
            PadParam::MixerBackChannelMic4 => "padMixerBackChannelMic4",
            PadParam::MixerBackChannelUsb1Comms => "padMixerBackChannelUsb1Comms",
            PadParam::MixerBackChannelUsb2Main => "padMixerBackChannelUsb2Main",
            PadParam::MixerBackChannelBluetooth => "padMixerBackChannelBluetooth",
            PadParam::MixerBackChannelCallMe1 => "padMixerBackChannelCallMe1",
            PadParam::MixerBackChannelCallMe2 => "padMixerBackChannelCallMe2",
            PadParam::MixerBackChannelCallMe3 => "padMixerBackChannelCallMe3",
            PadParam::EffectInput => "padEffectInput",
            PadParam::EffectTriggerMode => "padEffectTriggerMode",
            PadParam::SipPhoneBookEntry => "padSIPPhoneBookEntry",
            PadParam::SipCallSlot => "padSIPCallSlot",
            PadParam::SipFlashState => "padSIPFlashState",
            PadParam::SipQdLock => "padSIPQdLock",
            PadParam::TriggerMode => "padTriggerMode",
            PadParam::TriggerSend => "padTriggerSend",
            PadParam::TriggerType => "padTriggerType",
            PadParam::TriggerCustom => "padTriggerCustom",
            PadParam::TriggerControl => "padTriggerControl",
            PadParam::TriggerChannel => "padTriggerChannel",
            PadParam::TriggerOn => "padTriggerOn",
            PadParam::TriggerOff => "padTriggerOff",
            PadParam::Other(s) => s.as_str(),
        }
    }

    /// The wire property name as an owned string.
    pub fn to_string(&self) -> (r: String)
        ensures
            r@ == self.wire_name(),
    {
        self.as_str().to_owned()
    }

    /// `true` if this is a typed variant (not [`PadParam::Other`]).
    pub fn is_known(&self) -> (r: bool)
        ensures
            r == !(self is Other),
    {
        !matches!(self, PadParam::Other(_))
    }
}

impl Clone for PadParam {
    fn clone(&self) -> (r: Self)
        ensures
            r.wire_name() == self.wire_name(),
            self is Other ==> r is Other,
            !(self is Other) ==> r == *self,
    {
        match self {
            PadParam::Idx => PadParam::Idx,
            PadParam::ColourIndex => PadParam::ColourIndex,
            PadParam::Name => PadParam::Name,
            PadParam::Type => PadParam::Type,
            PadParam::IsInternal => PadParam::IsInternal,
            PadParam::RcvSyncPadType => PadParam::RcvSyncPadType,
            PadParam::FilePath => PadParam::FilePath,
            PadParam::Active => PadParam::Active,
            PadParam::Loop => PadParam::Loop,
            PadParam::Replay => PadParam::Replay,
            PadParam::PlayMode => PadParam::PlayMode,
            PadParam::Progress => PadParam::Progress,
            PadParam::ProgressRequestSignal => PadParam::ProgressRequestSignal,
            PadParam::Gain => PadParam::Gain,
            PadParam::EnvStart => PadParam::EnvStart,
            PadParam::EnvStop => PadParam::EnvStop,
            PadParam::EnvFadeIn => PadParam::EnvFadeIn,
            PadParam::EnvFadeOut => PadParam::EnvFadeOut,
            PadParam::MixerMode => PadParam::MixerMode,
            PadParam::MixerTriggerMode => PadParam::MixerTriggerMode,
            PadParam::MixerCensorCustom => PadParam::MixerCensorCustom,
            PadParam::MixerCensorFilePath => PadParam::MixerCensorFilePath,
            PadParam::MixerFadeInSeconds => PadParam::MixerFadeInSeconds,
            PadParam::MixerFadeOutSeconds => PadParam::MixerFadeOutSeconds,
            PadParam::MixerFadeExcludeHost => PadParam::MixerFadeExcludeHost,
            PadParam::MixerBackChannelMic2 => PadParam::MixerBackChannelMic2,
            PadParam::MixerBackChannelMic3 => PadParam::MixerBackChannelMic3,
            PadParam::MixerBackChannelMic4 => PadParam::MixerBackChannelMic4,
            PadParam::MixerBackChannelUsb1Comms => PadParam::MixerBackChannelUsb1Comms,
            PadParam::MixerBackChannelUsb2Main => PadParam::MixerBackChannelUsb2Main,
            PadParam::MixerBackChannelBluetooth => PadParam::MixerBackChannelBluetooth,
            PadParam::MixerBackChannelCallMe1 => PadParam::MixerBackChannelCallMe1,
            PadParam::MixerBackChannelCallMe2 => PadParam::MixerBackChannelCallMe2,
            PadParam::MixerBackChannelCallMe3 => PadParam::MixerBackChannelCallMe3,
            PadParam::EffectInput => PadParam::EffectInput,
            PadParam::EffectTriggerMode => PadParam::EffectTriggerMode,
            PadParam::SipPhoneBookEntry => PadParam::SipPhoneBookEntry,
            PadParam::SipCallSlot => PadParam::SipCallSlot,
            PadParam::SipFlashState => PadParam::SipFlashState,
            PadParam::SipQdLock => PadParam::SipQdLock,
            PadParam::TriggerMode => PadParam::TriggerMode,
            PadParam::TriggerSend => PadParam::TriggerSend,
            PadParam::TriggerType => PadParam::TriggerType,
            PadParam::TriggerCustom => PadParam::TriggerCustom,
            PadParam::TriggerControl => PadParam::TriggerControl,
            PadParam::TriggerChannel => PadParam::TriggerChannel,
            PadParam::TriggerOn => PadParam::TriggerOn,
            PadParam::TriggerOff => PadParam::TriggerOff,
            PadParam::Other(s) => PadParam::Other(s.clone()),
        }
    }
}

/// Every typed [`PadParam`] variant is found again from its wire name.
pub proof fn lemma_pad_param_name_round_trip(p: PadParam)
    requires
        !(p is Other),
    ensures
        PadParam::known(p.wire_name()) == Some(p),
        no_nul(p.wire_name()),
{
    reveal_strlit("padIdx");
    reveal_strlit("padColourIndex");
    reveal_strlit("padName");
    reveal_strlit("padType");
    reveal_strlit("padIsInternal");
    reveal_strlit("padRCVSyncPadType");
    reveal_strlit("padFilePath");
    reveal_strlit("padActive");
    reveal_strlit("padLoop");
    reveal_strlit("padReplay");
    reveal_strlit("padPlayMode");
    reveal_strlit("padProgress");
    reveal_strlit("padProgressRequestSignal");
    reveal_strlit("padGain");
    reveal_strlit("padEnvStart");
    reveal_strlit("padEnvStop");
    reveal_strlit("padEnvFadeIn");
    reveal_strlit("padEnvFadeOut");
    reveal_strlit("padMixerMode");
    reveal_strlit("padMixerTriggerMode");
    reveal_strlit("padMixerCensorCustom");
    reveal_strlit("padMixerCensorFilePath");
    reveal_strlit("padMixerFadeInSeconds");
    reveal_strlit("padMixerFadeOutSeconds");
    reveal_strlit("padMixerFadeExcludeHost");
    reveal_strlit("padMixerBackChannelMic2");
    reveal_strlit("padMixerBackChannelMic3");
    reveal_strlit("padMixerBackChannelMic4");
    reveal_strlit("padMixerBackChannelUsb1Comms");
    reveal_strlit("padMixerBackChannelUsb2Main");
    reveal_strlit("padMixerBackChannelBluetooth");
    reveal_strlit("padMixerBackChannelCallMe1");
    reveal_strlit("padMixerBackChannelCallMe2");
    reveal_strlit("padMixerBackChannelCallMe3");
    reveal_strlit("padEffectInput");
    reveal_strlit("padEffectTriggerMode");
    reveal_strlit("padSIPPhoneBookEntry");
    reveal_strlit("padSIPCallSlot");
    reveal_strlit("padSIPFlashState");
    reveal_strlit("padSIPQdLock");
    reveal_strlit("padTriggerMode");
    reveal_strlit("padTriggerSend");
    reveal_strlit("padTriggerType");
    reveal_strlit("padTriggerCustom");
    reveal_strlit("padTriggerControl");
    reveal_strlit("padTriggerChannel");
    reveal_strlit("padTriggerOn");
    reveal_strlit("padTriggerOff");
    assert("padIdx"@.len() == 6);
    assert("padColourIndex"@.len() == 14);
    assert("padName"@.len() == 7);
    assert("padType"@.len() == 7);
    assert("padIsInternal"@.len() == 13);
    assert("padRCVSyncPadType"@.len() == 17);
    assert("padFilePath"@.len() == 11);
    assert("padActive"@.len() == 9);
    assert("padLoop"@.len() == 7);
    assert("padReplay"@.len() == 9);
    assert("padPlayMode"@.len() == 11);
    assert("padProgress"@.len() == 11);
    assert("padProgressRequestSignal"@.len() == 24);
    assert("padGain"@.len() == 7);
    assert("padEnvStart"@.len() == 11);
    assert("padEnvStop"@.len() == 10);
    assert("padEnvFadeIn"@.len() == 12);
    assert("padEnvFadeOut"@.len() == 13);
    assert("padMixerMode"@.len() == 12);
    assert("padMixerTriggerMode"@.len() == 19);
    assert("padMixerCensorCustom"@.len() == 20);
    assert("padMixerCensorFilePath"@.len() == 22);
    assert("padMixerFadeInSeconds"@.len() == 21);
    assert("padMixerFadeOutSeconds"@.len() == 22);
    assert("padMixerFadeExcludeHost"@.len() == 23);
    assert("padMixerBackChannelMic2"@.len() == 23);
    assert("padMixerBackChannelMic3"@.len() == 23);
    assert("padMixerBackChannelMic4"@.len() == 23);
    assert("padMixerBackChannelUsb1Comms"@.len() == 28);
    assert("padMixerBackChannelUsb2Main"@.len() == 27);
    assert("padMixerBackChannelBluetooth"@.len() == 28);
    assert("padMixerBackChannelCallMe1"@.len() == 26);
    assert("padMixerBackChannelCallMe2"@.len() == 26);
    assert("padMixerBackChannelCallMe3"@.len() == 26);
    assert("padEffectInput"@.len() == 14);
    assert("padEffectTriggerMode"@.len() == 20);
    assert("padSIPPhoneBookEntry"@.len() == 20);
    assert("padSIPCallSlot"@.len() == 14);
    assert("padSIPFlashState"@.len() == 16);
    assert("padSIPQdLock"@.len() == 12);
    assert("padTriggerMode"@.len() == 14);
    assert("padTriggerSend"@.len() == 14);
    assert("padTriggerType"@.len() == 14);
    assert("padTriggerCustom"@.len() == 16);
    assert("padTriggerControl"@.len() == 17);
    assert("padTriggerChannel"@.len() == 17);
    assert("padTriggerOn"@.len() == 12);
    assert("padTriggerOff"@.len() == 13);
    assert("padColourIndex"@[3] != "padEffectInput"@[3]);
    assert("padColourIndex"@[3] != "padSIPCallSlot"@[3]);
    assert("padColourIndex"@[3] != "padTriggerMode"@[3]);
    assert("padColourIndex"@[3] != "padTriggerSend"@[3]);
    assert("padColourIndex"@[3] != "padTriggerType"@[3]);
    assert("padName"@[3] != "padType"@[3]);
    assert("padName"@[3] != "padLoop"@[3]);
    assert("padName"@[3] != "padGain"@[3]);
    assert("padType"@[3] != "padLoop"@[3]);
    assert("padType"@[3] != "padGain"@[3]);
    assert("padIsInternal"@[3] != "padEnvFadeOut"@[3]);
    assert("padIsInternal"@[3] != "padTriggerOff"@[3]);
    assert("padRCVSyncPadType"@[3] != "padTriggerControl"@[3]);
    assert("padRCVSyncPadType"@[3] != "padTriggerChannel"@[3]);
    assert("padFilePath"@[3] != "padPlayMode"@[3]);
    assert("padFilePath"@[3] != "padProgress"@[3]);
    assert("padFilePath"@[3] != "padEnvStart"@[3]);
    assert("padActive"@[3] != "padReplay"@[3]);
    assert("padLoop"@[3] != "padGain"@[3]);
    assert("padPlayMode"@[4] != "padProgress"@[4]);
    assert("padPlayMode"@[3] != "padEnvStart"@[3]);
    assert("padProgress"@[3] != "padEnvStart"@[3]);
    assert("padEnvFadeIn"@[3] != "padMixerMode"@[3]);
    assert("padEnvFadeIn"@[3] != "padSIPQdLock"@[3]);
    assert("padEnvFadeIn"@[3] != "padTriggerOn"@[3]);
    assert("padEnvFadeOut"@[3] != "padTriggerOff"@[3]);
    assert("padMixerMode"@[3] != "padSIPQdLock"@[3]);
    assert("padMixerMode"@[3] != "padTriggerOn"@[3]);
    assert("padMixerCensorCustom"@[3] != "padEffectTriggerMode"@[3]);
    assert("padMixerCensorCustom"@[3] != "padSIPPhoneBookEntry"@[3]);
    assert("padMixerCensorFilePath"@[8] != "padMixerFadeOutSeconds"@[8]);
    assert("padMixerFadeExcludeHost"@[8] != "padMixerBackChannelMic2"@[8]);
    assert("padMixerFadeExcludeHost"@[8] != "padMixerBackChannelMic3"@[8]);
    assert("padMixerFadeExcludeHost"@[8] != "padMixerBackChannelMic4"@[8]);
    assert("padMixerBackChannelMic2"@[22] != "padMixerBackChannelMic3"@[22]);
    assert("padMixerBackChannelMic2"@[22] != "padMixerBackChannelMic4"@[22]);
    assert("padMixerBackChannelMic3"@[22] != "padMixerBackChannelMic4"@[22]);
    assert("padMixerBackChannelUsb1Comms"@[19] != "padMixerBackChannelBluetooth"@[19]);
    assert("padMixerBackChannelCallMe1"@[25] != "padMixerBackChannelCallMe2"@[25]);
    assert("padMixerBackChannelCallMe1"@[25] != "padMixerBackChannelCallMe3"@[25]);
    assert("padMixerBackChannelCallMe2"@[25] != "padMixerBackChannelCallMe3"@[25]);
    assert("padEffectInput"@[3] != "padSIPCallSlot"@[3]);
    assert("padEffectInput"@[3] != "padTriggerMode"@[3]);
    assert("padEffectInput"@[3] != "padTriggerSend"@[3]);
    assert("padEffectInput"@[3] != "padTriggerType"@[3]);
    assert("padEffectTriggerMode"@[3] != "padSIPPhoneBookEntry"@[3]);
    assert("padSIPCallSlot"@[3] != "padTriggerMode"@[3]);
    assert("padSIPCallSlot"@[3] != "padTriggerSend"@[3]);
    assert("padSIPCallSlot"@[3] != "padTriggerType"@[3]);
    assert("padSIPFlashState"@[3] != "padTriggerCustom"@[3]);
    assert("padSIPQdLock"@[3] != "padTriggerOn"@[3]);
    assert("padTriggerMode"@[10] != "padTriggerSend"@[10]);
    assert("padTriggerMode"@[10] != "padTriggerType"@[10]);
    assert("padTriggerSend"@[10] != "padTriggerType"@[10]);
    assert("padTriggerControl"@[11] != "padTriggerChannel"@[11]);
}

} // verus!
