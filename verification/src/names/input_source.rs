//! [`InputSourceParam`]: the per-source `INPUTSOURCE`-node parameter family.

use vstd::prelude::*;

use crate::names::ParamModel;
use crate::text::{no_nul, str_eq};

verus! {

/// A per-input-source parameter: one of the flat properties the device
/// carries on an `INPUTSOURCE` node (preamp gain, power/48V, mic type,
/// phase, colour, wireless serial, SIP/RCV routing).
///
/// These are **not** channel-strip params: a source exists independently of
/// which fader (if any) it is assigned to, and a real fullSync shows every
/// input* property on `INPUTSOURCE`, never on `CHANNEL`. Address an input
/// source by [`crate::Source`] (the source ordinal == `inputId`).
#[derive(Debug, PartialEq, Eq, Hash)]
#[non_exhaustive]
pub enum InputSourceParam {
    InputId,
    InputColour,
    InputType,
    InputPower,
    InputMicrophoneType,
    InputMicrophoneGain,
    InputDigitalGain,
    InputInstrumentGain,
    InputPhaseFlip,
    InputWirelessSn,
    InputSipCallSlot,
    InputRcvAudioSourceType,
    /// A property without a typed [`InputSourceParam`] identifier yet. Holds the raw wire
    /// name; the value still rides in the carrying event/command.
    Other(String),
}

impl InputSourceParam {
    /// The wire property name.
    pub open spec fn wire_name(self) -> Seq<char> {
        match self {
            InputSourceParam::InputId => "inputId"@,
            InputSourceParam::InputColour => "inputColour"@,
            InputSourceParam::InputType => "inputType"@,
            InputSourceParam::InputPower => "inputPower"@,
            InputSourceParam::InputMicrophoneType => "inputMicrophoneType"@,
            InputSourceParam::InputMicrophoneGain => "inputMicrophoneGain"@,
            InputSourceParam::InputDigitalGain => "inputDigitalGain"@,
            InputSourceParam::InputInstrumentGain => "inputInstrumentGain"@,
            InputSourceParam::InputPhaseFlip => "inputPhaseFlip"@,
            InputSourceParam::InputWirelessSn => "inputWirelessSN"@,
            InputSourceParam::InputSipCallSlot => "inputSipCallSlot"@,
            InputSourceParam::InputRcvAudioSourceType => "inputRcvAudioSourceType"@,
            InputSourceParam::Other(s) => s@,
        }
    }

    /// The typed variant a wire name denotes, if any.
    pub open spec fn known(name: Seq<char>) -> Option<InputSourceParam> {
        if name == "inputId"@ {
            Some(InputSourceParam::InputId)
        } else if name == "inputColour"@ {
            Some(InputSourceParam::InputColour)
        } else if name == "inputType"@ {
            Some(InputSourceParam::InputType)
        } else if name == "inputPower"@ {
            Some(InputSourceParam::InputPower)
        } else if name == "inputMicrophoneType"@ {
            Some(InputSourceParam::InputMicrophoneType)
        } else if name == "inputMicrophoneGain"@ {
            Some(InputSourceParam::InputMicrophoneGain)
        } else if name == "inputDigitalGain"@ {
            Some(InputSourceParam::InputDigitalGain)
        } else if name == "inputInstrumentGain"@ {
            Some(InputSourceParam::InputInstrumentGain)
        } else if name == "inputPhaseFlip"@ {
            Some(InputSourceParam::InputPhaseFlip)
        } else if name == "inputWirelessSN"@ {
            Some(InputSourceParam::InputWirelessSn)
        } else if name == "inputSipCallSlot"@ {
            Some(InputSourceParam::InputSipCallSlot)
        } else if name == "inputRcvAudioSourceType"@ {
            Some(InputSourceParam::InputRcvAudioSourceType)
        } else {
            None
        }
    }

    /// The parameter as events report it: its wire name, and whether it is a
    /// typed variant.
    pub open spec fn model(self) -> ParamModel {
        ParamModel { name: self.wire_name(), typed: !(self is Other) }
    }

    /// The parameter a wire name decodes to, as events report it: the name,
    /// typed exactly when a typed variant carries it.
    #[verifier::opaque]
    pub open spec fn name_model(name: Seq<char>) -> ParamModel {
        ParamModel { name, typed: Self::known(name) is Some }
    }

    /// Map a wire property name to its typed [`InputSourceParam`] variant if known, without
    /// allocating.
    pub fn from_known_name(name: &str) -> (r: Option<InputSourceParam>)
        ensures
            r == Self::known(name@),
            r matches Some(p) ==> p.wire_name() == name@,
            r matches Some(p) ==> p.model() == Self::name_model(name@),
    {
        proof {
            reveal(InputSourceParam::name_model);
        }
        if str_eq(name, "inputId") {
            return Some(InputSourceParam::InputId);
        }
        if str_eq(name, "inputColour") {
            return Some(InputSourceParam::InputColour);
        }
        if str_eq(name, "inputType") {
            return Some(InputSourceParam::InputType);
        }
        if str_eq(name, "inputPower") {
            return Some(InputSourceParam::InputPower);
        }
        if str_eq(name, "inputMicrophoneType") {
            return Some(InputSourceParam::InputMicrophoneType);
        }
        if str_eq(name, "inputMicrophoneGain") {
            return Some(InputSourceParam::InputMicrophoneGain);
        }
        if str_eq(name, "inputDigitalGain") {
            return Some(InputSourceParam::InputDigitalGain);
        }
        if str_eq(name, "inputInstrumentGain") {
            return Some(InputSourceParam::InputInstrumentGain);
        }
        if str_eq(name, "inputPhaseFlip") {
            return Some(InputSourceParam::InputPhaseFlip);
        }
        if str_eq(name, "inputWirelessSN") {
            return Some(InputSourceParam::InputWirelessSn);
        }
        if str_eq(name, "inputSipCallSlot") {
            return Some(InputSourceParam::InputSipCallSlot);
        }
        if str_eq(name, "inputRcvAudioSourceType") {
            return Some(InputSourceParam::InputRcvAudioSourceType);
        }
        None
    }

    /// Check if a wire property name matches a known [`InputSourceParam`] variant without
    /// allocating.
    pub fn is_known_name(name: &str) -> (r: bool)
        ensures
            r == Self::known(name@) is Some,
    {
        Self::from_known_name(name).is_some()
    }

    /// Map a wire property name to its typed [`InputSourceParam`] variant. Unknown names map
    /// to [`InputSourceParam::Other`], so this is total (never fails).
    pub fn from_name(name: &str) -> (r: InputSourceParam)
        ensures
            match Self::known(name@) {
                Some(p) => r == p,
                None => r matches InputSourceParam::Other(s) && s@ == name@,
            },
            r.wire_name() == name@,
            r.model() == Self::name_model(name@),
    {
        proof {
            reveal(InputSourceParam::name_model);
        }
        match Self::from_known_name(name) {
            Some(p) => p,
            None => InputSourceParam::Other(name.to_owned()),
        }
    }

    /// The wire property name for this parameter (inverse of [`InputSourceParam::from_name`]).
    pub fn as_str(&self) -> (r: &str)
        ensures
            r@ == self.wire_name(),
    {
        match self {
            InputSourceParam::InputId => "inputId",
            InputSourceParam::InputColour => "inputColour",
            InputSourceParam::InputType => "inputType",
            InputSourceParam::InputPower => "inputPower",
            InputSourceParam::InputMicrophoneType => "inputMicrophoneType",
            InputSourceParam::InputMicrophoneGain => "inputMicrophoneGain",
            InputSourceParam::InputDigitalGain => "inputDigitalGain",
            InputSourceParam::InputInstrumentGain => "inputInstrumentGain",
            InputSourceParam::InputPhaseFlip => "inputPhaseFlip",
            InputSourceParam::InputWirelessSn => "inputWirelessSN",
            InputSourceParam::InputSipCallSlot => "inputSipCallSlot",
            InputSourceParam::InputRcvAudioSourceType => "inputRcvAudioSourceType",
            InputSourceParam::Other(s) => s.as_str(),
        }
    }

    /// The wire property name as an owned string.
    pub fn to_string(&self) -> (r: String)
        ensures
            r@ == self.wire_name(),
    {
        self.as_str().to_owned()
    }

    /// `true` if this is a typed variant (not [`InputSourceParam::Other`]).
    pub fn is_known(&self) -> (r: bool)
        ensures
            r == !(self is Other),
    {
        !matches!(self, InputSourceParam::Other(_))
    }
}

impl Clone for InputSourceParam {
    fn clone(&self) -> (r: Self)
        ensures
            r.wire_name() == self.wire_name(),
            self is Other ==> r is Other,
            !(self is Other) ==> r == *self,
    {
        match self {
            InputSourceParam::InputId => InputSourceParam::InputId,
            InputSourceParam::InputColour => InputSourceParam::InputColour,
            InputSourceParam::InputType => InputSourceParam::InputType,
            InputSourceParam::InputPower => InputSourceParam::InputPower,
            InputSourceParam::InputMicrophoneType => InputSourceParam::InputMicrophoneType,
            InputSourceParam::InputMicrophoneGain => InputSourceParam::InputMicrophoneGain,
            InputSourceParam::InputDigitalGain => InputSourceParam::InputDigitalGain,
            InputSourceParam::InputInstrumentGain => InputSourceParam::InputInstrumentGain,
            InputSourceParam::InputPhaseFlip => InputSourceParam::InputPhaseFlip,
            InputSourceParam::InputWirelessSn => InputSourceParam::InputWirelessSn,
            InputSourceParam::InputSipCallSlot => InputSourceParam::InputSipCallSlot,
            InputSourceParam::InputRcvAudioSourceType => InputSourceParam::InputRcvAudioSourceType,
            InputSourceParam::Other(s) => InputSourceParam::Other(s.clone()),
        }
    }
}

/// Every typed [`InputSourceParam`] variant is found again from its wire name.
pub proof fn lemma_input_source_param_name_round_trip(p: InputSourceParam)
    requires
        !(p is Other),
    ensures
        InputSourceParam::known(p.wire_name()) == Some(p),
        no_nul(p.wire_name()),
{
    reveal_strlit("inputId");
    reveal_strlit("inputColour");
    reveal_strlit("inputType");
    reveal_strlit("inputPower");
    reveal_strlit("inputMicrophoneType");
    reveal_strlit("inputMicrophoneGain");
    reveal_strlit("inputDigitalGain");
    reveal_strlit("inputInstrumentGain");
    reveal_strlit("inputPhaseFlip");
    reveal_strlit("inputWirelessSN");
    reveal_strlit("inputSipCallSlot");
    reveal_strlit("inputRcvAudioSourceType");
    assert("inputId"@.len() == 7);
    assert("inputColour"@.len() == 11);
    assert("inputType"@.len() == 9);
    assert("inputPower"@.len() == 10);
    assert("inputMicrophoneType"@.len() == 19);
    assert("inputMicrophoneGain"@.len() == 19);
    assert("inputDigitalGain"@.len() == 16);
    assert("inputInstrumentGain"@.len() == 19);
    assert("inputPhaseFlip"@.len() == 14);
    assert("inputWirelessSN"@.len() == 15);
    assert("inputSipCallSlot"@.len() == 16);
    assert("inputRcvAudioSourceType"@.len() == 23);
    assert("inputMicrophoneType"@[15] != "inputMicrophoneGain"@[15]);
    assert("inputMicrophoneType"@[5] != "inputInstrumentGain"@[5]);
    assert("inputMicrophoneGain"@[5] != "inputInstrumentGain"@[5]);
    assert("inputDigitalGain"@[5] != "inputSipCallSlot"@[5]);
}

} // verus!
