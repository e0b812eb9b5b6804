//! [`EffectsParam`]: the per-slot root `EFFECTS_PARAMETERS`-node parameter family.

use vstd::prelude::*;

use crate::names::ParamModel;
use crate::text::{no_nul, str_eq};

verus! {

/// A per-slot effects parameter: one of the flat properties the device
/// carries on a root `EFFECTS_PARAMETERS` node. The device exposes a
/// contiguous run of these (one per channel-strip effects slot), so address a
/// slot by its index. Covers the six processors the Rodecaster effects engine
/// exposes (reverb, echo/delay, pitch shift, distortion, robot, voice
/// disguise), each with its `*On` enable plus its tone controls. `effectsIdx`
/// echoes the slot index; `channelInputSource` (present only when the slot is
/// bound) is the source the slot processes.
#[derive(Debug, PartialEq, Eq, Hash)]
#[non_exhaustive]
pub enum EffectsParam {
    ReverbOn,
    ReverbMix,
    ReverbModel,
    ReverbHighCut,
    ReverbLowCut,
    EchoOn,
    EchoMix,
    EchoDecay,
    EchoDelay,
    EchoHighCut,
    EchoLowCut,
    PitchShiftOn,
    PitchShiftSemitones,
    DistortionOn,
    DistortionIntensity,
    RobotOn,
    RobotLevel,
    RobotMix,
    VoiceDisguiseOn,
    Idx,
    InputSource,
    /// A property without a typed [`EffectsParam`] identifier yet. Holds the raw wire
    /// name; the value still rides in the carrying event/command.
    Other(String),
}

impl EffectsParam {
    /// The wire property name.
    pub open spec fn wire_name(self) -> Seq<char> {
        match self {
            EffectsParam::ReverbOn => "reverbOn"@,
            EffectsParam::ReverbMix => "reverbMix"@,
            EffectsParam::ReverbModel => "reverbModel"@,
            EffectsParam::ReverbHighCut => "reverbHighCut"@,
            EffectsParam::ReverbLowCut => "reverbLowCut"@,
            EffectsParam::EchoOn => "echoOn"@,
            EffectsParam::EchoMix => "echoMix"@,
            EffectsParam::EchoDecay => "echoDecay"@,
            EffectsParam::EchoDelay => "echoDelay"@,
            EffectsParam::EchoHighCut => "echoHighCut"@,
            EffectsParam::EchoLowCut => "echoLowCut"@,
            EffectsParam::PitchShiftOn => "pitchShiftOn"@,
            EffectsParam::PitchShiftSemitones => "pitchShiftSemitones"@,
            EffectsParam::DistortionOn => "distortionOn"@,
            EffectsParam::DistortionIntensity => "distortionIntensity"@,
            EffectsParam::RobotOn => "robotOn"@,
            EffectsParam::RobotLevel => "robotLevel"@,
            EffectsParam::RobotMix => "robotMix"@,
            EffectsParam::VoiceDisguiseOn => "voiceDisguiseOn"@,
            EffectsParam::Idx => "effectsIdx"@,
            EffectsParam::InputSource => "channelInputSource"@,
            EffectsParam::Other(s) => s@,
        }
    }

    /// The typed variant a wire name denotes, if any.
    pub open spec fn known(name: Seq<char>) -> Option<EffectsParam> {
        if name == "reverbOn"@ {
            Some(EffectsParam::ReverbOn)
        } else if name == "reverbMix"@ {
            Some(EffectsParam::ReverbMix)
        } else if name == "reverbModel"@ {
            Some(EffectsParam::ReverbModel)
        } else if name == "reverbHighCut"@ {
            Some(EffectsParam::ReverbHighCut)
        } else if name == "reverbLowCut"@ {
            Some(EffectsParam::ReverbLowCut)
        } else if name == "echoOn"@ {
            Some(EffectsParam::EchoOn)
        } else if name == "echoMix"@ {
            Some(EffectsParam::EchoMix)
        } else if name == "echoDecay"@ {
            Some(EffectsParam::EchoDecay)
        } else if name == "echoDelay"@ {
            Some(EffectsParam::EchoDelay)
        } else if name == "echoHighCut"@ {
            Some(EffectsParam::EchoHighCut)
        } else if name == "echoLowCut"@ {
            Some(EffectsParam::EchoLowCut)
        } else if name == "pitchShiftOn"@ {
            Some(EffectsParam::PitchShiftOn)
        } else if name == "pitchShiftSemitones"@ {
            Some(EffectsParam::PitchShiftSemitones)
        } else if name == "distortionOn"@ {
            Some(EffectsParam::DistortionOn)
        } else if name == "distortionIntensity"@ {
            Some(EffectsParam::DistortionIntensity)
        } else if name == "robotOn"@ {
            Some(EffectsParam::RobotOn)
        } else if name == "robotLevel"@ {
            Some(EffectsParam::RobotLevel)
        } else if name == "robotMix"@ {
            Some(EffectsParam::RobotMix)
        } else if name == "voiceDisguiseOn"@ {
            Some(EffectsParam::VoiceDisguiseOn)
        } else if name == "effectsIdx"@ {
            Some(EffectsParam::Idx)
        } else if name == "channelInputSource"@ {
            Some(EffectsParam::InputSource)
        } else {
            None
        }
    }

    /// The parameter as events report it: its wire name, and whether it is a
    /// typed variant.
    pub open spec fn model(self) -> ParamModel {
        ParamModel { name: self.wire_name(), typed: !(self is Other) }
    }

    /// The parameter a wire name decodes to, as events report it: the name,
    /// typed exactly when a typed variant carries it.
    #[verifier::opaque]
    pub open spec fn name_model(name: Seq<char>) -> ParamModel {
        ParamModel { name, typed: Self::known(name) is Some }
    }

    /// Map a wire property name to its typed [`EffectsParam`] variant if known, without
    /// allocating.
    pub fn from_known_name(name: &str) -> (r: Option<EffectsParam>)
        ensures
            r == Self::known(name@),
            r matches Some(p) ==> p.wire_name() == name@,
            r matches Some(p) ==> p.model() == Self::name_model(name@),
    {
        proof {
            reveal(EffectsParam::name_model);
        }
        if str_eq(name, "reverbOn") {
            return Some(EffectsParam::ReverbOn);
        }
        if str_eq(name, "reverbMix") {
            return Some(EffectsParam::ReverbMix);
        }
        if str_eq(name, "reverbModel") {
            return Some(EffectsParam::ReverbModel);
        }
        if str_eq(name, "reverbHighCut") {
            return Some(EffectsParam::ReverbHighCut);
        }
        if str_eq(name, "reverbLowCut") {
            return Some(EffectsParam::ReverbLowCut);
        }
        if str_eq(name, "echoOn") {
            return Some(EffectsParam::EchoOn);
        }
        if str_eq(name, "echoMix") {
            return Some(EffectsParam::EchoMix);
        }
        if str_eq(name, "echoDecay") {
            return Some(EffectsParam::EchoDecay);
        }
        if str_eq(name, "echoDelay") {
            return Some(EffectsParam::EchoDelay);
        }
        if str_eq(name, "echoHighCut") {
            return Some(EffectsParam::EchoHighCut);
        }
        if str_eq(name, "echoLowCut") {
            return Some(EffectsParam::EchoLowCut);
        }
        if str_eq(name, "pitchShiftOn") {
            return Some(EffectsParam::PitchShiftOn);
        }
        if str_eq(name, "pitchShiftSemitones") {
            return Some(EffectsParam::PitchShiftSemitones);
        }
        if str_eq(name, "distortionOn") {
            return Some(EffectsParam::DistortionOn);
        }
        if str_eq(name, "distortionIntensity") {
            return Some(EffectsParam::DistortionIntensity);
        }
        if str_eq(name, "robotOn") {
            return Some(EffectsParam::RobotOn);
        }
        if str_eq(name, "robotLevel") {
            return Some(EffectsParam::RobotLevel);
        }
        if str_eq(name, "robotMix") {
            return Some(EffectsParam::RobotMix);
        }
        if str_eq(name, "voiceDisguiseOn") {
            return Some(EffectsParam::VoiceDisguiseOn);
        }
        if str_eq(name, "effectsIdx") {
            return Some(EffectsParam::Idx);
        }
        if str_eq(name, "channelInputSource") {
            return Some(EffectsParam::InputSource);
        }
        None
    }

    /// Check if a wire property name matches a known [`EffectsParam`] variant without
    /// allocating.
    pub fn is_known_name(name: &str) -> (r: bool)
        ensures
            r == Self::known(name@) is Some,
    {
        Self::from_known_name(name).is_some()
    }

    /// Map a wire property name to its typed [`EffectsParam`] variant. Unknown names map
    /// to [`EffectsParam::Other`], so this is total (never fails).
    pub fn from_name(name: &str) -> (r: EffectsParam)
        ensures
            match Self::known(name@) {
                Some(p) => r == p,
                None => r matches EffectsParam::Other(s) && s@ == name@,
            },
            r.wire_name() == name@,
            r.model() == Self::name_model(name@),
    {
        proof {
            reveal(EffectsParam::name_model);
        }
        match Self::from_known_name(name) {
            Some(p) => p,
            None => EffectsParam::Other(name.to_owned()),
        }
    }

    /// The wire property name for this parameter (inverse of [`EffectsParam::from_name`]).
    pub fn as_str(&self) -> (r: &str)
        ensures
            r@ == self.wire_name(),
    {
        match self {
            EffectsParam::ReverbOn => "reverbOn",
            EffectsParam::ReverbMix => "reverbMix",
            EffectsParam::ReverbModel => "reverbModel",
            EffectsParam::ReverbHighCut => "reverbHighCut",
            EffectsParam::ReverbLowCut => "reverbLowCut",
            EffectsParam::EchoOn => "echoOn",
            EffectsParam::EchoMix => "echoMix",
            EffectsParam::EchoDecay => "echoDecay",
            EffectsParam::EchoDelay => "echoDelay",
            EffectsParam::EchoHighCut => "echoHighCut",
            EffectsParam::EchoLowCut => "echoLowCut",
            EffectsParam::PitchShiftOn => "pitchShiftOn",
            EffectsParam::PitchShiftSemitones => "pitchShiftSemitones",
            EffectsParam::DistortionOn => "distortionOn",
            EffectsParam::DistortionIntensity => "distortionIntensity",
            EffectsParam::RobotOn => "robotOn",
            EffectsParam::RobotLevel => "robotLevel",
            EffectsParam::RobotMix => "robotMix",
            EffectsParam::VoiceDisguiseOn => "voiceDisguiseOn",
            EffectsParam::Idx => "effectsIdx",
            EffectsParam::InputSource => "channelInputSource",
            EffectsParam::Other(s) => s.as_str(),
        }
    }

    /// The wire property name as an owned string.
    pub fn to_string(&self) -> (r: String)
        ensures
            r@ == self.wire_name(),
    {
        self.as_str().to_owned()
    }

    /// `true` if this is a typed variant (not [`EffectsParam::Other`]).
    pub fn is_known(&self) -> (r: bool)
        ensures
            r == !(self is Other),
    {
        !matches!(self, EffectsParam::Other(_))
    }
}

impl Clone for EffectsParam {
    fn clone(&self) -> (r: Self)
        ensures
            r.wire_name() == self.wire_name(),
            self is Other ==> r is Other,
            !(self is Other) ==> r == *self,
    {
        match self {
            EffectsParam::ReverbOn => EffectsParam::ReverbOn,
            EffectsParam::ReverbMix => EffectsParam::ReverbMix,
            EffectsParam::ReverbModel => EffectsParam::ReverbModel,
            EffectsParam::ReverbHighCut => EffectsParam::ReverbHighCut,
            EffectsParam::ReverbLowCut => EffectsParam::ReverbLowCut,
            EffectsParam::EchoOn => EffectsParam::EchoOn,
            EffectsParam::EchoMix => EffectsParam::EchoMix,
            EffectsParam::EchoDecay => EffectsParam::EchoDecay,
            EffectsParam::EchoDelay => EffectsParam::EchoDelay,
            EffectsParam::EchoHighCut => EffectsParam::EchoHighCut,
            EffectsParam::EchoLowCut => EffectsParam::EchoLowCut,
            EffectsParam::PitchShiftOn => EffectsParam::PitchShiftOn,
            EffectsParam::PitchShiftSemitones => EffectsParam::PitchShiftSemitones,
            EffectsParam::DistortionOn => EffectsParam::DistortionOn,
            EffectsParam::DistortionIntensity => EffectsParam::DistortionIntensity,
            EffectsParam::RobotOn => EffectsParam::RobotOn,
            EffectsParam::RobotLevel => EffectsParam::RobotLevel,
            EffectsParam::RobotMix => EffectsParam::RobotMix,
            EffectsParam::VoiceDisguiseOn => EffectsParam::VoiceDisguiseOn,
            EffectsParam::Idx => EffectsParam::Idx,
            EffectsParam::InputSource => EffectsParam::InputSource,
            EffectsParam::Other(s) => EffectsParam::Other(s.clone()),
        }
    }
}

/// Every typed [`EffectsParam`] variant is found again from its wire name.
pub proof fn lemma_effects_param_name_round_trip(p: EffectsParam)
    requires
        !(p is Other),
    ensures
        EffectsParam::known(p.wire_name()) == Some(p),
        no_nul(p.wire_name()),
{
    reveal_strlit("reverbOn");
    reveal_strlit("reverbMix");
    reveal_strlit("reverbModel");
    reveal_strlit("reverbHighCut");
    reveal_strlit("reverbLowCut");
    reveal_strlit("echoOn");
    reveal_strlit("echoMix");
    reveal_strlit("echoDecay");
    reveal_strlit("echoDelay");
    reveal_strlit("echoHighCut");
    reveal_strlit("echoLowCut");
    reveal_strlit("pitchShiftOn");
    reveal_strlit("pitchShiftSemitones");
    reveal_strlit("distortionOn");
    reveal_strlit("distortionIntensity");
    reveal_strlit("robotOn");
    reveal_strlit("robotLevel");
    reveal_strlit("robotMix");
    reveal_strlit("voiceDisguiseOn");
    reveal_strlit("effectsIdx");
    reveal_strlit("channelInputSource");
    assert("reverbOn"@.len() == 8);
    assert("reverbMix"@.len() == 9);
    assert("reverbModel"@.len() == 11);
    assert("reverbHighCut"@.len() == 13);
    assert("reverbLowCut"@.len() == 12);
    assert("echoOn"@.len() == 6);
    assert("echoMix"@.len() == 7);
    assert("echoDecay"@.len() == 9);
    assert("echoDelay"@.len() == 9);
    assert("echoHighCut"@.len() == 11);
    assert("echoLowCut"@.len() == 10);
    assert("pitchShiftOn"@.len() == 12);
    assert("pitchShiftSemitones"@.len() == 19);
    assert("distortionOn"@.len() == 12);
    assert("distortionIntensity"@.len() == 19);
    assert("robotOn"@.len() == 7);
    assert("robotLevel"@.len() == 10);
    assert("robotMix"@.len() == 8);
    assert("voiceDisguiseOn"@.len() == 15);
    assert("effectsIdx"@.len() == 10);
    assert("channelInputSource"@.len() == 18);
    assert("reverbOn"@[1] != "robotMix"@[1]);
    assert("reverbMix"@[0] != "echoDecay"@[0]);
    assert("reverbMix"@[0] != "echoDelay"@[0]);
    assert("reverbModel"@[0] != "echoHighCut"@[0]);
    assert("reverbLowCut"@[0] != "pitchShiftOn"@[0]);
    assert("reverbLowCut"@[0] != "distortionOn"@[0]);
    assert("echoMix"@[0] != "robotOn"@[0]);
    assert("echoDecay"@[6] != "echoDelay"@[6]);
    assert("echoLowCut"@[0] != "robotLevel"@[0]);
    assert("echoLowCut"@[1] != "effectsIdx"@[1]);
    assert("pitchShiftOn"@[0] != "distortionOn"@[0]);
    assert("pitchShiftSemitones"@[0] != "distortionIntensity"@[0]);
    assert("robotLevel"@[0] != "effectsIdx"@[0]);
}

} // verus!
