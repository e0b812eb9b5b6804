//! [`AudioParam`]: the singleton `AUDIO`-node parameter family.

use vstd::prelude::*;

use crate::names::ParamModel;
use crate::text::{no_nul, str_eq};

verus! {

/// A device-wide audio-engine parameter: one of the flat properties the
/// device carries on the singleton `AUDIO` node. Covers the audio engine
/// (buffer, sample rate, channel counts, latencies), the active
/// StreamerX mix-preset selector, and the two rcSync channel controls.
/// Un-typed properties arrive as [`AudioParam::Other`] for forward-compat.
///
/// Firmware casing quirk preserved verbatim: `audioOuputLatency` is
/// misspelled on the wire (missing `t` in "Output"). Consumers matching
/// against the wire name must use this spelling.
#[derive(Debug, PartialEq, Eq, Hash)]
#[non_exhaustive]
pub enum AudioParam {
    ActiveStreamerXMixPreset,
    BufferSize,
    SampleRate,
    InputChannels,
    OutputChannels,
    InputLatency,
    OuputLatency,
    RcSyncChannelAssign,
    RcSyncChannelSwap,
    /// A property without a typed [`AudioParam`] identifier yet. Holds the raw wire
    /// name; the value still rides in the carrying event/command.
    Other(String),
}

impl AudioParam {
    /// The wire property name.
    pub open spec fn wire_name(self) -> Seq<char> {
        match self {
            AudioParam::ActiveStreamerXMixPreset => "activeStreamerXMixPreset"@,
            AudioParam::BufferSize => "audioBufferSize"@,
            AudioParam::SampleRate => "audioSampleRate"@,
            AudioParam::InputChannels => "audioInputChannels"@,
            AudioParam::OutputChannels => "audioOutputChannels"@,
            AudioParam::InputLatency => "audioInputLatency"@,
            AudioParam::OuputLatency => "audioOuputLatency"@,
            AudioParam::RcSyncChannelAssign => "rcSyncChannelAssign"@,
            AudioParam::RcSyncChannelSwap => "rcSyncChannelSwap"@,
            AudioParam::Other(s) => s@,
        }
    }

    /// The typed variant a wire name denotes, if any.
    pub open spec fn known(name: Seq<char>) -> Option<AudioParam> {
        if name == "activeStreamerXMixPreset"@ {
            Some(AudioParam::ActiveStreamerXMixPreset)
        } else if name == "audioBufferSize"@ {
            Some(AudioParam::BufferSize)
        } else if name == "audioSampleRate"@ {
            Some(AudioParam::SampleRate)
        } else if name == "audioInputChannels"@ {
            Some(AudioParam::InputChannels)
        } else if name == "audioOutputChannels"@ {
            Some(AudioParam::OutputChannels)
        } else if name == "audioInputLatency"@ {
            Some(AudioParam::InputLatency)
        } else if name == "audioOuputLatency"@ {
            Some(AudioParam::OuputLatency)
        } else if name == "rcSyncChannelAssign"@ {
            Some(AudioParam::RcSyncChannelAssign)
        } else if name == "rcSyncChannelSwap"@ {
            Some(AudioParam::RcSyncChannelSwap)
        } else {
            None
        }
    }

    /// The parameter as events report it: its wire name, and whether it is a
    /// typed variant.
    pub open spec fn model(self) -> ParamModel {
        ParamModel { name: self.wire_name(), typed: !(self is Other) }
    }

    /// The parameter a wire name decodes to, as events report it: the name,
    /// typed exactly when a typed variant carries it.
    #[verifier::opaque]
    pub open spec fn name_model(name: Seq<char>) -> ParamModel {
        ParamModel { name, typed: Self::known(name) is Some }
    }

    /// Map a wire property name to its typed [`AudioParam`] variant if known, without
    /// allocating.
    pub fn from_known_name(name: &str) -> (r: Option<AudioParam>)
        ensures
            r == Self::known(name@),
            r matches Some(p) ==> p.wire_name() == name@,
            r matches Some(p) ==> p.model() == Self::name_model(name@),
    {
        proof {
            reveal(AudioParam::name_model);
        }
        if str_eq(name, "activeStreamerXMixPreset") {
            return Some(AudioParam::ActiveStreamerXMixPreset);
        }
        if str_eq(name, "audioBufferSize") {
            return Some(AudioParam::BufferSize);
        }
        if str_eq(name, "audioSampleRate") {
            return Some(AudioParam::SampleRate);
        }
        if str_eq(name, "audioInputChannels") {
            return Some(AudioParam::InputChannels);
        }
        if str_eq(name, "audioOutputChannels") {
            return Some(AudioParam::OutputChannels);
        }
        if str_eq(name, "audioInputLatency") {
            return Some(AudioParam::InputLatency);
        }
        if str_eq(name, "audioOuputLatency") {
            return Some(AudioParam::OuputLatency);
        }
        if str_eq(name, "rcSyncChannelAssign") {
            return Some(AudioParam::RcSyncChannelAssign);
        }
        if str_eq(name, "rcSyncChannelSwap") {
            return Some(AudioParam::RcSyncChannelSwap);
        }
        None
    }

    /// Check if a wire property name matches a known [`AudioParam`] variant without
    /// allocating.
    pub fn is_known_name(name: &str) -> (r: bool)
        ensures
            r == Self::known(name@) is Some,
    {
        Self::from_known_name(name).is_some()
    }

    /// Map a wire property name to its typed [`AudioParam`] variant. Unknown names map
    /// to [`AudioParam::Other`], so this is total (never fails).
    pub fn from_name(name: &str) -> (r: AudioParam)
        ensures
            match Self::known(name@) {
                Some(p) => r == p,
                None => r matches AudioParam::Other(s) && s@ == name@,
            },
            r.wire_name() == name@,
            r.model() == Self::name_model(name@),
    {
        proof {
            reveal(AudioParam::name_model);
        }
        match Self::from_known_name(name) {
            Some(p) => p,
            None => AudioParam::Other(name.to_owned()),
        }
    }

    /// The wire property name for this parameter (inverse of [`AudioParam::from_name`]).
    pub fn as_str(&self) -> (r: &str)
        ensures
            r@ == self.wire_name(),
    {
        match self {
            AudioParam::ActiveStreamerXMixPreset => "activeStreamerXMixPreset",
            AudioParam::BufferSize => "audioBufferSize",
            AudioParam::SampleRate => "audioSampleRate",
            AudioParam::InputChannels => "audioInputChannels",
            AudioParam::OutputChannels => "audioOutputChannels",
            AudioParam::InputLatency => "audioInputLatency",
            AudioParam::OuputLatency => "audioOuputLatency",
            AudioParam::RcSyncChannelAssign => "rcSyncChannelAssign",
            AudioParam::RcSyncChannelSwap => "rcSyncChannelSwap",
            AudioParam::Other(s) => s.as_str(),
        }
    }

    /// The wire property name as an owned string.
    pub fn to_string(&self) -> (r: String)
        ensures
            r@ == self.wire_name(),
    {
        self.as_str().to_owned()
    }

    /// `true` if this is a typed variant (not [`AudioParam::Other`]).
    pub fn is_known(&self) -> (r: bool)
        ensures
            r == !(self is Other),
    {
        !matches!(self, AudioParam::Other(_))
    }
}

impl Clone for AudioParam {
    fn clone(&self) -> (r: Self)
        ensures
            r.wire_name() == self.wire_name(),
            self is Other ==> r is Other,
            !(self is Other) ==> r == *self,
    {
        match self {
            AudioParam::ActiveStreamerXMixPreset => AudioParam::ActiveStreamerXMixPreset,
            AudioParam::BufferSize => AudioParam::BufferSize,
            AudioParam::SampleRate => AudioParam::SampleRate,
            AudioParam::InputChannels => AudioParam::InputChannels,
            AudioParam::OutputChannels => AudioParam::OutputChannels,
            AudioParam::InputLatency => AudioParam::InputLatency,
            AudioParam::OuputLatency => AudioParam::OuputLatency,
            AudioParam::RcSyncChannelAssign => AudioParam::RcSyncChannelAssign,
            AudioParam::RcSyncChannelSwap => AudioParam::RcSyncChannelSwap,
            AudioParam::Other(s) => AudioParam::Other(s.clone()),
        }
    }
}

/// Every typed [`AudioParam`] variant is found again from its wire name.
pub proof fn lemma_audio_param_name_round_trip(p: AudioParam)
    requires
        !(p is Other),
    ensures
        AudioParam::known(p.wire_name()) == Some(p),
        no_nul(p.wire_name()),
{
    reveal_strlit("activeStreamerXMixPreset");
    reveal_strlit("audioBufferSize");
    reveal_strlit("audioSampleRate");
    reveal_strlit("audioInputChannels");
    reveal_strlit("audioOutputChannels");
    reveal_strlit("audioInputLatency");
    reveal_strlit("audioOuputLatency");
    reveal_strlit("rcSyncChannelAssign");
    reveal_strlit("rcSyncChannelSwap");
    assert("activeStreamerXMixPreset"@.len() == 24);
    assert("audioBufferSize"@.len() == 15);
    assert("audioSampleRate"@.len() == 15);
    assert("audioInputChannels"@.len() == 18);
    assert("audioOutputChannels"@.len() == 19);
    assert("audioInputLatency"@.len() == 17);
    assert("audioOuputLatency"@.len() == 17);
    assert("rcSyncChannelAssign"@.len() == 19);
    assert("rcSyncChannelSwap"@.len() == 17);
    assert("audioBufferSize"@[5] != "audioSampleRate"@[5]);
    assert("audioOutputChannels"@[0] != "rcSyncChannelAssign"@[0]);
    assert("audioInputLatency"@[5] != "audioOuputLatency"@[5]);
    assert("audioInputLatency"@[0] != "rcSyncChannelSwap"@[0]);
    assert("audioOuputLatency"@[0] != "rcSyncChannelSwap"@[0]);
}

} // verus!
