//! [`OutputParam`]: the singleton `OUTPUT`-node parameter family.

use vstd::prelude::*;

use crate::names::ParamModel;
use crate::text::{no_nul, str_eq};

verus! {

/// An output-bus parameter: one of the flat properties the device carries on
/// the single `OUTPUT` node. There is exactly one, so this family takes no
/// addressing key. Covers the monitor (speaker) output, the Bluetooth
/// output, the multi-output mode, and the recording-bus flags the firmware
/// co-locates on this node.
#[derive(Debug, PartialEq, Eq, Hash)]
#[non_exhaustive]
pub enum OutputParam {
    MonLevel,
    MonMute,
    MonAutoMute,
    MonAutoMuteActive,
    MonFixed,
    BtLevel,
    BtMute,
    BtAutoMute,
    BtAutoMuteActive,
    MultiMode,
    MultiBypass,
    Prefader,
    RecordingCompressionQuality,
    RecordingMultitrackMode,
    RecordingProcessingBypass,
    /// A property without a typed [`OutputParam`] identifier yet. Holds the raw wire
    /// name; the value still rides in the carrying event/command.
    Other(String),
}

impl OutputParam {
    /// The wire property name.
    pub open spec fn wire_name(self) -> Seq<char> {
        match self {
            OutputParam::MonLevel => "outputMonLevel"@,
            OutputParam::MonMute => "outputMonMute"@,
            OutputParam::MonAutoMute => "outputMonAutoMute"@,
            OutputParam::MonAutoMuteActive => "outputMonAutoMuteActive"@,
            OutputParam::MonFixed => "outputMonFixed"@,
            OutputParam::BtLevel => "outputBTLevel"@,
            OutputParam::BtMute => "outputBTMute"@,
            OutputParam::BtAutoMute => "outputBTAutoMute"@,
            OutputParam::BtAutoMuteActive => "outputBTAutoMuteActive"@,
            OutputParam::MultiMode => "outputMultiMode"@,
            OutputParam::MultiBypass => "outputMultiBypass"@,
            OutputParam::Prefader => "outputPrefader"@,
            OutputParam::RecordingCompressionQuality => "recordingCompressionQuality"@,
            OutputParam::RecordingMultitrackMode => "recordingMultitrackMode"@,
            OutputParam::RecordingProcessingBypass => "recordingProcessingBypass"@,
            OutputParam::Other(s) => s@,
        }
    }

    /// The typed variant a wire name denotes, if any.
    pub open spec fn known(name: Seq<char>) -> Option<OutputParam> {
        if name == "outputMonLevel"@ {
            Some(OutputParam::MonLevel)
        } else if name == "outputMonMute"@ {
            Some(OutputParam::MonMute)
        } else if name == "outputMonAutoMute"@ {
            Some(OutputParam::MonAutoMute)
        } else if name == "outputMonAutoMuteActive"@ {
            Some(OutputParam::MonAutoMuteActive)
        } else if name == "outputMonFixed"@ {
            Some(OutputParam::MonFixed)
        } else if name == "outputBTLevel"@ {
            Some(OutputParam::BtLevel)
        } else if name == "outputBTMute"@ {
            Some(OutputParam::BtMute)
        } else if name == "outputBTAutoMute"@ {
            Some(OutputParam::BtAutoMute)
        } else if name == "outputBTAutoMuteActive"@ {
            Some(OutputParam::BtAutoMuteActive)
        } else if name == "outputMultiMode"@ {
            Some(OutputParam::MultiMode)
        } else if name == "outputMultiBypass"@ {
            Some(OutputParam::MultiBypass)
        } else if name == "outputPrefader"@ {
            Some(OutputParam::Prefader)
        } else if name == "recordingCompressionQuality"@ {
            Some(OutputParam::RecordingCompressionQuality)
        } else if name == "recordingMultitrackMode"@ {
            Some(OutputParam::RecordingMultitrackMode)
        } else if name == "recordingProcessingBypass"@ {
            Some(OutputParam::RecordingProcessingBypass)
        } else {
            None
        }
    }

    /// The parameter as events report it: its wire name, and whether it is a
    /// typed variant.
    pub open spec fn model(self) -> ParamModel {
        ParamModel { name: self.wire_name(), typed: !(self is Other) }
    }

    /// The parameter a wire name decodes to, as events report it: the name,
    /// typed exactly when a typed variant carries it.
    #[verifier::opaque]
    pub open spec fn name_model(name: Seq<char>) -> ParamModel {
        ParamModel { name, typed: Self::known(name) is Some }
    }

    /// Map a wire property name to its typed [`OutputParam`] variant if known, without
    /// allocating.
    pub fn from_known_name(name: &str) -> (r: Option<OutputParam>)
        ensures
            r == Self::known(name@),
            r matches Some(p) ==> p.wire_name() == name@,
            r matches Some(p) ==> p.model() == Self::name_model(name@),
    {
        proof {
            reveal(OutputParam::name_model);
        }
        if str_eq(name, "outputMonLevel") {
            return Some(OutputParam::MonLevel);
        }
        if str_eq(name, "outputMonMute") {
            return Some(OutputParam::MonMute);
        }
        if str_eq(name, "outputMonAutoMute") {
            return Some(OutputParam::MonAutoMute);
        }
        if str_eq(name, "outputMonAutoMuteActive") {
            return Some(OutputParam::MonAutoMuteActive);
        }
        if str_eq(name, "outputMonFixed") {
            return Some(OutputParam::MonFixed);
        }
        if str_eq(name, "outputBTLevel") {
            return Some(OutputParam::BtLevel);
        }
        if str_eq(name, "outputBTMute") {
            return Some(OutputParam::BtMute);
        }
        if str_eq(name, "outputBTAutoMute") {
            return Some(OutputParam::BtAutoMute);
        }
        if str_eq(name, "outputBTAutoMuteActive") {
            return Some(OutputParam::BtAutoMuteActive);
        }
        if str_eq(name, "outputMultiMode") {
            return Some(OutputParam::MultiMode);
        }
        if str_eq(name, "outputMultiBypass") {
            return Some(OutputParam::MultiBypass);
        }
        if str_eq(name, "outputPrefader") {
            return Some(OutputParam::Prefader);
        }
        if str_eq(name, "recordingCompressionQuality") {
            return Some(OutputParam::RecordingCompressionQuality);
        }
        if str_eq(name, "recordingMultitrackMode") {
            return Some(OutputParam::RecordingMultitrackMode);
        }
        if str_eq(name, "recordingProcessingBypass") {
            return Some(OutputParam::RecordingProcessingBypass);
        }
        None
    }

    /// Check if a wire property name matches a known [`OutputParam`] variant without
    /// allocating.
    pub fn is_known_name(name: &str) -> (r: bool)
        ensures
            r == Self::known(name@) is Some,
    {
        Self::from_known_name(name).is_some()
    }

    /// Map a wire property name to its typed [`OutputParam`] variant. Unknown names map
    /// to [`OutputParam::Other`], so this is total (never fails).
    pub fn from_name(name: &str) -> (r: OutputParam)
        ensures
            match Self::known(name@) {
                Some(p) => r == p,
                None => r matches OutputParam::Other(s) && s@ == name@,
            },
            r.wire_name() == name@,
            r.model() == Self::name_model(name@),
    {
        proof {
            reveal(OutputParam::name_model);
        }
        match Self::from_known_name(name) {
            Some(p) => p,
            None => OutputParam::Other(name.to_owned()),
        }
    }

    /// The wire property name for this parameter (inverse of [`OutputParam::from_name`]).
    pub fn as_str(&self) -> (r: &str)
        ensures
            r@ == self.wire_name(),
    {
        match self {
            OutputParam::MonLevel => "outputMonLevel",
            OutputParam::MonMute => "outputMonMute",
            OutputParam::MonAutoMute => "outputMonAutoMute",
            OutputParam::MonAutoMuteActive => "outputMonAutoMuteActive",
            OutputParam::MonFixed => "outputMonFixed",
            OutputParam::BtLevel => "outputBTLevel",
            OutputParam::BtMute => "outputBTMute",
            OutputParam::BtAutoMute => "outputBTAutoMute",
            OutputParam::BtAutoMuteActive => "outputBTAutoMuteActive",
            OutputParam::MultiMode => "outputMultiMode",
            OutputParam::MultiBypass => "outputMultiBypass",
            OutputParam::Prefader => "outputPrefader",
            OutputParam::RecordingCompressionQuality => "recordingCompressionQuality",
            OutputParam::RecordingMultitrackMode => "recordingMultitrackMode",
            OutputParam::RecordingProcessingBypass => "recordingProcessingBypass",
            OutputParam::Other(s) => s.as_str(),
        }
    }

    /// The wire property name as an owned string.
    pub fn to_string(&self) -> (r: String)
        ensures
            r@ == self.wire_name(),
    {
        self.as_str().to_owned()
    }

    /// `true` if this is a typed variant (not [`OutputParam::Other`]).
    pub fn is_known(&self) -> (r: bool)
        ensures
            r == !(self is Other),
    {
        !matches!(self, OutputParam::Other(_))
    }
}

impl Clone for OutputParam {
    fn clone(&self) -> (r: Self)
        ensures
            r.wire_name() == self.wire_name(),
            self is Other ==> r is Other,
            !(self is Other) ==> r == *self,
    {
        match self {
            OutputParam::MonLevel => OutputParam::MonLevel,
            OutputParam::MonMute => OutputParam::MonMute,
            OutputParam::MonAutoMute => OutputParam::MonAutoMute,
            OutputParam::MonAutoMuteActive => OutputParam::MonAutoMuteActive,
            OutputParam::MonFixed => OutputParam::MonFixed,
            OutputParam::BtLevel => OutputParam::BtLevel,
            OutputParam::BtMute => OutputParam::BtMute,
            OutputParam::BtAutoMute => OutputParam::BtAutoMute,
            OutputParam::BtAutoMuteActive => OutputParam::BtAutoMuteActive,
            OutputParam::MultiMode => OutputParam::MultiMode,
            OutputParam::MultiBypass => OutputParam::MultiBypass,
            OutputParam::Prefader => OutputParam::Prefader,
            OutputParam::RecordingCompressionQuality => OutputParam::RecordingCompressionQuality,
            OutputParam::RecordingMultitrackMode => OutputParam::RecordingMultitrackMode,
            OutputParam::RecordingProcessingBypass => OutputParam::RecordingProcessingBypass,
            OutputParam::Other(s) => OutputParam::Other(s.clone()),
        }
    }
}

/// Every typed [`OutputParam`] variant is found again from its wire name.
pub proof fn lemma_output_param_name_round_trip(p: OutputParam)
    requires
        !(p is Other),
    ensures
        OutputParam::known(p.wire_name()) == Some(p),
        no_nul(p.wire_name()),
{
    reveal_strlit("outputMonLevel");
    reveal_strlit("outputMonMute");
    reveal_strlit("outputMonAutoMute");
    reveal_strlit("outputMonAutoMuteActive");
    reveal_strlit("outputMonFixed");
    reveal_strlit("outputBTLevel");
    reveal_strlit("outputBTMute");
    reveal_strlit("outputBTAutoMute");
    reveal_strlit("outputBTAutoMuteActive");
    reveal_strlit("outputMultiMode");
    reveal_strlit("outputMultiBypass");
    reveal_strlit("outputPrefader");
    reveal_strlit("recordingCompressionQuality");
    reveal_strlit("recordingMultitrackMode");
    reveal_strlit("recordingProcessingBypass");
    assert("outputMonLevel"@.len() == 14);
    assert("outputMonMute"@.len() == 13);
    assert("outputMonAutoMute"@.len() == 17);
    assert("outputMonAutoMuteActive"@.len() == 23);
    assert("outputMonFixed"@.len() == 14);
    assert("outputBTLevel"@.len() == 13);
    assert("outputBTMute"@.len() == 12);
    assert("outputBTAutoMute"@.len() == 16);
    assert("outputBTAutoMuteActive"@.len() == 22);
    assert("outputMultiMode"@.len() == 15);
    assert("outputMultiBypass"@.len() == 17);
    assert("outputPrefader"@.len() == 14);
    assert("recordingCompressionQuality"@.len() == 27);
    assert("recordingMultitrackMode"@.len() == 23);
    assert("recordingProcessingBypass"@.len() == 25);
    assert("outputMonLevel"@[9] != "outputMonFixed"@[9]);
    assert("outputMonLevel"@[6] != "outputPrefader"@[6]);
    assert("outputMonMute"@[6] != "outputBTLevel"@[6]);
    assert("outputMonAutoMute"@[7] != "outputMultiBypass"@[7]);
    assert("outputMonAutoMuteActive"@[0] != "recordingMultitrackMode"@[0]);
    assert("outputMonFixed"@[6] != "outputPrefader"@[6]);
}

} // verus!
