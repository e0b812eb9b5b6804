//! [`RecorderParam`]: the singleton `RECORDER`-node parameter family.

use vstd::prelude::*;

use crate::names::ParamModel;
use crate::text::{no_nul, str_eq};

verus! {

/// A recorder parameter: one of the flat properties the device carries on
/// the single `RECORDER` node. There is exactly one recorder, so this family
/// takes no addressing key. The `record*` properties are read-back state
/// (current transport, elapsed ms, byte rate); the `request*` properties are
/// the write channel (set `requestRecordState` to start/stop recording, set
/// `requestDropMarker` to drop a chapter marker).
#[derive(Debug, PartialEq, Eq, Hash)]
#[non_exhaustive]
pub enum RecorderParam {
    RecordState,
    RecordTimeMs,
    RecordBytesPerSecond,
    RequestRecordState,
    RequestDropMarker,
    /// A property without a typed [`RecorderParam`] identifier yet. Holds the raw wire
    /// name; the value still rides in the carrying event/command.
    Other(String),
}

impl RecorderParam {
    /// The wire property name.
    pub open spec fn wire_name(self) -> Seq<char> {
        match self {
            RecorderParam::RecordState => "recordState"@,
            RecorderParam::RecordTimeMs => "recordTimeMs"@,
            RecorderParam::RecordBytesPerSecond => "recordBytesPerSecond"@,
            RecorderParam::RequestRecordState => "requestRecordState"@,
            RecorderParam::RequestDropMarker => "requestDropMarker"@,
            RecorderParam::Other(s) => s@,
        }
    }

    /// The typed variant a wire name denotes, if any.
    pub open spec fn known(name: Seq<char>) -> Option<RecorderParam> {
        if name == "recordState"@ {
            Some(RecorderParam::RecordState)
        } else if name == "recordTimeMs"@ {
            Some(RecorderParam::RecordTimeMs)
        } else if name == "recordBytesPerSecond"@ {
            Some(RecorderParam::RecordBytesPerSecond)
        } else if name == "requestRecordState"@ {
            Some(RecorderParam::RequestRecordState)
        } else if name == "requestDropMarker"@ {
            Some(RecorderParam::RequestDropMarker)
        } else {
            None
        }
    }

    /// The parameter as events report it: its wire name, and whether it is a
    /// typed variant.
    pub open spec fn model(self) -> ParamModel {
        ParamModel { name: self.wire_name(), typed: !(self is Other) }
    }

    /// The parameter a wire name decodes to, as events report it: the name,
    /// typed exactly when a typed variant carries it.
    #[verifier::opaque]
    pub open spec fn name_model(name: Seq<char>) -> ParamModel {
        ParamModel { name, typed: Self::known(name) is Some }
    }

    /// Map a wire property name to its typed [`RecorderParam`] variant if known, without
    /// allocating.
    pub fn from_known_name(name: &str) -> (r: Option<RecorderParam>)
        ensures
            r == Self::known(name@),
            r matches Some(p) ==> p.wire_name() == name@,
            r matches Some(p) ==> p.model() == Self::name_model(name@),
    {
        proof {
            reveal(RecorderParam::name_model);
        }
        if str_eq(name, "recordState") {
            return Some(RecorderParam::RecordState);
        }
        if str_eq(name, "recordTimeMs") {
            return Some(RecorderParam::RecordTimeMs);
        }
        if str_eq(name, "recordBytesPerSecond") {
            return Some(RecorderParam::RecordBytesPerSecond);
        }
        if str_eq(name, "requestRecordState") {
            return Some(RecorderParam::RequestRecordState);
        }
        if str_eq(name, "requestDropMarker") {
            return Some(RecorderParam::RequestDropMarker);
        }
        None
    }

    /// Check if a wire property name matches a known [`RecorderParam`] variant without
    /// allocating.
    pub fn is_known_name(name: &str) -> (r: bool)
        ensures
            r == Self::known(name@) is Some,
    {
        Self::from_known_name(name).is_some()
    }

    /// Map a wire property name to its typed [`RecorderParam`] variant. Unknown names map
    /// to [`RecorderParam::Other`], so this is total (never fails).
    pub fn from_name(name: &str) -> (r: RecorderParam)
        ensures
            match Self::known(name@) {
                Some(p) => r == p,
                None => r matches RecorderParam::Other(s) && s@ == name@,
            },
            r.wire_name() == name@,
            r.model() == Self::name_model(name@),
    {
        proof {
            reveal(RecorderParam::name_model);
        }
        match Self::from_known_name(name) {
            Some(p) => p,
            None => RecorderParam::Other(name.to_owned()),
        }
    }

    /// The wire property name for this parameter (inverse of [`RecorderParam::from_name`]).
    pub fn as_str(&self) -> (r: &str)
        ensures
            r@ == self.wire_name(),
    {
        match self {
            RecorderParam::RecordState => "recordState",
            RecorderParam::RecordTimeMs => "recordTimeMs",
            RecorderParam::RecordBytesPerSecond => "recordBytesPerSecond",
            RecorderParam::RequestRecordState => "requestRecordState",
            RecorderParam::RequestDropMarker => "requestDropMarker",
            RecorderParam::Other(s) => s.as_str(),
        }
    }

    /// The wire property name as an owned string.
    pub fn to_string(&self) -> (r: String)
        ensures
            r@ == self.wire_name(),
    {
        self.as_str().to_owned()
    }

    /// `true` if this is a typed variant (not [`RecorderParam::Other`]).
    pub fn is_known(&self) -> (r: bool)
        ensures
            r == !(self is Other),
    {
        !matches!(self, RecorderParam::Other(_))
    }
}

impl Clone for RecorderParam {
    fn clone(&self) -> (r: Self)
        ensures
            r.wire_name() == self.wire_name(),
            self is Other ==> r is Other,
            !(self is Other) ==> r == *self,
    {
        match self {
            RecorderParam::RecordState => RecorderParam::RecordState,
            RecorderParam::RecordTimeMs => RecorderParam::RecordTimeMs,
            RecorderParam::RecordBytesPerSecond => RecorderParam::RecordBytesPerSecond,
            RecorderParam::RequestRecordState => RecorderParam::RequestRecordState,
            RecorderParam::RequestDropMarker => RecorderParam::RequestDropMarker,
            RecorderParam::Other(s) => RecorderParam::Other(s.clone()),
        }
    }
}

/// Every typed [`RecorderParam`] variant is found again from its wire name.
pub proof fn lemma_recorder_param_name_round_trip(p: RecorderParam)
    requires
        !(p is Other),
    ensures
        RecorderParam::known(p.wire_name()) == Some(p),
        no_nul(p.wire_name()),
{
    reveal_strlit("recordState");
    reveal_strlit("recordTimeMs");
    reveal_strlit("recordBytesPerSecond");
    reveal_strlit("requestRecordState");
    reveal_strlit("requestDropMarker");
    assert("recordState"@.len() == 11);
    assert("recordTimeMs"@.len() == 12);
    assert("recordBytesPerSecond"@.len() == 20);
    assert("requestRecordState"@.len() == 18);
    assert("requestDropMarker"@.len() == 17);
}

} // verus!
