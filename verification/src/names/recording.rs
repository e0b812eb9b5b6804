//! [`RecordingsParam`] + [`RecordingParam`]: the recordings container + per-
//! recording parameter families.

use vstd::prelude::*;

use crate::names::ParamModel;
use crate::text::{no_nul, str_eq};

verus! {

/// A recordings-container parameter: one of the flat properties the device
/// carries on the singleton `RECORDINGS` node (the parent of individual
/// `RECORDING` child nodes). Read-back state summarizes the collection
/// (total count + total duration seconds). `RequestDeleteUid` is the write
/// channel that removes a recording by its `RecordingParam::Uid`.
#[derive(Debug, PartialEq, Eq, Hash)]
#[non_exhaustive]
pub enum RecordingsParam {
    TotalCount,
    TotalDuration,
    RequestDeleteUid,
    /// A property without a typed [`RecordingsParam`] identifier yet. Holds the raw wire
    /// name; the value still rides in the carrying event/command.
    Other(String),
}

impl RecordingsParam {
    /// The wire property name.
    pub open spec fn wire_name(self) -> Seq<char> {
        match self {
            RecordingsParam::TotalCount => "recordingTotalCount"@,
            RecordingsParam::TotalDuration => "recordingTotalDuration"@,
            RecordingsParam::RequestDeleteUid => "requestDeleteUID"@,
            RecordingsParam::Other(s) => s@,
        }
    }

    /// The typed variant a wire name denotes, if any.
    pub open spec fn known(name: Seq<char>) -> Option<RecordingsParam> {
        if name == "recordingTotalCount"@ {
            Some(RecordingsParam::TotalCount)
        } else if name == "recordingTotalDuration"@ {
            Some(RecordingsParam::TotalDuration)
        } else if name == "requestDeleteUID"@ {
            Some(RecordingsParam::RequestDeleteUid)
        } else {
            None
        }
    }

    /// The parameter as events report it: its wire name, and whether it is a
    /// typed variant.
    pub open spec fn model(self) -> ParamModel {
        ParamModel { name: self.wire_name(), typed: !(self is Other) }
    }

    /// The parameter a wire name decodes to, as events report it: the name,
    /// typed exactly when a typed variant carries it.
    #[verifier::opaque]
    pub open spec fn name_model(name: Seq<char>) -> ParamModel {
        ParamModel { name, typed: Self::known(name) is Some }
    }

    /// Map a wire property name to its typed [`RecordingsParam`] variant if known, without
    /// allocating.
    pub fn from_known_name(name: &str) -> (r: Option<RecordingsParam>)
        ensures
            r == Self::known(name@),
            r matches Some(p) ==> p.wire_name() == name@,
            r matches Some(p) ==> p.model() == Self::name_model(name@),
    {
        proof {
            reveal(RecordingsParam::name_model);
        }
        if str_eq(name, "recordingTotalCount") {
            return Some(RecordingsParam::TotalCount);
        }
        if str_eq(name, "recordingTotalDuration") {
            return Some(RecordingsParam::TotalDuration);
        }
        if str_eq(name, "requestDeleteUID") {
            return Some(RecordingsParam::RequestDeleteUid);
        }
        None
    }

    /// Check if a wire property name matches a known [`RecordingsParam`] variant without
    /// allocating.
    pub fn is_known_name(name: &str) -> (r: bool)
        ensures
            r == Self::known(name@) is Some,
    {
        Self::from_known_name(name).is_some()
    }

    /// Map a wire property name to its typed [`RecordingsParam`] variant. Unknown names map
    /// to [`RecordingsParam::Other`], so this is total (never fails).
    pub fn from_name(name: &str) -> (r: RecordingsParam)
        ensures
            match Self::known(name@) {
                Some(p) => r == p,
                None => r matches RecordingsParam::Other(s) && s@ == name@,
            },
            r.wire_name() == name@,
            r.model() == Self::name_model(name@),
    {
        proof {
            reveal(RecordingsParam::name_model);
        }
        match Self::from_known_name(name) {
            Some(p) => p,
            None => RecordingsParam::Other(name.to_owned()),
        }
    }

    /// The wire property name for this parameter (inverse of [`RecordingsParam::from_name`]).
    pub fn as_str(&self) -> (r: &str)
        ensures
            r@ == self.wire_name(),
    {
        match self {
            RecordingsParam::TotalCount => "recordingTotalCount",
            RecordingsParam::TotalDuration => "recordingTotalDuration",
            RecordingsParam::RequestDeleteUid => "requestDeleteUID",
            RecordingsParam::Other(s) => s.as_str(),
        }
    }

    /// The wire property name as an owned string.
    pub fn to_string(&self) -> (r: String)
        ensures
            r@ == self.wire_name(),
    {
        self.as_str().to_owned()
    }

    /// `true` if this is a typed variant (not [`RecordingsParam::Other`]).
    pub fn is_known(&self) -> (r: bool)
        ensures
            r == !(self is Other),
    {
        !matches!(self, RecordingsParam::Other(_))
    }
}

impl Clone for RecordingsParam {
    fn clone(&self) -> (r: Self)
        ensures
            r.wire_name() == self.wire_name(),
            self is Other ==> r is Other,
            !(self is Other) ==> r == *self,
    {
        match self {
            RecordingsParam::TotalCount => RecordingsParam::TotalCount,
            RecordingsParam::TotalDuration => RecordingsParam::TotalDuration,
            RecordingsParam::RequestDeleteUid => RecordingsParam::RequestDeleteUid,
            RecordingsParam::Other(s) => RecordingsParam::Other(s.clone()),
        }
    }
}

/// Every typed [`RecordingsParam`] variant is found again from its wire name.
pub proof fn lemma_recordings_param_name_round_trip(p: RecordingsParam)
    requires
        !(p is Other),
    ensures
        RecordingsParam::known(p.wire_name()) == Some(p),
        no_nul(p.wire_name()),
{
    reveal_strlit("recordingTotalCount");
    reveal_strlit("recordingTotalDuration");
    reveal_strlit("requestDeleteUID");
    assert("recordingTotalCount"@.len() == 19);
    assert("recordingTotalDuration"@.len() == 22);
    assert("requestDeleteUID"@.len() == 16);
}

/// A per-recording parameter: one of the two flat properties the device
/// carries on each `RECORDING` child node under the `RECORDINGS`
/// container. `Content` arrives as a pipe-separated field string
/// (`name|hash|path|timestampMs|durationSec|flags...`); the crate types
/// the property name and leaves field parsing to the caller.
#[derive(Debug, PartialEq, Eq, Hash)]
#[non_exhaustive]
pub enum RecordingParam {
    Content,
    Uid,
    /// A property without a typed [`RecordingParam`] identifier yet. Holds the raw wire
    /// name; the value still rides in the carrying event/command.
    Other(String),
}

impl RecordingParam {
    /// The wire property name.
    pub open spec fn wire_name(self) -> Seq<char> {
        match self {
            RecordingParam::Content => "recordingContent"@,
            RecordingParam::Uid => "recordingUID"@,
            RecordingParam::Other(s) => s@,
        }
    }

    /// The typed variant a wire name denotes, if any.
    pub open spec fn known(name: Seq<char>) -> Option<RecordingParam> {
        if name == "recordingContent"@ {
            Some(RecordingParam::Content)
        } else if name == "recordingUID"@ {
            Some(RecordingParam::Uid)
        } else {
            None
        }
    }

    /// The parameter as events report it: its wire name, and whether it is a
    /// typed variant.
    pub open spec fn model(self) -> ParamModel {
        ParamModel { name: self.wire_name(), typed: !(self is Other) }
    }

    /// The parameter a wire name decodes to, as events report it: the name,
    /// typed exactly when a typed variant carries it.
    #[verifier::opaque]
    pub open spec fn name_model(name: Seq<char>) -> ParamModel {
        ParamModel { name, typed: Self::known(name) is Some }
    }

    /// Map a wire property name to its typed [`RecordingParam`] variant if known, without
    /// allocating.
    pub fn from_known_name(name: &str) -> (r: Option<RecordingParam>)
        ensures
            r == Self::known(name@),
            r matches Some(p) ==> p.wire_name() == name@,
            r matches Some(p) ==> p.model() == Self::name_model(name@),
    {
        proof {
            reveal(RecordingParam::name_model);
        }
        if str_eq(name, "recordingContent") {
            return Some(RecordingParam::Content);
        }
        if str_eq(name, "recordingUID") {
            return Some(RecordingParam::Uid);
        }
        None
    }

    /// Check if a wire property name matches a known [`RecordingParam`] variant without
    /// allocating.
    pub fn is_known_name(name: &str) -> (r: bool)
        ensures
            r == Self::known(name@) is Some,
    {
        Self::from_known_name(name).is_some()
    }

    /// Map a wire property name to its typed [`RecordingParam`] variant. Unknown names map
    /// to [`RecordingParam::Other`], so this is total (never fails).
    pub fn from_name(name: &str) -> (r: RecordingParam)
        ensures
            match Self::known(name@) {
                Some(p) => r == p,
                None => r matches RecordingParam::Other(s) && s@ == name@,
            },
            r.wire_name() == name@,
            r.model() == Self::name_model(name@),
    {
        proof {
            reveal(RecordingParam::name_model);
        }
        match Self::from_known_name(name) {
            Some(p) => p,
            None => RecordingParam::Other(name.to_owned()),
        }
    }

    /// The wire property name for this parameter (inverse of [`RecordingParam::from_name`]).
    pub fn as_str(&self) -> (r: &str)
        ensures
            r@ == self.wire_name(),
    {
        match self {
            RecordingParam::Content => "recordingContent",
            RecordingParam::Uid => "recordingUID",
            RecordingParam::Other(s) => s.as_str(),
        }
    }

    /// The wire property name as an owned string.
    pub fn to_string(&self) -> (r: String)
        ensures
            r@ == self.wire_name(),
    {
        self.as_str().to_owned()
    }

    /// `true` if this is a typed variant (not [`RecordingParam::Other`]).
    pub fn is_known(&self) -> (r: bool)
        ensures
            r == !(self is Other),
    {
        !matches!(self, RecordingParam::Other(_))
    }
}

impl Clone for RecordingParam {
    fn clone(&self) -> (r: Self)
        ensures
            r.wire_name() == self.wire_name(),
            self is Other ==> r is Other,
            !(self is Other) ==> r == *self,
    {
        match self {
            RecordingParam::Content => RecordingParam::Content,
            RecordingParam::Uid => RecordingParam::Uid,
            RecordingParam::Other(s) => RecordingParam::Other(s.clone()),
        }
    }
}

/// Every typed [`RecordingParam`] variant is found again from its wire name.
pub proof fn lemma_recording_param_name_round_trip(p: RecordingParam)
    requires
        !(p is Other),
    ensures
        RecordingParam::known(p.wire_name()) == Some(p),
        no_nul(p.wire_name()),
{
    reveal_strlit("recordingContent");
    reveal_strlit("recordingUID");
    assert("recordingContent"@.len() == 16);
    assert("recordingUID"@.len() == 12);
}

} // verus!
