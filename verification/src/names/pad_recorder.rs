//! [`PadRecorderParam`]: per-`PADRECORDER`-node parameter family.

use vstd::prelude::*;

use crate::names::ParamModel;
use crate::text::{no_nul, str_eq};

verus! {

/// A per-pad-recorder parameter: the flat properties on each
/// `PADRECORDER` node. Read-back: `Idx` (which pad this recorder targets),
/// `State` (current recording state), `Seconds` (elapsed recording
/// duration), `MemoryFull` (out-of-space flag). Command channels:
/// `StateRequest` (write to change recording state), `Clear` (write to
/// erase the pad's current recording).
#[derive(Debug, PartialEq, Eq, Hash)]
#[non_exhaustive]
pub enum PadRecorderParam {
    Idx,
    State,
    Seconds,
    MemoryFull,
    StateRequest,
    Clear,
    /// A property without a typed [`PadRecorderParam`] identifier yet. Holds the raw wire
    /// name; the value still rides in the carrying event/command.
    Other(String),
}

impl PadRecorderParam {
    /// The wire property name.
    pub open spec fn wire_name(self) -> Seq<char> {
        match self {
            PadRecorderParam::Idx => "padRecordIdx"@,
            PadRecorderParam::State => "padRecordState"@,
            PadRecorderParam::Seconds => "padRecordSeconds"@,
            PadRecorderParam::MemoryFull => "padRecordMemoryFull"@,
            PadRecorderParam::StateRequest => "padRecordStateRequest"@,
            PadRecorderParam::Clear => "padRecordClear"@,
            PadRecorderParam::Other(s) => s@,
        }
    }

    /// The typed variant a wire name denotes, if any.
    pub open spec fn known(name: Seq<char>) -> Option<PadRecorderParam> {
        if name == "padRecordIdx"@ {
            Some(PadRecorderParam::Idx)
        } else if name == "padRecordState"@ {
            Some(PadRecorderParam::State)
        } else if name == "padRecordSeconds"@ {
            Some(PadRecorderParam::Seconds)
        } else if name == "padRecordMemoryFull"@ {
            Some(PadRecorderParam::MemoryFull)
        } else if name == "padRecordStateRequest"@ {
            Some(PadRecorderParam::StateRequest)
        } else if name == "padRecordClear"@ {
            Some(PadRecorderParam::Clear)
        } else {
            None
        }
    }

    /// The parameter as events report it: its wire name, and whether it is a
    /// typed variant.
    pub open spec fn model(self) -> ParamModel {
        ParamModel { name: self.wire_name(), typed: !(self is Other) }
    }

    /// The parameter a wire name decodes to, as events report it: the name,
    /// typed exactly when a typed variant carries it.
    #[verifier::opaque]
    pub open spec fn name_model(name: Seq<char>) -> ParamModel {
        ParamModel { name, typed: Self::known(name) is Some }
    }

    /// Map a wire property name to its typed [`PadRecorderParam`] variant if known, without
    /// allocating.
    pub fn from_known_name(name: &str) -> (r: Option<PadRecorderParam>)
        ensures
            r == Self::known(name@),
            r matches Some(p) ==> p.wire_name() == name@,
            r matches Some(p) ==> p.model() == Self::name_model(name@),
    {
        proof {
            reveal(PadRecorderParam::name_model);
        }
        if str_eq(name, "padRecordIdx") {
            return Some(PadRecorderParam::Idx);
        }
        if str_eq(name, "padRecordState") {
            return Some(PadRecorderParam::State);
        }
        if str_eq(name, "padRecordSeconds") {
            return Some(PadRecorderParam::Seconds);
        }
        if str_eq(name, "padRecordMemoryFull") {
            return Some(PadRecorderParam::MemoryFull);
        }
        if str_eq(name, "padRecordStateRequest") {
            return Some(PadRecorderParam::StateRequest);
        }
        if str_eq(name, "padRecordClear") {
            return Some(PadRecorderParam::Clear);
        }
        None
    }

    /// Check if a wire property name matches a known [`PadRecorderParam`] variant without
    /// allocating.
    pub fn is_known_name(name: &str) -> (r: bool)
        ensures
            r == Self::known(name@) is Some,
    {
        Self::from_known_name(name).is_some()
    }

    /// Map a wire property name to its typed [`PadRecorderParam`] variant. Unknown names map
    /// to [`PadRecorderParam::Other`], so this is total (never fails).
    pub fn from_name(name: &str) -> (r: PadRecorderParam)
        ensures
            match Self::known(name@) {
                Some(p) => r == p,
                None => r matches PadRecorderParam::Other(s) && s@ == name@,
            },
            r.wire_name() == name@,
            r.model() == Self::name_model(name@),
    {
        proof {
            reveal(PadRecorderParam::name_model);
        }
        match Self::from_known_name(name) {
            Some(p) => p,
            None => PadRecorderParam::Other(name.to_owned()),
        }
    }

    /// The wire property name for this parameter (inverse of [`PadRecorderParam::from_name`]).
    pub fn as_str(&self) -> (r: &str)
        ensures
            r@ == self.wire_name(),
    {
        match self {
            PadRecorderParam::Idx => "padRecordIdx",
            PadRecorderParam::State => "padRecordState",
            PadRecorderParam::Seconds => "padRecordSeconds",
            PadRecorderParam::MemoryFull => "padRecordMemoryFull",
            PadRecorderParam::StateRequest => "padRecordStateRequest",
            PadRecorderParam::Clear => "padRecordClear",
            PadRecorderParam::Other(s) => s.as_str(),
        }
    }

    /// The wire property name as an owned string.
    pub fn to_string(&self) -> (r: String)
        ensures
            r@ == self.wire_name(),
    {
        self.as_str().to_owned()
    }

    /// `true` if this is a typed variant (not [`PadRecorderParam::Other`]).
    pub fn is_known(&self) -> (r: bool)
        ensures
            r == !(self is Other),
    {
        !matches!(self, PadRecorderParam::Other(_))
    }
}

impl Clone for PadRecorderParam {
    fn clone(&self) -> (r: Self)
        ensures
            r.wire_name() == self.wire_name(),
            self is Other ==> r is Other,
            !(self is Other) ==> r == *self,
    {
        match self {
            PadRecorderParam::Idx => PadRecorderParam::Idx,
            PadRecorderParam::State => PadRecorderParam::State,
            PadRecorderParam::Seconds => PadRecorderParam::Seconds,
            PadRecorderParam::MemoryFull => PadRecorderParam::MemoryFull,
            PadRecorderParam::StateRequest => PadRecorderParam::StateRequest,
            PadRecorderParam::Clear => PadRecorderParam::Clear,
            PadRecorderParam::Other(s) => PadRecorderParam::Other(s.clone()),
        }
    }
}

/// Every typed [`PadRecorderParam`] variant is found again from its wire name.
pub proof fn lemma_pad_recorder_param_name_round_trip(p: PadRecorderParam)
    requires
        !(p is Other),
    ensures
        PadRecorderParam::known(p.wire_name()) == Some(p),
        no_nul(p.wire_name()),
{
    reveal_strlit("padRecordIdx");
    reveal_strlit("padRecordState");
    reveal_strlit("padRecordSeconds");
    reveal_strlit("padRecordMemoryFull");
    reveal_strlit("padRecordStateRequest");
    reveal_strlit("padRecordClear");
    assert("padRecordIdx"@.len() == 12);
    assert("padRecordState"@.len() == 14);
    assert("padRecordSeconds"@.len() == 16);
    assert("padRecordMemoryFull"@.len() == 19);
    assert("padRecordStateRequest"@.len() == 21);
    assert("padRecordClear"@.len() == 14);
    assert("padRecordState"@[9] != "padRecordClear"@[9]);
}

} // verus!
