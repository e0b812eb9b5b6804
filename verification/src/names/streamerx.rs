//! StreamerX-integration parameter families: [`StreamerXMixPresetParam`]
//! (per-preset) and [`StreamerXStreamMixParam`] (per-stream).

use vstd::prelude::*;

use crate::names::ParamModel;
use crate::text::{no_nul, str_eq};

verus! {

/// A per-preset StreamerX mix preset parameter: the flat properties on
/// each `STREAMERXMIXPRESET` node. `Created` reports whether the preset
/// has been initialized; `Name` is the user-facing preset name.
#[derive(Debug, PartialEq, Eq, Hash)]
#[non_exhaustive]
pub enum StreamerXMixPresetParam {
    Created,
    Name,
    /// A property without a typed [`StreamerXMixPresetParam`] identifier yet. Holds the raw wire
    /// name; the value still rides in the carrying event/command.
    Other(String),
}

impl StreamerXMixPresetParam {
    /// The wire property name.
    pub open spec fn wire_name(self) -> Seq<char> {
        match self {
            StreamerXMixPresetParam::Created => "streamerXPresetCreated"@,
            StreamerXMixPresetParam::Name => "streamerXPresetName"@,
            StreamerXMixPresetParam::Other(s) => s@,
        }
    }

    /// The typed variant a wire name denotes, if any.
    pub open spec fn known(name: Seq<char>) -> Option<StreamerXMixPresetParam> {
        if name == "streamerXPresetCreated"@ {
            Some(StreamerXMixPresetParam::Created)
        } else if name == "streamerXPresetName"@ {
            Some(StreamerXMixPresetParam::Name)
        } else {
            None
        }
    }

    /// The parameter as events report it: its wire name, and whether it is a
    /// typed variant.
    pub open spec fn model(self) -> ParamModel {
        ParamModel { name: self.wire_name(), typed: !(self is Other) }
    }

    /// The parameter a wire name decodes to, as events report it: the name,
    /// typed exactly when a typed variant carries it.
    #[verifier::opaque]
    pub open spec fn name_model(name: Seq<char>) -> ParamModel {
        ParamModel { name, typed: Self::known(name) is Some }
    }

    /// Map a wire property name to its typed [`StreamerXMixPresetParam`] variant if known, without
    /// allocating.
    pub fn from_known_name(name: &str) -> (r: Option<StreamerXMixPresetParam>)
        ensures
            r == Self::known(name@),
            r matches Some(p) ==> p.wire_name() == name@,
            r matches Some(p) ==> p.model() == Self::name_model(name@),
    {
        proof {
            reveal(StreamerXMixPresetParam::name_model);
        }
        if str_eq(name, "streamerXPresetCreated") {
            return Some(StreamerXMixPresetParam::Created);
        }
        if str_eq(name, "streamerXPresetName") {
            return Some(StreamerXMixPresetParam::Name);
        }
        None
    }

    /// Check if a wire property name matches a known [`StreamerXMixPresetParam`] variant without
    /// allocating.
    pub fn is_known_name(name: &str) -> (r: bool)
        ensures
            r == Self::known(name@) is Some,
    {
        Self::from_known_name(name).is_some()
    }

    /// Map a wire property name to its typed [`StreamerXMixPresetParam`] variant. Unknown names map
    /// to [`StreamerXMixPresetParam::Other`], so this is total (never fails).
    pub fn from_name(name: &str) -> (r: StreamerXMixPresetParam)
        ensures
            match Self::known(name@) {
                Some(p) => r == p,
                None => r matches StreamerXMixPresetParam::Other(s) && s@ == name@,
            },
            r.wire_name() == name@,
            r.model() == Self::name_model(name@),
    {
        proof {
            reveal(StreamerXMixPresetParam::name_model);
        }
        match Self::from_known_name(name) {
            Some(p) => p,
            None => StreamerXMixPresetParam::Other(name.to_owned()),
        }
    }

    /// The wire property name for this parameter (inverse of [`StreamerXMixPresetParam::from_name`]).
    pub fn as_str(&self) -> (r: &str)
        ensures
            r@ == self.wire_name(),
    {
        match self {
            StreamerXMixPresetParam::Created => "streamerXPresetCreated",
            StreamerXMixPresetParam::Name => "streamerXPresetName",
            StreamerXMixPresetParam::Other(s) => s.as_str(),
        }
    }

    /// The wire property name as an owned string.
    pub fn to_string(&self) -> (r: String)
        ensures
            r@ == self.wire_name(),
    {
        self.as_str().to_owned()
    }

    /// `true` if this is a typed variant (not [`StreamerXMixPresetParam::Other`]).
    pub fn is_known(&self) -> (r: bool)
        ensures
            r == !(self is Other),
    {
        !matches!(self, StreamerXMixPresetParam::Other(_))
    }
}

impl Clone for StreamerXMixPresetParam {
    fn clone(&self) -> (r: Self)
        ensures
            r.wire_name() == self.wire_name(),
            self is Other ==> r is Other,
            !(self is Other) ==> r == *self,
    {
        match self {
            StreamerXMixPresetParam::Created => StreamerXMixPresetParam::Created,
            StreamerXMixPresetParam::Name => StreamerXMixPresetParam::Name,
            StreamerXMixPresetParam::Other(s) => StreamerXMixPresetParam::Other(s.clone()),
        }
    }
}

/// Every typed [`StreamerXMixPresetParam`] variant is found again from its wire name.
pub proof fn lemma_streamer_x_mix_preset_param_name_round_trip(p: StreamerXMixPresetParam)
    requires
        !(p is Other),
    ensures
        StreamerXMixPresetParam::known(p.wire_name()) == Some(p),
        no_nul(p.wire_name()),
{
    reveal_strlit("streamerXPresetCreated");
    reveal_strlit("streamerXPresetName");
    assert("streamerXPresetCreated"@.len() == 22);
    assert("streamerXPresetName"@.len() == 19);
}

/// A per-stream StreamerX mix parameter: the one flat property on each
/// `STREAMERXSTREAMMIX` node. Firmware wire name has a duplicated `mix`
/// prefix (`streammixmixLevel`); preserved verbatim.
#[derive(Debug, PartialEq, Eq, Hash)]
#[non_exhaustive]
pub enum StreamerXStreamMixParam {
    MixLevel,
    /// A property without a typed [`StreamerXStreamMixParam`] identifier yet. Holds the raw wire
    /// name; the value still rides in the carrying event/command.
    Other(String),
}

impl StreamerXStreamMixParam {
    /// The wire property name.
    pub open spec fn wire_name(self) -> Seq<char> {
        match self {
            StreamerXStreamMixParam::MixLevel => "streammixmixLevel"@,
            StreamerXStreamMixParam::Other(s) => s@,
        }
    }

    /// The typed variant a wire name denotes, if any.
    pub open spec fn known(name: Seq<char>) -> Option<StreamerXStreamMixParam> {
        if name == "streammixmixLevel"@ {
            Some(StreamerXStreamMixParam::MixLevel)
        } else {
            None
        }
    }

    /// The parameter as events report it: its wire name, and whether it is a
    /// typed variant.
    pub open spec fn model(self) -> ParamModel {
        ParamModel { name: self.wire_name(), typed: !(self is Other) }
    }

    /// The parameter a wire name decodes to, as events report it: the name,
    /// typed exactly when a typed variant carries it.
    #[verifier::opaque]
    pub open spec fn name_model(name: Seq<char>) -> ParamModel {
        ParamModel { name, typed: Self::known(name) is Some }
    }

    /// Map a wire property name to its typed [`StreamerXStreamMixParam`] variant if known, without
    /// allocating.
    pub fn from_known_name(name: &str) -> (r: Option<StreamerXStreamMixParam>)
        ensures
            r == Self::known(name@),
            r matches Some(p) ==> p.wire_name() == name@,
            r matches Some(p) ==> p.model() == Self::name_model(name@),
    {
        proof {
            reveal(StreamerXStreamMixParam::name_model);
        }
        if str_eq(name, "streammixmixLevel") {
            return Some(StreamerXStreamMixParam::MixLevel);
        }
        None
    }

    /// Check if a wire property name matches a known [`StreamerXStreamMixParam`] variant without
    /// allocating.
    pub fn is_known_name(name: &str) -> (r: bool)
        ensures
            r == Self::known(name@) is Some,
    {
        Self::from_known_name(name).is_some()
    }

    /// Map a wire property name to its typed [`StreamerXStreamMixParam`] variant. Unknown names map
    /// to [`StreamerXStreamMixParam::Other`], so this is total (never fails).
    pub fn from_name(name: &str) -> (r: StreamerXStreamMixParam)
        ensures
            match Self::known(name@) {
                Some(p) => r == p,
                None => r matches StreamerXStreamMixParam::Other(s) && s@ == name@,
            },
            r.wire_name() == name@,
            r.model() == Self::name_model(name@),
    {
        proof {
            reveal(StreamerXStreamMixParam::name_model);
        }
        match Self::from_known_name(name) {
            Some(p) => p,
            None => StreamerXStreamMixParam::Other(name.to_owned()),
        }
    }

    /// The wire property name for this parameter (inverse of [`StreamerXStreamMixParam::from_name`]).
    pub fn as_str(&self) -> (r: &str)
        ensures
            r@ == self.wire_name(),
    {
        match self {
            StreamerXStreamMixParam::MixLevel => "streammixmixLevel",
            StreamerXStreamMixParam::Other(s) => s.as_str(),
        }
    }

    /// The wire property name as an owned string.
    pub fn to_string(&self) -> (r: String)
        ensures
            r@ == self.wire_name(),
    {
        self.as_str().to_owned()
    }

    /// `true` if this is a typed variant (not [`StreamerXStreamMixParam::Other`]).
    pub fn is_known(&self) -> (r: bool)
        ensures
            r == !(self is Other),
    {
        !matches!(self, StreamerXStreamMixParam::Other(_))
    }
}

impl Clone for StreamerXStreamMixParam {
    fn clone(&self) -> (r: Self)
        ensures
            r.wire_name() == self.wire_name(),
            self is Other ==> r is Other,
            !(self is Other) ==> r == *self,
    {
        match self {
            StreamerXStreamMixParam::MixLevel => StreamerXStreamMixParam::MixLevel,
            StreamerXStreamMixParam::Other(s) => StreamerXStreamMixParam::Other(s.clone()),
        }
    }
}

/// Every typed [`StreamerXStreamMixParam`] variant is found again from its wire name.
pub proof fn lemma_streamer_x_stream_mix_param_name_round_trip(p: StreamerXStreamMixParam)
    requires
        !(p is Other),
    ensures
        StreamerXStreamMixParam::known(p.wire_name()) == Some(p),
        no_nul(p.wire_name()),
{
    reveal_strlit("streammixmixLevel");
    assert("streammixmixLevel"@.len() == 17);
}

} // verus!
