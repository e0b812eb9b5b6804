//! [`FxPresetParam`]: per-`FXPRESET`-node parameter family.

use vstd::prelude::*;

use crate::names::ParamModel;
use crate::text::{no_nul, str_eq};

verus! {

/// A per-effect-preset parameter: the flat properties on each `FXPRESET`
/// node. `Contents` is the preset's serialized data (typically a
/// pipe-separated or JSON-ish blob); `Idx` is the preset slot ordinal.
#[derive(Debug, PartialEq, Eq, Hash)]
#[non_exhaustive]
pub enum FxPresetParam {
    Contents,
    Idx,
    /// A property without a typed [`FxPresetParam`] identifier yet. Holds the raw wire
    /// name; the value still rides in the carrying event/command.
    Other(String),
}

impl FxPresetParam {
    /// The wire property name.
    pub open spec fn wire_name(self) -> Seq<char> {
        match self {
            FxPresetParam::Contents => "fxPresetContents"@,
            FxPresetParam::Idx => "fxPresetIdx"@,
            FxPresetParam::Other(s) => s@,
        }
    }

    /// The typed variant a wire name denotes, if any.
    pub open spec fn known(name: Seq<char>) -> Option<FxPresetParam> {
        if name == "fxPresetContents"@ {
            Some(FxPresetParam::Contents)
        } else if name == "fxPresetIdx"@ {
            Some(FxPresetParam::Idx)
        } else {
            None
        }
    }

    /// The parameter as events report it: its wire name, and whether it is a
    /// typed variant.
    pub open spec fn model(self) -> ParamModel {
        ParamModel { name: self.wire_name(), typed: !(self is Other) }
    }

    /// The parameter a wire name decodes to, as events report it: the name,
    /// typed exactly when a typed variant carries it.
    #[verifier::opaque]
    pub open spec fn name_model(name: Seq<char>) -> ParamModel {
        ParamModel { name, typed: Self::known(name) is Some }
    }

    /// Map a wire property name to its typed [`FxPresetParam`] variant if known, without
    /// allocating.
    pub fn from_known_name(name: &str) -> (r: Option<FxPresetParam>)
        ensures
            r == Self::known(name@),
            r matches Some(p) ==> p.wire_name() == name@,
            r matches Some(p) ==> p.model() == Self::name_model(name@),
    {
        proof {
            reveal(FxPresetParam::name_model);
        }
        if str_eq(name, "fxPresetContents") {
            return Some(FxPresetParam::Contents);
        }
        if str_eq(name, "fxPresetIdx") {
            return Some(FxPresetParam::Idx);
        }
        None
    }

    /// Check if a wire property name matches a known [`FxPresetParam`] variant without
    /// allocating.
    pub fn is_known_name(name: &str) -> (r: bool)
        ensures
            r == Self::known(name@) is Some,
    {
        Self::from_known_name(name).is_some()
    }

    /// Map a wire property name to its typed [`FxPresetParam`] variant. Unknown names map
    /// to [`FxPresetParam::Other`], so this is total (never fails).
    pub fn from_name(name: &str) -> (r: FxPresetParam)
        ensures
            match Self::known(name@) {
                Some(p) => r == p,
                None => r matches FxPresetParam::Other(s) && s@ == name@,
            },
            r.wire_name() == name@,
            r.model() == Self::name_model(name@),
    {
        proof {
            reveal(FxPresetParam::name_model);
        }
        match Self::from_known_name(name) {
            Some(p) => p,
            None => FxPresetParam::Other(name.to_owned()),
        }
    }

    /// The wire property name for this parameter (inverse of [`FxPresetParam::from_name`]).
    pub fn as_str(&self) -> (r: &str)
        ensures
            r@ == self.wire_name(),
    {
        match self {
            FxPresetParam::Contents => "fxPresetContents",
            FxPresetParam::Idx => "fxPresetIdx",
            FxPresetParam::Other(s) => s.as_str(),
        }
    }

    /// The wire property name as an owned string.
    pub fn to_string(&self) -> (r: String)
        ensures
            r@ == self.wire_name(),
    {
        self.as_str().to_owned()
    }

    /// `true` if this is a typed variant (not [`FxPresetParam::Other`]).
    pub fn is_known(&self) -> (r: bool)
        ensures
            r == !(self is Other),
    {
        !matches!(self, FxPresetParam::Other(_))
    }
}

impl Clone for FxPresetParam {
    fn clone(&self) -> (r: Self)
        ensures
            r.wire_name() == self.wire_name(),
            self is Other ==> r is Other,
            !(self is Other) ==> r == *self,
    {
        match self {
            FxPresetParam::Contents => FxPresetParam::Contents,
            FxPresetParam::Idx => FxPresetParam::Idx,
            FxPresetParam::Other(s) => FxPresetParam::Other(s.clone()),
        }
    }
}

/// Every typed [`FxPresetParam`] variant is found again from its wire name.
pub proof fn lemma_fx_preset_param_name_round_trip(p: FxPresetParam)
    requires
        !(p is Other),
    ensures
        FxPresetParam::known(p.wire_name()) == Some(p),
        no_nul(p.wire_name()),
{
    reveal_strlit("fxPresetContents");
    reveal_strlit("fxPresetIdx");
    assert("fxPresetContents"@.len() == 16);
    assert("fxPresetIdx"@.len() == 11);
}

} // verus!
