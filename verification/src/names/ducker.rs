//! [`DuckerParam`]: the singleton `DUCKER`-node parameter family.

use vstd::prelude::*;

use crate::names::ParamModel;
use crate::text::{no_nul, str_eq};

verus! {

/// A ducker parameter: the flat property the device carries on the single
/// `DUCKER` node. There is exactly one ducker, so this family takes no
/// addressing key. Auto-ducking lowers other faders when a mic-flagged
/// source is active; `duckerDepth` is how far (in dB) it pulls them down.
#[derive(Debug, PartialEq, Eq, Hash)]
#[non_exhaustive]
pub enum DuckerParam {
    Depth,
    /// A property without a typed [`DuckerParam`] identifier yet. Holds the raw wire
    /// name; the value still rides in the carrying event/command.
    Other(String),
}

impl DuckerParam {
    /// The wire property name.
    pub open spec fn wire_name(self) -> Seq<char> {
        match self {
            DuckerParam::Depth => "duckerDepth"@,
            DuckerParam::Other(s) => s@,
        }
    }

    /// The typed variant a wire name denotes, if any.
    pub open spec fn known(name: Seq<char>) -> Option<DuckerParam> {
        if name == "duckerDepth"@ {
            Some(DuckerParam::Depth)
        } else {
            None
        }
    }

    /// The parameter as events report it: its wire name, and whether it is a
    /// typed variant.
    pub open spec fn model(self) -> ParamModel {
        ParamModel { name: self.wire_name(), typed: !(self is Other) }
    }

    /// The parameter a wire name decodes to, as events report it: the name,
    /// typed exactly when a typed variant carries it.
    #[verifier::opaque]
    pub open spec fn name_model(name: Seq<char>) -> ParamModel {
        ParamModel { name, typed: Self::known(name) is Some }
    }

    /// Map a wire property name to its typed [`DuckerParam`] variant if known, without
    /// allocating.
    pub fn from_known_name(name: &str) -> (r: Option<DuckerParam>)
        ensures
            r == Self::known(name@),
            r matches Some(p) ==> p.wire_name() == name@,
            r matches Some(p) ==> p.model() == Self::name_model(name@),
    {
        proof {
            reveal(DuckerParam::name_model);
        }
        if str_eq(name, "duckerDepth") {
            return Some(DuckerParam::Depth);
        }
        None
    }

    /// Check if a wire property name matches a known [`DuckerParam`] variant without
    /// allocating.
    pub fn is_known_name(name: &str) -> (r: bool)
        ensures
            r == Self::known(name@) is Some,
    {
        Self::from_known_name(name).is_some()
    }

    /// Map a wire property name to its typed [`DuckerParam`] variant. Unknown names map
    /// to [`DuckerParam::Other`], so this is total (never fails).
    pub fn from_name(name: &str) -> (r: DuckerParam)
        ensures
            match Self::known(name@) {
                Some(p) => r == p,
                None => r matches DuckerParam::Other(s) && s@ == name@,
            },
            r.wire_name() == name@,
            r.model() == Self::name_model(name@),
    {
        proof {
            reveal(DuckerParam::name_model);
        }
        match Self::from_known_name(name) {
            Some(p) => p,
            None => DuckerParam::Other(name.to_owned()),
        }
    }

    /// The wire property name for this parameter (inverse of [`DuckerParam::from_name`]).
    pub fn as_str(&self) -> (r: &str)
        ensures
            r@ == self.wire_name(),
    {
        match self {
            DuckerParam::Depth => "duckerDepth",
            DuckerParam::Other(s) => s.as_str(),
        }
    }

    /// The wire property name as an owned string.
    pub fn to_string(&self) -> (r: String)
        ensures
            r@ == self.wire_name(),
    {
        self.as_str().to_owned()
    }

    /// `true` if this is a typed variant (not [`DuckerParam::Other`]).
    pub fn is_known(&self) -> (r: bool)
        ensures
            r == !(self is Other),
    {
        !matches!(self, DuckerParam::Other(_))
    }
}

impl Clone for DuckerParam {
    fn clone(&self) -> (r: Self)
        ensures
            r.wire_name() == self.wire_name(),
            self is Other ==> r is Other,
            !(self is Other) ==> r == *self,
    {
        match self {
            DuckerParam::Depth => DuckerParam::Depth,
            DuckerParam::Other(s) => DuckerParam::Other(s.clone()),
        }
    }
}

/// Every typed [`DuckerParam`] variant is found again from its wire name.
pub proof fn lemma_ducker_param_name_round_trip(p: DuckerParam)
    requires
        !(p is Other),
    ensures
        DuckerParam::known(p.wire_name()) == Some(p),
        no_nul(p.wire_name()),
{
    reveal_strlit("duckerDepth");
    assert("duckerDepth"@.len() == 11);
}

} // verus!
