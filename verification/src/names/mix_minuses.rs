//! [`MixMinusesParam`]: per-`MIXMINUSES`/`RCSYNCMIXMINUES`-node parameter
//! family.
//!
//! Both `MIXMINUSES` and `RCSYNCMIXMINUES` nodes carry the SAME single
//! property (`outputMixMinus`). Consumers who need to distinguish between the
//! two node types must inspect the path — this family types the property name
//! only. The firmware misspells `RCSYNCMIXMINUES` (should be `MINUSES`);
//! preserved verbatim in the node-name check.

use vstd::prelude::*;

use crate::names::ParamModel;
use crate::text::{no_nul, str_eq};

verus! {

/// A mix-minus parameter: the one flat property on both `MIXMINUSES` and
/// `RCSYNCMIXMINUES` nodes. Mix-minus routing produces a per-output
/// send with the local channel subtracted (so a caller doesn't hear their
/// own voice returning via CallMe / SIP / rcSync mixes).
#[derive(Debug, PartialEq, Eq, Hash)]
#[non_exhaustive]
pub enum MixMinusesParam {
    OutputMixMinus,
    /// A property without a typed [`MixMinusesParam`] identifier yet. Holds the raw wire
    /// name; the value still rides in the carrying event/command.
    Other(String),
}

impl MixMinusesParam {
    /// The wire property name.
    pub open spec fn wire_name(self) -> Seq<char> {
        match self {
            MixMinusesParam::OutputMixMinus => "outputMixMinus"@,
            MixMinusesParam::Other(s) => s@,
        }
    }

    /// The typed variant a wire name denotes, if any.
    pub open spec fn known(name: Seq<char>) -> Option<MixMinusesParam> {
        if name == "outputMixMinus"@ {
            Some(MixMinusesParam::OutputMixMinus)
        } else {
            None
        }
    }

    /// The parameter as events report it: its wire name, and whether it is a
    /// typed variant.
    pub open spec fn model(self) -> ParamModel {
        ParamModel { name: self.wire_name(), typed: !(self is Other) }
    }

    /// The parameter a wire name decodes to, as events report it: the name,
    /// typed exactly when a typed variant carries it.
    #[verifier::opaque]
    pub open spec fn name_model(name: Seq<char>) -> ParamModel {
        ParamModel { name, typed: Self::known(name) is Some }
    }

    /// Map a wire property name to its typed [`MixMinusesParam`] variant if known, without
    /// allocating.
    pub fn from_known_name(name: &str) -> (r: Option<MixMinusesParam>)
        ensures
            r == Self::known(name@),
            r matches Some(p) ==> p.wire_name() == name@,
            r matches Some(p) ==> p.model() == Self::name_model(name@),
    {
        proof {
            reveal(MixMinusesParam::name_model);
        }
        if str_eq(name, "outputMixMinus") {
            return Some(MixMinusesParam::OutputMixMinus);
        }
        None
    }

    /// Check if a wire property name matches a known [`MixMinusesParam`] variant without
    /// allocating.
    pub fn is_known_name(name: &str) -> (r: bool)
        ensures
            r == Self::known(name@) is Some,
    {
        Self::from_known_name(name).is_some()
    }

    /// Map a wire property name to its typed [`MixMinusesParam`] variant. Unknown names map
    /// to [`MixMinusesParam::Other`], so this is total (never fails).
    pub fn from_name(name: &str) -> (r: MixMinusesParam)
        ensures
            match Self::known(name@) {
                Some(p) => r == p,
                None => r matches MixMinusesParam::Other(s) && s@ == name@,
            },
            r.wire_name() == name@,
            r.model() == Self::name_model(name@),
    {
        proof {
            reveal(MixMinusesParam::name_model);
        }
        match Self::from_known_name(name) {
            Some(p) => p,
            None => MixMinusesParam::Other(name.to_owned()),
        }
    }

    /// The wire property name for this parameter (inverse of [`MixMinusesParam::from_name`]).
    pub fn as_str(&self) -> (r: &str)
        ensures
            r@ == self.wire_name(),
    {
        match self {
            MixMinusesParam::OutputMixMinus => "outputMixMinus",
            MixMinusesParam::Other(s) => s.as_str(),
        }
    }

    /// The wire property name as an owned string.
    pub fn to_string(&self) -> (r: String)
        ensures
            r@ == self.wire_name(),
    {
        self.as_str().to_owned()
    }

    /// `true` if this is a typed variant (not [`MixMinusesParam::Other`]).
    pub fn is_known(&self) -> (r: bool)
        ensures
            r == !(self is Other),
    {
        !matches!(self, MixMinusesParam::Other(_))
    }
}

impl Clone for MixMinusesParam {
    fn clone(&self) -> (r: Self)
        ensures
            r.wire_name() == self.wire_name(),
            self is Other ==> r is Other,
            !(self is Other) ==> r == *self,
    {
        match self {
            MixMinusesParam::OutputMixMinus => MixMinusesParam::OutputMixMinus,
            MixMinusesParam::Other(s) => MixMinusesParam::Other(s.clone()),
        }
    }
}

/// Every typed [`MixMinusesParam`] variant is found again from its wire name.
pub proof fn lemma_mix_minuses_param_name_round_trip(p: MixMinusesParam)
    requires
        !(p is Other),
    ensures
        MixMinusesParam::known(p.wire_name()) == Some(p),
        no_nul(p.wire_name()),
{
    reveal_strlit("outputMixMinus");
    assert("outputMixMinus"@.len() == 14);
}

} // verus!
