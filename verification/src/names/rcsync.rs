//! [`RcSyncMixParam`]: per-`RCSYNCMIX`-node parameter family.
//!
//! `RCSYNCMIX` nodes model the RODECaster Sync bus's own routing matrix.
//! Six of the seven properties share wire names with the regular `MIX` cell
//! family (`mixDisabled`, `mixLevelWithAnchor`, `mixLink`, `mixLinkRequest`,
//! `mixMute`, `mixUnlinkRequest`); one is unique to rcSync
//! (`mixRcSyncLevelRequest`). Decoding distinguishes RCSYNCMIX from the
//! regular MIX matrix by path shape: regular MIX cells fall inside the
//! discovered `first_mix + source * MIX_COUNT_PER_SOURCE + mix` run, while
//! RCSYNCMIX sits elsewhere.

use vstd::prelude::*;

use crate::names::ParamModel;
use crate::text::{no_nul, str_eq};

verus! {

/// A per-rcSync-mix parameter: the flat properties on each `RCSYNCMIX`
/// node. Six wire names are shared with the regular `MIX` cell family
/// (`mixDisabled`, `mixLevelWithAnchor`, `mixLink`, `mixLinkRequest`,
/// `mixMute`, `mixUnlinkRequest`); `mixRcSyncLevelRequest` is
/// rcSync-specific. The two node types are distinguished by path
/// shape at decode time.
#[derive(Debug, PartialEq, Eq, Hash)]
#[non_exhaustive]
pub enum RcSyncMixParam {
    MixDisabled,
    MixLevelWithAnchor,
    MixLink,
    MixLinkRequest,
    MixMute,
    MixUnlinkRequest,
    MixRcSyncLevelRequest,
    /// A property without a typed [`RcSyncMixParam`] identifier yet. Holds the raw wire
    /// name; the value still rides in the carrying event/command.
    Other(String),
}

impl RcSyncMixParam {
    /// The wire property name.
    pub open spec fn wire_name(self) -> Seq<char> {
        match self {
            RcSyncMixParam::MixDisabled => "mixDisabled"@,
            RcSyncMixParam::MixLevelWithAnchor => "mixLevelWithAnchor"@,
            RcSyncMixParam::MixLink => "mixLink"@,
            RcSyncMixParam::MixLinkRequest => "mixLinkRequest"@,
            RcSyncMixParam::MixMute => "mixMute"@,
            RcSyncMixParam::MixUnlinkRequest => "mixUnlinkRequest"@,
            RcSyncMixParam::MixRcSyncLevelRequest => "mixRcSyncLevelRequest"@,
            RcSyncMixParam::Other(s) => s@,
        }
    }

    /// The typed variant a wire name denotes, if any.
    pub open spec fn known(name: Seq<char>) -> Option<RcSyncMixParam> {
        if name == "mixDisabled"@ {
            Some(RcSyncMixParam::MixDisabled)
        } else if name == "mixLevelWithAnchor"@ {
            Some(RcSyncMixParam::MixLevelWithAnchor)
        } else if name == "mixLink"@ {
            Some(RcSyncMixParam::MixLink)
        } else if name == "mixLinkRequest"@ {
            Some(RcSyncMixParam::MixLinkRequest)
        } else if name == "mixMute"@ {
            Some(RcSyncMixParam::MixMute)
        } else if name == "mixUnlinkRequest"@ {
            Some(RcSyncMixParam::MixUnlinkRequest)
        } else if name == "mixRcSyncLevelRequest"@ {
            Some(RcSyncMixParam::MixRcSyncLevelRequest)
        } else {
            None
        }
    }

    /// The parameter as events report it: its wire name, and whether it is a
    /// typed variant.
    pub open spec fn model(self) -> ParamModel {
        ParamModel { name: self.wire_name(), typed: !(self is Other) }
    }

    /// The parameter a wire name decodes to, as events report it: the name,
    /// typed exactly when a typed variant carries it.
    #[verifier::opaque]
    pub open spec fn name_model(name: Seq<char>) -> ParamModel {
        ParamModel { name, typed: Self::known(name) is Some }
    }

    /// Map a wire property name to its typed [`RcSyncMixParam`] variant if known, without
    /// allocating.
    pub fn from_known_name(name: &str) -> (r: Option<RcSyncMixParam>)
        ensures
            r == Self::known(name@),
            r matches Some(p) ==> p.wire_name() == name@,
            r matches Some(p) ==> p.model() == Self::name_model(name@),
    {
        proof {
            reveal(RcSyncMixParam::name_model);
        }
        if str_eq(name, "mixDisabled") {
            return Some(RcSyncMixParam::MixDisabled);
        }
        if str_eq(name, "mixLevelWithAnchor") {
            return Some(RcSyncMixParam::MixLevelWithAnchor);
        }
        if str_eq(name, "mixLink") {
            return Some(RcSyncMixParam::MixLink);
        }
        if str_eq(name, "mixLinkRequest") {
            return Some(RcSyncMixParam::MixLinkRequest);
        }
        if str_eq(name, "mixMute") {
            return Some(RcSyncMixParam::MixMute);
        }
        if str_eq(name, "mixUnlinkRequest") {
            return Some(RcSyncMixParam::MixUnlinkRequest);
        }
        if str_eq(name, "mixRcSyncLevelRequest") {
            return Some(RcSyncMixParam::MixRcSyncLevelRequest);
        }
        None
    }

    /// Check if a wire property name matches a known [`RcSyncMixParam`] variant without
    /// allocating.
    pub fn is_known_name(name: &str) -> (r: bool)
        ensures
            r == Self::known(name@) is Some,
    {
        Self::from_known_name(name).is_some()
    }

    /// Map a wire property name to its typed [`RcSyncMixParam`] variant. Unknown names map
    /// to [`RcSyncMixParam::Other`], so this is total (never fails).
    pub fn from_name(name: &str) -> (r: RcSyncMixParam)
        ensures
            match Self::known(name@) {
                Some(p) => r == p,
                None => r matches RcSyncMixParam::Other(s) && s@ == name@,
            },
            r.wire_name() == name@,
            r.model() == Self::name_model(name@),
    {
        proof {
            reveal(RcSyncMixParam::name_model);
        }
        match Self::from_known_name(name) {
            Some(p) => p,
            None => RcSyncMixParam::Other(name.to_owned()),
        }
    }

    /// The wire property name for this parameter (inverse of [`RcSyncMixParam::from_name`]).
    pub fn as_str(&self) -> (r: &str)
        ensures
            r@ == self.wire_name(),
    {
        match self {
            RcSyncMixParam::MixDisabled => "mixDisabled",
            RcSyncMixParam::MixLevelWithAnchor => "mixLevelWithAnchor",
            RcSyncMixParam::MixLink => "mixLink",
            RcSyncMixParam::MixLinkRequest => "mixLinkRequest",
            RcSyncMixParam::MixMute => "mixMute",
            RcSyncMixParam::MixUnlinkRequest => "mixUnlinkRequest",
            RcSyncMixParam::MixRcSyncLevelRequest => "mixRcSyncLevelRequest",
            RcSyncMixParam::Other(s) => s.as_str(),
        }
    }

    /// The wire property name as an owned string.
    pub fn to_string(&self) -> (r: String)
        ensures
            r@ == self.wire_name(),
    {
        self.as_str().to_owned()
    }

    /// `true` if this is a typed variant (not [`RcSyncMixParam::Other`]).
    pub fn is_known(&self) -> (r: bool)
        ensures
            r == !(self is Other),
    {
        !matches!(self, RcSyncMixParam::Other(_))
    }
}

impl Clone for RcSyncMixParam {
    fn clone(&self) -> (r: Self)
        ensures
            r.wire_name() == self.wire_name(),
            self is Other ==> r is Other,
            !(self is Other) ==> r == *self,
    {
        match self {
            RcSyncMixParam::MixDisabled => RcSyncMixParam::MixDisabled,
            RcSyncMixParam::MixLevelWithAnchor => RcSyncMixParam::MixLevelWithAnchor,
            RcSyncMixParam::MixLink => RcSyncMixParam::MixLink,
            RcSyncMixParam::MixLinkRequest => RcSyncMixParam::MixLinkRequest,
            RcSyncMixParam::MixMute => RcSyncMixParam::MixMute,
            RcSyncMixParam::MixUnlinkRequest => RcSyncMixParam::MixUnlinkRequest,
            RcSyncMixParam::MixRcSyncLevelRequest => RcSyncMixParam::MixRcSyncLevelRequest,
            RcSyncMixParam::Other(s) => RcSyncMixParam::Other(s.clone()),
        }
    }
}

/// Every typed [`RcSyncMixParam`] variant is found again from its wire name.
pub proof fn lemma_rc_sync_mix_param_name_round_trip(p: RcSyncMixParam)
    requires
        !(p is Other),
    ensures
        RcSyncMixParam::known(p.wire_name()) == Some(p),
        no_nul(p.wire_name()),
{
    reveal_strlit("mixDisabled");
    reveal_strlit("mixLevelWithAnchor");
    reveal_strlit("mixLink");
    reveal_strlit("mixLinkRequest");
    reveal_strlit("mixMute");
    reveal_strlit("mixUnlinkRequest");
    reveal_strlit("mixRcSyncLevelRequest");
    assert("mixDisabled"@.len() == 11);
    assert("mixLevelWithAnchor"@.len() == 18);
    assert("mixLink"@.len() == 7);
    assert("mixLinkRequest"@.len() == 14);
    assert("mixMute"@.len() == 7);
    assert("mixUnlinkRequest"@.len() == 16);
    assert("mixRcSyncLevelRequest"@.len() == 21);
    assert("mixLink"@[3] != "mixMute"@[3]);
}

} // verus!
