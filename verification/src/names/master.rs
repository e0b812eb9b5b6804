//! [`MasterParam`]: the singleton `MASTERCHANNEL`-node parameter family.

use vstd::prelude::*;

use crate::names::ParamModel;
use crate::text::{no_nul, str_eq};

verus! {

/// A master-bus parameter: one of the flat properties the device carries on
/// the single `MASTERCHANNEL` node. There is exactly one master bus, so this
/// family takes no addressing key (unlike [`ChannelParam`], which is
/// per-fader). Covers the master Compellor (RODE's compressor/leveller) and
/// the master delay.
#[derive(Debug, PartialEq, Eq, Hash)]
#[non_exhaustive]
pub enum MasterParam {
    CompellorOn,
    CompellorThreshold,
    CompellorAttack,
    CompellorRelease,
    CompellorGain,
    DelayOn,
    DelaySeconds,
    /// A property without a typed [`MasterParam`] identifier yet. Holds the raw wire
    /// name; the value still rides in the carrying event/command.
    Other(String),
}

impl MasterParam {
    /// The wire property name.
    pub open spec fn wire_name(self) -> Seq<char> {
        match self {
            MasterParam::CompellorOn => "masterCompellorOn"@,
            MasterParam::CompellorThreshold => "masterCompellorThreshold"@,
            MasterParam::CompellorAttack => "masterCompellorAttack"@,
            MasterParam::CompellorRelease => "masterCompellorRelease"@,
            MasterParam::CompellorGain => "masterCompellorGain"@,
            MasterParam::DelayOn => "masterDelayOn"@,
            MasterParam::DelaySeconds => "masterDelaySeconds"@,
            MasterParam::Other(s) => s@,
        }
    }

    /// The typed variant a wire name denotes, if any.
    pub open spec fn known(name: Seq<char>) -> Option<MasterParam> {
        if name == "masterCompellorOn"@ {
            Some(MasterParam::CompellorOn)
        } else if name == "masterCompellorThreshold"@ {
            Some(MasterParam::CompellorThreshold)
        } else if name == "masterCompellorAttack"@ {
            Some(MasterParam::CompellorAttack)
        } else if name == "masterCompellorRelease"@ {
            Some(MasterParam::CompellorRelease)
        } else if name == "masterCompellorGain"@ {
            Some(MasterParam::CompellorGain)
        } else if name == "masterDelayOn"@ {
            Some(MasterParam::DelayOn)
        } else if name == "masterDelaySeconds"@ {
            Some(MasterParam::DelaySeconds)
        } else {
            None
        }
    }

    /// The parameter as events report it: its wire name, and whether it is a
    /// typed variant.
    pub open spec fn model(self) -> ParamModel {
        ParamModel { name: self.wire_name(), typed: !(self is Other) }
    }

    /// The parameter a wire name decodes to, as events report it: the name,
    /// typed exactly when a typed variant carries it.
    #[verifier::opaque]
    pub open spec fn name_model(name: Seq<char>) -> ParamModel {
        ParamModel { name, typed: Self::known(name) is Some }
    }

    /// Map a wire property name to its typed [`MasterParam`] variant if known, without
    /// allocating.
    pub fn from_known_name(name: &str) -> (r: Option<MasterParam>)
        ensures
            r == Self::known(name@),
            r matches Some(p) ==> p.wire_name() == name@,
            r matches Some(p) ==> p.model() == Self::name_model(name@),
    {
        proof {
            reveal(MasterParam::name_model);
        }
        if str_eq(name, "masterCompellorOn") {
            return Some(MasterParam::CompellorOn);
        }
        if str_eq(name, "masterCompellorThreshold") {
            return Some(MasterParam::CompellorThreshold);
        }
        if str_eq(name, "masterCompellorAttack") {
            return Some(MasterParam::CompellorAttack);
        }
        if str_eq(name, "masterCompellorRelease") {
            return Some(MasterParam::CompellorRelease);
        }
        if str_eq(name, "masterCompellorGain") {
            return Some(MasterParam::CompellorGain);
        }
        if str_eq(name, "masterDelayOn") {
            return Some(MasterParam::DelayOn);
        }
        if str_eq(name, "masterDelaySeconds") {
            return Some(MasterParam::DelaySeconds);
        }
        None
    }

    /// Check if a wire property name matches a known [`MasterParam`] variant without
    /// allocating.
    pub fn is_known_name(name: &str) -> (r: bool)
        ensures
            r == Self::known(name@) is Some,
    {
        Self::from_known_name(name).is_some()
    }

    /// Map a wire property name to its typed [`MasterParam`] variant. Unknown names map
    /// to [`MasterParam::Other`], so this is total (never fails).
    pub fn from_name(name: &str) -> (r: MasterParam)
        ensures
            match Self::known(name@) {
                Some(p) => r == p,
                None => r matches MasterParam::Other(s) && s@ == name@,
            },
            r.wire_name() == name@,
            r.model() == Self::name_model(name@),
    {
        proof {
            reveal(MasterParam::name_model);
        }
        match Self::from_known_name(name) {
            Some(p) => p,
            None => MasterParam::Other(name.to_owned()),
        }
    }

    /// The wire property name for this parameter (inverse of [`MasterParam::from_name`]).
    pub fn as_str(&self) -> (r: &str)
        ensures
            r@ == self.wire_name(),
    {
        match self {
            MasterParam::CompellorOn => "masterCompellorOn",
            MasterParam::CompellorThreshold => "masterCompellorThreshold",
            MasterParam::CompellorAttack => "masterCompellorAttack",
            MasterParam::CompellorRelease => "masterCompellorRelease",
            MasterParam::CompellorGain => "masterCompellorGain",
            MasterParam::DelayOn => "masterDelayOn",
            MasterParam::DelaySeconds => "masterDelaySeconds",
            MasterParam::Other(s) => s.as_str(),
        }
    }

    /// The wire property name as an owned string.
    pub fn to_string(&self) -> (r: String)
        ensures
            r@ == self.wire_name(),
    {
        self.as_str().to_owned()
    }

    /// `true` if this is a typed variant (not [`MasterParam::Other`]).
    pub fn is_known(&self) -> (r: bool)
        ensures
            r == !(self is Other),
    {
        !matches!(self, MasterParam::Other(_))
    }
}

impl Clone for MasterParam {
    fn clone(&self) -> (r: Self)
        ensures
            r.wire_name() == self.wire_name(),
            self is Other ==> r is Other,
            !(self is Other) ==> r == *self,
    {
        match self {
            MasterParam::CompellorOn => MasterParam::CompellorOn,
            MasterParam::CompellorThreshold => MasterParam::CompellorThreshold,
            MasterParam::CompellorAttack => MasterParam::CompellorAttack,
            MasterParam::CompellorRelease => MasterParam::CompellorRelease,
            MasterParam::CompellorGain => MasterParam::CompellorGain,
            MasterParam::DelayOn => MasterParam::DelayOn,
            MasterParam::DelaySeconds => MasterParam::DelaySeconds,
            MasterParam::Other(s) => MasterParam::Other(s.clone()),
        }
    }
}

/// Every typed [`MasterParam`] variant is found again from its wire name.
pub proof fn lemma_master_param_name_round_trip(p: MasterParam)
    requires
        !(p is Other),
    ensures
        MasterParam::known(p.wire_name()) == Some(p),
        no_nul(p.wire_name()),
{
    reveal_strlit("masterCompellorOn");
    reveal_strlit("masterCompellorThreshold");
    reveal_strlit("masterCompellorAttack");
    reveal_strlit("masterCompellorRelease");
    reveal_strlit("masterCompellorGain");
    reveal_strlit("masterDelayOn");
    reveal_strlit("masterDelaySeconds");
    assert("masterCompellorOn"@.len() == 17);
    assert("masterCompellorThreshold"@.len() == 24);
    assert("masterCompellorAttack"@.len() == 21);
    assert("masterCompellorRelease"@.len() == 22);
    assert("masterCompellorGain"@.len() == 19);
    assert("masterDelayOn"@.len() == 13);
    assert("masterDelaySeconds"@.len() == 18);
}

} // verus!
