//! [`BuildParam`]: the singleton `BUILD`-node parameter family.

use vstd::prelude::*;

use crate::names::ParamModel;
use crate::text::{no_nul, str_eq};

verus! {

/// A device-wide firmware-build metadata parameter: one of the flat
/// properties the device carries on the singleton `BUILD` node.
/// Read-back only (the fields are set by the firmware image itself;
/// writes are ignored). Includes the CallMe version, and GUI + mixer
/// module version strings and git shas: useful for capture-fidelity
/// tooling that needs to record the exact firmware build state.
#[derive(Debug, PartialEq, Eq, Hash)]
#[non_exhaustive]
pub enum BuildParam {
    CallMeVersion,
    GuiVersion,
    GuiModulesGitSha,
    MixerVersion,
    MixerModulesGitSha,
    /// A property without a typed [`BuildParam`] identifier yet. Holds the raw wire
    /// name; the value still rides in the carrying event/command.
    Other(String),
}

impl BuildParam {
    /// The wire property name.
    pub open spec fn wire_name(self) -> Seq<char> {
        match self {
            BuildParam::CallMeVersion => "buildCallMeVersion"@,
            BuildParam::GuiVersion => "buildGuiVersion"@,
            BuildParam::GuiModulesGitSha => "buildGuiModulesGitSha"@,
            BuildParam::MixerVersion => "buildMixerVersion"@,
            BuildParam::MixerModulesGitSha => "buildMixerModulesGitSha"@,
            BuildParam::Other(s) => s@,
        }
    }

    /// The typed variant a wire name denotes, if any.
    pub open spec fn known(name: Seq<char>) -> Option<BuildParam> {
        if name == "buildCallMeVersion"@ {
            Some(BuildParam::CallMeVersion)
        } else if name == "buildGuiVersion"@ {
            Some(BuildParam::GuiVersion)
        } else if name == "buildGuiModulesGitSha"@ {
            Some(BuildParam::GuiModulesGitSha)
        } else if name == "buildMixerVersion"@ {
            Some(BuildParam::MixerVersion)
        } else if name == "buildMixerModulesGitSha"@ {
            Some(BuildParam::MixerModulesGitSha)
        } else {
            None
        }
    }

    /// The parameter as events report it: its wire name, and whether it is a
    /// typed variant.
    pub open spec fn model(self) -> ParamModel {
        ParamModel { name: self.wire_name(), typed: !(self is Other) }
    }

    /// The parameter a wire name decodes to, as events report it: the name,
    /// typed exactly when a typed variant carries it.
    #[verifier::opaque]
    pub open spec fn name_model(name: Seq<char>) -> ParamModel {
        ParamModel { name, typed: Self::known(name) is Some }
    }

    /// Map a wire property name to its typed [`BuildParam`] variant if known, without
    /// allocating.
    pub fn from_known_name(name: &str) -> (r: Option<BuildParam>)
        ensures
            r == Self::known(name@),
            r matches Some(p) ==> p.wire_name() == name@,
            r matches Some(p) ==> p.model() == Self::name_model(name@),
    {
        proof {
            reveal(BuildParam::name_model);
        }
        if str_eq(name, "buildCallMeVersion") {
            return Some(BuildParam::CallMeVersion);
        }
        if str_eq(name, "buildGuiVersion") {
            return Some(BuildParam::GuiVersion);
        }
        if str_eq(name, "buildGuiModulesGitSha") {
            return Some(BuildParam::GuiModulesGitSha);
        }
        if str_eq(name, "buildMixerVersion") {
            return Some(BuildParam::MixerVersion);
        }
        if str_eq(name, "buildMixerModulesGitSha") {
            return Some(BuildParam::MixerModulesGitSha);
        }
        None
    }

    /// Check if a wire property name matches a known [`BuildParam`] variant without
    /// allocating.
    pub fn is_known_name(name: &str) -> (r: bool)
        ensures
            r == Self::known(name@) is Some,
    {
        Self::from_known_name(name).is_some()
    }

    /// Map a wire property name to its typed [`BuildParam`] variant. Unknown names map
    /// to [`BuildParam::Other`], so this is total (never fails).
    pub fn from_name(name: &str) -> (r: BuildParam)
        ensures
            match Self::known(name@) {
                Some(p) => r == p,
                None => r matches BuildParam::Other(s) && s@ == name@,
            },
            r.wire_name() == name@,
            r.model() == Self::name_model(name@),
    {
        proof {
            reveal(BuildParam::name_model);
        }
        match Self::from_known_name(name) {
            Some(p) => p,
            None => BuildParam::Other(name.to_owned()),
        }
    }

    /// The wire property name for this parameter (inverse of [`BuildParam::from_name`]).
    pub fn as_str(&self) -> (r: &str)
        ensures
            r@ == self.wire_name(),
    {
        match self {
            BuildParam::CallMeVersion => "buildCallMeVersion",
            BuildParam::GuiVersion => "buildGuiVersion",
            BuildParam::GuiModulesGitSha => "buildGuiModulesGitSha",
            BuildParam::MixerVersion => "buildMixerVersion",
            BuildParam::MixerModulesGitSha => "buildMixerModulesGitSha",
            BuildParam::Other(s) => s.as_str(),
        }
    }

    /// The wire property name as an owned string.
    pub fn to_string(&self) -> (r: String)
        ensures
            r@ == self.wire_name(),
    {
        self.as_str().to_owned()
    }

    /// `true` if this is a typed variant (not [`BuildParam::Other`]).
    pub fn is_known(&self) -> (r: bool)
        ensures
            r == !(self is Other),
    {
        !matches!(self, BuildParam::Other(_))
    }
}

impl Clone for BuildParam {
    fn clone(&self) -> (r: Self)
        ensures
            r.wire_name() == self.wire_name(),
            self is Other ==> r is Other,
            !(self is Other) ==> r == *self,
    {
        match self {
            BuildParam::CallMeVersion => BuildParam::CallMeVersion,
            BuildParam::GuiVersion => BuildParam::GuiVersion,
            BuildParam::GuiModulesGitSha => BuildParam::GuiModulesGitSha,
            BuildParam::MixerVersion => BuildParam::MixerVersion,
            BuildParam::MixerModulesGitSha => BuildParam::MixerModulesGitSha,
            BuildParam::Other(s) => BuildParam::Other(s.clone()),
        }
    }
}

/// Every typed [`BuildParam`] variant is found again from its wire name.
pub proof fn lemma_build_param_name_round_trip(p: BuildParam)
    requires
        !(p is Other),
    ensures
        BuildParam::known(p.wire_name()) == Some(p),
        no_nul(p.wire_name()),
{
    reveal_strlit("buildCallMeVersion");
    reveal_strlit("buildGuiVersion");
    reveal_strlit("buildGuiModulesGitSha");
    reveal_strlit("buildMixerVersion");
    reveal_strlit("buildMixerModulesGitSha");
    assert("buildCallMeVersion"@.len() == 18);
    assert("buildGuiVersion"@.len() == 15);
    assert("buildGuiModulesGitSha"@.len() == 21);
    assert("buildMixerVersion"@.len() == 17);
    assert("buildMixerModulesGitSha"@.len() == 23);
}

} // verus!
