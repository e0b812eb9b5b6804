//! [`PlayerParam`]: the singleton `PLAYER`-node parameter family.

use vstd::prelude::*;

use crate::names::ParamModel;
use crate::text::{no_nul, str_eq};

verus! {

/// A player parameter: one of the flat properties the device carries on the
/// single `PLAYER` node. There is exactly one long-form player, so this
/// family takes no addressing key. Covers transport (state, speed,
/// position/progress), the loaded file (path, size), the jump-to-sample
/// command, and the in/out + fade envelope (`playerEnv*`).
#[derive(Debug, PartialEq, Eq, Hash)]
#[non_exhaustive]
pub enum PlayerParam {
    State,
    Speed,
    Progress,
    CurrentPositionTime,
    JumpToSample,
    FilePath,
    FileSize,
    EnvStart,
    EnvStop,
    EnvFadeIn,
    EnvFadeOut,
    /// A property without a typed [`PlayerParam`] identifier yet. Holds the raw wire
    /// name; the value still rides in the carrying event/command.
    Other(String),
}

impl PlayerParam {
    /// The wire property name.
    pub open spec fn wire_name(self) -> Seq<char> {
        match self {
            PlayerParam::State => "playerState"@,
            PlayerParam::Speed => "playerSpeed"@,
            PlayerParam::Progress => "playerProgress"@,
            PlayerParam::CurrentPositionTime => "playerCurrentPositionTime"@,
            PlayerParam::JumpToSample => "playerJumpToSample"@,
            PlayerParam::FilePath => "playerFilePath"@,
            PlayerParam::FileSize => "playerFileSize"@,
            PlayerParam::EnvStart => "playerEnvStart"@,
            PlayerParam::EnvStop => "playerEnvStop"@,
            PlayerParam::EnvFadeIn => "playerEnvFadeIn"@,
            PlayerParam::EnvFadeOut => "playerEnvFadeOut"@,
            PlayerParam::Other(s) => s@,
        }
    }

    /// The typed variant a wire name denotes, if any.
    pub open spec fn known(name: Seq<char>) -> Option<PlayerParam> {
        if name == "playerState"@ {
            Some(PlayerParam::State)
        } else if name == "playerSpeed"@ {
            Some(PlayerParam::Speed)
        } else if name == "playerProgress"@ {
            Some(PlayerParam::Progress)
        } else if name == "playerCurrentPositionTime"@ {
            Some(PlayerParam::CurrentPositionTime)
        } else if name == "playerJumpToSample"@ {
            Some(PlayerParam::JumpToSample)
        } else if name == "playerFilePath"@ {
            Some(PlayerParam::FilePath)
        } else if name == "playerFileSize"@ {
            Some(PlayerParam::FileSize)
        } else if name == "playerEnvStart"@ {
            Some(PlayerParam::EnvStart)
        } else if name == "playerEnvStop"@ {
            Some(PlayerParam::EnvStop)
        } else if name == "playerEnvFadeIn"@ {
            Some(PlayerParam::EnvFadeIn)
        } else if name == "playerEnvFadeOut"@ {
            Some(PlayerParam::EnvFadeOut)
        } else {
            None
        }
    }

    /// The parameter as events report it: its wire name, and whether it is a
    /// typed variant.
    pub open spec fn model(self) -> ParamModel {
        ParamModel { name: self.wire_name(), typed: !(self is Other) }
    }

    /// The parameter a wire name decodes to, as events report it: the name,
    /// typed exactly when a typed variant carries it.
    #[verifier::opaque]
    pub open spec fn name_model(name: Seq<char>) -> ParamModel {
        ParamModel { name, typed: Self::known(name) is Some }
    }

    /// Map a wire property name to its typed [`PlayerParam`] variant if known, without
    /// allocating.
    pub fn from_known_name(name: &str) -> (r: Option<PlayerParam>)
        ensures
            r == Self::known(name@),
            r matches Some(p) ==> p.wire_name() == name@,
            r matches Some(p) ==> p.model() == Self::name_model(name@),
    {
        proof {
            reveal(PlayerParam::name_model);
        }
        if str_eq(name, "playerState") {
            return Some(PlayerParam::State);
        }
        if str_eq(name, "playerSpeed") {
            return Some(PlayerParam::Speed);
        }
        if str_eq(name, "playerProgress") {
            return Some(PlayerParam::Progress);
        }
        if str_eq(name, "playerCurrentPositionTime") {
            return Some(PlayerParam::CurrentPositionTime);
        }
        if str_eq(name, "playerJumpToSample") {
            return Some(PlayerParam::JumpToSample);
        }
        if str_eq(name, "playerFilePath") {
            return Some(PlayerParam::FilePath);
        }
        if str_eq(name, "playerFileSize") {
            return Some(PlayerParam::FileSize);
        }
        if str_eq(name, "playerEnvStart") {
            return Some(PlayerParam::EnvStart);
        }
        if str_eq(name, "playerEnvStop") {
            return Some(PlayerParam::EnvStop);
        }
        if str_eq(name, "playerEnvFadeIn") {
            return Some(PlayerParam::EnvFadeIn);
        }
        if str_eq(name, "playerEnvFadeOut") {
            return Some(PlayerParam::EnvFadeOut);
        }
        None
    }

    /// Check if a wire property name matches a known [`PlayerParam`] variant without
    /// allocating.
    pub fn is_known_name(name: &str) -> (r: bool)
        ensures
            r == Self::known(name@) is Some,
    {
        Self::from_known_name(name).is_some()
    }

    /// Map a wire property name to its typed [`PlayerParam`] variant. Unknown names map
    /// to [`PlayerParam::Other`], so this is total (never fails).
    pub fn from_name(name: &str) -> (r: PlayerParam)
        ensures
            match Self::known(name@) {
                Some(p) => r == p,
                None => r matches PlayerParam::Other(s) && s@ == name@,
            },
            r.wire_name() == name@,
            r.model() == Self::name_model(name@),
    {
        proof {
            reveal(PlayerParam::name_model);
        }
        match Self::from_known_name(name) {
            Some(p) => p,
            None => PlayerParam::Other(name.to_owned()),
        }
    }

    /// The wire property name for this parameter (inverse of [`PlayerParam::from_name`]).
    pub fn as_str(&self) -> (r: &str)
        ensures
            r@ == self.wire_name(),
    {
        match self {
            PlayerParam::State => "playerState",
            PlayerParam::Speed => "playerSpeed",
            PlayerParam::Progress => "playerProgress",
            PlayerParam::CurrentPositionTime => "playerCurrentPositionTime",
            PlayerParam::JumpToSample => "playerJumpToSample",
            PlayerParam::FilePath => "playerFilePath",
            PlayerParam::FileSize => "playerFileSize",
            PlayerParam::EnvStart => "playerEnvStart",
            PlayerParam::EnvStop => "playerEnvStop",
            PlayerParam::EnvFadeIn => "playerEnvFadeIn",
            PlayerParam::EnvFadeOut => "playerEnvFadeOut",
            PlayerParam::Other(s) => s.as_str(),
        }
    }

    /// The wire property name as an owned string.
    pub fn to_string(&self) -> (r: String)
        ensures
            r@ == self.wire_name(),
    {
        self.as_str().to_owned()
    }

    /// `true` if this is a typed variant (not [`PlayerParam::Other`]).
    pub fn is_known(&self) -> (r: bool)
        ensures
            r == !(self is Other),
    {
        !matches!(self, PlayerParam::Other(_))
    }
}

impl Clone for PlayerParam {
    fn clone(&self) -> (r: Self)
        ensures
            r.wire_name() == self.wire_name(),
            self is Other ==> r is Other,
            !(self is Other) ==> r == *self,
    {
        match self {
            PlayerParam::State => PlayerParam::State,
            PlayerParam::Speed => PlayerParam::Speed,
            PlayerParam::Progress => PlayerParam::Progress,
            PlayerParam::CurrentPositionTime => PlayerParam::CurrentPositionTime,
            PlayerParam::JumpToSample => PlayerParam::JumpToSample,
            PlayerParam::FilePath => PlayerParam::FilePath,
            PlayerParam::FileSize => PlayerParam::FileSize,
            PlayerParam::EnvStart => PlayerParam::EnvStart,
            PlayerParam::EnvStop => PlayerParam::EnvStop,
            PlayerParam::EnvFadeIn => PlayerParam::EnvFadeIn,
            PlayerParam::EnvFadeOut => PlayerParam::EnvFadeOut,
            PlayerParam::Other(s) => PlayerParam::Other(s.clone()),
        }
    }
}

/// Every typed [`PlayerParam`] variant is found again from its wire name.
pub proof fn lemma_player_param_name_round_trip(p: PlayerParam)
    requires
        !(p is Other),
    ensures
        PlayerParam::known(p.wire_name()) == Some(p),
        no_nul(p.wire_name()),
{
    reveal_strlit("playerState");
    reveal_strlit("playerSpeed");
    reveal_strlit("playerProgress");
    reveal_strlit("playerCurrentPositionTime");
    reveal_strlit("playerJumpToSample");
    reveal_strlit("playerFilePath");
    reveal_strlit("playerFileSize");
    reveal_strlit("playerEnvStart");
    reveal_strlit("playerEnvStop");
    reveal_strlit("playerEnvFadeIn");
    reveal_strlit("playerEnvFadeOut");
    assert("playerState"@.len() == 11);
    assert("playerSpeed"@.len() == 11);
    assert("playerProgress"@.len() == 14);
    assert("playerCurrentPositionTime"@.len() == 25);
    assert("playerJumpToSample"@.len() == 18);
    assert("playerFilePath"@.len() == 14);
    assert("playerFileSize"@.len() == 14);
    assert("playerEnvStart"@.len() == 14);
    assert("playerEnvStop"@.len() == 13);
    assert("playerEnvFadeIn"@.len() == 15);
    assert("playerEnvFadeOut"@.len() == 16);
    assert("playerState"@[7] != "playerSpeed"@[7]);
    assert("playerProgress"@[6] != "playerFilePath"@[6]);
    assert("playerProgress"@[6] != "playerFileSize"@[6]);
    assert("playerProgress"@[6] != "playerEnvStart"@[6]);
    assert("playerFilePath"@[10] != "playerFileSize"@[10]);
    assert("playerFilePath"@[6] != "playerEnvStart"@[6]);
    assert("playerFileSize"@[6] != "playerEnvStart"@[6]);
}

} // verus!
