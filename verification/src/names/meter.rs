//! [`MeterParam`]: per-`METER`-node parameter family.

use vstd::prelude::*;

use crate::names::ParamModel;
use crate::text::{no_nul, str_eq};

verus! {

/// A per-meter parameter: one of the flat properties the device carries
/// on each `METER` node (typically one per fader strip, though the exact
/// count depends on firmware layout). Provides live L/R meter levels and
/// peaks plus a stereo-pair flag. `FaderLevel` is a passthrough of the
/// strip's fader position (the same value that appears on the strip's
/// `FADER` node under `PHYSICALINTERFACE`).
///
/// The `faderLevel` wire name is shared with `FADER`; decoding
/// distinguishes by path shape (METER paths never match FADER paths).
#[derive(Debug, PartialEq, Eq, Hash)]
#[non_exhaustive]
pub enum MeterParam {
    FaderLevel,
    MeterLevelL,
    MeterLevelR,
    MeterPeakL,
    MeterPeakR,
    MeterStereo,
    /// A property without a typed [`MeterParam`] identifier yet. Holds the raw wire
    /// name; the value still rides in the carrying event/command.
    Other(String),
}

impl MeterParam {
    /// The wire property name.
    pub open spec fn wire_name(self) -> Seq<char> {
        match self {
            MeterParam::FaderLevel => "faderLevel"@,
            MeterParam::MeterLevelL => "meterLevelL"@,
            MeterParam::MeterLevelR => "meterLevelR"@,
            MeterParam::MeterPeakL => "meterPeakL"@,
            MeterParam::MeterPeakR => "meterPeakR"@,
            MeterParam::MeterStereo => "meterStereo"@,
            MeterParam::Other(s) => s@,
        }
    }

    /// The typed variant a wire name denotes, if any.
    pub open spec fn known(name: Seq<char>) -> Option<MeterParam> {
        if name == "faderLevel"@ {
            Some(MeterParam::FaderLevel)
        } else if name == "meterLevelL"@ {
            Some(MeterParam::MeterLevelL)
        } else if name == "meterLevelR"@ {
            Some(MeterParam::MeterLevelR)
        } else if name == "meterPeakL"@ {
            Some(MeterParam::MeterPeakL)
        } else if name == "meterPeakR"@ {
            Some(MeterParam::MeterPeakR)
        } else if name == "meterStereo"@ {
            Some(MeterParam::MeterStereo)
        } else {
            None
        }
    }

    /// The parameter as events report it: its wire name, and whether it is a
    /// typed variant.
    pub open spec fn model(self) -> ParamModel {
        ParamModel { name: self.wire_name(), typed: !(self is Other) }
    }

    /// The parameter a wire name decodes to, as events report it: the name,
    /// typed exactly when a typed variant carries it.
    #[verifier::opaque]
    pub open spec fn name_model(name: Seq<char>) -> ParamModel {
        ParamModel { name, typed: Self::known(name) is Some }
    }

    /// Map a wire property name to its typed [`MeterParam`] variant if known, without
    /// allocating.
    pub fn from_known_name(name: &str) -> (r: Option<MeterParam>)
        ensures
            r == Self::known(name@),
            r matches Some(p) ==> p.wire_name() == name@,
            r matches Some(p) ==> p.model() == Self::name_model(name@),
    {
        proof {
            reveal(MeterParam::name_model);
        }
        if str_eq(name, "faderLevel") {
            return Some(MeterParam::FaderLevel);
        }
        if str_eq(name, "meterLevelL") {
            return Some(MeterParam::MeterLevelL);
        }
        if str_eq(name, "meterLevelR") {
            return Some(MeterParam::MeterLevelR);
        }
        if str_eq(name, "meterPeakL") {
            return Some(MeterParam::MeterPeakL);
        }
        if str_eq(name, "meterPeakR") {
            return Some(MeterParam::MeterPeakR);
        }
        if str_eq(name, "meterStereo") {
            return Some(MeterParam::MeterStereo);
        }
        None
    }

    /// Check if a wire property name matches a known [`MeterParam`] variant without
    /// allocating.
    pub fn is_known_name(name: &str) -> (r: bool)
        ensures
            r == Self::known(name@) is Some,
    {
        Self::from_known_name(name).is_some()
    }

    /// Map a wire property name to its typed [`MeterParam`] variant. Unknown names map
    /// to [`MeterParam::Other`], so this is total (never fails).
    pub fn from_name(name: &str) -> (r: MeterParam)
        ensures
            match Self::known(name@) {
                Some(p) => r == p,
                None => r matches MeterParam::Other(s) && s@ == name@,
            },
            r.wire_name() == name@,
            r.model() == Self::name_model(name@),
    {
        proof {
            reveal(MeterParam::name_model);
        }
        match Self::from_known_name(name) {
            Some(p) => p,
            None => MeterParam::Other(name.to_owned()),
        }
    }

    /// The wire property name for this parameter (inverse of [`MeterParam::from_name`]).
    pub fn as_str(&self) -> (r: &str)
        ensures
            r@ == self.wire_name(),
    {
        match self {
            MeterParam::FaderLevel => "faderLevel",
            MeterParam::MeterLevelL => "meterLevelL",
            MeterParam::MeterLevelR => "meterLevelR",
            MeterParam::MeterPeakL => "meterPeakL",
            MeterParam::MeterPeakR => "meterPeakR",
            MeterParam::MeterStereo => "meterStereo",
            MeterParam::Other(s) => s.as_str(),
        }
    }

    /// The wire property name as an owned string.
    pub fn to_string(&self) -> (r: String)
        ensures
            r@ == self.wire_name(),
    {
        self.as_str().to_owned()
    }

    /// `true` if this is a typed variant (not [`MeterParam::Other`]).
    pub fn is_known(&self) -> (r: bool)
        ensures
            r == !(self is Other),
    {
        !matches!(self, MeterParam::Other(_))
    }
}

impl Clone for MeterParam {
    fn clone(&self) -> (r: Self)
        ensures
            r.wire_name() == self.wire_name(),
            self is Other ==> r is Other,
            !(self is Other) ==> r == *self,
    {
        match self {
            MeterParam::FaderLevel => MeterParam::FaderLevel,
            MeterParam::MeterLevelL => MeterParam::MeterLevelL,
            MeterParam::MeterLevelR => MeterParam::MeterLevelR,
            MeterParam::MeterPeakL => MeterParam::MeterPeakL,
            MeterParam::MeterPeakR => MeterParam::MeterPeakR,
            MeterParam::MeterStereo => MeterParam::MeterStereo,
            MeterParam::Other(s) => MeterParam::Other(s.clone()),
        }
    }
}

/// Every typed [`MeterParam`] variant is found again from its wire name.
pub proof fn lemma_meter_param_name_round_trip(p: MeterParam)
    requires
        !(p is Other),
    ensures
        MeterParam::known(p.wire_name()) == Some(p),
        no_nul(p.wire_name()),
{
    reveal_strlit("faderLevel");
    reveal_strlit("meterLevelL");
    reveal_strlit("meterLevelR");
    reveal_strlit("meterPeakL");
    reveal_strlit("meterPeakR");
    reveal_strlit("meterStereo");
    assert("faderLevel"@.len() == 10);
    assert("meterLevelL"@.len() == 11);
    assert("meterLevelR"@.len() == 11);
    assert("meterPeakL"@.len() == 10);
    assert("meterPeakR"@.len() == 10);
    assert("meterStereo"@.len() == 11);
    assert("faderLevel"@[0] != "meterPeakL"@[0]);
    assert("faderLevel"@[0] != "meterPeakR"@[0]);
    assert("meterLevelL"@[10] != "meterLevelR"@[10]);
    assert("meterLevelL"@[5] != "meterStereo"@[5]);
    assert("meterLevelR"@[5] != "meterStereo"@[5]);
    assert("meterPeakL"@[9] != "meterPeakR"@[9]);
}

} // verus!
