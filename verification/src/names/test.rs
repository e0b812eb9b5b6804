//! [`TestParam`]: the singleton `TEST`-node parameter family.

use vstd::prelude::*;

use crate::names::ParamModel;
use crate::text::{no_nul, str_eq};

verus! {

/// A device-diagnostic parameter: the two flat properties on the
/// singleton `TEST` node. `AllLedsWhite` is a factory-test command
/// (writing `Int(1)` engages the all-LEDs-white mode; verified on Duo
/// fw 1.7.3, write persists across refresh); `ToneGeneration` selects
/// an internal test-tone source for audio-path verification. Both wire
/// types are `Int`; the crate types the property name only.
///
/// Firmware wire name preserves the capitalized "LEDS" (`allLEDSWhite`).
#[derive(Debug, PartialEq, Eq, Hash)]
#[non_exhaustive]
pub enum TestParam {
    AllLedsWhite,
    ToneGeneration,
    /// A property without a typed [`TestParam`] identifier yet. Holds the raw wire
    /// name; the value still rides in the carrying event/command.
    Other(String),
}

impl TestParam {
    /// The wire property name.
    pub open spec fn wire_name(self) -> Seq<char> {
        match self {
            TestParam::AllLedsWhite => "allLEDSWhite"@,
            TestParam::ToneGeneration => "toneGeneration"@,
            TestParam::Other(s) => s@,
        }
    }

    /// The typed variant a wire name denotes, if any.
    pub open spec fn known(name: Seq<char>) -> Option<TestParam> {
        if name == "allLEDSWhite"@ {
            Some(TestParam::AllLedsWhite)
        } else if name == "toneGeneration"@ {
            Some(TestParam::ToneGeneration)
        } else {
            None
        }
    }

    /// The parameter as events report it: its wire name, and whether it is a
    /// typed variant.
    pub open spec fn model(self) -> ParamModel {
        ParamModel { name: self.wire_name(), typed: !(self is Other) }
    }

    /// The parameter a wire name decodes to, as events report it: the name,
    /// typed exactly when a typed variant carries it.
    #[verifier::opaque]
    pub open spec fn name_model(name: Seq<char>) -> ParamModel {
        ParamModel { name, typed: Self::known(name) is Some }
    }

    /// Map a wire property name to its typed [`TestParam`] variant if known, without
    /// allocating.
    pub fn from_known_name(name: &str) -> (r: Option<TestParam>)
        ensures
            r == Self::known(name@),
            r matches Some(p) ==> p.wire_name() == name@,
            r matches Some(p) ==> p.model() == Self::name_model(name@),
    {
        proof {
            reveal(TestParam::name_model);
        }
        if str_eq(name, "allLEDSWhite") {
            return Some(TestParam::AllLedsWhite);
        }
        if str_eq(name, "toneGeneration") {
            return Some(TestParam::ToneGeneration);
        }
        None
    }

    /// Check if a wire property name matches a known [`TestParam`] variant without
    /// allocating.
    pub fn is_known_name(name: &str) -> (r: bool)
        ensures
            r == Self::known(name@) is Some,
    {
        Self::from_known_name(name).is_some()
    }

    /// Map a wire property name to its typed [`TestParam`] variant. Unknown names map
    /// to [`TestParam::Other`], so this is total (never fails).
    pub fn from_name(name: &str) -> (r: TestParam)
        ensures
            match Self::known(name@) {
                Some(p) => r == p,
                None => r matches TestParam::Other(s) && s@ == name@,
            },
            r.wire_name() == name@,
            r.model() == Self::name_model(name@),
    {
        proof {
            reveal(TestParam::name_model);
        }
        match Self::from_known_name(name) {
            Some(p) => p,
            None => TestParam::Other(name.to_owned()),
        }
    }

    /// The wire property name for this parameter (inverse of [`TestParam::from_name`]).
    pub fn as_str(&self) -> (r: &str)
        ensures
            r@ == self.wire_name(),
    {
        match self {
            TestParam::AllLedsWhite => "allLEDSWhite",
            TestParam::ToneGeneration => "toneGeneration",
            TestParam::Other(s) => s.as_str(),
        }
    }

    /// The wire property name as an owned string.
    pub fn to_string(&self) -> (r: String)
        ensures
            r@ == self.wire_name(),
    {
        self.as_str().to_owned()
    }

    /// `true` if this is a typed variant (not [`TestParam::Other`]).
    pub fn is_known(&self) -> (r: bool)
        ensures
            r == !(self is Other),
    {
        !matches!(self, TestParam::Other(_))
    }
}

impl Clone for TestParam {
    fn clone(&self) -> (r: Self)
        ensures
            r.wire_name() == self.wire_name(),
            self is Other ==> r is Other,
            !(self is Other) ==> r == *self,
    {
        match self {
            TestParam::AllLedsWhite => TestParam::AllLedsWhite,
            TestParam::ToneGeneration => TestParam::ToneGeneration,
            TestParam::Other(s) => TestParam::Other(s.clone()),
        }
    }
}

/// Every typed [`TestParam`] variant is found again from its wire name.
pub proof fn lemma_test_param_name_round_trip(p: TestParam)
    requires
        !(p is Other),
    ensures
        TestParam::known(p.wire_name()) == Some(p),
        no_nul(p.wire_name()),
{
    reveal_strlit("allLEDSWhite");
    reveal_strlit("toneGeneration");
    assert("allLEDSWhite"@.len() == 12);
    assert("toneGeneration"@.len() == 14);
}

} // verus!
