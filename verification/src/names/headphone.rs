//! [`HeadphoneParam`]: the per-jack `HEADPHONE`-node parameter family.

use vstd::prelude::*;

use crate::names::ParamModel;
use crate::text::{no_nul, str_eq};

verus! {

/// A per-headphone parameter: one of the flat properties the device carries
/// on a `HEADPHONE` node. The device has one node per physical headphone jack
/// (4 on the Pro II), so address a headphone by its index. `headphoneColour`
/// is the jack's LED ring colour (ARGB hex string); `headphoneType` selects
/// the connected gear profile.
#[derive(Debug, PartialEq, Eq, Hash)]
#[non_exhaustive]
pub enum HeadphoneParam {
    Colour,
    Type,
    /// A property without a typed [`HeadphoneParam`] identifier yet. Holds the raw wire
    /// name; the value still rides in the carrying event/command.
    Other(String),
}

impl HeadphoneParam {
    /// The wire property name.
    pub open spec fn wire_name(self) -> Seq<char> {
        match self {
            HeadphoneParam::Colour => "headphoneColour"@,
            HeadphoneParam::Type => "headphoneType"@,
            HeadphoneParam::Other(s) => s@,
        }
    }

    /// The typed variant a wire name denotes, if any.
    pub open spec fn known(name: Seq<char>) -> Option<HeadphoneParam> {
        if name == "headphoneColour"@ {
            Some(HeadphoneParam::Colour)
        } else if name == "headphoneType"@ {
            Some(HeadphoneParam::Type)
        } else {
            None
        }
    }

    /// The parameter as events report it: its wire name, and whether it is a
    /// typed variant.
    pub open spec fn model(self) -> ParamModel {
        ParamModel { name: self.wire_name(), typed: !(self is Other) }
    }

    /// The parameter a wire name decodes to, as events report it: the name,
    /// typed exactly when a typed variant carries it.
    #[verifier::opaque]
    pub open spec fn name_model(name: Seq<char>) -> ParamModel {
        ParamModel { name, typed: Self::known(name) is Some }
    }

    /// Map a wire property name to its typed [`HeadphoneParam`] variant if known, without
    /// allocating.
    pub fn from_known_name(name: &str) -> (r: Option<HeadphoneParam>)
        ensures
            r == Self::known(name@),
            r matches Some(p) ==> p.wire_name() == name@,
            r matches Some(p) ==> p.model() == Self::name_model(name@),
    {
        proof {
            reveal(HeadphoneParam::name_model);
        }
        if str_eq(name, "headphoneColour") {
            return Some(HeadphoneParam::Colour);
        }
        if str_eq(name, "headphoneType") {
            return Some(HeadphoneParam::Type);
        }
        None
    }

    /// Check if a wire property name matches a known [`HeadphoneParam`] variant without
    /// allocating.
    pub fn is_known_name(name: &str) -> (r: bool)
        ensures
            r == Self::known(name@) is Some,
    {
        Self::from_known_name(name).is_some()
    }

    /// Map a wire property name to its typed [`HeadphoneParam`] variant. Unknown names map
    /// to [`HeadphoneParam::Other`], so this is total (never fails).
    pub fn from_name(name: &str) -> (r: HeadphoneParam)
        ensures
            match Self::known(name@) {
                Some(p) => r == p,
                None => r matches HeadphoneParam::Other(s) && s@ == name@,
            },
            r.wire_name() == name@,
            r.model() == Self::name_model(name@),
    {
        proof {
            reveal(HeadphoneParam::name_model);
        }
        match Self::from_known_name(name) {
            Some(p) => p,
            None => HeadphoneParam::Other(name.to_owned()),
        }
    }

    /// The wire property name for this parameter (inverse of [`HeadphoneParam::from_name`]).
    pub fn as_str(&self) -> (r: &str)
        ensures
            r@ == self.wire_name(),
    {
        match self {
            HeadphoneParam::Colour => "headphoneColour",
            HeadphoneParam::Type => "headphoneType",
            HeadphoneParam::Other(s) => s.as_str(),
        }
    }

    /// The wire property name as an owned string.
    pub fn to_string(&self) -> (r: String)
        ensures
            r@ == self.wire_name(),
    {
        self.as_str().to_owned()
    }

    /// `true` if this is a typed variant (not [`HeadphoneParam::Other`]).
    pub fn is_known(&self) -> (r: bool)
        ensures
            r == !(self is Other),
    {
        !matches!(self, HeadphoneParam::Other(_))
    }
}

impl Clone for HeadphoneParam {
    fn clone(&self) -> (r: Self)
        ensures
            r.wire_name() == self.wire_name(),
            self is Other ==> r is Other,
            !(self is Other) ==> r == *self,
    {
        match self {
            HeadphoneParam::Colour => HeadphoneParam::Colour,
            HeadphoneParam::Type => HeadphoneParam::Type,
            HeadphoneParam::Other(s) => HeadphoneParam::Other(s.clone()),
        }
    }
}

/// Every typed [`HeadphoneParam`] variant is found again from its wire name.
pub proof fn lemma_headphone_param_name_round_trip(p: HeadphoneParam)
    requires
        !(p is Other),
    ensures
        HeadphoneParam::known(p.wire_name()) == Some(p),
        no_nul(p.wire_name()),
{
    reveal_strlit("headphoneColour");
    reveal_strlit("headphoneType");
    assert("headphoneColour"@.len() == 15);
    assert("headphoneType"@.len() == 13);
}

} // verus!
