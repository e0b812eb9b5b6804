//! [`ThemeParam`]: the singleton `THEME`-node parameter family.

use vstd::prelude::*;

use crate::names::ParamModel;
use crate::text::{no_nul, str_eq};

verus! {

/// A device-wide UI theme parameter: the one flat property the device
/// carries on the singleton `THEME` node. Selects the current
/// touchscreen theme (dark / light / etc: enum values are
/// firmware-internal).
#[derive(Debug, PartialEq, Eq, Hash)]
#[non_exhaustive]
pub enum ThemeParam {
    Id,
    /// A property without a typed [`ThemeParam`] identifier yet. Holds the raw wire
    /// name; the value still rides in the carrying event/command.
    Other(String),
}

impl ThemeParam {
    /// The wire property name.
    pub open spec fn wire_name(self) -> Seq<char> {
        match self {
            ThemeParam::Id => "themeId"@,
            ThemeParam::Other(s) => s@,
        }
    }

    /// The typed variant a wire name denotes, if any.
    pub open spec fn known(name: Seq<char>) -> Option<ThemeParam> {
        if name == "themeId"@ {
            Some(ThemeParam::Id)
        } else {
            None
        }
    }

    /// The parameter as events report it: its wire name, and whether it is a
    /// typed variant.
    pub open spec fn model(self) -> ParamModel {
        ParamModel { name: self.wire_name(), typed: !(self is Other) }
    }

    /// The parameter a wire name decodes to, as events report it: the name,
    /// typed exactly when a typed variant carries it.
    #[verifier::opaque]
    pub open spec fn name_model(name: Seq<char>) -> ParamModel {
        ParamModel { name, typed: Self::known(name) is Some }
    }

    /// Map a wire property name to its typed [`ThemeParam`] variant if known, without
    /// allocating.
    pub fn from_known_name(name: &str) -> (r: Option<ThemeParam>)
        ensures
            r == Self::known(name@),
            r matches Some(p) ==> p.wire_name() == name@,
            r matches Some(p) ==> p.model() == Self::name_model(name@),
    {
        proof {
            reveal(ThemeParam::name_model);
        }
        if str_eq(name, "themeId") {
            return Some(ThemeParam::Id);
        }
        None
    }

    /// Check if a wire property name matches a known [`ThemeParam`] variant without
    /// allocating.
    pub fn is_known_name(name: &str) -> (r: bool)
        ensures
            r == Self::known(name@) is Some,
    {
        Self::from_known_name(name).is_some()
    }

    /// Map a wire property name to its typed [`ThemeParam`] variant. Unknown names map
    /// to [`ThemeParam::Other`], so this is total (never fails).
    pub fn from_name(name: &str) -> (r: ThemeParam)
        ensures
            match Self::known(name@) {
                Some(p) => r == p,
                None => r matches ThemeParam::Other(s) && s@ == name@,
            },
            r.wire_name() == name@,
            r.model() == Self::name_model(name@),
    {
        proof {
            reveal(ThemeParam::name_model);
        }
        match Self::from_known_name(name) {
            Some(p) => p,
            None => ThemeParam::Other(name.to_owned()),
        }
    }

    /// The wire property name for this parameter (inverse of [`ThemeParam::from_name`]).
    pub fn as_str(&self) -> (r: &str)
        ensures
            r@ == self.wire_name(),
    {
        match self {
            ThemeParam::Id => "themeId",
            ThemeParam::Other(s) => s.as_str(),
        }
    }

    /// The wire property name as an owned string.
    pub fn to_string(&self) -> (r: String)
        ensures
            r@ == self.wire_name(),
    {
        self.as_str().to_owned()
    }

    /// `true` if this is a typed variant (not [`ThemeParam::Other`]).
    pub fn is_known(&self) -> (r: bool)
        ensures
            r == !(self is Other),
    {
        !matches!(self, ThemeParam::Other(_))
    }
}

impl Clone for ThemeParam {
    fn clone(&self) -> (r: Self)
        ensures
            r.wire_name() == self.wire_name(),
            self is Other ==> r is Other,
            !(self is Other) ==> r == *self,
    {
        match self {
            ThemeParam::Id => ThemeParam::Id,
            ThemeParam::Other(s) => ThemeParam::Other(s.clone()),
        }
    }
}

/// Every typed [`ThemeParam`] variant is found again from its wire name.
pub proof fn lemma_theme_param_name_round_trip(p: ThemeParam)
    requires
        !(p is Other),
    ensures
        ThemeParam::known(p.wire_name()) == Some(p),
        no_nul(p.wire_name()),
{
    reveal_strlit("themeId");
    assert("themeId"@.len() == 7);
}

} // verus!
