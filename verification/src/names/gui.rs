//! [`GuiParam`]: the singleton root `GUI`-node front-panel UI-state family.

use vstd::prelude::*;

use crate::names::ParamModel;
use crate::text::{no_nul, str_eq};

verus! {

/// A front-panel UI parameter: one of the flat properties the device carries
/// on the single root `GUI` node. This is touchscreen / display state, not
/// audio routing: screen + button brightness, the selected pad bank, the
/// metering mode, and which EQ band the touchscreen EQ view is focused on.
///
/// Two wire-name subtleties worth calling out:
/// - `screenTouched` here is the device's *readback* flag (the UI reporting
///   the screen is being touched). It is distinct from
///   [`crate::Command::ScreenTouched`], which is a separate "wake the
///   display" pulse frame, not a write to this property.
/// - `eqParamModeLow` / `eqParamModeMid` / `eqParamModeHigh` live on `GUI`,
///   not on the channel strip: they select which EQ band the touchscreen is
///   editing (UI focus), so they are intentionally absent from
///   [`ChannelParam`].
#[derive(Debug, PartialEq, Eq, Hash)]
#[non_exhaustive]
pub enum GuiParam {
    Lang,
    ScreenBrightness,
    AutoBrightness,
    ScreenDimAfterSeconds,
    ActiveButtonsBrightness,
    InactiveButtonsBrightness,
    Metering,
    BroadcastMeters,
    SelectedBank,
    PadActiveEdit,
    ScreenTouched,
    EqParamModeLow,
    EqParamModeMid,
    EqParamModeHigh,
    /// A property without a typed [`GuiParam`] identifier yet. Holds the raw wire
    /// name; the value still rides in the carrying event/command.
    Other(String),
}

impl GuiParam {
    /// The wire property name.
    pub open spec fn wire_name(self) -> Seq<char> {
        match self {
            GuiParam::Lang => "lang"@,
            GuiParam::ScreenBrightness => "screenBrightness"@,
            GuiParam::AutoBrightness => "autoBrightness"@,
            GuiParam::ScreenDimAfterSeconds => "screenDimAfterSeconds"@,
            GuiParam::ActiveButtonsBrightness => "activeButtonsBrightness"@,
            GuiParam::InactiveButtonsBrightness => "inactiveButtonsBrightness"@,
            GuiParam::Metering => "metering"@,
            GuiParam::BroadcastMeters => "broadcastMeters"@,
            GuiParam::SelectedBank => "selectedBank"@,
            GuiParam::PadActiveEdit => "padActiveEdit"@,
            GuiParam::ScreenTouched => "screenTouched"@,
            GuiParam::EqParamModeLow => "eqParamModeLow"@,
            GuiParam::EqParamModeMid => "eqParamModeMid"@,
            GuiParam::EqParamModeHigh => "eqParamModeHigh"@,
            GuiParam::Other(s) => s@,
        }
    }

    /// The typed variant a wire name denotes, if any.
    pub open spec fn known(name: Seq<char>) -> Option<GuiParam> {
        if name == "lang"@ {
            Some(GuiParam::Lang)
        } else if name == "screenBrightness"@ {
            Some(GuiParam::ScreenBrightness)
        } else if name == "autoBrightness"@ {
            Some(GuiParam::AutoBrightness)
        } else if name == "screenDimAfterSeconds"@ {
            Some(GuiParam::ScreenDimAfterSeconds)
        } else if name == "activeButtonsBrightness"@ {
            Some(GuiParam::ActiveButtonsBrightness)
        } else if name == "inactiveButtonsBrightness"@ {
            Some(GuiParam::InactiveButtonsBrightness)
        } else if name == "metering"@ {
            Some(GuiParam::Metering)
        } else if name == "broadcastMeters"@ {
            Some(GuiParam::BroadcastMeters)
        } else if name == "selectedBank"@ {
            Some(GuiParam::SelectedBank)
        } else if name == "padActiveEdit"@ {
            Some(GuiParam::PadActiveEdit)
        } else if name == "screenTouched"@ {
            Some(GuiParam::ScreenTouched)
        } else if name == "eqParamModeLow"@ {
            Some(GuiParam::EqParamModeLow)
        } else if name == "eqParamModeMid"@ {
            Some(GuiParam::EqParamModeMid)
        } else if name == "eqParamModeHigh"@ {
            Some(GuiParam::EqParamModeHigh)
        } else {
            None
        }
    }

    /// The parameter as events report it: its wire name, and whether it is a
    /// typed variant.
    pub open spec fn model(self) -> ParamModel {
        ParamModel { name: self.wire_name(), typed: !(self is Other) }
    }

    /// The parameter a wire name decodes to, as events report it: the name,
    /// typed exactly when a typed variant carries it.
    #[verifier::opaque]
    pub open spec fn name_model(name: Seq<char>) -> ParamModel {
        ParamModel { name, typed: Self::known(name) is Some }
    }

    /// Map a wire property name to its typed [`GuiParam`] variant if known, without
    /// allocating.
    pub fn from_known_name(name: &str) -> (r: Option<GuiParam>)
        ensures
            r == Self::known(name@),
            r matches Some(p) ==> p.wire_name() == name@,
            r matches Some(p) ==> p.model() == Self::name_model(name@),
    {
        proof {
            reveal(GuiParam::name_model);
        }
        if str_eq(name, "lang") {
            return Some(GuiParam::Lang);
        }
        if str_eq(name, "screenBrightness") {
            return Some(GuiParam::ScreenBrightness);
        }
        if str_eq(name, "autoBrightness") {
            return Some(GuiParam::AutoBrightness);
        }
        if str_eq(name, "screenDimAfterSeconds") {
            return Some(GuiParam::ScreenDimAfterSeconds);
        }
        if str_eq(name, "activeButtonsBrightness") {
            return Some(GuiParam::ActiveButtonsBrightness);
        }
        if str_eq(name, "inactiveButtonsBrightness") {
            return Some(GuiParam::InactiveButtonsBrightness);
        }
        if str_eq(name, "metering") {
            return Some(GuiParam::Metering);
        }
        if str_eq(name, "broadcastMeters") {
            return Some(GuiParam::BroadcastMeters);
        }
        if str_eq(name, "selectedBank") {
            return Some(GuiParam::SelectedBank);
        }
        if str_eq(name, "padActiveEdit") {
            return Some(GuiParam::PadActiveEdit);
        }
        if str_eq(name, "screenTouched") {
            return Some(GuiParam::ScreenTouched);
        }
        if str_eq(name, "eqParamModeLow") {
            return Some(GuiParam::EqParamModeLow);
        }
        if str_eq(name, "eqParamModeMid") {
            return Some(GuiParam::EqParamModeMid);
        }
        if str_eq(name, "eqParamModeHigh") {
            return Some(GuiParam::EqParamModeHigh);
        }
        None
    }

    /// Check if a wire property name matches a known [`GuiParam`] variant without
    /// allocating.
    pub fn is_known_name(name: &str) -> (r: bool)
        ensures
            r == Self::known(name@) is Some,
    {
        Self::from_known_name(name).is_some()
    }

    /// Map a wire property name to its typed [`GuiParam`] variant. Unknown names map
    /// to [`GuiParam::Other`], so this is total (never fails).
    pub fn from_name(name: &str) -> (r: GuiParam)
        ensures
            match Self::known(name@) {
                Some(p) => r == p,
                None => r matches GuiParam::Other(s) && s@ == name@,
            },
            r.wire_name() == name@,
            r.model() == Self::name_model(name@),
    {
        proof {
            reveal(GuiParam::name_model);
        }
        match Self::from_known_name(name) {
            Some(p) => p,
            None => GuiParam::Other(name.to_owned()),
        }
    }

    /// The wire property name for this parameter (inverse of [`GuiParam::from_name`]).
    pub fn as_str(&self) -> (r: &str)
        ensures
            r@ == self.wire_name(),
    {
        match self {
            GuiParam::Lang => "lang",
            GuiParam::ScreenBrightness => "screenBrightness",
            GuiParam::AutoBrightness => "autoBrightness",
            GuiParam::ScreenDimAfterSeconds => "screenDimAfterSeconds",
            GuiParam::ActiveButtonsBrightness => "activeButtonsBrightness",
            GuiParam::InactiveButtonsBrightness => "inactiveButtonsBrightness",
            GuiParam::Metering => "metering",
            GuiParam::BroadcastMeters => "broadcastMeters",
            GuiParam::SelectedBank => "selectedBank",
            GuiParam::PadActiveEdit => "padActiveEdit",
            GuiParam::ScreenTouched => "screenTouched",
            GuiParam::EqParamModeLow => "eqParamModeLow",
            GuiParam::EqParamModeMid => "eqParamModeMid",
            GuiParam::EqParamModeHigh => "eqParamModeHigh",
            GuiParam::Other(s) => s.as_str(),
        }
    }

    /// The wire property name as an owned string.
    pub fn to_string(&self) -> (r: String)
        ensures
            r@ == self.wire_name(),
    {
        self.as_str().to_owned()
    }

    /// `true` if this is a typed variant (not [`GuiParam::Other`]).
    pub fn is_known(&self) -> (r: bool)
        ensures
            r == !(self is Other),
    {
        !matches!(self, GuiParam::Other(_))
    }
}

impl Clone for GuiParam {
    fn clone(&self) -> (r: Self)
        ensures
            r.wire_name() == self.wire_name(),
            self is Other ==> r is Other,
            !(self is Other) ==> r == *self,
    {
        match self {
            GuiParam::Lang => GuiParam::Lang,
            GuiParam::ScreenBrightness => GuiParam::ScreenBrightness,
            GuiParam::AutoBrightness => GuiParam::AutoBrightness,
            GuiParam::ScreenDimAfterSeconds => GuiParam::ScreenDimAfterSeconds,
            GuiParam::ActiveButtonsBrightness => GuiParam::ActiveButtonsBrightness,
            GuiParam::InactiveButtonsBrightness => GuiParam::InactiveButtonsBrightness,
            GuiParam::Metering => GuiParam::Metering,
            GuiParam::BroadcastMeters => GuiParam::BroadcastMeters,
            GuiParam::SelectedBank => GuiParam::SelectedBank,
            GuiParam::PadActiveEdit => GuiParam::PadActiveEdit,
            GuiParam::ScreenTouched => GuiParam::ScreenTouched,
            GuiParam::EqParamModeLow => GuiParam::EqParamModeLow,
            GuiParam::EqParamModeMid => GuiParam::EqParamModeMid,
            GuiParam::EqParamModeHigh => GuiParam::EqParamModeHigh,
            GuiParam::Other(s) => GuiParam::Other(s.clone()),
        }
    }
}

/// Every typed [`GuiParam`] variant is found again from its wire name.
pub proof fn lemma_gui_param_name_round_trip(p: GuiParam)
    requires
        !(p is Other),
    ensures
        GuiParam::known(p.wire_name()) == Some(p),
        no_nul(p.wire_name()),
{
    reveal_strlit("lang");
    reveal_strlit("screenBrightness");
    reveal_strlit("autoBrightness");
    reveal_strlit("screenDimAfterSeconds");
    reveal_strlit("activeButtonsBrightness");
    reveal_strlit("inactiveButtonsBrightness");
    reveal_strlit("metering");
    reveal_strlit("broadcastMeters");
    reveal_strlit("selectedBank");
    reveal_strlit("padActiveEdit");
    reveal_strlit("screenTouched");
    reveal_strlit("eqParamModeLow");
    reveal_strlit("eqParamModeMid");
    reveal_strlit("eqParamModeHigh");
    assert("lang"@.len() == 4);
    assert("screenBrightness"@.len() == 16);
    assert("autoBrightness"@.len() == 14);
    assert("screenDimAfterSeconds"@.len() == 21);
    assert("activeButtonsBrightness"@.len() == 23);
    assert("inactiveButtonsBrightness"@.len() == 25);
    assert("metering"@.len() == 8);
    assert("broadcastMeters"@.len() == 15);
    assert("selectedBank"@.len() == 12);
    assert("padActiveEdit"@.len() == 13);
    assert("screenTouched"@.len() == 13);
    assert("eqParamModeLow"@.len() == 14);
    assert("eqParamModeMid"@.len() == 14);
    assert("eqParamModeHigh"@.len() == 15);
    assert("autoBrightness"@[0] != "eqParamModeLow"@[0]);
    assert("autoBrightness"@[0] != "eqParamModeMid"@[0]);
    assert("broadcastMeters"@[0] != "eqParamModeHigh"@[0]);
    assert("padActiveEdit"@[0] != "screenTouched"@[0]);
    assert("eqParamModeLow"@[11] != "eqParamModeMid"@[11]);
}

} // verus!
