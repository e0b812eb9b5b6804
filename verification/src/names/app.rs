//! [`AppParam`]: the singleton `APP`-node parameter family.

use vstd::prelude::*;

use crate::names::ParamModel;
use crate::text::{no_nul, str_eq};

verus! {

/// A companion-app-mode parameter: one of the flat properties the device
/// carries on the singleton `APP` node. Reflects the device's view of
/// the RODE Connect app's current mode (compression on, monitor mix
/// selection, output device chosen, recording state). Semantics of each
/// value are firmware-internal; the crate types the property name only.
#[derive(Debug, PartialEq, Eq, Hash)]
#[non_exhaustive]
pub enum AppParam {
    Compression,
    MonitorMix,
    OutputDevice,
    Recording,
    /// A property without a typed [`AppParam`] identifier yet. Holds the raw wire
    /// name; the value still rides in the carrying event/command.
    Other(String),
}

impl AppParam {
    /// The wire property name.
    pub open spec fn wire_name(self) -> Seq<char> {
        match self {
            AppParam::Compression => "appCompression"@,
            AppParam::MonitorMix => "appMonitorMix"@,
            AppParam::OutputDevice => "appOutputDevice"@,
            AppParam::Recording => "appRecording"@,
            AppParam::Other(s) => s@,
        }
    }

    /// The typed variant a wire name denotes, if any.
    pub open spec fn known(name: Seq<char>) -> Option<AppParam> {
        if name == "appCompression"@ {
            Some(AppParam::Compression)
        } else if name == "appMonitorMix"@ {
            Some(AppParam::MonitorMix)
        } else if name == "appOutputDevice"@ {
            Some(AppParam::OutputDevice)
        } else if name == "appRecording"@ {
            Some(AppParam::Recording)
        } else {
            None
        }
    }

    /// The parameter as events report it: its wire name, and whether it is a
    /// typed variant.
    pub open spec fn model(self) -> ParamModel {
        ParamModel { name: self.wire_name(), typed: !(self is Other) }
    }

    /// The parameter a wire name decodes to, as events report it: the name,
    /// typed exactly when a typed variant carries it.
    #[verifier::opaque]
    pub open spec fn name_model(name: Seq<char>) -> ParamModel {
        ParamModel { name, typed: Self::known(name) is Some }
    }

    /// Map a wire property name to its typed [`AppParam`] variant if known, without
    /// allocating.
    pub fn from_known_name(name: &str) -> (r: Option<AppParam>)
        ensures
            r == Self::known(name@),
            r matches Some(p) ==> p.wire_name() == name@,
            r matches Some(p) ==> p.model() == Self::name_model(name@),
    {
        proof {
            reveal(AppParam::name_model);
        }
        if str_eq(name, "appCompression") {
            return Some(AppParam::Compression);
        }
        if str_eq(name, "appMonitorMix") {
            return Some(AppParam::MonitorMix);
        }
        if str_eq(name, "appOutputDevice") {
            return Some(AppParam::OutputDevice);
        }
        if str_eq(name, "appRecording") {
            return Some(AppParam::Recording);
        }
        None
    }

    /// Check if a wire property name matches a known [`AppParam`] variant without
    /// allocating.
    pub fn is_known_name(name: &str) -> (r: bool)
        ensures
            r == Self::known(name@) is Some,
    {
        Self::from_known_name(name).is_some()
    }

    /// Map a wire property name to its typed [`AppParam`] variant. Unknown names map
    /// to [`AppParam::Other`], so this is total (never fails).
    pub fn from_name(name: &str) -> (r: AppParam)
        ensures
            match Self::known(name@) {
                Some(p) => r == p,
                None => r matches AppParam::Other(s) && s@ == name@,
            },
            r.wire_name() == name@,
            r.model() == Self::name_model(name@),
    {
        proof {
            reveal(AppParam::name_model);
        }
        match Self::from_known_name(name) {
            Some(p) => p,
            None => AppParam::Other(name.to_owned()),
        }
    }

    /// The wire property name for this parameter (inverse of [`AppParam::from_name`]).
    pub fn as_str(&self) -> (r: &str)
        ensures
            r@ == self.wire_name(),
    {
        match self {
            AppParam::Compression => "appCompression",
            AppParam::MonitorMix => "appMonitorMix",
            AppParam::OutputDevice => "appOutputDevice",
            AppParam::Recording => "appRecording",
            AppParam::Other(s) => s.as_str(),
        }
    }

    /// The wire property name as an owned string.
    pub fn to_string(&self) -> (r: String)
        ensures
            r@ == self.wire_name(),
    {
        self.as_str().to_owned()
    }

    /// `true` if this is a typed variant (not [`AppParam::Other`]).
    pub fn is_known(&self) -> (r: bool)
        ensures
            r == !(self is Other),
    {
        !matches!(self, AppParam::Other(_))
    }
}

impl Clone for AppParam {
    fn clone(&self) -> (r: Self)
        ensures
            r.wire_name() == self.wire_name(),
            self is Other ==> r is Other,
            !(self is Other) ==> r == *self,
    {
        match self {
            AppParam::Compression => AppParam::Compression,
            AppParam::MonitorMix => AppParam::MonitorMix,
            AppParam::OutputDevice => AppParam::OutputDevice,
            AppParam::Recording => AppParam::Recording,
            AppParam::Other(s) => AppParam::Other(s.clone()),
        }
    }
}

/// Every typed [`AppParam`] variant is found again from its wire name.
pub proof fn lemma_app_param_name_round_trip(p: AppParam)
    requires
        !(p is Other),
    ensures
        AppParam::known(p.wire_name()) == Some(p),
        no_nul(p.wire_name()),
{
    reveal_strlit("appCompression");
    reveal_strlit("appMonitorMix");
    reveal_strlit("appOutputDevice");
    reveal_strlit("appRecording");
    assert("appCompression"@.len() == 14);
    assert("appMonitorMix"@.len() == 13);
    assert("appOutputDevice"@.len() == 15);
    assert("appRecording"@.len() == 12);
}

} // verus!
