//! [`WifiScanResultParam`]: per-`WIFISCANRESULT`-node parameter family.

use vstd::prelude::*;

use crate::names::ParamModel;
use crate::text::{no_nul, str_eq};

verus! {

/// A per-WiFi-scan-result parameter: the one flat property on each
/// `WIFISCANRESULT` node. The device populates these as WiFi scans
/// complete. Value is a String encoded as `SSID----ENCODING` (the
/// device appends the encryption type with a `----` separator).
#[derive(Debug, PartialEq, Eq, Hash)]
#[non_exhaustive]
pub enum WifiScanResultParam {
    Ssid,
    /// A property without a typed [`WifiScanResultParam`] identifier yet. Holds the raw wire
    /// name; the value still rides in the carrying event/command.
    Other(String),
}

impl WifiScanResultParam {
    /// The wire property name.
    pub open spec fn wire_name(self) -> Seq<char> {
        match self {
            WifiScanResultParam::Ssid => "wifiScanResultSSID"@,
            WifiScanResultParam::Other(s) => s@,
        }
    }

    /// The typed variant a wire name denotes, if any.
    pub open spec fn known(name: Seq<char>) -> Option<WifiScanResultParam> {
        if name == "wifiScanResultSSID"@ {
            Some(WifiScanResultParam::Ssid)
        } else {
            None
        }
    }

    /// The parameter as events report it: its wire name, and whether it is a
    /// typed variant.
    pub open spec fn model(self) -> ParamModel {
        ParamModel { name: self.wire_name(), typed: !(self is Other) }
    }

    /// The parameter a wire name decodes to, as events report it: the name,
    /// typed exactly when a typed variant carries it.
    #[verifier::opaque]
    pub open spec fn name_model(name: Seq<char>) -> ParamModel {
        ParamModel { name, typed: Self::known(name) is Some }
    }

    /// Map a wire property name to its typed [`WifiScanResultParam`] variant if known, without
    /// allocating.
    pub fn from_known_name(name: &str) -> (r: Option<WifiScanResultParam>)
        ensures
            r == Self::known(name@),
            r matches Some(p) ==> p.wire_name() == name@,
            r matches Some(p) ==> p.model() == Self::name_model(name@),
    {
        proof {
            reveal(WifiScanResultParam::name_model);
        }
        if str_eq(name, "wifiScanResultSSID") {
            return Some(WifiScanResultParam::Ssid);
        }
        None
    }

    /// Check if a wire property name matches a known [`WifiScanResultParam`] variant without
    /// allocating.
    pub fn is_known_name(name: &str) -> (r: bool)
        ensures
            r == Self::known(name@) is Some,
    {
        Self::from_known_name(name).is_some()
    }

    /// Map a wire property name to its typed [`WifiScanResultParam`] variant. Unknown names map
    /// to [`WifiScanResultParam::Other`], so this is total (never fails).
    pub fn from_name(name: &str) -> (r: WifiScanResultParam)
        ensures
            match Self::known(name@) {
                Some(p) => r == p,
                None => r matches WifiScanResultParam::Other(s) && s@ == name@,
            },
            r.wire_name() == name@,
            r.model() == Self::name_model(name@),
    {
        proof {
            reveal(WifiScanResultParam::name_model);
        }
        match Self::from_known_name(name) {
            Some(p) => p,
            None => WifiScanResultParam::Other(name.to_owned()),
        }
    }

    /// The wire property name for this parameter (inverse of [`WifiScanResultParam::from_name`]).
    pub fn as_str(&self) -> (r: &str)
        ensures
            r@ == self.wire_name(),
    {
        match self {
            WifiScanResultParam::Ssid => "wifiScanResultSSID",
            WifiScanResultParam::Other(s) => s.as_str(),
        }
    }

    /// The wire property name as an owned string.
    pub fn to_string(&self) -> (r: String)
        ensures
            r@ == self.wire_name(),
    {
        self.as_str().to_owned()
    }

    /// `true` if this is a typed variant (not [`WifiScanResultParam::Other`]).
    pub fn is_known(&self) -> (r: bool)
        ensures
            r == !(self is Other),
    {
        !matches!(self, WifiScanResultParam::Other(_))
    }
}

impl Clone for WifiScanResultParam {
    fn clone(&self) -> (r: Self)
        ensures
            r.wire_name() == self.wire_name(),
            self is Other ==> r is Other,
            !(self is Other) ==> r == *self,
    {
        match self {
            WifiScanResultParam::Ssid => WifiScanResultParam::Ssid,
            WifiScanResultParam::Other(s) => WifiScanResultParam::Other(s.clone()),
        }
    }
}

/// Every typed [`WifiScanResultParam`] variant is found again from its wire name.
pub proof fn lemma_wifi_scan_result_param_name_round_trip(p: WifiScanResultParam)
    requires
        !(p is Other),
    ensures
        WifiScanResultParam::known(p.wire_name()) == Some(p),
        no_nul(p.wire_name()),
{
    reveal_strlit("wifiScanResultSSID");
    assert("wifiScanResultSSID"@.len() == 18);
}

} // verus!
