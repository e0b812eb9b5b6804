//! Wireless-mic radio parameter families: [`RadioParam`] (pairing / lifecycle),
//! [`RadioTxParam`] (per-transmitter state), and [`RadioRxParam`]
//! (per-receiver state).

use vstd::prelude::*;

use crate::names::ParamModel;
use crate::text::{no_nul, str_eq};

verus! {

/// A wireless-radio-pairing parameter: the three flat properties on the
/// `RADIO` node. `Pair` and `Unpair` are command channels; `Paired`
/// reports whether a transmitter is currently paired. These are
/// device-side entrypoints for the RODE Wireless GO integration.
#[derive(Debug, PartialEq, Eq, Hash)]
#[non_exhaustive]
pub enum RadioParam {
    Pair,
    Paired,
    Unpair,
    /// A property without a typed [`RadioParam`] identifier yet. Holds the raw wire
    /// name; the value still rides in the carrying event/command.
    Other(String),
}

impl RadioParam {
    /// The wire property name.
    pub open spec fn wire_name(self) -> Seq<char> {
        match self {
            RadioParam::Pair => "radioPair"@,
            RadioParam::Paired => "radioPaired"@,
            RadioParam::Unpair => "radioUnpair"@,
            RadioParam::Other(s) => s@,
        }
    }

    /// The typed variant a wire name denotes, if any.
    pub open spec fn known(name: Seq<char>) -> Option<RadioParam> {
        if name == "radioPair"@ {
            Some(RadioParam::Pair)
        } else if name == "radioPaired"@ {
            Some(RadioParam::Paired)
        } else if name == "radioUnpair"@ {
            Some(RadioParam::Unpair)
        } else {
            None
        }
    }

    /// The parameter as events report it: its wire name, and whether it is a
    /// typed variant.
    pub open spec fn model(self) -> ParamModel {
        ParamModel { name: self.wire_name(), typed: !(self is Other) }
    }

    /// The parameter a wire name decodes to, as events report it: the name,
    /// typed exactly when a typed variant carries it.
    #[verifier::opaque]
    pub open spec fn name_model(name: Seq<char>) -> ParamModel {
        ParamModel { name, typed: Self::known(name) is Some }
    }

    /// Map a wire property name to its typed [`RadioParam`] variant if known, without
    /// allocating.
    pub fn from_known_name(name: &str) -> (r: Option<RadioParam>)
        ensures
            r == Self::known(name@),
            r matches Some(p) ==> p.wire_name() == name@,
            r matches Some(p) ==> p.model() == Self::name_model(name@),
    {
        proof {
            reveal(RadioParam::name_model);
        }
        if str_eq(name, "radioPair") {
            return Some(RadioParam::Pair);
        }
        if str_eq(name, "radioPaired") {
            return Some(RadioParam::Paired);
        }
        if str_eq(name, "radioUnpair") {
            return Some(RadioParam::Unpair);
        }
        None
    }

    /// Check if a wire property name matches a known [`RadioParam`] variant without
    /// allocating.
    pub fn is_known_name(name: &str) -> (r: bool)
        ensures
            r == Self::known(name@) is Some,
    {
        Self::from_known_name(name).is_some()
    }

    /// Map a wire property name to its typed [`RadioParam`] variant. Unknown names map
    /// to [`RadioParam::Other`], so this is total (never fails).
    pub fn from_name(name: &str) -> (r: RadioParam)
        ensures
            match Self::known(name@) {
                Some(p) => r == p,
                None => r matches RadioParam::Other(s) && s@ == name@,
            },
            r.wire_name() == name@,
            r.model() == Self::name_model(name@),
    {
        proof {
            reveal(RadioParam::name_model);
        }
        match Self::from_known_name(name) {
            Some(p) => p,
            None => RadioParam::Other(name.to_owned()),
        }
    }

    /// The wire property name for this parameter (inverse of [`RadioParam::from_name`]).
    pub fn as_str(&self) -> (r: &str)
        ensures
            r@ == self.wire_name(),
    {
        match self {
            RadioParam::Pair => "radioPair",
            RadioParam::Paired => "radioPaired",
            RadioParam::Unpair => "radioUnpair",
            RadioParam::Other(s) => s.as_str(),
        }
    }

    /// The wire property name as an owned string.
    pub fn to_string(&self) -> (r: String)
        ensures
            r@ == self.wire_name(),
    {
        self.as_str().to_owned()
    }

    /// `true` if this is a typed variant (not [`RadioParam::Other`]).
    pub fn is_known(&self) -> (r: bool)
        ensures
            r == !(self is Other),
    {
        !matches!(self, RadioParam::Other(_))
    }
}

impl Clone for RadioParam {
    fn clone(&self) -> (r: Self)
        ensures
            r.wire_name() == self.wire_name(),
            self is Other ==> r is Other,
            !(self is Other) ==> r == *self,
    {
        match self {
            RadioParam::Pair => RadioParam::Pair,
            RadioParam::Paired => RadioParam::Paired,
            RadioParam::Unpair => RadioParam::Unpair,
            RadioParam::Other(s) => RadioParam::Other(s.clone()),
        }
    }
}

/// Every typed [`RadioParam`] variant is found again from its wire name.
pub proof fn lemma_radio_param_name_round_trip(p: RadioParam)
    requires
        !(p is Other),
    ensures
        RadioParam::known(p.wire_name()) == Some(p),
        no_nul(p.wire_name()),
{
    reveal_strlit("radioPair");
    reveal_strlit("radioPaired");
    reveal_strlit("radioUnpair");
    assert("radioPair"@.len() == 9);
    assert("radioPaired"@.len() == 11);
    assert("radioUnpair"@.len() == 11);
    assert("radioPaired"@[5] != "radioUnpair"@[5]);
}

/// A per-transmitter wireless-radio parameter: the flat properties on
/// each `RADIOTX` node. Read-back state: battery level, charging state,
/// connection status + connection id, device serial + type, RSSI, signal
/// quality. Writable settings: gain assist, pad, remote mute, record.
#[derive(Debug, PartialEq, Eq, Hash)]
#[non_exhaustive]
pub enum RadioTxParam {
    BatteryLevel,
    ChargingState,
    Connected,
    ConnectionId,
    DeviceSn,
    DeviceType,
    GainAssist,
    Pad,
    Record,
    RemoteMute,
    Rssi,
    SignalQuality,
    /// A property without a typed [`RadioTxParam`] identifier yet. Holds the raw wire
    /// name; the value still rides in the carrying event/command.
    Other(String),
}

impl RadioTxParam {
    /// The wire property name.
    pub open spec fn wire_name(self) -> Seq<char> {
        match self {
            RadioTxParam::BatteryLevel => "txBatteryLevel"@,
            RadioTxParam::ChargingState => "txChargingState"@,
            RadioTxParam::Connected => "txConnected"@,
            RadioTxParam::ConnectionId => "txConnectionId"@,
            RadioTxParam::DeviceSn => "txDeviceSN"@,
            RadioTxParam::DeviceType => "txDeviceType"@,
            RadioTxParam::GainAssist => "txGainAssist"@,
            RadioTxParam::Pad => "txPad"@,
            RadioTxParam::Record => "txRecord"@,
            RadioTxParam::RemoteMute => "txRemoteMute"@,
            RadioTxParam::Rssi => "txRssi"@,
            RadioTxParam::SignalQuality => "txSignalQuality"@,
            RadioTxParam::Other(s) => s@,
        }
    }

    /// The typed variant a wire name denotes, if any.
    pub open spec fn known(name: Seq<char>) -> Option<RadioTxParam> {
        if name == "txBatteryLevel"@ {
            Some(RadioTxParam::BatteryLevel)
        } else if name == "txChargingState"@ {
            Some(RadioTxParam::ChargingState)
        } else if name == "txConnected"@ {
            Some(RadioTxParam::Connected)
        } else if name == "txConnectionId"@ {
            Some(RadioTxParam::ConnectionId)
        } else if name == "txDeviceSN"@ {
            Some(RadioTxParam::DeviceSn)
        } else if name == "txDeviceType"@ {
            Some(RadioTxParam::DeviceType)
        } else if name == "txGainAssist"@ {
            Some(RadioTxParam::GainAssist)
        } else if name == "txPad"@ {
            Some(RadioTxParam::Pad)
        } else if name == "txRecord"@ {
            Some(RadioTxParam::Record)
        } else if name == "txRemoteMute"@ {
            Some(RadioTxParam::RemoteMute)
        } else if name == "txRssi"@ {
            Some(RadioTxParam::Rssi)
        } else if name == "txSignalQuality"@ {
            Some(RadioTxParam::SignalQuality)
        } else {
            None
        }
    }

    /// The parameter as events report it: its wire name, and whether it is a
    /// typed variant.
    pub open spec fn model(self) -> ParamModel {
        ParamModel { name: self.wire_name(), typed: !(self is Other) }
    }

    /// The parameter a wire name decodes to, as events report it: the name,
    /// typed exactly when a typed variant carries it.
    #[verifier::opaque]
    pub open spec fn name_model(name: Seq<char>) -> ParamModel {
        ParamModel { name, typed: Self::known(name) is Some }
    }

    /// Map a wire property name to its typed [`RadioTxParam`] variant if known, without
    /// allocating.
    pub fn from_known_name(name: &str) -> (r: Option<RadioTxParam>)
        ensures
            r == Self::known(name@),
            r matches Some(p) ==> p.wire_name() == name@,
            r matches Some(p) ==> p.model() == Self::name_model(name@),
    {
        proof {
            reveal(RadioTxParam::name_model);
        }
        if str_eq(name, "txBatteryLevel") {
            return Some(RadioTxParam::BatteryLevel);
        }
        if str_eq(name, "txChargingState") {
            return Some(RadioTxParam::ChargingState);
        }
        if str_eq(name, "txConnected") {
            return Some(RadioTxParam::Connected);
        }
        if str_eq(name, "txConnectionId") {
            return Some(RadioTxParam::ConnectionId);
        }
        if str_eq(name, "txDeviceSN") {
            return Some(RadioTxParam::DeviceSn);
        }
        if str_eq(name, "txDeviceType") {
            return Some(RadioTxParam::DeviceType);
        }
        if str_eq(name, "txGainAssist") {
            return Some(RadioTxParam::GainAssist);
        }
        if str_eq(name, "txPad") {
            return Some(RadioTxParam::Pad);
        }
        if str_eq(name, "txRecord") {
            return Some(RadioTxParam::Record);
        }
        if str_eq(name, "txRemoteMute") {
            return Some(RadioTxParam::RemoteMute);
        }
        if str_eq(name, "txRssi") {
            return Some(RadioTxParam::Rssi);
        }
        if str_eq(name, "txSignalQuality") {
            return Some(RadioTxParam::SignalQuality);
        }
        None
    }

    /// Check if a wire property name matches a known [`RadioTxParam`] variant without
    /// allocating.
    pub fn is_known_name(name: &str) -> (r: bool)
        ensures
            r == Self::known(name@) is Some,
    {
        Self::from_known_name(name).is_some()
    }

    /// Map a wire property name to its typed [`RadioTxParam`] variant. Unknown names map
    /// to [`RadioTxParam::Other`], so this is total (never fails).
    pub fn from_name(name: &str) -> (r: RadioTxParam)
        ensures
            match Self::known(name@) {
                Some(p) => r == p,
                None => r matches RadioTxParam::Other(s) && s@ == name@,
            },
            r.wire_name() == name@,
            r.model() == Self::name_model(name@),
    {
        proof {
            reveal(RadioTxParam::name_model);
        }
        match Self::from_known_name(name) {
            Some(p) => p,
            None => RadioTxParam::Other(name.to_owned()),
        }
    }

    /// The wire property name for this parameter (inverse of [`RadioTxParam::from_name`]).
    pub fn as_str(&self) -> (r: &str)
        ensures
            r@ == self.wire_name(),
    {
        match self {
            RadioTxParam::BatteryLevel => "txBatteryLevel",
            RadioTxParam::ChargingState => "txChargingState",
            RadioTxParam::Connected => "txConnected",
            RadioTxParam::ConnectionId => "txConnectionId",
            RadioTxParam::DeviceSn => "txDeviceSN",
            RadioTxParam::DeviceType => "txDeviceType",
            RadioTxParam::GainAssist => "txGainAssist",
            RadioTxParam::Pad => "txPad",
            RadioTxParam::Record => "txRecord",
            RadioTxParam::RemoteMute => "txRemoteMute",
            RadioTxParam::Rssi => "txRssi",
            RadioTxParam::SignalQuality => "txSignalQuality",
            RadioTxParam::Other(s) => s.as_str(),
        }
    }

    /// The wire property name as an owned string.
    pub fn to_string(&self) -> (r: String)
        ensures
            r@ == self.wire_name(),
    {
        self.as_str().to_owned()
    }

    /// `true` if this is a typed variant (not [`RadioTxParam::Other`]).
    pub fn is_known(&self) -> (r: bool)
        ensures
            r == !(self is Other),
    {
        !matches!(self, RadioTxParam::Other(_))
    }
}

impl Clone for RadioTxParam {
    fn clone(&self) -> (r: Self)
        ensures
            r.wire_name() == self.wire_name(),
            self is Other ==> r is Other,
            !(self is Other) ==> r == *self,
    {
        match self {
            RadioTxParam::BatteryLevel => RadioTxParam::BatteryLevel,
            RadioTxParam::ChargingState => RadioTxParam::ChargingState,
            RadioTxParam::Connected => RadioTxParam::Connected,
            RadioTxParam::ConnectionId => RadioTxParam::ConnectionId,
            RadioTxParam::DeviceSn => RadioTxParam::DeviceSn,
            RadioTxParam::DeviceType => RadioTxParam::DeviceType,
            RadioTxParam::GainAssist => RadioTxParam::GainAssist,
            RadioTxParam::Pad => RadioTxParam::Pad,
            RadioTxParam::Record => RadioTxParam::Record,
            RadioTxParam::RemoteMute => RadioTxParam::RemoteMute,
            RadioTxParam::Rssi => RadioTxParam::Rssi,
            RadioTxParam::SignalQuality => RadioTxParam::SignalQuality,
            RadioTxParam::Other(s) => RadioTxParam::Other(s.clone()),
        }
    }
}

/// Every typed [`RadioTxParam`] variant is found again from its wire name.
pub proof fn lemma_radio_tx_param_name_round_trip(p: RadioTxParam)
    requires
        !(p is Other),
    ensures
        RadioTxParam::known(p.wire_name()) == Some(p),
        no_nul(p.wire_name()),
{
    reveal_strlit("txBatteryLevel");
    reveal_strlit("txChargingState");
    reveal_strlit("txConnected");
    reveal_strlit("txConnectionId");
    reveal_strlit("txDeviceSN");
    reveal_strlit("txDeviceType");
    reveal_strlit("txGainAssist");
    reveal_strlit("txPad");
    reveal_strlit("txRecord");
    reveal_strlit("txRemoteMute");
    reveal_strlit("txRssi");
    reveal_strlit("txSignalQuality");
    assert("txBatteryLevel"@.len() == 14);
    assert("txChargingState"@.len() == 15);
    assert("txConnected"@.len() == 11);
    assert("txConnectionId"@.len() == 14);
    assert("txDeviceSN"@.len() == 10);
    assert("txDeviceType"@.len() == 12);
    assert("txGainAssist"@.len() == 12);
    assert("txPad"@.len() == 5);
    assert("txRecord"@.len() == 8);
    assert("txRemoteMute"@.len() == 12);
    assert("txRssi"@.len() == 6);
    assert("txSignalQuality"@.len() == 15);
    assert("txBatteryLevel"@[2] != "txConnectionId"@[2]);
    assert("txChargingState"@[2] != "txSignalQuality"@[2]);
    assert("txDeviceType"@[2] != "txGainAssist"@[2]);
    assert("txDeviceType"@[2] != "txRemoteMute"@[2]);
    assert("txGainAssist"@[2] != "txRemoteMute"@[2]);
}

/// A per-receiver wireless-radio parameter: the one flat property on
/// each `RADIORX` node. `RadioId` identifies which receiver this is.
#[derive(Debug, PartialEq, Eq, Hash)]
#[non_exhaustive]
pub enum RadioRxParam {
    RadioId,
    /// A property without a typed [`RadioRxParam`] identifier yet. Holds the raw wire
    /// name; the value still rides in the carrying event/command.
    Other(String),
}

impl RadioRxParam {
    /// The wire property name.
    pub open spec fn wire_name(self) -> Seq<char> {
        match self {
            RadioRxParam::RadioId => "rxRadioId"@,
            RadioRxParam::Other(s) => s@,
        }
    }

    /// The typed variant a wire name denotes, if any.
    pub open spec fn known(name: Seq<char>) -> Option<RadioRxParam> {
        if name == "rxRadioId"@ {
            Some(RadioRxParam::RadioId)
        } else {
            None
        }
    }

    /// The parameter as events report it: its wire name, and whether it is a
    /// typed variant.
    pub open spec fn model(self) -> ParamModel {
        ParamModel { name: self.wire_name(), typed: !(self is Other) }
    }

    /// The parameter a wire name decodes to, as events report it: the name,
    /// typed exactly when a typed variant carries it.
    #[verifier::opaque]
    pub open spec fn name_model(name: Seq<char>) -> ParamModel {
        ParamModel { name, typed: Self::known(name) is Some }
    }

    /// Map a wire property name to its typed [`RadioRxParam`] variant if known, without
    /// allocating.
    pub fn from_known_name(name: &str) -> (r: Option<RadioRxParam>)
        ensures
            r == Self::known(name@),
            r matches Some(p) ==> p.wire_name() == name@,
            r matches Some(p) ==> p.model() == Self::name_model(name@),
    {
        proof {
            reveal(RadioRxParam::name_model);
        }
        if str_eq(name, "rxRadioId") {
            return Some(RadioRxParam::RadioId);
        }
        None
    }

    /// Check if a wire property name matches a known [`RadioRxParam`] variant without
    /// allocating.
    pub fn is_known_name(name: &str) -> (r: bool)
        ensures
            r == Self::known(name@) is Some,
    {
        Self::from_known_name(name).is_some()
    }

    /// Map a wire property name to its typed [`RadioRxParam`] variant. Unknown names map
    /// to [`RadioRxParam::Other`], so this is total (never fails).
    pub fn from_name(name: &str) -> (r: RadioRxParam)
        ensures
            match Self::known(name@) {
                Some(p) => r == p,
                None => r matches RadioRxParam::Other(s) && s@ == name@,
            },
            r.wire_name() == name@,
            r.model() == Self::name_model(name@),
    {
        proof {
            reveal(RadioRxParam::name_model);
        }
        match Self::from_known_name(name) {
            Some(p) => p,
            None => RadioRxParam::Other(name.to_owned()),
        }
    }

    /// The wire property name for this parameter (inverse of [`RadioRxParam::from_name`]).
    pub fn as_str(&self) -> (r: &str)
        ensures
            r@ == self.wire_name(),
    {
        match self {
            RadioRxParam::RadioId => "rxRadioId",
            RadioRxParam::Other(s) => s.as_str(),
        }
    }

    /// The wire property name as an owned string.
    pub fn to_string(&self) -> (r: String)
        ensures
            r@ == self.wire_name(),
    {
        self.as_str().to_owned()
    }

    /// `true` if this is a typed variant (not [`RadioRxParam::Other`]).
    pub fn is_known(&self) -> (r: bool)
        ensures
            r == !(self is Other),
    {
        !matches!(self, RadioRxParam::Other(_))
    }
}

impl Clone for RadioRxParam {
    fn clone(&self) -> (r: Self)
        ensures
            r.wire_name() == self.wire_name(),
            self is Other ==> r is Other,
            !(self is Other) ==> r == *self,
    {
        match self {
            RadioRxParam::RadioId => RadioRxParam::RadioId,
            RadioRxParam::Other(s) => RadioRxParam::Other(s.clone()),
        }
    }
}

/// Every typed [`RadioRxParam`] variant is found again from its wire name.
pub proof fn lemma_radio_rx_param_name_round_trip(p: RadioRxParam)
    requires
        !(p is Other),
    ensures
        RadioRxParam::known(p.wire_name()) == Some(p),
        no_nul(p.wire_name()),
{
    reveal_strlit("rxRadioId");
    assert("rxRadioId"@.len() == 9);
}

} // verus!
