//! [`NetworkParam`]: the singleton `NETWORK`-node parameter family.

use vstd::prelude::*;

use crate::names::ParamModel;
use crate::text::{no_nul, str_eq};

verus! {

/// A device-wide networking parameter: one of the flat properties the
/// device carries on the singleton `NETWORK` node. Covers Bluetooth
/// (visibility, scan trigger, pairing, connection state, ten scan
/// result slots, five paired-device memory slots), cellular data
/// (APN, IP config, USB modem presence), wired IP (gateway, DNS,
/// static-IP toggle), WiFi (SSID, PSK, IP config, ten scan result
/// slots, DHCP), and the wired-Ethernet connected flag. Un-typed
/// properties fall back to `NetworkParam::Other` for forward-compat.
#[derive(Debug, PartialEq, Eq, Hash)]
#[non_exhaustive]
pub enum NetworkParam {
    BtVisible,
    BtDoScan,
    BtDoPair,
    BtDoUnPair,
    BtDoConnect,
    BtDoDisconnect,
    BtPairCode,
    BtConnectedAddress,
    BtConnectedType,
    BtPairedNumber1,
    BtPairedNumber2,
    BtPairedNumber3,
    BtPairedNumber4,
    BtPairedNumber5,
    BtScan1,
    BtScan2,
    BtScan3,
    BtScan4,
    BtScan5,
    BtScan6,
    BtScan7,
    BtScan8,
    BtScan9,
    BtScan10,
    CellApn,
    CellEnabled,
    CellGateway,
    CellIpAddress,
    CellSubnetMask,
    CellUsbFound,
    Gateway,
    IpAddress,
    PrimaryDns,
    SecondaryDns,
    StaticIpSet,
    SubnetMask,
    WiredConnected,
    Wifi,
    WifiDhcp,
    WifiGateway,
    WifiIncorrectPsk,
    WifiIpAddress,
    WifiPsk,
    WifiSsid,
    WifiSubnetMask,
    WifiScan,
    WifiScan1,
    WifiScan2,
    WifiScan3,
    WifiScan4,
    WifiScan5,
    WifiScan6,
    WifiScan7,
    WifiScan8,
    WifiScan9,
    WifiScan10,
    /// A property without a typed [`NetworkParam`] identifier yet. Holds the raw wire
    /// name; the value still rides in the carrying event/command.
    Other(String),
}

impl NetworkParam {
    /// The wire property name.
    pub open spec fn wire_name(self) -> Seq<char> {
        match self {
            NetworkParam::BtVisible => "btVisible"@,
            NetworkParam::BtDoScan => "btDoScan"@,
            NetworkParam::BtDoPair => "btDoPair"@,
            NetworkParam::BtDoUnPair => "btDoUnPair"@,
            NetworkParam::BtDoConnect => "btDoConnect"@,
            NetworkParam::BtDoDisconnect => "btDoDisconnect"@,
            NetworkParam::BtPairCode => "btPairCode"@,
            NetworkParam::BtConnectedAddress => "btConnectedAddress"@,
            NetworkParam::BtConnectedType => "btConnectedType"@,
            NetworkParam::BtPairedNumber1 => "btPairedNumber1"@,
            NetworkParam::BtPairedNumber2 => "btPairedNumber2"@,
            NetworkParam::BtPairedNumber3 => "btPairedNumber3"@,
            NetworkParam::BtPairedNumber4 => "btPairedNumber4"@,
            NetworkParam::BtPairedNumber5 => "btPairedNumber5"@,
            NetworkParam::BtScan1 => "btScan1"@,
            NetworkParam::BtScan2 => "btScan2"@,
            NetworkParam::BtScan3 => "btScan3"@,
            NetworkParam::BtScan4 => "btScan4"@,
            NetworkParam::BtScan5 => "btScan5"@,
            NetworkParam::BtScan6 => "btScan6"@,
            NetworkParam::BtScan7 => "btScan7"@,
            NetworkParam::BtScan8 => "btScan8"@,
            NetworkParam::BtScan9 => "btScan9"@,
            NetworkParam::BtScan10 => "btScan10"@,
            NetworkParam::CellApn => "cellAPN"@,
            NetworkParam::CellEnabled => "cellEnabled"@,
            NetworkParam::CellGateway => "cellGateway"@,
            NetworkParam::CellIpAddress => "cellIpAddress"@,
            NetworkParam::CellSubnetMask => "cellSubnetMask"@,
            NetworkParam::CellUsbFound => "cellUSBFound"@,
            NetworkParam::Gateway => "gateway"@,
            NetworkParam::IpAddress => "ipAddress"@,
            NetworkParam::PrimaryDns => "primaryDns"@,
            NetworkParam::SecondaryDns => "secondaryDns"@,
            NetworkParam::StaticIpSet => "staticIpSet"@,
            NetworkParam::SubnetMask => "subnetMask"@,
            NetworkParam::WiredConnected => "wiredConnected"@,
            NetworkParam::Wifi => "wifi"@,
            NetworkParam::WifiDhcp => "wifiDHCP"@,
            NetworkParam::WifiGateway => "wifiGateway"@,
            NetworkParam::WifiIncorrectPsk => "wifiIncorrectPSK"@,
            NetworkParam::WifiIpAddress => "wifiIpAddress"@,
            NetworkParam::WifiPsk => "wifiPSK"@,
            NetworkParam::WifiSsid => "wifiSSID"@,
            NetworkParam::WifiSubnetMask => "wifiSubnetMask"@,
            NetworkParam::WifiScan => "wifiScan"@,
            NetworkParam::WifiScan1 => "wifiScan1"@,
            NetworkParam::WifiScan2 => "wifiScan2"@,
            NetworkParam::WifiScan3 => "wifiScan3"@,
            NetworkParam::WifiScan4 => "wifiScan4"@,
            NetworkParam::WifiScan5 => "wifiScan5"@,
            NetworkParam::WifiScan6 => "wifiScan6"@,
            NetworkParam::WifiScan7 => "wifiScan7"@,
            NetworkParam::WifiScan8 => "wifiScan8"@,
            NetworkParam::WifiScan9 => "wifiScan9"@,
            NetworkParam::WifiScan10 => "wifiScan10"@,
            NetworkParam::Other(s) => s@,
        }
    }

    /// The typed variant a wire name denotes, if any.
    pub open spec fn known(name: Seq<char>) -> Option<NetworkParam> {
        if name == "btVisible"@ {
            Some(NetworkParam::BtVisible)
        } else if name == "btDoScan"@ {
            Some(NetworkParam::BtDoScan)
        } else if name == "btDoPair"@ {
            Some(NetworkParam::BtDoPair)
        } else if name == "btDoUnPair"@ {
            Some(NetworkParam::BtDoUnPair)
        } else if name == "btDoConnect"@ {
            Some(NetworkParam::BtDoConnect)
        } else if name == "btDoDisconnect"@ {
            Some(NetworkParam::BtDoDisconnect)
        } else if name == "btPairCode"@ {
            Some(NetworkParam::BtPairCode)
        } else if name == "btConnectedAddress"@ {
            Some(NetworkParam::BtConnectedAddress)
        } else if name == "btConnectedType"@ {
            Some(NetworkParam::BtConnectedType)
        } else if name == "btPairedNumber1"@ {
            Some(NetworkParam::BtPairedNumber1)
        } else if name == "btPairedNumber2"@ {
            Some(NetworkParam::BtPairedNumber2)
        } else if name == "btPairedNumber3"@ {
            Some(NetworkParam::BtPairedNumber3)
        } else if name == "btPairedNumber4"@ {
            Some(NetworkParam::BtPairedNumber4)
        } else if name == "btPairedNumber5"@ {
            Some(NetworkParam::BtPairedNumber5)
        } else if name == "btScan1"@ {
            Some(NetworkParam::BtScan1)
        } else if name == "btScan2"@ {
            Some(NetworkParam::BtScan2)
        } else if name == "btScan3"@ {
            Some(NetworkParam::BtScan3)
        } else if name == "btScan4"@ {
            Some(NetworkParam::BtScan4)
        } else if name == "btScan5"@ {
            Some(NetworkParam::BtScan5)
        } else if name == "btScan6"@ {
            Some(NetworkParam::BtScan6)
        } else if name == "btScan7"@ {
            Some(NetworkParam::BtScan7)
        } else if name == "btScan8"@ {
            Some(NetworkParam::BtScan8)
        } else if name == "btScan9"@ {
            Some(NetworkParam::BtScan9)
        } else if name == "btScan10"@ {
            Some(NetworkParam::BtScan10)
        } else if name == "cellAPN"@ {
            Some(NetworkParam::CellApn)
        } else if name == "cellEnabled"@ {
            Some(NetworkParam::CellEnabled)
        } else if name == "cellGateway"@ {
            Some(NetworkParam::CellGateway)
        } else if name == "cellIpAddress"@ {
            Some(NetworkParam::CellIpAddress)
        } else if name == "cellSubnetMask"@ {
            Some(NetworkParam::CellSubnetMask)
        } else if name == "cellUSBFound"@ {
            Some(NetworkParam::CellUsbFound)
        } else if name == "gateway"@ {
            Some(NetworkParam::Gateway)
        } else if name == "ipAddress"@ {
            Some(NetworkParam::IpAddress)
        } else if name == "primaryDns"@ {
            Some(NetworkParam::PrimaryDns)
        } else if name == "secondaryDns"@ {
            Some(NetworkParam::SecondaryDns)
        } else if name == "staticIpSet"@ {
            Some(NetworkParam::StaticIpSet)
        } else if name == "subnetMask"@ {
            Some(NetworkParam::SubnetMask)
        } else if name == "wiredConnected"@ {
            Some(NetworkParam::WiredConnected)
        } else if name == "wifi"@ {
            Some(NetworkParam::Wifi)
        } else if name == "wifiDHCP"@ {
            Some(NetworkParam::WifiDhcp)
        } else if name == "wifiGateway"@ {
            Some(NetworkParam::WifiGateway)
        } else if name == "wifiIncorrectPSK"@ {
            Some(NetworkParam::WifiIncorrectPsk)
        } else if name == "wifiIpAddress"@ {
            Some(NetworkParam::WifiIpAddress)
        } else if name == "wifiPSK"@ {
            Some(NetworkParam::WifiPsk)
        } else if name == "wifiSSID"@ {
            Some(NetworkParam::WifiSsid)
        } else if name == "wifiSubnetMask"@ {
            Some(NetworkParam::WifiSubnetMask)
        } else if name == "wifiScan"@ {
            Some(NetworkParam::WifiScan)
        } else if name == "wifiScan1"@ {
            Some(NetworkParam::WifiScan1)
        } else if name == "wifiScan2"@ {
            Some(NetworkParam::WifiScan2)
        } else if name == "wifiScan3"@ {
            Some(NetworkParam::WifiScan3)
        } else if name == "wifiScan4"@ {
            Some(NetworkParam::WifiScan4)
        } else if name == "wifiScan5"@ {
            Some(NetworkParam::WifiScan5)
        } else if name == "wifiScan6"@ {
            Some(NetworkParam::WifiScan6)
        } else if name == "wifiScan7"@ {
            Some(NetworkParam::WifiScan7)
        } else if name == "wifiScan8"@ {
            Some(NetworkParam::WifiScan8)
        } else if name == "wifiScan9"@ {
            Some(NetworkParam::WifiScan9)
        } else if name == "wifiScan10"@ {
            Some(NetworkParam::WifiScan10)
        } else {
            None
        }
    }

    /// The parameter as events report it: its wire name, and whether it is a
    /// typed variant.
    pub open spec fn model(self) -> ParamModel {
        ParamModel { name: self.wire_name(), typed: !(self is Other) }
    }

    /// The parameter a wire name decodes to, as events report it: the name,
    /// typed exactly when a typed variant carries it.
    #[verifier::opaque]
    pub open spec fn name_model(name: Seq<char>) -> ParamModel {
        ParamModel { name, typed: Self::known(name) is Some }
    }

    /// Map a wire property name to its typed [`NetworkParam`] variant if known, without
    /// allocating.
    pub fn from_known_name(name: &str) -> (r: Option<NetworkParam>)
        ensures
            r == Self::known(name@),
            r matches Some(p) ==> p.wire_name() == name@,
            r matches Some(p) ==> p.model() == Self::name_model(name@),
    {
        proof {
            reveal(NetworkParam::name_model);
        }
        if str_eq(name, "btVisible") {
            return Some(NetworkParam::BtVisible);
        }
        if str_eq(name, "btDoScan") {
            return Some(NetworkParam::BtDoScan);
        }
        if str_eq(name, "btDoPair") {
            return Some(NetworkParam::BtDoPair);
        }
        if str_eq(name, "btDoUnPair") {
            return Some(NetworkParam::BtDoUnPair);
        }
        if str_eq(name, "btDoConnect") {
            return Some(NetworkParam::BtDoConnect);
        }
        if str_eq(name, "btDoDisconnect") {
            return Some(NetworkParam::BtDoDisconnect);
        }
        if str_eq(name, "btPairCode") {
            return Some(NetworkParam::BtPairCode);
        }
        if str_eq(name, "btConnectedAddress") {
            return Some(NetworkParam::BtConnectedAddress);
        }
        if str_eq(name, "btConnectedType") {
            return Some(NetworkParam::BtConnectedType);
        }
        if str_eq(name, "btPairedNumber1") {
            return Some(NetworkParam::BtPairedNumber1);
        }
        if str_eq(name, "btPairedNumber2") {
            return Some(NetworkParam::BtPairedNumber2);
        }
        if str_eq(name, "btPairedNumber3") {
            return Some(NetworkParam::BtPairedNumber3);
        }
        if str_eq(name, "btPairedNumber4") {
            return Some(NetworkParam::BtPairedNumber4);
        }
        if str_eq(name, "btPairedNumber5") {
            return Some(NetworkParam::BtPairedNumber5);
        }
        if str_eq(name, "btScan1") {
            return Some(NetworkParam::BtScan1);
        }
        if str_eq(name, "btScan2") {
            return Some(NetworkParam::BtScan2);
        }
        if str_eq(name, "btScan3") {
            return Some(NetworkParam::BtScan3);
        }
        if str_eq(name, "btScan4") {
            return Some(NetworkParam::BtScan4);
        }
        if str_eq(name, "btScan5") {
            return Some(NetworkParam::BtScan5);
        }
        if str_eq(name, "btScan6") {
            return Some(NetworkParam::BtScan6);
        }
        if str_eq(name, "btScan7") {
            return Some(NetworkParam::BtScan7);
        }
        if str_eq(name, "btScan8") {
            return Some(NetworkParam::BtScan8);
        }
        if str_eq(name, "btScan9") {
            return Some(NetworkParam::BtScan9);
        }
        if str_eq(name, "btScan10") {
            return Some(NetworkParam::BtScan10);
        }
        if str_eq(name, "cellAPN") {
            return Some(NetworkParam::CellApn);
        }
        if str_eq(name, "cellEnabled") {
            return Some(NetworkParam::CellEnabled);
        }
        if str_eq(name, "cellGateway") {
            return Some(NetworkParam::CellGateway);
        }
        if str_eq(name, "cellIpAddress") {
            return Some(NetworkParam::CellIpAddress);
        }
        if str_eq(name, "cellSubnetMask") {
            return Some(NetworkParam::CellSubnetMask);
        }
        if str_eq(name, "cellUSBFound") {
            return Some(NetworkParam::CellUsbFound);
        }
        if str_eq(name, "gateway") {
            return Some(NetworkParam::Gateway);
        }
        if str_eq(name, "ipAddress") {
            return Some(NetworkParam::IpAddress);
        }
        if str_eq(name, "primaryDns") {
            return Some(NetworkParam::PrimaryDns);
        }
        if str_eq(name, "secondaryDns") {
            return Some(NetworkParam::SecondaryDns);
        }
        if str_eq(name, "staticIpSet") {
            return Some(NetworkParam::StaticIpSet);
        }
        if str_eq(name, "subnetMask") {
            return Some(NetworkParam::SubnetMask);
        }
        if str_eq(name, "wiredConnected") {
            return Some(NetworkParam::WiredConnected);
        }
        if str_eq(name, "wifi") {
            return Some(NetworkParam::Wifi);
        }
        if str_eq(name, "wifiDHCP") {
            return Some(NetworkParam::WifiDhcp);
        }
        if str_eq(name, "wifiGateway") {
            return Some(NetworkParam::WifiGateway);
        }
        if str_eq(name, "wifiIncorrectPSK") {
            return Some(NetworkParam::WifiIncorrectPsk);
        }
        if str_eq(name, "wifiIpAddress") {
            return Some(NetworkParam::WifiIpAddress);
        }
        if str_eq(name, "wifiPSK") {
            return Some(NetworkParam::WifiPsk);
        }
        if str_eq(name, "wifiSSID") {
            return Some(NetworkParam::WifiSsid);
        }
        if str_eq(name, "wifiSubnetMask") {
            return Some(NetworkParam::WifiSubnetMask);
        }
        if str_eq(name, "wifiScan") {
            return Some(NetworkParam::WifiScan);
        }
        if str_eq(name, "wifiScan1") {
            return Some(NetworkParam::WifiScan1);
        }
        if str_eq(name, "wifiScan2") {
            return Some(NetworkParam::WifiScan2);
        }
        if str_eq(name, "wifiScan3") {
            return Some(NetworkParam::WifiScan3);
        }
        if str_eq(name, "wifiScan4") {
            return Some(NetworkParam::WifiScan4);
        }
        if str_eq(name, "wifiScan5") {
            return Some(NetworkParam::WifiScan5);
        }
        if str_eq(name, "wifiScan6") {
            return Some(NetworkParam::WifiScan6);
        }
        if str_eq(name, "wifiScan7") {
            return Some(NetworkParam::WifiScan7);
        }
        if str_eq(name, "wifiScan8") {
            return Some(NetworkParam::WifiScan8);
        }
        if str_eq(name, "wifiScan9") {
            return Some(NetworkParam::WifiScan9);
        }
        if str_eq(name, "wifiScan10") {
            return Some(NetworkParam::WifiScan10);
        }
        None
    }

    /// Check if a wire property name matches a known [`NetworkParam`] variant without
    /// allocating.
    pub fn is_known_name(name: &str) -> (r: bool)
        ensures
            r == Self::known(name@) is Some,
    {
        Self::from_known_name(name).is_some()
    }

    /// Map a wire property name to its typed [`NetworkParam`] variant. Unknown names map
    /// to [`NetworkParam::Other`], so this is total (never fails).
    pub fn from_name(name: &str) -> (r: NetworkParam)
        ensures
            match Self::known(name@) {
                Some(p) => r == p,
                None => r matches NetworkParam::Other(s) && s@ == name@,
            },
            r.wire_name() == name@,
            r.model() == Self::name_model(name@),
    {
        proof {
            reveal(NetworkParam::name_model);
        }
        match Self::from_known_name(name) {
            Some(p) => p,
            None => NetworkParam::Other(name.to_owned()),
        }
    }

    /// The wire property name for this parameter (inverse of [`NetworkParam::from_name`]).
    pub fn as_str(&self) -> (r: &str)
        ensures
            r@ == self.wire_name(),
    {
        match self {
            NetworkParam::BtVisible => "btVisible",
            NetworkParam::BtDoScan => "btDoScan",
            NetworkParam::BtDoPair => "btDoPair",
            NetworkParam::BtDoUnPair => "btDoUnPair",
            NetworkParam::BtDoConnect => "btDoConnect",
            NetworkParam::BtDoDisconnect => "btDoDisconnect",
            NetworkParam::BtPairCode => "btPairCode",
            NetworkParam::BtConnectedAddress => "btConnectedAddress",
            NetworkParam::BtConnectedType => "btConnectedType",
            NetworkParam::BtPairedNumber1 => "btPairedNumber1",
            NetworkParam::BtPairedNumber2 => "btPairedNumber2",
            NetworkParam::BtPairedNumber3 => "btPairedNumber3",
            NetworkParam::BtPairedNumber4 => "btPairedNumber4",
            NetworkParam::BtPairedNumber5 => "btPairedNumber5",
            NetworkParam::BtScan1 => "btScan1",
            NetworkParam::BtScan2 => "btScan2",
            NetworkParam::BtScan3 => "btScan3",
            NetworkParam::BtScan4 => "btScan4",
            NetworkParam::BtScan5 => "btScan5",
            NetworkParam::BtScan6 => "btScan6",
            NetworkParam::BtScan7 => "btScan7",
            NetworkParam::BtScan8 => "btScan8",
            NetworkParam::BtScan9 => "btScan9",
            NetworkParam::BtScan10 => "btScan10",
            NetworkParam::CellApn => "cellAPN",
            NetworkParam::CellEnabled => "cellEnabled",
            NetworkParam::CellGateway => "cellGateway",
            NetworkParam::CellIpAddress => "cellIpAddress",
            NetworkParam::CellSubnetMask => "cellSubnetMask",
            NetworkParam::CellUsbFound => "cellUSBFound",
            NetworkParam::Gateway => "gateway",
            NetworkParam::IpAddress => "ipAddress",
            NetworkParam::PrimaryDns => "primaryDns",
            NetworkParam::SecondaryDns => "secondaryDns",
            NetworkParam::StaticIpSet => "staticIpSet",
            NetworkParam::SubnetMask => "subnetMask",
            NetworkParam::WiredConnected => "wiredConnected",
            NetworkParam::Wifi => "wifi",
            NetworkParam::WifiDhcp => "wifiDHCP",
            NetworkParam::WifiGateway => "wifiGateway",
            NetworkParam::WifiIncorrectPsk => "wifiIncorrectPSK",
            NetworkParam::WifiIpAddress => "wifiIpAddress",
            NetworkParam::WifiPsk => "wifiPSK",
            NetworkParam::WifiSsid => "wifiSSID",
            NetworkParam::WifiSubnetMask => "wifiSubnetMask",
            NetworkParam::WifiScan => "wifiScan",
            NetworkParam::WifiScan1 => "wifiScan1",
            NetworkParam::WifiScan2 => "wifiScan2",
            NetworkParam::WifiScan3 => "wifiScan3",
            NetworkParam::WifiScan4 => "wifiScan4",
            NetworkParam::WifiScan5 => "wifiScan5",
            NetworkParam::WifiScan6 => "wifiScan6",
            NetworkParam::WifiScan7 => "wifiScan7",
            NetworkParam::WifiScan8 => "wifiScan8",
            NetworkParam::WifiScan9 => "wifiScan9",
            NetworkParam::WifiScan10 => "wifiScan10",
            NetworkParam::Other(s) => s.as_str(),
        }
    }

    /// The wire property name as an owned string.
    pub fn to_string(&self) -> (r: String)
        ensures
            r@ == self.wire_name(),
    {
        self.as_str().to_owned()
    }

    /// `true` if this is a typed variant (not [`NetworkParam::Other`]).
    pub fn is_known(&self) -> (r: bool)
        ensures
            r == !(self is Other),
    {
        !matches!(self, NetworkParam::Other(_))
    }
}

impl Clone for NetworkParam {
    fn clone(&self) -> (r: Self)
        ensures
            r.wire_name() == self.wire_name(),
            self is Other ==> r is Other,
            !(self is Other) ==> r == *self,
    {
        match self {
            NetworkParam::BtVisible => NetworkParam::BtVisible,
            NetworkParam::BtDoScan => NetworkParam::BtDoScan,
            NetworkParam::BtDoPair => NetworkParam::BtDoPair,
            NetworkParam::BtDoUnPair => NetworkParam::BtDoUnPair,
            NetworkParam::BtDoConnect => NetworkParam::BtDoConnect,
            NetworkParam::BtDoDisconnect => NetworkParam::BtDoDisconnect,
            NetworkParam::BtPairCode => NetworkParam::BtPairCode,
            NetworkParam::BtConnectedAddress => NetworkParam::BtConnectedAddress,
            NetworkParam::BtConnectedType => NetworkParam::BtConnectedType,
            NetworkParam::BtPairedNumber1 => NetworkParam::BtPairedNumber1,
            NetworkParam::BtPairedNumber2 => NetworkParam::BtPairedNumber2,
            NetworkParam::BtPairedNumber3 => NetworkParam::BtPairedNumber3,
            NetworkParam::BtPairedNumber4 => NetworkParam::BtPairedNumber4,
            NetworkParam::BtPairedNumber5 => NetworkParam::BtPairedNumber5,
            NetworkParam::BtScan1 => NetworkParam::BtScan1,
            NetworkParam::BtScan2 => NetworkParam::BtScan2,
            NetworkParam::BtScan3 => NetworkParam::BtScan3,
            NetworkParam::BtScan4 => NetworkParam::BtScan4,
            NetworkParam::BtScan5 => NetworkParam::BtScan5,
            NetworkParam::BtScan6 => NetworkParam::BtScan6,
            NetworkParam::BtScan7 => NetworkParam::BtScan7,
            NetworkParam::BtScan8 => NetworkParam::BtScan8,
            NetworkParam::BtScan9 => NetworkParam::BtScan9,
            NetworkParam::BtScan10 => NetworkParam::BtScan10,
            NetworkParam::CellApn => NetworkParam::CellApn,
            NetworkParam::CellEnabled => NetworkParam::CellEnabled,
            NetworkParam::CellGateway => NetworkParam::CellGateway,
            NetworkParam::CellIpAddress => NetworkParam::CellIpAddress,
            NetworkParam::CellSubnetMask => NetworkParam::CellSubnetMask,
            NetworkParam::CellUsbFound => NetworkParam::CellUsbFound,
            NetworkParam::Gateway => NetworkParam::Gateway,
            NetworkParam::IpAddress => NetworkParam::IpAddress,
            NetworkParam::PrimaryDns => NetworkParam::PrimaryDns,
            NetworkParam::SecondaryDns => NetworkParam::SecondaryDns,
            NetworkParam::StaticIpSet => NetworkParam::StaticIpSet,
            NetworkParam::SubnetMask => NetworkParam::SubnetMask,
            NetworkParam::WiredConnected => NetworkParam::WiredConnected,
            NetworkParam::Wifi => NetworkParam::Wifi,
            NetworkParam::WifiDhcp => NetworkParam::WifiDhcp,
            NetworkParam::WifiGateway => NetworkParam::WifiGateway,
            NetworkParam::WifiIncorrectPsk => NetworkParam::WifiIncorrectPsk,
            NetworkParam::WifiIpAddress => NetworkParam::WifiIpAddress,
            NetworkParam::WifiPsk => NetworkParam::WifiPsk,
            NetworkParam::WifiSsid => NetworkParam::WifiSsid,
            NetworkParam::WifiSubnetMask => NetworkParam::WifiSubnetMask,
            NetworkParam::WifiScan => NetworkParam::WifiScan,
            NetworkParam::WifiScan1 => NetworkParam::WifiScan1,
            NetworkParam::WifiScan2 => NetworkParam::WifiScan2,
            NetworkParam::WifiScan3 => NetworkParam::WifiScan3,
            NetworkParam::WifiScan4 => NetworkParam::WifiScan4,
            NetworkParam::WifiScan5 => NetworkParam::WifiScan5,
            NetworkParam::WifiScan6 => NetworkParam::WifiScan6,
            NetworkParam::WifiScan7 => NetworkParam::WifiScan7,
            NetworkParam::WifiScan8 => NetworkParam::WifiScan8,
            NetworkParam::WifiScan9 => NetworkParam::WifiScan9,
            NetworkParam::WifiScan10 => NetworkParam::WifiScan10,
            NetworkParam::Other(s) => NetworkParam::Other(s.clone()),
        }
    }
}

/// Every typed [`NetworkParam`] variant is found again from its wire name.
pub proof fn lemma_network_param_name_round_trip(p: NetworkParam)
    requires
        !(p is Other),
    ensures
        NetworkParam::known(p.wire_name()) == Some(p),
        no_nul(p.wire_name()),
{
    reveal_strlit("btVisible");
    reveal_strlit("btDoScan");
    reveal_strlit("btDoPair");
    reveal_strlit("btDoUnPair");
    reveal_strlit("btDoConnect");
    reveal_strlit("btDoDisconnect");
    reveal_strlit("btPairCode");
    reveal_strlit("btConnectedAddress");
    reveal_strlit("btConnectedType");
    reveal_strlit("btPairedNumber1");
    reveal_strlit("btPairedNumber2");
    reveal_strlit("btPairedNumber3");
    reveal_strlit("btPairedNumber4");
    reveal_strlit("btPairedNumber5");
    reveal_strlit("btScan1");
    reveal_strlit("btScan2");
    reveal_strlit("btScan3");
    reveal_strlit("btScan4");
    reveal_strlit("btScan5");
    reveal_strlit("btScan6");
    reveal_strlit("btScan7");
    reveal_strlit("btScan8");
    reveal_strlit("btScan9");
    reveal_strlit("btScan10");
    reveal_strlit("cellAPN");
    reveal_strlit("cellEnabled");
    reveal_strlit("cellGateway");
    reveal_strlit("cellIpAddress");
    reveal_strlit("cellSubnetMask");
    reveal_strlit("cellUSBFound");
    reveal_strlit("gateway");
    reveal_strlit("ipAddress");
    reveal_strlit("primaryDns");
    reveal_strlit("secondaryDns");
    reveal_strlit("staticIpSet");
    reveal_strlit("subnetMask");
    reveal_strlit("wiredConnected");
    reveal_strlit("wifi");
    reveal_strlit("wifiDHCP");
    reveal_strlit("wifiGateway");
    reveal_strlit("wifiIncorrectPSK");
    reveal_strlit("wifiIpAddress");
    reveal_strlit("wifiPSK");
    reveal_strlit("wifiSSID");
    reveal_strlit("wifiSubnetMask");
    reveal_strlit("wifiScan");
    reveal_strlit("wifiScan1");
    reveal_strlit("wifiScan2");
    reveal_strlit("wifiScan3");
    reveal_strlit("wifiScan4");
    reveal_strlit("wifiScan5");
    reveal_strlit("wifiScan6");
    reveal_strlit("wifiScan7");
    reveal_strlit("wifiScan8");
    reveal_strlit("wifiScan9");
    reveal_strlit("wifiScan10");
    assert("btVisible"@.len() == 9);
    assert("btDoScan"@.len() == 8);
    assert("btDoPair"@.len() == 8);
    assert("btDoUnPair"@.len() == 10);
    assert("btDoConnect"@.len() == 11);
    assert("btDoDisconnect"@.len() == 14);
    assert("btPairCode"@.len() == 10);
    assert("btConnectedAddress"@.len() == 18);
    assert("btConnectedType"@.len() == 15);
    assert("btPairedNumber1"@.len() == 15);
    assert("btPairedNumber2"@.len() == 15);
    assert("btPairedNumber3"@.len() == 15);
    assert("btPairedNumber4"@.len() == 15);
    assert("btPairedNumber5"@.len() == 15);
    assert("btScan1"@.len() == 7);
    assert("btScan2"@.len() == 7);
    assert("btScan3"@.len() == 7);
    assert("btScan4"@.len() == 7);
    assert("btScan5"@.len() == 7);
    assert("btScan6"@.len() == 7);
    assert("btScan7"@.len() == 7);
    assert("btScan8"@.len() == 7);
    assert("btScan9"@.len() == 7);
    assert("btScan10"@.len() == 8);
    assert("cellAPN"@.len() == 7);
    assert("cellEnabled"@.len() == 11);
    assert("cellGateway"@.len() == 11);
    assert("cellIpAddress"@.len() == 13);
    assert("cellSubnetMask"@.len() == 14);
    assert("cellUSBFound"@.len() == 12);
    assert("gateway"@.len() == 7);
    assert("ipAddress"@.len() == 9);
    assert("primaryDns"@.len() == 10);
    assert("secondaryDns"@.len() == 12);
    assert("staticIpSet"@.len() == 11);
    assert("subnetMask"@.len() == 10);
    assert("wiredConnected"@.len() == 14);
    assert("wifi"@.len() == 4);
    assert("wifiDHCP"@.len() == 8);
    assert("wifiGateway"@.len() == 11);
    assert("wifiIncorrectPSK"@.len() == 16);
    assert("wifiIpAddress"@.len() == 13);
    assert("wifiPSK"@.len() == 7);
    assert("wifiSSID"@.len() == 8);
    assert("wifiSubnetMask"@.len() == 14);
    assert("wifiScan"@.len() == 8);
    assert("wifiScan1"@.len() == 9);
    assert("wifiScan2"@.len() == 9);
    assert("wifiScan3"@.len() == 9);
    assert("wifiScan4"@.len() == 9);
    assert("wifiScan5"@.len() == 9);
    assert("wifiScan6"@.len() == 9);
    assert("wifiScan7"@.len() == 9);
    assert("wifiScan8"@.len() == 9);
    assert("wifiScan9"@.len() == 9);
    assert("wifiScan10"@.len() == 10);
    assert("btVisible"@[0] != "ipAddress"@[0]);
    assert("btVisible"@[0] != "wifiScan1"@[0]);
    assert("btVisible"@[0] != "wifiScan2"@[0]);
    assert("btVisible"@[0] != "wifiScan3"@[0]);
    assert("btVisible"@[0] != "wifiScan4"@[0]);
    assert("btVisible"@[0] != "wifiScan5"@[0]);
    assert("btVisible"@[0] != "wifiScan6"@[0]);
    assert("btVisible"@[0] != "wifiScan7"@[0]);
    assert("btVisible"@[0] != "wifiScan8"@[0]);
    assert("btVisible"@[0] != "wifiScan9"@[0]);
    assert("btDoScan"@[4] != "btDoPair"@[4]);
    assert("btDoScan"@[2] != "btScan10"@[2]);
    assert("btDoScan"@[0] != "wifiDHCP"@[0]);
    assert("btDoScan"@[0] != "wifiSSID"@[0]);
    assert("btDoScan"@[0] != "wifiScan"@[0]);
    assert("btDoPair"@[2] != "btScan10"@[2]);
    assert("btDoPair"@[0] != "wifiDHCP"@[0]);
    assert("btDoPair"@[0] != "wifiSSID"@[0]);
    assert("btDoPair"@[0] != "wifiScan"@[0]);
    assert("btDoUnPair"@[2] != "btPairCode"@[2]);
    assert("btDoUnPair"@[0] != "primaryDns"@[0]);
    assert("btDoUnPair"@[0] != "subnetMask"@[0]);
    assert("btDoUnPair"@[0] != "wifiScan10"@[0]);
    assert("btDoConnect"@[0] != "cellEnabled"@[0]);
    assert("btDoConnect"@[0] != "cellGateway"@[0]);
    assert("btDoConnect"@[0] != "staticIpSet"@[0]);
    assert("btDoConnect"@[0] != "wifiGateway"@[0]);
    assert("btDoDisconnect"@[0] != "cellSubnetMask"@[0]);
    assert("btDoDisconnect"@[0] != "wiredConnected"@[0]);
    assert("btDoDisconnect"@[0] != "wifiSubnetMask"@[0]);
    assert("btPairCode"@[0] != "primaryDns"@[0]);
    assert("btPairCode"@[0] != "subnetMask"@[0]);
    assert("btPairCode"@[0] != "wifiScan10"@[0]);
    assert("btConnectedType"@[2] != "btPairedNumber1"@[2]);
    assert("btConnectedType"@[2] != "btPairedNumber2"@[2]);
    assert("btConnectedType"@[2] != "btPairedNumber3"@[2]);
    assert("btConnectedType"@[2] != "btPairedNumber4"@[2]);
    assert("btConnectedType"@[2] != "btPairedNumber5"@[2]);
    assert("btPairedNumber1"@[14] != "btPairedNumber2"@[14]);
    assert("btPairedNumber1"@[14] != "btPairedNumber3"@[14]);
    assert("btPairedNumber1"@[14] != "btPairedNumber4"@[14]);
    assert("btPairedNumber1"@[14] != "btPairedNumber5"@[14]);
    assert("btPairedNumber2"@[14] != "btPairedNumber3"@[14]);
    assert("btPairedNumber2"@[14] != "btPairedNumber4"@[14]);
    assert("btPairedNumber2"@[14] != "btPairedNumber5"@[14]);
    assert("btPairedNumber3"@[14] != "btPairedNumber4"@[14]);
    assert("btPairedNumber3"@[14] != "btPairedNumber5"@[14]);
    assert("btPairedNumber4"@[14] != "btPairedNumber5"@[14]);
    assert("btScan1"@[6] != "btScan2"@[6]);
    assert("btScan1"@[6] != "btScan3"@[6]);
    assert("btScan1"@[6] != "btScan4"@[6]);
    assert("btScan1"@[6] != "btScan5"@[6]);
    assert("btScan1"@[6] != "btScan6"@[6]);
    assert("btScan1"@[6] != "btScan7"@[6]);
    assert("btScan1"@[6] != "btScan8"@[6]);
    assert("btScan1"@[6] != "btScan9"@[6]);
    assert("btScan1"@[0] != "cellAPN"@[0]);
    assert("btScan1"@[0] != "gateway"@[0]);
    assert("btScan1"@[0] != "wifiPSK"@[0]);
    assert("btScan2"@[6] != "btScan3"@[6]);
    assert("btScan2"@[6] != "btScan4"@[6]);
    assert("btScan2"@[6] != "btScan5"@[6]);
    assert("btScan2"@[6] != "btScan6"@[6]);
    assert("btScan2"@[6] != "btScan7"@[6]);
    assert("btScan2"@[6] != "btScan8"@[6]);
    assert("btScan2"@[6] != "btScan9"@[6]);
    assert("btScan2"@[0] != "cellAPN"@[0]);
    assert("btScan2"@[0] != "gateway"@[0]);
    assert("btScan2"@[0] != "wifiPSK"@[0]);
    assert("btScan3"@[6] != "btScan4"@[6]);
    assert("btScan3"@[6] != "btScan5"@[6]);
    assert("btScan3"@[6] != "btScan6"@[6]);
    assert("btScan3"@[6] != "btScan7"@[6]);
    assert("btScan3"@[6] != "btScan8"@[6]);
    assert("btScan3"@[6] != "btScan9"@[6]);
    assert("btScan3"@[0] != "cellAPN"@[0]);
    assert("btScan3"@[0] != "gateway"@[0]);
    assert("btScan3"@[0] != "wifiPSK"@[0]);
    assert("btScan4"@[6] != "btScan5"@[6]);
    assert("btScan4"@[6] != "btScan6"@[6]);
    assert("btScan4"@[6] != "btScan7"@[6]);
    assert("btScan4"@[6] != "btScan8"@[6]);
    assert("btScan4"@[6] != "btScan9"@[6]);
    assert("btScan4"@[0] != "cellAPN"@[0]);
    assert("btScan4"@[0] != "gateway"@[0]);
    assert("btScan4"@[0] != "wifiPSK"@[0]);
    assert("btScan5"@[6] != "btScan6"@[6]);
    assert("btScan5"@[6] != "btScan7"@[6]);
    assert("btScan5"@[6] != "btScan8"@[6]);
    assert("btScan5"@[6] != "btScan9"@[6]);
    assert("btScan5"@[0] != "cellAPN"@[0]);
    assert("btScan5"@[0] != "gateway"@[0]);
    assert("btScan5"@[0] != "wifiPSK"@[0]);
    assert("btScan6"@[6] != "btScan7"@[6]);
    assert("btScan6"@[6] != "btScan8"@[6]);
    assert("btScan6"@[6] != "btScan9"@[6]);
    assert("btScan6"@[0] != "cellAPN"@[0]);
    assert("btScan6"@[0] != "gateway"@[0]);
    assert("btScan6"@[0] != "wifiPSK"@[0]);
    assert("btScan7"@[6] != "btScan8"@[6]);
    assert("btScan7"@[6] != "btScan9"@[6]);
    assert("btScan7"@[0] != "cellAPN"@[0]);
    assert("btScan7"@[0] != "gateway"@[0]);
    assert("btScan7"@[0] != "wifiPSK"@[0]);
    assert("btScan8"@[6] != "btScan9"@[6]);
    assert("btScan8"@[0] != "cellAPN"@[0]);
    assert("btScan8"@[0] != "gateway"@[0]);
    assert("btScan8"@[0] != "wifiPSK"@[0]);
    assert("btScan9"@[0] != "cellAPN"@[0]);
    assert("btScan9"@[0] != "gateway"@[0]);
    assert("btScan9"@[0] != "wifiPSK"@[0]);
    assert("btScan10"@[0] != "wifiDHCP"@[0]);
    assert("btScan10"@[0] != "wifiSSID"@[0]);
    assert("btScan10"@[0] != "wifiScan"@[0]);
    assert("cellAPN"@[0] != "gateway"@[0]);
    assert("cellAPN"@[0] != "wifiPSK"@[0]);
    assert("cellEnabled"@[4] != "cellGateway"@[4]);
    assert("cellEnabled"@[0] != "staticIpSet"@[0]);
    assert("cellEnabled"@[0] != "wifiGateway"@[0]);
    assert("cellGateway"@[0] != "staticIpSet"@[0]);
    assert("cellGateway"@[0] != "wifiGateway"@[0]);
    assert("cellIpAddress"@[0] != "wifiIpAddress"@[0]);
    assert("cellSubnetMask"@[0] != "wiredConnected"@[0]);
    assert("cellSubnetMask"@[0] != "wifiSubnetMask"@[0]);
    assert("cellUSBFound"@[0] != "secondaryDns"@[0]);
    assert("gateway"@[0] != "wifiPSK"@[0]);
    assert("ipAddress"@[0] != "wifiScan1"@[0]);
    assert("ipAddress"@[0] != "wifiScan2"@[0]);
    assert("ipAddress"@[0] != "wifiScan3"@[0]);
    assert("ipAddress"@[0] != "wifiScan4"@[0]);
    assert("ipAddress"@[0] != "wifiScan5"@[0]);
    assert("ipAddress"@[0] != "wifiScan6"@[0]);
    assert("ipAddress"@[0] != "wifiScan7"@[0]);
    assert("ipAddress"@[0] != "wifiScan8"@[0]);
    assert("ipAddress"@[0] != "wifiScan9"@[0]);
    assert("primaryDns"@[0] != "subnetMask"@[0]);
    assert("primaryDns"@[0] != "wifiScan10"@[0]);
    assert("staticIpSet"@[0] != "wifiGateway"@[0]);
    assert("subnetMask"@[0] != "wifiScan10"@[0]);
    assert("wiredConnected"@[2] != "wifiSubnetMask"@[2]);
    assert("wifiDHCP"@[4] != "wifiSSID"@[4]);
    assert("wifiDHCP"@[4] != "wifiScan"@[4]);
    assert("wifiSSID"@[5] != "wifiScan"@[5]);
    assert("wifiScan1"@[8] != "wifiScan2"@[8]);
    assert("wifiScan1"@[8] != "wifiScan3"@[8]);
    assert("wifiScan1"@[8] != "wifiScan4"@[8]);
    assert("wifiScan1"@[8] != "wifiScan5"@[8]);
    assert("wifiScan1"@[8] != "wifiScan6"@[8]);
    assert("wifiScan1"@[8] != "wifiScan7"@[8]);
    assert("wifiScan1"@[8] != "wifiScan8"@[8]);
    assert("wifiScan1"@[8] != "wifiScan9"@[8]);
    assert("wifiScan2"@[8] != "wifiScan3"@[8]);
    assert("wifiScan2"@[8] != "wifiScan4"@[8]);
    assert("wifiScan2"@[8] != "wifiScan5"@[8]);
    assert("wifiScan2"@[8] != "wifiScan6"@[8]);
    assert("wifiScan2"@[8] != "wifiScan7"@[8]);
    assert("wifiScan2"@[8] != "wifiScan8"@[8]);
    assert("wifiScan2"@[8] != "wifiScan9"@[8]);
    assert("wifiScan3"@[8] != "wifiScan4"@[8]);
    assert("wifiScan3"@[8] != "wifiScan5"@[8]);
    assert("wifiScan3"@[8] != "wifiScan6"@[8]);
    assert("wifiScan3"@[8] != "wifiScan7"@[8]);
    assert("wifiScan3"@[8] != "wifiScan8"@[8]);
    assert("wifiScan3"@[8] != "wifiScan9"@[8]);
    assert("wifiScan4"@[8] != "wifiScan5"@[8]);
    assert("wifiScan4"@[8] != "wifiScan6"@[8]);
    assert("wifiScan4"@[8] != "wifiScan7"@[8]);
    assert("wifiScan4"@[8] != "wifiScan8"@[8]);
    assert("wifiScan4"@[8] != "wifiScan9"@[8]);
    assert("wifiScan5"@[8] != "wifiScan6"@[8]);
    assert("wifiScan5"@[8] != "wifiScan7"@[8]);
    assert("wifiScan5"@[8] != "wifiScan8"@[8]);
    assert("wifiScan5"@[8] != "wifiScan9"@[8]);
    assert("wifiScan6"@[8] != "wifiScan7"@[8]);
    assert("wifiScan6"@[8] != "wifiScan8"@[8]);
    assert("wifiScan6"@[8] != "wifiScan9"@[8]);
    assert("wifiScan7"@[8] != "wifiScan8"@[8]);
    assert("wifiScan7"@[8] != "wifiScan9"@[8]);
    assert("wifiScan8"@[8] != "wifiScan9"@[8]);
}

} // verus!
