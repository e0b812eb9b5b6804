//! SIP subsystem parameter families: [`SipCallingParam`],
//! [`SipRegistrationParam`], [`SipCallSlotsParam`], [`SipAdvancedParam`].
//!
//! Empirically measured on Duo fw 1.7.3 (2026-07-01) via CLI raw-write fuzzing:
//! every SIPADVANCED property accepts writes and persists them across
//! `refresh`. Registration-relevant writes trigger a
//! `sipRegistrationIsRegistered` echo as a device-side re-check. Statistical
//! properties on SIPCALLSLOTS (`sipSlotCallQuality`, `sipSlotCallJitter`,
//! `sipSlotCallBitrate`, `sipSlotCallPacketLoss`) are device-managed
//! read-back only.

use vstd::prelude::*;

use crate::names::ParamModel;
use crate::text::{no_nul, str_eq};

verus! {

/// A SIP calling-level parameter: one of the fourteen flat properties the
/// device carries on the singleton `SIPCALLING` node. Combines settings
/// (`HostingEnabled` / `HostingToggleEnabled` / `LicenceMode` /
/// `LicenceCheck`), device-managed read-back (`RodeCode` — the invite
/// code; rotates on hosting toggle), incoming/outgoing call setup
/// channels (JSON-ish strings), the pending-slot selector, subscription
/// remaining-time meters, and the post-call rating write channel.
#[derive(Debug, PartialEq, Eq, Hash)]
#[non_exhaustive]
pub enum SipCallingParam {
    HostingEnabled,
    HostingToggleEnabled,
    LicenceMode,
    LicenceCheck,
    RodeCode,
    IncomingCallAccept,
    IncomingCallDetails,
    OutgoingCallDetails,
    SlotPendingCallSetup,
    RemainingCalltime,
    RemainingWebCalltime,
    RenewalDate,
    LicenceRenewal,
    CallRating,
    /// A property without a typed [`SipCallingParam`] identifier yet. Holds the raw wire
    /// name; the value still rides in the carrying event/command.
    Other(String),
}

impl SipCallingParam {
    /// The wire property name.
    pub open spec fn wire_name(self) -> Seq<char> {
        match self {
            SipCallingParam::HostingEnabled => "sipCallHostingEnabled"@,
            SipCallingParam::HostingToggleEnabled => "sipCallHostingToggleEnabled"@,
            SipCallingParam::LicenceMode => "sipLicenceMode"@,
            SipCallingParam::LicenceCheck => "sipLicenceCheck"@,
            SipCallingParam::RodeCode => "sipRodeCode"@,
            SipCallingParam::IncomingCallAccept => "sipIncomingCallAccept"@,
            SipCallingParam::IncomingCallDetails => "sipIncomingCallDetails"@,
            SipCallingParam::OutgoingCallDetails => "sipOutgoingCallDetails"@,
            SipCallingParam::SlotPendingCallSetup => "sipSlotPendingCallSetup"@,
            SipCallingParam::RemainingCalltime => "sipRemainingCalltime"@,
            SipCallingParam::RemainingWebCalltime => "sipRemainingWebCalltime"@,
            SipCallingParam::RenewalDate => "sipRenewalDate"@,
            SipCallingParam::LicenceRenewal => "sipLicenceRenewal"@,
            SipCallingParam::CallRating => "sipCallRating"@,
            SipCallingParam::Other(s) => s@,
        }
    }

    /// The typed variant a wire name denotes, if any.
    pub open spec fn known(name: Seq<char>) -> Option<SipCallingParam> {
        if name == "sipCallHostingEnabled"@ {
            Some(SipCallingParam::HostingEnabled)
        } else if name == "sipCallHostingToggleEnabled"@ {
            Some(SipCallingParam::HostingToggleEnabled)
        } else if name == "sipLicenceMode"@ {
            Some(SipCallingParam::LicenceMode)
        } else if name == "sipLicenceCheck"@ {
            Some(SipCallingParam::LicenceCheck)
        } else if name == "sipRodeCode"@ {
            Some(SipCallingParam::RodeCode)
        } else if name == "sipIncomingCallAccept"@ {
            Some(SipCallingParam::IncomingCallAccept)
        } else if name == "sipIncomingCallDetails"@ {
            Some(SipCallingParam::IncomingCallDetails)
        } else if name == "sipOutgoingCallDetails"@ {
            Some(SipCallingParam::OutgoingCallDetails)
        } else if name == "sipSlotPendingCallSetup"@ {
            Some(SipCallingParam::SlotPendingCallSetup)
        } else if name == "sipRemainingCalltime"@ {
            Some(SipCallingParam::RemainingCalltime)
        } else if name == "sipRemainingWebCalltime"@ {
            Some(SipCallingParam::RemainingWebCalltime)
        } else if name == "sipRenewalDate"@ {
            Some(SipCallingParam::RenewalDate)
        } else if name == "sipLicenceRenewal"@ {
            Some(SipCallingParam::LicenceRenewal)
        } else if name == "sipCallRating"@ {
            Some(SipCallingParam::CallRating)
        } else {
            None
        }
    }

    /// The parameter as events report it: its wire name, and whether it is a
    /// typed variant.
    pub open spec fn model(self) -> ParamModel {
        ParamModel { name: self.wire_name(), typed: !(self is Other) }
    }

    /// The parameter a wire name decodes to, as events report it: the name,
    /// typed exactly when a typed variant carries it.
    #[verifier::opaque]
    pub open spec fn name_model(name: Seq<char>) -> ParamModel {
        ParamModel { name, typed: Self::known(name) is Some }
    }

    /// Map a wire property name to its typed [`SipCallingParam`] variant if known, without
    /// allocating.
    pub fn from_known_name(name: &str) -> (r: Option<SipCallingParam>)
        ensures
            r == Self::known(name@),
            r matches Some(p) ==> p.wire_name() == name@,
            r matches Some(p) ==> p.model() == Self::name_model(name@),
    {
        proof {
            reveal(SipCallingParam::name_model);
        }
        if str_eq(name, "sipCallHostingEnabled") {
            return Some(SipCallingParam::HostingEnabled);
        }
        if str_eq(name, "sipCallHostingToggleEnabled") {
            return Some(SipCallingParam::HostingToggleEnabled);
        }
        if str_eq(name, "sipLicenceMode") {
            return Some(SipCallingParam::LicenceMode);
        }
        if str_eq(name, "sipLicenceCheck") {
            return Some(SipCallingParam::LicenceCheck);
        }
        if str_eq(name, "sipRodeCode") {
            return Some(SipCallingParam::RodeCode);
        }
        if str_eq(name, "sipIncomingCallAccept") {
            return Some(SipCallingParam::IncomingCallAccept);
        }
        if str_eq(name, "sipIncomingCallDetails") {
            return Some(SipCallingParam::IncomingCallDetails);
        }
        if str_eq(name, "sipOutgoingCallDetails") {
            return Some(SipCallingParam::OutgoingCallDetails);
        }
        if str_eq(name, "sipSlotPendingCallSetup") {
            return Some(SipCallingParam::SlotPendingCallSetup);
        }
        if str_eq(name, "sipRemainingCalltime") {
            return Some(SipCallingParam::RemainingCalltime);
        }
        if str_eq(name, "sipRemainingWebCalltime") {
            return Some(SipCallingParam::RemainingWebCalltime);
        }
        if str_eq(name, "sipRenewalDate") {
            return Some(SipCallingParam::RenewalDate);
        }
        if str_eq(name, "sipLicenceRenewal") {
            return Some(SipCallingParam::LicenceRenewal);
        }
        if str_eq(name, "sipCallRating") {
            return Some(SipCallingParam::CallRating);
        }
        None
    }

    /// Check if a wire property name matches a known [`SipCallingParam`] variant without
    /// allocating.
    pub fn is_known_name(name: &str) -> (r: bool)
        ensures
            r == Self::known(name@) is Some,
    {
        Self::from_known_name(name).is_some()
    }

    /// Map a wire property name to its typed [`SipCallingParam`] variant. Unknown names map
    /// to [`SipCallingParam::Other`], so this is total (never fails).
    pub fn from_name(name: &str) -> (r: SipCallingParam)
        ensures
            match Self::known(name@) {
                Some(p) => r == p,
                None => r matches SipCallingParam::Other(s) && s@ == name@,
            },
            r.wire_name() == name@,
            r.model() == Self::name_model(name@),
    {
        proof {
            reveal(SipCallingParam::name_model);
        }
        match Self::from_known_name(name) {
            Some(p) => p,
            None => SipCallingParam::Other(name.to_owned()),
        }
    }

    /// The wire property name for this parameter (inverse of [`SipCallingParam::from_name`]).
    pub fn as_str(&self) -> (r: &str)
        ensures
            r@ == self.wire_name(),
    {
        match self {
            SipCallingParam::HostingEnabled => "sipCallHostingEnabled",
            SipCallingParam::HostingToggleEnabled => "sipCallHostingToggleEnabled",
            SipCallingParam::LicenceMode => "sipLicenceMode",
            SipCallingParam::LicenceCheck => "sipLicenceCheck",
            SipCallingParam::RodeCode => "sipRodeCode",
            SipCallingParam::IncomingCallAccept => "sipIncomingCallAccept",
            SipCallingParam::IncomingCallDetails => "sipIncomingCallDetails",
            SipCallingParam::OutgoingCallDetails => "sipOutgoingCallDetails",
            SipCallingParam::SlotPendingCallSetup => "sipSlotPendingCallSetup",
            SipCallingParam::RemainingCalltime => "sipRemainingCalltime",
            SipCallingParam::RemainingWebCalltime => "sipRemainingWebCalltime",
            SipCallingParam::RenewalDate => "sipRenewalDate",
            SipCallingParam::LicenceRenewal => "sipLicenceRenewal",
            SipCallingParam::CallRating => "sipCallRating",
            SipCallingParam::Other(s) => s.as_str(),
        }
    }

    /// The wire property name as an owned string.
    pub fn to_string(&self) -> (r: String)
        ensures
            r@ == self.wire_name(),
    {
        self.as_str().to_owned()
    }

    /// `true` if this is a typed variant (not [`SipCallingParam::Other`]).
    pub fn is_known(&self) -> (r: bool)
        ensures
            r == !(self is Other),
    {
        !matches!(self, SipCallingParam::Other(_))
    }
}

impl Clone for SipCallingParam {
    fn clone(&self) -> (r: Self)
        ensures
            r.wire_name() == self.wire_name(),
            self is Other ==> r is Other,
            !(self is Other) ==> r == *self,
    {
        match self {
            SipCallingParam::HostingEnabled => SipCallingParam::HostingEnabled,
            SipCallingParam::HostingToggleEnabled => SipCallingParam::HostingToggleEnabled,
            SipCallingParam::LicenceMode => SipCallingParam::LicenceMode,
            SipCallingParam::LicenceCheck => SipCallingParam::LicenceCheck,
            SipCallingParam::RodeCode => SipCallingParam::RodeCode,
            SipCallingParam::IncomingCallAccept => SipCallingParam::IncomingCallAccept,
            SipCallingParam::IncomingCallDetails => SipCallingParam::IncomingCallDetails,
            SipCallingParam::OutgoingCallDetails => SipCallingParam::OutgoingCallDetails,
            SipCallingParam::SlotPendingCallSetup => SipCallingParam::SlotPendingCallSetup,
            SipCallingParam::RemainingCalltime => SipCallingParam::RemainingCalltime,
            SipCallingParam::RemainingWebCalltime => SipCallingParam::RemainingWebCalltime,
            SipCallingParam::RenewalDate => SipCallingParam::RenewalDate,
            SipCallingParam::LicenceRenewal => SipCallingParam::LicenceRenewal,
            SipCallingParam::CallRating => SipCallingParam::CallRating,
            SipCallingParam::Other(s) => SipCallingParam::Other(s.clone()),
        }
    }
}

/// Every typed [`SipCallingParam`] variant is found again from its wire name.
pub proof fn lemma_sip_calling_param_name_round_trip(p: SipCallingParam)
    requires
        !(p is Other),
    ensures
        SipCallingParam::known(p.wire_name()) == Some(p),
        no_nul(p.wire_name()),
{
    reveal_strlit("sipCallHostingEnabled");
    reveal_strlit("sipCallHostingToggleEnabled");
    reveal_strlit("sipLicenceMode");
    reveal_strlit("sipLicenceCheck");
    reveal_strlit("sipRodeCode");
    reveal_strlit("sipIncomingCallAccept");
    reveal_strlit("sipIncomingCallDetails");
    reveal_strlit("sipOutgoingCallDetails");
    reveal_strlit("sipSlotPendingCallSetup");
    reveal_strlit("sipRemainingCalltime");
    reveal_strlit("sipRemainingWebCalltime");
    reveal_strlit("sipRenewalDate");
    reveal_strlit("sipLicenceRenewal");
    reveal_strlit("sipCallRating");
    assert("sipCallHostingEnabled"@.len() == 21);
    assert("sipCallHostingToggleEnabled"@.len() == 27);
    assert("sipLicenceMode"@.len() == 14);
    assert("sipLicenceCheck"@.len() == 15);
    assert("sipRodeCode"@.len() == 11);
    assert("sipIncomingCallAccept"@.len() == 21);
    assert("sipIncomingCallDetails"@.len() == 22);
    assert("sipOutgoingCallDetails"@.len() == 22);
    assert("sipSlotPendingCallSetup"@.len() == 23);
    assert("sipRemainingCalltime"@.len() == 20);
    assert("sipRemainingWebCalltime"@.len() == 23);
    assert("sipRenewalDate"@.len() == 14);
    assert("sipLicenceRenewal"@.len() == 17);
    assert("sipCallRating"@.len() == 13);
    assert("sipCallHostingEnabled"@[3] != "sipIncomingCallAccept"@[3]);
    assert("sipLicenceMode"@[3] != "sipRenewalDate"@[3]);
    assert("sipIncomingCallDetails"@[3] != "sipOutgoingCallDetails"@[3]);
    assert("sipSlotPendingCallSetup"@[3] != "sipRemainingWebCalltime"@[3]);
}

/// A per-registration SIP parameter: one of the three flat properties the
/// device carries on each `SIPREGISTRATION` child under `SIPCALLING`.
/// `Index` selects which registration slot; `Details` is the account
/// registration payload; `IsRegistered` is the device-side registered
/// flag (read-back — echoes whenever the SIP subsystem re-checks
/// registration, including as a side effect of writes to SIPADVANCED
/// account fields).
#[derive(Debug, PartialEq, Eq, Hash)]
#[non_exhaustive]
pub enum SipRegistrationParam {
    Index,
    Details,
    IsRegistered,
    /// A property without a typed [`SipRegistrationParam`] identifier yet. Holds the raw wire
    /// name; the value still rides in the carrying event/command.
    Other(String),
}

impl SipRegistrationParam {
    /// The wire property name.
    pub open spec fn wire_name(self) -> Seq<char> {
        match self {
            SipRegistrationParam::Index => "sipRegistrationIndex"@,
            SipRegistrationParam::Details => "sipRegistrationDetails"@,
            SipRegistrationParam::IsRegistered => "sipRegistrationIsRegistered"@,
            SipRegistrationParam::Other(s) => s@,
        }
    }

    /// The typed variant a wire name denotes, if any.
    pub open spec fn known(name: Seq<char>) -> Option<SipRegistrationParam> {
        if name == "sipRegistrationIndex"@ {
            Some(SipRegistrationParam::Index)
        } else if name == "sipRegistrationDetails"@ {
            Some(SipRegistrationParam::Details)
        } else if name == "sipRegistrationIsRegistered"@ {
            Some(SipRegistrationParam::IsRegistered)
        } else {
            None
        }
    }

    /// The parameter as events report it: its wire name, and whether it is a
    /// typed variant.
    pub open spec fn model(self) -> ParamModel {
        ParamModel { name: self.wire_name(), typed: !(self is Other) }
    }

    /// The parameter a wire name decodes to, as events report it: the name,
    /// typed exactly when a typed variant carries it.
    #[verifier::opaque]
    pub open spec fn name_model(name: Seq<char>) -> ParamModel {
        ParamModel { name, typed: Self::known(name) is Some }
    }

    /// Map a wire property name to its typed [`SipRegistrationParam`] variant if known, without
    /// allocating.
    pub fn from_known_name(name: &str) -> (r: Option<SipRegistrationParam>)
        ensures
            r == Self::known(name@),
            r matches Some(p) ==> p.wire_name() == name@,
            r matches Some(p) ==> p.model() == Self::name_model(name@),
    {
        proof {
            reveal(SipRegistrationParam::name_model);
        }
        if str_eq(name, "sipRegistrationIndex") {
            return Some(SipRegistrationParam::Index);
        }
        if str_eq(name, "sipRegistrationDetails") {
            return Some(SipRegistrationParam::Details);
        }
        if str_eq(name, "sipRegistrationIsRegistered") {
            return Some(SipRegistrationParam::IsRegistered);
        }
        None
    }

    /// Check if a wire property name matches a known [`SipRegistrationParam`] variant without
    /// allocating.
    pub fn is_known_name(name: &str) -> (r: bool)
        ensures
            r == Self::known(name@) is Some,
    {
        Self::from_known_name(name).is_some()
    }

    /// Map a wire property name to its typed [`SipRegistrationParam`] variant. Unknown names map
    /// to [`SipRegistrationParam::Other`], so this is total (never fails).
    pub fn from_name(name: &str) -> (r: SipRegistrationParam)
        ensures
            match Self::known(name@) {
                Some(p) => r == p,
                None => r matches SipRegistrationParam::Other(s) && s@ == name@,
            },
            r.wire_name() == name@,
            r.model() == Self::name_model(name@),
    {
        proof {
            reveal(SipRegistrationParam::name_model);
        }
        match Self::from_known_name(name) {
            Some(p) => p,
            None => SipRegistrationParam::Other(name.to_owned()),
        }
    }

    /// The wire property name for this parameter (inverse of [`SipRegistrationParam::from_name`]).
    pub fn as_str(&self) -> (r: &str)
        ensures
            r@ == self.wire_name(),
    {
        match self {
            SipRegistrationParam::Index => "sipRegistrationIndex",
            SipRegistrationParam::Details => "sipRegistrationDetails",
            SipRegistrationParam::IsRegistered => "sipRegistrationIsRegistered",
            SipRegistrationParam::Other(s) => s.as_str(),
        }
    }

    /// The wire property name as an owned string.
    pub fn to_string(&self) -> (r: String)
        ensures
            r@ == self.wire_name(),
    {
        self.as_str().to_owned()
    }

    /// `true` if this is a typed variant (not [`SipRegistrationParam::Other`]).
    pub fn is_known(&self) -> (r: bool)
        ensures
            r == !(self is Other),
    {
        !matches!(self, SipRegistrationParam::Other(_))
    }
}

impl Clone for SipRegistrationParam {
    fn clone(&self) -> (r: Self)
        ensures
            r.wire_name() == self.wire_name(),
            self is Other ==> r is Other,
            !(self is Other) ==> r == *self,
    {
        match self {
            SipRegistrationParam::Index => SipRegistrationParam::Index,
            SipRegistrationParam::Details => SipRegistrationParam::Details,
            SipRegistrationParam::IsRegistered => SipRegistrationParam::IsRegistered,
            SipRegistrationParam::Other(s) => SipRegistrationParam::Other(s.clone()),
        }
    }
}

/// Every typed [`SipRegistrationParam`] variant is found again from its wire name.
pub proof fn lemma_sip_registration_param_name_round_trip(p: SipRegistrationParam)
    requires
        !(p is Other),
    ensures
        SipRegistrationParam::known(p.wire_name()) == Some(p),
        no_nul(p.wire_name()),
{
    reveal_strlit("sipRegistrationIndex");
    reveal_strlit("sipRegistrationDetails");
    reveal_strlit("sipRegistrationIsRegistered");
    assert("sipRegistrationIndex"@.len() == 20);
    assert("sipRegistrationDetails"@.len() == 22);
    assert("sipRegistrationIsRegistered"@.len() == 27);
}

/// A per-slot SIP call parameter: one of the twelve flat properties the
/// device carries on each `SIPCALLSLOTS` node (three consecutive slots
/// at root). Statistics (`Quality`, `Jitter`, `Bitrate`, `PacketLoss`)
/// are device-managed. `Disconnect` is a `Binary` command channel
/// (same request-pulse pattern as `mixLinkRequest`); `Extend` is a
/// bool command. Identity/state fields (`SlotId`, `State`, `UUID`,
/// `Address`, `IsHost`, `Mode`) reflect the call's current status.
#[derive(Debug, PartialEq, Eq, Hash)]
#[non_exhaustive]
pub enum SipCallSlotsParam {
    SlotId,
    State,
    Uuid,
    Address,
    Quality,
    Jitter,
    Bitrate,
    PacketLoss,
    Disconnect,
    Extend,
    IsHost,
    Mode,
    /// A property without a typed [`SipCallSlotsParam`] identifier yet. Holds the raw wire
    /// name; the value still rides in the carrying event/command.
    Other(String),
}

impl SipCallSlotsParam {
    /// The wire property name.
    pub open spec fn wire_name(self) -> Seq<char> {
        match self {
            SipCallSlotsParam::SlotId => "sipCallSlotId"@,
            SipCallSlotsParam::State => "sipSlotCallState"@,
            SipCallSlotsParam::Uuid => "sipSlotCallUUID"@,
            SipCallSlotsParam::Address => "sipSlotCallAddress"@,
            SipCallSlotsParam::Quality => "sipSlotCallQuality"@,
            SipCallSlotsParam::Jitter => "sipSlotCallJitter"@,
            SipCallSlotsParam::Bitrate => "sipSlotCallBitrate"@,
            SipCallSlotsParam::PacketLoss => "sipSlotCallPacketLoss"@,
            SipCallSlotsParam::Disconnect => "sipSlotCallDisconnect"@,
            SipCallSlotsParam::Extend => "sipSlotCallExtend"@,
            SipCallSlotsParam::IsHost => "sipSlotCallIsHost"@,
            SipCallSlotsParam::Mode => "sipSlotCallMode"@,
            SipCallSlotsParam::Other(s) => s@,
        }
    }

    /// The typed variant a wire name denotes, if any.
    pub open spec fn known(name: Seq<char>) -> Option<SipCallSlotsParam> {
        if name == "sipCallSlotId"@ {
            Some(SipCallSlotsParam::SlotId)
        } else if name == "sipSlotCallState"@ {
            Some(SipCallSlotsParam::State)
        } else if name == "sipSlotCallUUID"@ {
            Some(SipCallSlotsParam::Uuid)
        } else if name == "sipSlotCallAddress"@ {
            Some(SipCallSlotsParam::Address)
        } else if name == "sipSlotCallQuality"@ {
            Some(SipCallSlotsParam::Quality)
        } else if name == "sipSlotCallJitter"@ {
            Some(SipCallSlotsParam::Jitter)
        } else if name == "sipSlotCallBitrate"@ {
            Some(SipCallSlotsParam::Bitrate)
        } else if name == "sipSlotCallPacketLoss"@ {
            Some(SipCallSlotsParam::PacketLoss)
        } else if name == "sipSlotCallDisconnect"@ {
            Some(SipCallSlotsParam::Disconnect)
        } else if name == "sipSlotCallExtend"@ {
            Some(SipCallSlotsParam::Extend)
        } else if name == "sipSlotCallIsHost"@ {
            Some(SipCallSlotsParam::IsHost)
        } else if name == "sipSlotCallMode"@ {
            Some(SipCallSlotsParam::Mode)
        } else {
            None
        }
    }

    /// The parameter as events report it: its wire name, and whether it is a
    /// typed variant.
    pub open spec fn model(self) -> ParamModel {
        ParamModel { name: self.wire_name(), typed: !(self is Other) }
    }

    /// The parameter a wire name decodes to, as events report it: the name,
    /// typed exactly when a typed variant carries it.
    #[verifier::opaque]
    pub open spec fn name_model(name: Seq<char>) -> ParamModel {
        ParamModel { name, typed: Self::known(name) is Some }
    }

    /// Map a wire property name to its typed [`SipCallSlotsParam`] variant if known, without
    /// allocating.
    pub fn from_known_name(name: &str) -> (r: Option<SipCallSlotsParam>)
        ensures
            r == Self::known(name@),
            r matches Some(p) ==> p.wire_name() == name@,
            r matches Some(p) ==> p.model() == Self::name_model(name@),
    {
        proof {
            reveal(SipCallSlotsParam::name_model);
        }
        if str_eq(name, "sipCallSlotId") {
            return Some(SipCallSlotsParam::SlotId);
        }
        if str_eq(name, "sipSlotCallState") {
            return Some(SipCallSlotsParam::State);
        }
        if str_eq(name, "sipSlotCallUUID") {
            return Some(SipCallSlotsParam::Uuid);
        }
        if str_eq(name, "sipSlotCallAddress") {
            return Some(SipCallSlotsParam::Address);
        }
        if str_eq(name, "sipSlotCallQuality") {
            return Some(SipCallSlotsParam::Quality);
        }
        if str_eq(name, "sipSlotCallJitter") {
            return Some(SipCallSlotsParam::Jitter);
        }
        if str_eq(name, "sipSlotCallBitrate") {
            return Some(SipCallSlotsParam::Bitrate);
        }
        if str_eq(name, "sipSlotCallPacketLoss") {
            return Some(SipCallSlotsParam::PacketLoss);
        }
        if str_eq(name, "sipSlotCallDisconnect") {
            return Some(SipCallSlotsParam::Disconnect);
        }
        if str_eq(name, "sipSlotCallExtend") {
            return Some(SipCallSlotsParam::Extend);
        }
        if str_eq(name, "sipSlotCallIsHost") {
            return Some(SipCallSlotsParam::IsHost);
        }
        if str_eq(name, "sipSlotCallMode") {
            return Some(SipCallSlotsParam::Mode);
        }
        None
    }

    /// Check if a wire property name matches a known [`SipCallSlotsParam`] variant without
    /// allocating.
    pub fn is_known_name(name: &str) -> (r: bool)
        ensures
            r == Self::known(name@) is Some,
    {
        Self::from_known_name(name).is_some()
    }

    /// Map a wire property name to its typed [`SipCallSlotsParam`] variant. Unknown names map
    /// to [`SipCallSlotsParam::Other`], so this is total (never fails).
    pub fn from_name(name: &str) -> (r: SipCallSlotsParam)
        ensures
            match Self::known(name@) {
                Some(p) => r == p,
                None => r matches SipCallSlotsParam::Other(s) && s@ == name@,
            },
            r.wire_name() == name@,
            r.model() == Self::name_model(name@),
    {
        proof {
            reveal(SipCallSlotsParam::name_model);
        }
        match Self::from_known_name(name) {
            Some(p) => p,
            None => SipCallSlotsParam::Other(name.to_owned()),
        }
    }

    /// The wire property name for this parameter (inverse of [`SipCallSlotsParam::from_name`]).
    pub fn as_str(&self) -> (r: &str)
        ensures
            r@ == self.wire_name(),
    {
        match self {
            SipCallSlotsParam::SlotId => "sipCallSlotId",
            SipCallSlotsParam::State => "sipSlotCallState",
            SipCallSlotsParam::Uuid => "sipSlotCallUUID",
            SipCallSlotsParam::Address => "sipSlotCallAddress",
            SipCallSlotsParam::Quality => "sipSlotCallQuality",
            SipCallSlotsParam::Jitter => "sipSlotCallJitter",
            SipCallSlotsParam::Bitrate => "sipSlotCallBitrate",
            SipCallSlotsParam::PacketLoss => "sipSlotCallPacketLoss",
            SipCallSlotsParam::Disconnect => "sipSlotCallDisconnect",
            SipCallSlotsParam::Extend => "sipSlotCallExtend",
            SipCallSlotsParam::IsHost => "sipSlotCallIsHost",
            SipCallSlotsParam::Mode => "sipSlotCallMode",
            SipCallSlotsParam::Other(s) => s.as_str(),
        }
    }

    /// The wire property name as an owned string.
    pub fn to_string(&self) -> (r: String)
        ensures
            r@ == self.wire_name(),
    {
        self.as_str().to_owned()
    }

    /// `true` if this is a typed variant (not [`SipCallSlotsParam::Other`]).
    pub fn is_known(&self) -> (r: bool)
        ensures
            r == !(self is Other),
    {
        !matches!(self, SipCallSlotsParam::Other(_))
    }
}

impl Clone for SipCallSlotsParam {
    fn clone(&self) -> (r: Self)
        ensures
            r.wire_name() == self.wire_name(),
            self is Other ==> r is Other,
            !(self is Other) ==> r == *self,
    {
        match self {
            SipCallSlotsParam::SlotId => SipCallSlotsParam::SlotId,
            SipCallSlotsParam::State => SipCallSlotsParam::State,
            SipCallSlotsParam::Uuid => SipCallSlotsParam::Uuid,
            SipCallSlotsParam::Address => SipCallSlotsParam::Address,
            SipCallSlotsParam::Quality => SipCallSlotsParam::Quality,
            SipCallSlotsParam::Jitter => SipCallSlotsParam::Jitter,
            SipCallSlotsParam::Bitrate => SipCallSlotsParam::Bitrate,
            SipCallSlotsParam::PacketLoss => SipCallSlotsParam::PacketLoss,
            SipCallSlotsParam::Disconnect => SipCallSlotsParam::Disconnect,
            SipCallSlotsParam::Extend => SipCallSlotsParam::Extend,
            SipCallSlotsParam::IsHost => SipCallSlotsParam::IsHost,
            SipCallSlotsParam::Mode => SipCallSlotsParam::Mode,
            SipCallSlotsParam::Other(s) => SipCallSlotsParam::Other(s.clone()),
        }
    }
}

/// Every typed [`SipCallSlotsParam`] variant is found again from its wire name.
pub proof fn lemma_sip_call_slots_param_name_round_trip(p: SipCallSlotsParam)
    requires
        !(p is Other),
    ensures
        SipCallSlotsParam::known(p.wire_name()) == Some(p),
        no_nul(p.wire_name()),
{
    reveal_strlit("sipCallSlotId");
    reveal_strlit("sipSlotCallState");
    reveal_strlit("sipSlotCallUUID");
    reveal_strlit("sipSlotCallAddress");
    reveal_strlit("sipSlotCallQuality");
    reveal_strlit("sipSlotCallJitter");
    reveal_strlit("sipSlotCallBitrate");
    reveal_strlit("sipSlotCallPacketLoss");
    reveal_strlit("sipSlotCallDisconnect");
    reveal_strlit("sipSlotCallExtend");
    reveal_strlit("sipSlotCallIsHost");
    reveal_strlit("sipSlotCallMode");
    assert("sipCallSlotId"@.len() == 13);
    assert("sipSlotCallState"@.len() == 16);
    assert("sipSlotCallUUID"@.len() == 15);
    assert("sipSlotCallAddress"@.len() == 18);
    assert("sipSlotCallQuality"@.len() == 18);
    assert("sipSlotCallJitter"@.len() == 17);
    assert("sipSlotCallBitrate"@.len() == 18);
    assert("sipSlotCallPacketLoss"@.len() == 21);
    assert("sipSlotCallDisconnect"@.len() == 21);
    assert("sipSlotCallExtend"@.len() == 17);
    assert("sipSlotCallIsHost"@.len() == 17);
    assert("sipSlotCallMode"@.len() == 15);
    assert("sipSlotCallUUID"@[11] != "sipSlotCallMode"@[11]);
    assert("sipSlotCallAddress"@[11] != "sipSlotCallQuality"@[11]);
    assert("sipSlotCallAddress"@[11] != "sipSlotCallBitrate"@[11]);
    assert("sipSlotCallQuality"@[11] != "sipSlotCallBitrate"@[11]);
    assert("sipSlotCallJitter"@[11] != "sipSlotCallExtend"@[11]);
    assert("sipSlotCallJitter"@[11] != "sipSlotCallIsHost"@[11]);
    assert("sipSlotCallPacketLoss"@[11] != "sipSlotCallDisconnect"@[11]);
    assert("sipSlotCallExtend"@[11] != "sipSlotCallIsHost"@[11]);
}

/// A SIP advanced-settings parameter: one of the twenty-five flat
/// properties the device carries on the singleton `SIPADVANCED` node.
/// Every property in this family is empirically writable + persistent
/// on Duo fw 1.7.3 (measured 2026-07-01). Groups: codec / feature
/// flags (`ForceCodecChoice`, `EnableVideoStream`, `EnableRFCDuplication`,
/// `IncomingNameFilter`, `UsbNumberPad`, `NonHTTPSInterface`,
/// `AutoReconnect`); audio routing + DTMF (`IncomingAudioRouting`,
/// `DtmfMode`); receive jitter buffer bounds; the sipAccount* config
/// (username / password / domain / proxy / transport / auth), a NAT
/// traversal block (`sipNATTraversal*`), the unit name, and the
/// device's rodeCallQuality read-back.
///
/// Writes to registration-relevant fields (account credentials, NAT,
/// domain) trigger a `sipRegistrationIsRegistered` echo as the device
/// re-checks its registration state.
#[derive(Debug, PartialEq, Eq, Hash)]
#[non_exhaustive]
pub enum SipAdvancedParam {
    ForceCodecChoice,
    EnableVideoStream,
    EnableRFCDuplication,
    IncomingNameFilter,
    UsbNumberPad,
    NonHTTPSInterface,
    AutoReconnect,
    IncomingAudioRouting,
    DtmfMode,
    ReceiveJitterBufferMin,
    ReceiveJitterBufferMax,
    SipWebPassword,
    SipAccountRegister,
    SipAccountUsername,
    SipAccountPassword,
    SipAccountDomain,
    SipAccountProxyAddress,
    SipAccountTransport,
    SipNatTraversalMode,
    SipNatTraversalServer,
    SipNatTraversalUsername,
    SipNatTraversalPassword,
    SipUnitName,
    SipAccountAuthUsername,
    RodeCallQuality,
    /// A property without a typed [`SipAdvancedParam`] identifier yet. Holds the raw wire
    /// name; the value still rides in the carrying event/command.
    Other(String),
}

impl SipAdvancedParam {
    /// The wire property name.
    pub open spec fn wire_name(self) -> Seq<char> {
        match self {
            SipAdvancedParam::ForceCodecChoice => "forceCodecChoice"@,
            SipAdvancedParam::EnableVideoStream => "enableVideoStream"@,
            SipAdvancedParam::EnableRFCDuplication => "enableRFCDuplication"@,
            SipAdvancedParam::IncomingNameFilter => "incomingNameFilter"@,
            SipAdvancedParam::UsbNumberPad => "usbNumberPad"@,
            SipAdvancedParam::NonHTTPSInterface => "nonHTTPSInterface"@,
            SipAdvancedParam::AutoReconnect => "autoReconnect"@,
            SipAdvancedParam::IncomingAudioRouting => "incomingAudioRouting"@,
            SipAdvancedParam::DtmfMode => "dtmfMode"@,
            SipAdvancedParam::ReceiveJitterBufferMin => "receiveJitterBufferMin"@,
            SipAdvancedParam::ReceiveJitterBufferMax => "receiveJitterBufferMax"@,
            SipAdvancedParam::SipWebPassword => "sipWebPassword"@,
            SipAdvancedParam::SipAccountRegister => "sipAccountRegister"@,
            SipAdvancedParam::SipAccountUsername => "sipAccountUsername"@,
            SipAdvancedParam::SipAccountPassword => "sipAccountPassword"@,
            SipAdvancedParam::SipAccountDomain => "sipAccountDomain"@,
            SipAdvancedParam::SipAccountProxyAddress => "sipAccountProxyAddress"@,
            SipAdvancedParam::SipAccountTransport => "sipAccountTransport"@,
            SipAdvancedParam::SipNatTraversalMode => "sipNATTraversalMode"@,
            SipAdvancedParam::SipNatTraversalServer => "sipNATTraversalServer"@,
            SipAdvancedParam::SipNatTraversalUsername => "sipNATTraversalUsername"@,
            SipAdvancedParam::SipNatTraversalPassword => "sipNATTraversalPassword"@,
            SipAdvancedParam::SipUnitName => "sipUnitName"@,
            SipAdvancedParam::SipAccountAuthUsername => "sipAccountAuthUsername"@,
            SipAdvancedParam::RodeCallQuality => "rodeCallQuality"@,
            SipAdvancedParam::Other(s) => s@,
        }
    }

    /// The typed variant a wire name denotes, if any.
    pub open spec fn known(name: Seq<char>) -> Option<SipAdvancedParam> {
        if name == "forceCodecChoice"@ {
            Some(SipAdvancedParam::ForceCodecChoice)
        } else if name == "enableVideoStream"@ {
            Some(SipAdvancedParam::EnableVideoStream)
        } else if name == "enableRFCDuplication"@ {
            Some(SipAdvancedParam::EnableRFCDuplication)
        } else if name == "incomingNameFilter"@ {
            Some(SipAdvancedParam::IncomingNameFilter)
        } else if name == "usbNumberPad"@ {
            Some(SipAdvancedParam::UsbNumberPad)
        } else if name == "nonHTTPSInterface"@ {
            Some(SipAdvancedParam::NonHTTPSInterface)
        } else if name == "autoReconnect"@ {
            Some(SipAdvancedParam::AutoReconnect)
        } else if name == "incomingAudioRouting"@ {
            Some(SipAdvancedParam::IncomingAudioRouting)
        } else if name == "dtmfMode"@ {
            Some(SipAdvancedParam::DtmfMode)
        } else if name == "receiveJitterBufferMin"@ {
            Some(SipAdvancedParam::ReceiveJitterBufferMin)
        } else if name == "receiveJitterBufferMax"@ {
            Some(SipAdvancedParam::ReceiveJitterBufferMax)
        } else if name == "sipWebPassword"@ {
            Some(SipAdvancedParam::SipWebPassword)
        } else if name == "sipAccountRegister"@ {
            Some(SipAdvancedParam::SipAccountRegister)
        } else if name == "sipAccountUsername"@ {
            Some(SipAdvancedParam::SipAccountUsername)
        } else if name == "sipAccountPassword"@ {
            Some(SipAdvancedParam::SipAccountPassword)
        } else if name == "sipAccountDomain"@ {
            Some(SipAdvancedParam::SipAccountDomain)
        } else if name == "sipAccountProxyAddress"@ {
            Some(SipAdvancedParam::SipAccountProxyAddress)
        } else if name == "sipAccountTransport"@ {
            Some(SipAdvancedParam::SipAccountTransport)
        } else if name == "sipNATTraversalMode"@ {
            Some(SipAdvancedParam::SipNatTraversalMode)
        } else if name == "sipNATTraversalServer"@ {
            Some(SipAdvancedParam::SipNatTraversalServer)
        } else if name == "sipNATTraversalUsername"@ {
            Some(SipAdvancedParam::SipNatTraversalUsername)
        } else if name == "sipNATTraversalPassword"@ {
            Some(SipAdvancedParam::SipNatTraversalPassword)
        } else if name == "sipUnitName"@ {
            Some(SipAdvancedParam::SipUnitName)
        } else if name == "sipAccountAuthUsername"@ {
            Some(SipAdvancedParam::SipAccountAuthUsername)
        } else if name == "rodeCallQuality"@ {
            Some(SipAdvancedParam::RodeCallQuality)
        } else {
            None
        }
    }

    /// The parameter as events report it: its wire name, and whether it is a
    /// typed variant.
    pub open spec fn model(self) -> ParamModel {
        ParamModel { name: self.wire_name(), typed: !(self is Other) }
    }

    /// The parameter a wire name decodes to, as events report it: the name,
    /// typed exactly when a typed variant carries it.
    #[verifier::opaque]
    pub open spec fn name_model(name: Seq<char>) -> ParamModel {
        ParamModel { name, typed: Self::known(name) is Some }
    }

    /// Map a wire property name to its typed [`SipAdvancedParam`] variant if known, without
    /// allocating.
    pub fn from_known_name(name: &str) -> (r: Option<SipAdvancedParam>)
        ensures
            r == Self::known(name@),
            r matches Some(p) ==> p.wire_name() == name@,
            r matches Some(p) ==> p.model() == Self::name_model(name@),
    {
        proof {
            reveal(SipAdvancedParam::name_model);
        }
        if str_eq(name, "forceCodecChoice") {
            return Some(SipAdvancedParam::ForceCodecChoice);
        }
        if str_eq(name, "enableVideoStream") {
            return Some(SipAdvancedParam::EnableVideoStream);
        }
        if str_eq(name, "enableRFCDuplication") {
            return Some(SipAdvancedParam::EnableRFCDuplication);
        }
        if str_eq(name, "incomingNameFilter") {
            return Some(SipAdvancedParam::IncomingNameFilter);
        }
        if str_eq(name, "usbNumberPad") {
            return Some(SipAdvancedParam::UsbNumberPad);
        }
        if str_eq(name, "nonHTTPSInterface") {
            return Some(SipAdvancedParam::NonHTTPSInterface);
        }
        if str_eq(name, "autoReconnect") {
            return Some(SipAdvancedParam::AutoReconnect);
        }
        if str_eq(name, "incomingAudioRouting") {
            return Some(SipAdvancedParam::IncomingAudioRouting);
        }
        if str_eq(name, "dtmfMode") {
            return Some(SipAdvancedParam::DtmfMode);
        }
        if str_eq(name, "receiveJitterBufferMin") {
            return Some(SipAdvancedParam::ReceiveJitterBufferMin);
        }
        if str_eq(name, "receiveJitterBufferMax") {
            return Some(SipAdvancedParam::ReceiveJitterBufferMax);
        }
        if str_eq(name, "sipWebPassword") {
            return Some(SipAdvancedParam::SipWebPassword);
        }
        if str_eq(name, "sipAccountRegister") {
            return Some(SipAdvancedParam::SipAccountRegister);
        }
        if str_eq(name, "sipAccountUsername") {
            return Some(SipAdvancedParam::SipAccountUsername);
        }
        if str_eq(name, "sipAccountPassword") {
            return Some(SipAdvancedParam::SipAccountPassword);
        }
        if str_eq(name, "sipAccountDomain") {
            return Some(SipAdvancedParam::SipAccountDomain);
        }
        if str_eq(name, "sipAccountProxyAddress") {
            return Some(SipAdvancedParam::SipAccountProxyAddress);
        }
        if str_eq(name, "sipAccountTransport") {
            return Some(SipAdvancedParam::SipAccountTransport);
        }
        if str_eq(name, "sipNATTraversalMode") {
            return Some(SipAdvancedParam::SipNatTraversalMode);
        }
        if str_eq(name, "sipNATTraversalServer") {
            return Some(SipAdvancedParam::SipNatTraversalServer);
        }
        if str_eq(name, "sipNATTraversalUsername") {
            return Some(SipAdvancedParam::SipNatTraversalUsername);
        }
        if str_eq(name, "sipNATTraversalPassword") {
            return Some(SipAdvancedParam::SipNatTraversalPassword);
        }
        if str_eq(name, "sipUnitName") {
            return Some(SipAdvancedParam::SipUnitName);
        }
        if str_eq(name, "sipAccountAuthUsername") {
            return Some(SipAdvancedParam::SipAccountAuthUsername);
        }
        if str_eq(name, "rodeCallQuality") {
            return Some(SipAdvancedParam::RodeCallQuality);
        }
        None
    }

    /// Check if a wire property name matches a known [`SipAdvancedParam`] variant without
    /// allocating.
    pub fn is_known_name(name: &str) -> (r: bool)
        ensures
            r == Self::known(name@) is Some,
    {
        Self::from_known_name(name).is_some()
    }

    /// Map a wire property name to its typed [`SipAdvancedParam`] variant. Unknown names map
    /// to [`SipAdvancedParam::Other`], so this is total (never fails).
    pub fn from_name(name: &str) -> (r: SipAdvancedParam)
        ensures
            match Self::known(name@) {
                Some(p) => r == p,
                None => r matches SipAdvancedParam::Other(s) && s@ == name@,
            },
            r.wire_name() == name@,
            r.model() == Self::name_model(name@),
    {
        proof {
            reveal(SipAdvancedParam::name_model);
        }
        match Self::from_known_name(name) {
            Some(p) => p,
            None => SipAdvancedParam::Other(name.to_owned()),
        }
    }

    /// The wire property name for this parameter (inverse of [`SipAdvancedParam::from_name`]).
    pub fn as_str(&self) -> (r: &str)
        ensures
            r@ == self.wire_name(),
    {
        match self {
            SipAdvancedParam::ForceCodecChoice => "forceCodecChoice",
            SipAdvancedParam::EnableVideoStream => "enableVideoStream",
            SipAdvancedParam::EnableRFCDuplication => "enableRFCDuplication",
            SipAdvancedParam::IncomingNameFilter => "incomingNameFilter",
            SipAdvancedParam::UsbNumberPad => "usbNumberPad",
            SipAdvancedParam::NonHTTPSInterface => "nonHTTPSInterface",
            SipAdvancedParam::AutoReconnect => "autoReconnect",
            SipAdvancedParam::IncomingAudioRouting => "incomingAudioRouting",
            SipAdvancedParam::DtmfMode => "dtmfMode",
            SipAdvancedParam::ReceiveJitterBufferMin => "receiveJitterBufferMin",
            SipAdvancedParam::ReceiveJitterBufferMax => "receiveJitterBufferMax",
            SipAdvancedParam::SipWebPassword => "sipWebPassword",
            SipAdvancedParam::SipAccountRegister => "sipAccountRegister",
            SipAdvancedParam::SipAccountUsername => "sipAccountUsername",
            SipAdvancedParam::SipAccountPassword => "sipAccountPassword",
            SipAdvancedParam::SipAccountDomain => "sipAccountDomain",
            SipAdvancedParam::SipAccountProxyAddress => "sipAccountProxyAddress",
            SipAdvancedParam::SipAccountTransport => "sipAccountTransport",
            SipAdvancedParam::SipNatTraversalMode => "sipNATTraversalMode",
            SipAdvancedParam::SipNatTraversalServer => "sipNATTraversalServer",
            SipAdvancedParam::SipNatTraversalUsername => "sipNATTraversalUsername",
            SipAdvancedParam::SipNatTraversalPassword => "sipNATTraversalPassword",
            SipAdvancedParam::SipUnitName => "sipUnitName",
            SipAdvancedParam::SipAccountAuthUsername => "sipAccountAuthUsername",
            SipAdvancedParam::RodeCallQuality => "rodeCallQuality",
            SipAdvancedParam::Other(s) => s.as_str(),
        }
    }

    /// The wire property name as an owned string.
    pub fn to_string(&self) -> (r: String)
        ensures
            r@ == self.wire_name(),
    {
        self.as_str().to_owned()
    }

    /// `true` if this is a typed variant (not [`SipAdvancedParam::Other`]).
    pub fn is_known(&self) -> (r: bool)
        ensures
            r == !(self is Other),
    {
        !matches!(self, SipAdvancedParam::Other(_))
    }
}

impl Clone for SipAdvancedParam {
    fn clone(&self) -> (r: Self)
        ensures
            r.wire_name() == self.wire_name(),
            self is Other ==> r is Other,
            !(self is Other) ==> r == *self,
    {
        match self {
            SipAdvancedParam::ForceCodecChoice => SipAdvancedParam::ForceCodecChoice,
            SipAdvancedParam::EnableVideoStream => SipAdvancedParam::EnableVideoStream,
            SipAdvancedParam::EnableRFCDuplication => SipAdvancedParam::EnableRFCDuplication,
            SipAdvancedParam::IncomingNameFilter => SipAdvancedParam::IncomingNameFilter,
            SipAdvancedParam::UsbNumberPad => SipAdvancedParam::UsbNumberPad,
            SipAdvancedParam::NonHTTPSInterface => SipAdvancedParam::NonHTTPSInterface,
            SipAdvancedParam::AutoReconnect => SipAdvancedParam::AutoReconnect,
            SipAdvancedParam::IncomingAudioRouting => SipAdvancedParam::IncomingAudioRouting,
            SipAdvancedParam::DtmfMode => SipAdvancedParam::DtmfMode,
            SipAdvancedParam::ReceiveJitterBufferMin => SipAdvancedParam::ReceiveJitterBufferMin,
            SipAdvancedParam::ReceiveJitterBufferMax => SipAdvancedParam::ReceiveJitterBufferMax,
            SipAdvancedParam::SipWebPassword => SipAdvancedParam::SipWebPassword,
            SipAdvancedParam::SipAccountRegister => SipAdvancedParam::SipAccountRegister,
            SipAdvancedParam::SipAccountUsername => SipAdvancedParam::SipAccountUsername,
            SipAdvancedParam::SipAccountPassword => SipAdvancedParam::SipAccountPassword,
            SipAdvancedParam::SipAccountDomain => SipAdvancedParam::SipAccountDomain,
            SipAdvancedParam::SipAccountProxyAddress => SipAdvancedParam::SipAccountProxyAddress,
            SipAdvancedParam::SipAccountTransport => SipAdvancedParam::SipAccountTransport,
            SipAdvancedParam::SipNatTraversalMode => SipAdvancedParam::SipNatTraversalMode,
            SipAdvancedParam::SipNatTraversalServer => SipAdvancedParam::SipNatTraversalServer,
            SipAdvancedParam::SipNatTraversalUsername => SipAdvancedParam::SipNatTraversalUsername,
            SipAdvancedParam::SipNatTraversalPassword => SipAdvancedParam::SipNatTraversalPassword,
            SipAdvancedParam::SipUnitName => SipAdvancedParam::SipUnitName,
            SipAdvancedParam::SipAccountAuthUsername => SipAdvancedParam::SipAccountAuthUsername,
            SipAdvancedParam::RodeCallQuality => SipAdvancedParam::RodeCallQuality,
            SipAdvancedParam::Other(s) => SipAdvancedParam::Other(s.clone()),
        }
    }
}

/// Every typed [`SipAdvancedParam`] variant is found again from its wire name.
pub proof fn lemma_sip_advanced_param_name_round_trip(p: SipAdvancedParam)
    requires
        !(p is Other),
    ensures
        SipAdvancedParam::known(p.wire_name()) == Some(p),
        no_nul(p.wire_name()),
{
    reveal_strlit("forceCodecChoice");
    reveal_strlit("enableVideoStream");
    reveal_strlit("enableRFCDuplication");
    reveal_strlit("incomingNameFilter");
    reveal_strlit("usbNumberPad");
    reveal_strlit("nonHTTPSInterface");
    reveal_strlit("autoReconnect");
    reveal_strlit("incomingAudioRouting");
    reveal_strlit("dtmfMode");
    reveal_strlit("receiveJitterBufferMin");
    reveal_strlit("receiveJitterBufferMax");
    reveal_strlit("sipWebPassword");
    reveal_strlit("sipAccountRegister");
    reveal_strlit("sipAccountUsername");
    reveal_strlit("sipAccountPassword");
    reveal_strlit("sipAccountDomain");
    reveal_strlit("sipAccountProxyAddress");
    reveal_strlit("sipAccountTransport");
    reveal_strlit("sipNATTraversalMode");
    reveal_strlit("sipNATTraversalServer");
    reveal_strlit("sipNATTraversalUsername");
    reveal_strlit("sipNATTraversalPassword");
    reveal_strlit("sipUnitName");
    reveal_strlit("sipAccountAuthUsername");
    reveal_strlit("rodeCallQuality");
    assert("forceCodecChoice"@.len() == 16);
    assert("enableVideoStream"@.len() == 17);
    assert("enableRFCDuplication"@.len() == 20);
    assert("incomingNameFilter"@.len() == 18);
    assert("usbNumberPad"@.len() == 12);
    assert("nonHTTPSInterface"@.len() == 17);
    assert("autoReconnect"@.len() == 13);
    assert("incomingAudioRouting"@.len() == 20);
    assert("dtmfMode"@.len() == 8);
    assert("receiveJitterBufferMin"@.len() == 22);
    assert("receiveJitterBufferMax"@.len() == 22);
    assert("sipWebPassword"@.len() == 14);
    assert("sipAccountRegister"@.len() == 18);
    assert("sipAccountUsername"@.len() == 18);
    assert("sipAccountPassword"@.len() == 18);
    assert("sipAccountDomain"@.len() == 16);
    assert("sipAccountProxyAddress"@.len() == 22);
    assert("sipAccountTransport"@.len() == 19);
    assert("sipNATTraversalMode"@.len() == 19);
    assert("sipNATTraversalServer"@.len() == 21);
    assert("sipNATTraversalUsername"@.len() == 23);
    assert("sipNATTraversalPassword"@.len() == 23);
    assert("sipUnitName"@.len() == 11);
    assert("sipAccountAuthUsername"@.len() == 22);
    assert("rodeCallQuality"@.len() == 15);
    assert("forceCodecChoice"@[0] != "sipAccountDomain"@[0]);
    assert("enableVideoStream"@[0] != "nonHTTPSInterface"@[0]);
    assert("enableRFCDuplication"@[0] != "incomingAudioRouting"@[0]);
    assert("incomingNameFilter"@[0] != "sipAccountRegister"@[0]);
    assert("incomingNameFilter"@[0] != "sipAccountUsername"@[0]);
    assert("incomingNameFilter"@[0] != "sipAccountPassword"@[0]);
    assert("receiveJitterBufferMin"@[20] != "receiveJitterBufferMax"@[20]);
    assert("receiveJitterBufferMin"@[0] != "sipAccountProxyAddress"@[0]);
    assert("receiveJitterBufferMin"@[0] != "sipAccountAuthUsername"@[0]);
    assert("receiveJitterBufferMax"@[0] != "sipAccountProxyAddress"@[0]);
    assert("receiveJitterBufferMax"@[0] != "sipAccountAuthUsername"@[0]);
    assert("sipAccountRegister"@[10] != "sipAccountUsername"@[10]);
    assert("sipAccountRegister"@[10] != "sipAccountPassword"@[10]);
    assert("sipAccountUsername"@[10] != "sipAccountPassword"@[10]);
    assert("sipAccountProxyAddress"@[10] != "sipAccountAuthUsername"@[10]);
    assert("sipAccountTransport"@[3] != "sipNATTraversalMode"@[3]);
    assert("sipNATTraversalUsername"@[15] != "sipNATTraversalPassword"@[15]);
}

} // verus!
