//! [`SystemParam`]: the singleton root `SYSTEM`-node device-state family.

use vstd::prelude::*;

use crate::names::ParamModel;
use crate::text::{no_nul, str_eq};

verus! {

/// A device-wide system parameter: one of the flat properties the device
/// carries on the single root `SYSTEM` node. This is global device state, not
/// per-strip audio routing: identity (serial / firmware / board type), the
/// firmware-update + download lifecycle, date/time + personalization
/// settings, the global output disables, and USB / storage / sharing status.
///
/// Two things worth calling out:
/// - [`SystemParam::PowerOffRequest`] (`powerOffRequest`) is the *readback /
///   generic-write* identity of the power-off flag. It is distinct from
///   [`crate::Command::PowerOff`], which is a dedicated, layout-independent
///   power-off frame pinned to a fixed node index. Writing this param via
///   [`crate::Command::SetSystemParam`] instead addresses the discovered
///   `SYSTEM` node; on firmware 1.7.3 that resolves to the same node, so the
///   two are equivalent there.
/// - Several wire names carry firmware casing/spelling quirks kept verbatim:
///   `updateViaUSB`, `lastRecordingID`, `updateResetAfterFWURequested`, and
///   the misspelled `usbHostUnspportedFirmware`.
#[derive(Debug, PartialEq, Eq, Hash)]
#[non_exhaustive]
pub enum SystemParam {
    MidiControl,
    ChannelSelected,
    MixSelected,
    FirmwareVersion,
    EngineMode,
    SerialNumber,
    BoardType,
    DateTimezone,
    DateTimeDaylightSavings,
    DateTimeOnHome,
    DateTime24h,
    BetaMode,
    HapticSetting,
    RecButtonSetting,
    UnifyMode,
    PresenterMode,
    PresenterSoftware,
    AssignableMeterSource,
    LastRecordingId,
    TransferModeType,
    AppUpdateAvailable,
    OsUpdateAvailable,
    UpdateDownloaded,
    UpdateChecking,
    UpdateNoInternet,
    UpdateComplete,
    UpdateDownloadProgress,
    UpdateInstalledProgress,
    UpdateVersion,
    UpdateViaUsb,
    UpdateCheckRequested,
    UpdateInitiateRequested,
    DownloadInitiateRequested,
    DownloadCancelRequested,
    UpdateRebootRequested,
    UpdateResetDeviceRequested,
    UpdateResetAppRequested,
    UpdateResetAfterFwuRequested,
    PowerOffRequest,
    DisableAllHeadphoneOutputs,
    DisableAllLineoutOutputs,
    DisableAllPhysicalButtons,
    Usb1Connected,
    UsbHostOnUsb2,
    UsbHostUnsupportedFirmware,
    RemountPadStorage,
    BadPadDetected,
    ShareAnom,
    ShareResource,
    /// A property without a typed [`SystemParam`] identifier yet. Holds the raw wire
    /// name; the value still rides in the carrying event/command.
    Other(String),
}

impl SystemParam {
    /// The wire property name.
    pub open spec fn wire_name(self) -> Seq<char> {
        match self {
            SystemParam::MidiControl => "systemMidiControl"@,
            SystemParam::ChannelSelected => "systemChannelSelected"@,
            SystemParam::MixSelected => "systemMixSelected"@,
            SystemParam::FirmwareVersion => "systemFirmwareVersion"@,
            SystemParam::EngineMode => "engineMode"@,
            SystemParam::SerialNumber => "systemSerialNumber"@,
            SystemParam::BoardType => "boardType"@,
            SystemParam::DateTimezone => "systemDateTimezone"@,
            SystemParam::DateTimeDaylightSavings => "systemDateTimeDaylightSavings"@,
            SystemParam::DateTimeOnHome => "systemDateTimeOnHome"@,
            SystemParam::DateTime24h => "systemDateTime24h"@,
            SystemParam::BetaMode => "systemBetaMode"@,
            SystemParam::HapticSetting => "systemHapticSetting"@,
            SystemParam::RecButtonSetting => "systemRecButtonSetting"@,
            SystemParam::UnifyMode => "unifyMode"@,
            SystemParam::PresenterMode => "presenterMode"@,
            SystemParam::PresenterSoftware => "presenterSoftware"@,
            SystemParam::AssignableMeterSource => "assignableMeterSource"@,
            SystemParam::LastRecordingId => "lastRecordingID"@,
            SystemParam::TransferModeType => "transferModeType"@,
            SystemParam::AppUpdateAvailable => "appUpdateAvailable"@,
            SystemParam::OsUpdateAvailable => "osUpdateAvailable"@,
            SystemParam::UpdateDownloaded => "updateDownloaded"@,
            SystemParam::UpdateChecking => "updateChecking"@,
            SystemParam::UpdateNoInternet => "updateNoInternet"@,
            SystemParam::UpdateComplete => "updateComplete"@,
            SystemParam::UpdateDownloadProgress => "updateDownloadProgress"@,
            SystemParam::UpdateInstalledProgress => "updateInstalledProgress"@,
            SystemParam::UpdateVersion => "updateVersion"@,
            SystemParam::UpdateViaUsb => "updateViaUSB"@,
            SystemParam::UpdateCheckRequested => "updateCheckRequested"@,
            SystemParam::UpdateInitiateRequested => "updateInitiateRequested"@,
            SystemParam::DownloadInitiateRequested => "downloadInitiateRequested"@,
            SystemParam::DownloadCancelRequested => "downloadCancelRequested"@,
            SystemParam::UpdateRebootRequested => "updateRebootRequested"@,
            SystemParam::UpdateResetDeviceRequested => "updateResetDeviceRequested"@,
            SystemParam::UpdateResetAppRequested => "updateResetAppRequested"@,
            SystemParam::UpdateResetAfterFwuRequested => "updateResetAfterFWURequested"@,
            SystemParam::PowerOffRequest => "powerOffRequest"@,
            SystemParam::DisableAllHeadphoneOutputs => "disableAllHeadphoneOutputs"@,
            SystemParam::DisableAllLineoutOutputs => "disableAllLineoutOutputs"@,
            SystemParam::DisableAllPhysicalButtons => "disableAllPhysicalButtons"@,
            SystemParam::Usb1Connected => "usb1Connected"@,
            SystemParam::UsbHostOnUsb2 => "usbHostOnUsb2"@,
            SystemParam::UsbHostUnsupportedFirmware => "usbHostUnspportedFirmware"@,
            SystemParam::RemountPadStorage => "remountPadStorage"@,
            SystemParam::BadPadDetected => "badPadDetected"@,
            SystemParam::ShareAnom => "shareAnom"@,
            SystemParam::ShareResource => "shareResource"@,
            SystemParam::Other(s) => s@,
        }
    }

    /// The typed variant a wire name denotes, if any.
    pub open spec fn known(name: Seq<char>) -> Option<SystemParam> {
        if name == "systemMidiControl"@ {
            Some(SystemParam::MidiControl)
        } else if name == "systemChannelSelected"@ {
            Some(SystemParam::ChannelSelected)
        } else if name == "systemMixSelected"@ {
            Some(SystemParam::MixSelected)
        } else if name == "systemFirmwareVersion"@ {
            Some(SystemParam::FirmwareVersion)
        } else if name == "engineMode"@ {
            Some(SystemParam::EngineMode)
        } else if name == "systemSerialNumber"@ {
            Some(SystemParam::SerialNumber)
        } else if name == "boardType"@ {
            Some(SystemParam::BoardType)
        } else if name == "systemDateTimezone"@ {
            Some(SystemParam::DateTimezone)
        } else if name == "systemDateTimeDaylightSavings"@ {
            Some(SystemParam::DateTimeDaylightSavings)
        } else if name == "systemDateTimeOnHome"@ {
            Some(SystemParam::DateTimeOnHome)
        } else if name == "systemDateTime24h"@ {
            Some(SystemParam::DateTime24h)
        } else if name == "systemBetaMode"@ {
            Some(SystemParam::BetaMode)
        } else if name == "systemHapticSetting"@ {
            Some(SystemParam::HapticSetting)
        } else if name == "systemRecButtonSetting"@ {
            Some(SystemParam::RecButtonSetting)
        } else if name == "unifyMode"@ {
            Some(SystemParam::UnifyMode)
        } else if name == "presenterMode"@ {
            Some(SystemParam::PresenterMode)
        } else if name == "presenterSoftware"@ {
            Some(SystemParam::PresenterSoftware)
        } else if name == "assignableMeterSource"@ {
            Some(SystemParam::AssignableMeterSource)
        } else if name == "lastRecordingID"@ {
            Some(SystemParam::LastRecordingId)
        } else if name == "transferModeType"@ {
            Some(SystemParam::TransferModeType)
        } else if name == "appUpdateAvailable"@ {
            Some(SystemParam::AppUpdateAvailable)
        } else if name == "osUpdateAvailable"@ {
            Some(SystemParam::OsUpdateAvailable)
        } else if name == "updateDownloaded"@ {
            Some(SystemParam::UpdateDownloaded)
        } else if name == "updateChecking"@ {
            Some(SystemParam::UpdateChecking)
        } else if name == "updateNoInternet"@ {
            Some(SystemParam::UpdateNoInternet)
        } else if name == "updateComplete"@ {
            Some(SystemParam::UpdateComplete)
        } else if name == "updateDownloadProgress"@ {
            Some(SystemParam::UpdateDownloadProgress)
        } else if name == "updateInstalledProgress"@ {
            Some(SystemParam::UpdateInstalledProgress)
        } else if name == "updateVersion"@ {
            Some(SystemParam::UpdateVersion)
        } else if name == "updateViaUSB"@ {
            Some(SystemParam::UpdateViaUsb)
        } else if name == "updateCheckRequested"@ {
            Some(SystemParam::UpdateCheckRequested)
        } else if name == "updateInitiateRequested"@ {
            Some(SystemParam::UpdateInitiateRequested)
        } else if name == "downloadInitiateRequested"@ {
            Some(SystemParam::DownloadInitiateRequested)
        } else if name == "downloadCancelRequested"@ {
            Some(SystemParam::DownloadCancelRequested)
        } else if name == "updateRebootRequested"@ {
            Some(SystemParam::UpdateRebootRequested)
        } else if name == "updateResetDeviceRequested"@ {
            Some(SystemParam::UpdateResetDeviceRequested)
        } else if name == "updateResetAppRequested"@ {
            Some(SystemParam::UpdateResetAppRequested)
        } else if name == "updateResetAfterFWURequested"@ {
            Some(SystemParam::UpdateResetAfterFwuRequested)
        } else if name == "powerOffRequest"@ {
            Some(SystemParam::PowerOffRequest)
        } else if name == "disableAllHeadphoneOutputs"@ {
            Some(SystemParam::DisableAllHeadphoneOutputs)
        } else if name == "disableAllLineoutOutputs"@ {
            Some(SystemParam::DisableAllLineoutOutputs)
        } else if name == "disableAllPhysicalButtons"@ {
            Some(SystemParam::DisableAllPhysicalButtons)
        } else if name == "usb1Connected"@ {
            Some(SystemParam::Usb1Connected)
        } else if name == "usbHostOnUsb2"@ {
            Some(SystemParam::UsbHostOnUsb2)
        } else if name == "usbHostUnspportedFirmware"@ {
            Some(SystemParam::UsbHostUnsupportedFirmware)
        } else if name == "remountPadStorage"@ {
            Some(SystemParam::RemountPadStorage)
        } else if name == "badPadDetected"@ {
            Some(SystemParam::BadPadDetected)
        } else if name == "shareAnom"@ {
            Some(SystemParam::ShareAnom)
        } else if name == "shareResource"@ {
            Some(SystemParam::ShareResource)
        } else {
            None
        }
    }

    /// The parameter as events report it: its wire name, and whether it is a
    /// typed variant.
    pub open spec fn model(self) -> ParamModel {
        ParamModel { name: self.wire_name(), typed: !(self is Other) }
    }

    /// The parameter a wire name decodes to, as events report it: the name,
    /// typed exactly when a typed variant carries it.
    #[verifier::opaque]
    pub open spec fn name_model(name: Seq<char>) -> ParamModel {
        ParamModel { name, typed: Self::known(name) is Some }
    }

    /// Map a wire property name to its typed [`SystemParam`] variant if known, without
    /// allocating.
    pub fn from_known_name(name: &str) -> (r: Option<SystemParam>)
        ensures
            r == Self::known(name@),
            r matches Some(p) ==> p.wire_name() == name@,
            r matches Some(p) ==> p.model() == Self::name_model(name@),
    {
        proof {
            reveal(SystemParam::name_model);
        }
        if str_eq(name, "systemMidiControl") {
            return Some(SystemParam::MidiControl);
        }
        if str_eq(name, "systemChannelSelected") {
            return Some(SystemParam::ChannelSelected);
        }
        if str_eq(name, "systemMixSelected") {
            return Some(SystemParam::MixSelected);
        }
        if str_eq(name, "systemFirmwareVersion") {
            return Some(SystemParam::FirmwareVersion);
        }
        if str_eq(name, "engineMode") {
            return Some(SystemParam::EngineMode);
        }
        if str_eq(name, "systemSerialNumber") {
            return Some(SystemParam::SerialNumber);
        }
        if str_eq(name, "boardType") {
            return Some(SystemParam::BoardType);
        }
        if str_eq(name, "systemDateTimezone") {
            return Some(SystemParam::DateTimezone);
        }
        if str_eq(name, "systemDateTimeDaylightSavings") {
            return Some(SystemParam::DateTimeDaylightSavings);
        }
        if str_eq(name, "systemDateTimeOnHome") {
            return Some(SystemParam::DateTimeOnHome);
        }
        if str_eq(name, "systemDateTime24h") {
            return Some(SystemParam::DateTime24h);
        }
        if str_eq(name, "systemBetaMode") {
            return Some(SystemParam::BetaMode);
        }
        if str_eq(name, "systemHapticSetting") {
            return Some(SystemParam::HapticSetting);
        }
        if str_eq(name, "systemRecButtonSetting") {
            return Some(SystemParam::RecButtonSetting);
        }
        if str_eq(name, "unifyMode") {
            return Some(SystemParam::UnifyMode);
        }
        if str_eq(name, "presenterMode") {
            return Some(SystemParam::PresenterMode);
        }
        if str_eq(name, "presenterSoftware") {
            return Some(SystemParam::PresenterSoftware);
        }
        if str_eq(name, "assignableMeterSource") {
            return Some(SystemParam::AssignableMeterSource);
        }
        if str_eq(name, "lastRecordingID") {
            return Some(SystemParam::LastRecordingId);
        }
        if str_eq(name, "transferModeType") {
            return Some(SystemParam::TransferModeType);
        }
        if str_eq(name, "appUpdateAvailable") {
            return Some(SystemParam::AppUpdateAvailable);
        }
        if str_eq(name, "osUpdateAvailable") {
            return Some(SystemParam::OsUpdateAvailable);
        }
        if str_eq(name, "updateDownloaded") {
            return Some(SystemParam::UpdateDownloaded);
        }
        if str_eq(name, "updateChecking") {
            return Some(SystemParam::UpdateChecking);
        }
        if str_eq(name, "updateNoInternet") {
            return Some(SystemParam::UpdateNoInternet);
        }
        if str_eq(name, "updateComplete") {
            return Some(SystemParam::UpdateComplete);
        }
        if str_eq(name, "updateDownloadProgress") {
            return Some(SystemParam::UpdateDownloadProgress);
        }
        if str_eq(name, "updateInstalledProgress") {
            return Some(SystemParam::UpdateInstalledProgress);
        }
        if str_eq(name, "updateVersion") {
            return Some(SystemParam::UpdateVersion);
        }
        if str_eq(name, "updateViaUSB") {
            return Some(SystemParam::UpdateViaUsb);
        }
        if str_eq(name, "updateCheckRequested") {
            return Some(SystemParam::UpdateCheckRequested);
        }
        if str_eq(name, "updateInitiateRequested") {
            return Some(SystemParam::UpdateInitiateRequested);
        }
        if str_eq(name, "downloadInitiateRequested") {
            return Some(SystemParam::DownloadInitiateRequested);
        }
        if str_eq(name, "downloadCancelRequested") {
            return Some(SystemParam::DownloadCancelRequested);
        }
        if str_eq(name, "updateRebootRequested") {
            return Some(SystemParam::UpdateRebootRequested);
        }
        if str_eq(name, "updateResetDeviceRequested") {
            return Some(SystemParam::UpdateResetDeviceRequested);
        }
        if str_eq(name, "updateResetAppRequested") {
            return Some(SystemParam::UpdateResetAppRequested);
        }
        if str_eq(name, "updateResetAfterFWURequested") {
            return Some(SystemParam::UpdateResetAfterFwuRequested);
        }
        if str_eq(name, "powerOffRequest") {
            return Some(SystemParam::PowerOffRequest);
        }
        if str_eq(name, "disableAllHeadphoneOutputs") {
            return Some(SystemParam::DisableAllHeadphoneOutputs);
        }
        if str_eq(name, "disableAllLineoutOutputs") {
            return Some(SystemParam::DisableAllLineoutOutputs);
        }
        if str_eq(name, "disableAllPhysicalButtons") {
            return Some(SystemParam::DisableAllPhysicalButtons);
        }
        if str_eq(name, "usb1Connected") {
            return Some(SystemParam::Usb1Connected);
        }
        if str_eq(name, "usbHostOnUsb2") {
            return Some(SystemParam::UsbHostOnUsb2);
        }
        if str_eq(name, "usbHostUnspportedFirmware") {
            return Some(SystemParam::UsbHostUnsupportedFirmware);
        }
        if str_eq(name, "remountPadStorage") {
            return Some(SystemParam::RemountPadStorage);
        }
        if str_eq(name, "badPadDetected") {
            return Some(SystemParam::BadPadDetected);
        }
        if str_eq(name, "shareAnom") {
            return Some(SystemParam::ShareAnom);
        }
        if str_eq(name, "shareResource") {
            return Some(SystemParam::ShareResource);
        }
        None
    }

    /// Check if a wire property name matches a known [`SystemParam`] variant without
    /// allocating.
    pub fn is_known_name(name: &str) -> (r: bool)
        ensures
            r == Self::known(name@) is Some,
    {
        Self::from_known_name(name).is_some()
    }

    /// Map a wire property name to its typed [`SystemParam`] variant. Unknown names map
    /// to [`SystemParam::Other`], so this is total (never fails).
    pub fn from_name(name: &str) -> (r: SystemParam)
        ensures
            match Self::known(name@) {
                Some(p) => r == p,
                None => r matches SystemParam::Other(s) && s@ == name@,
            },
            r.wire_name() == name@,
            r.model() == Self::name_model(name@),
    {
        proof {
            reveal(SystemParam::name_model);
        }
        match Self::from_known_name(name) {
            Some(p) => p,
            None => SystemParam::Other(name.to_owned()),
        }
    }

    /// The wire property name for this parameter (inverse of [`SystemParam::from_name`]).
    pub fn as_str(&self) -> (r: &str)
        ensures
            r@ == self.wire_name(),
    {
        match self {
            SystemParam::MidiControl => "systemMidiControl",
            SystemParam::ChannelSelected => "systemChannelSelected",
            SystemParam::MixSelected => "systemMixSelected",
            SystemParam::FirmwareVersion => "systemFirmwareVersion",
            SystemParam::EngineMode => "engineMode",
            SystemParam::SerialNumber => "systemSerialNumber",
            SystemParam::BoardType => "boardType",
            SystemParam::DateTimezone => "systemDateTimezone",
            SystemParam::DateTimeDaylightSavings => "systemDateTimeDaylightSavings",
            SystemParam::DateTimeOnHome => "systemDateTimeOnHome",
            SystemParam::DateTime24h => "systemDateTime24h",
            SystemParam::BetaMode => "systemBetaMode",
            SystemParam::HapticSetting => "systemHapticSetting",
            SystemParam::RecButtonSetting => "systemRecButtonSetting",
            SystemParam::UnifyMode => "unifyMode",
            SystemParam::PresenterMode => "presenterMode",
            SystemParam::PresenterSoftware => "presenterSoftware",
            SystemParam::AssignableMeterSource => "assignableMeterSource",
            SystemParam::LastRecordingId => "lastRecordingID",
            SystemParam::TransferModeType => "transferModeType",
            SystemParam::AppUpdateAvailable => "appUpdateAvailable",
            SystemParam::OsUpdateAvailable => "osUpdateAvailable",
            SystemParam::UpdateDownloaded => "updateDownloaded",
            SystemParam::UpdateChecking => "updateChecking",
            SystemParam::UpdateNoInternet => "updateNoInternet",
            SystemParam::UpdateComplete => "updateComplete",
            SystemParam::UpdateDownloadProgress => "updateDownloadProgress",
            SystemParam::UpdateInstalledProgress => "updateInstalledProgress",
            SystemParam::UpdateVersion => "updateVersion",
            SystemParam::UpdateViaUsb => "updateViaUSB",
            SystemParam::UpdateCheckRequested => "updateCheckRequested",
            SystemParam::UpdateInitiateRequested => "updateInitiateRequested",
            SystemParam::DownloadInitiateRequested => "downloadInitiateRequested",
            SystemParam::DownloadCancelRequested => "downloadCancelRequested",
            SystemParam::UpdateRebootRequested => "updateRebootRequested",
            SystemParam::UpdateResetDeviceRequested => "updateResetDeviceRequested",
            SystemParam::UpdateResetAppRequested => "updateResetAppRequested",
            SystemParam::UpdateResetAfterFwuRequested => "updateResetAfterFWURequested",
            SystemParam::PowerOffRequest => "powerOffRequest",
            SystemParam::DisableAllHeadphoneOutputs => "disableAllHeadphoneOutputs",
            SystemParam::DisableAllLineoutOutputs => "disableAllLineoutOutputs",
            SystemParam::DisableAllPhysicalButtons => "disableAllPhysicalButtons",
            SystemParam::Usb1Connected => "usb1Connected",
            SystemParam::UsbHostOnUsb2 => "usbHostOnUsb2",
            SystemParam::UsbHostUnsupportedFirmware => "usbHostUnspportedFirmware",
            SystemParam::RemountPadStorage => "remountPadStorage",
            SystemParam::BadPadDetected => "badPadDetected",
            SystemParam::ShareAnom => "shareAnom",
            SystemParam::ShareResource => "shareResource",
            SystemParam::Other(s) => s.as_str(),
        }
    }

    /// The wire property name as an owned string.
    pub fn to_string(&self) -> (r: String)
        ensures
            r@ == self.wire_name(),
    {
        self.as_str().to_owned()
    }

    /// `true` if this is a typed variant (not [`SystemParam::Other`]).
    pub fn is_known(&self) -> (r: bool)
        ensures
            r == !(self is Other),
    {
        !matches!(self, SystemParam::Other(_))
    }
}

impl Clone for SystemParam {
    fn clone(&self) -> (r: Self)
        ensures
            r.wire_name() == self.wire_name(),
            self is Other ==> r is Other,
            !(self is Other) ==> r == *self,
    {
        match self {
            SystemParam::MidiControl => SystemParam::MidiControl,
            SystemParam::ChannelSelected => SystemParam::ChannelSelected,
            SystemParam::MixSelected => SystemParam::MixSelected,
            SystemParam::FirmwareVersion => SystemParam::FirmwareVersion,
            SystemParam::EngineMode => SystemParam::EngineMode,
            SystemParam::SerialNumber => SystemParam::SerialNumber,
            SystemParam::BoardType => SystemParam::BoardType,
            SystemParam::DateTimezone => SystemParam::DateTimezone,
            SystemParam::DateTimeDaylightSavings => SystemParam::DateTimeDaylightSavings,
            SystemParam::DateTimeOnHome => SystemParam::DateTimeOnHome,
            SystemParam::DateTime24h => SystemParam::DateTime24h,
            SystemParam::BetaMode => SystemParam::BetaMode,
            SystemParam::HapticSetting => SystemParam::HapticSetting,
            SystemParam::RecButtonSetting => SystemParam::RecButtonSetting,
            SystemParam::UnifyMode => SystemParam::UnifyMode,
            SystemParam::PresenterMode => SystemParam::PresenterMode,
            SystemParam::PresenterSoftware => SystemParam::PresenterSoftware,
            SystemParam::AssignableMeterSource => SystemParam::AssignableMeterSource,
            SystemParam::LastRecordingId => SystemParam::LastRecordingId,
            SystemParam::TransferModeType => SystemParam::TransferModeType,
            SystemParam::AppUpdateAvailable => SystemParam::AppUpdateAvailable,
            SystemParam::OsUpdateAvailable => SystemParam::OsUpdateAvailable,
            SystemParam::UpdateDownloaded => SystemParam::UpdateDownloaded,
            SystemParam::UpdateChecking => SystemParam::UpdateChecking,
            SystemParam::UpdateNoInternet => SystemParam::UpdateNoInternet,
            SystemParam::UpdateComplete => SystemParam::UpdateComplete,
            SystemParam::UpdateDownloadProgress => SystemParam::UpdateDownloadProgress,
            SystemParam::UpdateInstalledProgress => SystemParam::UpdateInstalledProgress,
            SystemParam::UpdateVersion => SystemParam::UpdateVersion,
            SystemParam::UpdateViaUsb => SystemParam::UpdateViaUsb,
            SystemParam::UpdateCheckRequested => SystemParam::UpdateCheckRequested,
            SystemParam::UpdateInitiateRequested => SystemParam::UpdateInitiateRequested,
            SystemParam::DownloadInitiateRequested => SystemParam::DownloadInitiateRequested,
            SystemParam::DownloadCancelRequested => SystemParam::DownloadCancelRequested,
            SystemParam::UpdateRebootRequested => SystemParam::UpdateRebootRequested,
            SystemParam::UpdateResetDeviceRequested => SystemParam::UpdateResetDeviceRequested,
            SystemParam::UpdateResetAppRequested => SystemParam::UpdateResetAppRequested,
            SystemParam::UpdateResetAfterFwuRequested => SystemParam::UpdateResetAfterFwuRequested,
            SystemParam::PowerOffRequest => SystemParam::PowerOffRequest,
            SystemParam::DisableAllHeadphoneOutputs => SystemParam::DisableAllHeadphoneOutputs,
            SystemParam::DisableAllLineoutOutputs => SystemParam::DisableAllLineoutOutputs,
            SystemParam::DisableAllPhysicalButtons => SystemParam::DisableAllPhysicalButtons,
            SystemParam::Usb1Connected => SystemParam::Usb1Connected,
            SystemParam::UsbHostOnUsb2 => SystemParam::UsbHostOnUsb2,
            SystemParam::UsbHostUnsupportedFirmware => SystemParam::UsbHostUnsupportedFirmware,
            SystemParam::RemountPadStorage => SystemParam::RemountPadStorage,
            SystemParam::BadPadDetected => SystemParam::BadPadDetected,
            SystemParam::ShareAnom => SystemParam::ShareAnom,
            SystemParam::ShareResource => SystemParam::ShareResource,
            SystemParam::Other(s) => SystemParam::Other(s.clone()),
        }
    }
}

/// Every typed [`SystemParam`] variant is found again from its wire name.
pub proof fn lemma_system_param_name_round_trip(p: SystemParam)
    requires
        !(p is Other),
    ensures
        SystemParam::known(p.wire_name()) == Some(p),
        no_nul(p.wire_name()),
{
    reveal_strlit("systemMidiControl");
    reveal_strlit("systemChannelSelected");
    reveal_strlit("systemMixSelected");
    reveal_strlit("systemFirmwareVersion");
    reveal_strlit("engineMode");
    reveal_strlit("systemSerialNumber");
    reveal_strlit("boardType");
    reveal_strlit("systemDateTimezone");
    reveal_strlit("systemDateTimeDaylightSavings");
    reveal_strlit("systemDateTimeOnHome");
    reveal_strlit("systemDateTime24h");
    reveal_strlit("systemBetaMode");
    reveal_strlit("systemHapticSetting");
    reveal_strlit("systemRecButtonSetting");
    reveal_strlit("unifyMode");
    reveal_strlit("presenterMode");
    reveal_strlit("presenterSoftware");
    reveal_strlit("assignableMeterSource");
    reveal_strlit("lastRecordingID");
    reveal_strlit("transferModeType");
    reveal_strlit("appUpdateAvailable");
    reveal_strlit("osUpdateAvailable");
    reveal_strlit("updateDownloaded");
    reveal_strlit("updateChecking");
    reveal_strlit("updateNoInternet");
    reveal_strlit("updateComplete");
    reveal_strlit("updateDownloadProgress");
    reveal_strlit("updateInstalledProgress");
    reveal_strlit("updateVersion");
    reveal_strlit("updateViaUSB");
    reveal_strlit("updateCheckRequested");
    reveal_strlit("updateInitiateRequested");
    reveal_strlit("downloadInitiateRequested");
    reveal_strlit("downloadCancelRequested");
    reveal_strlit("updateRebootRequested");
    reveal_strlit("updateResetDeviceRequested");
    reveal_strlit("updateResetAppRequested");
    reveal_strlit("updateResetAfterFWURequested");
    reveal_strlit("powerOffRequest");
    reveal_strlit("disableAllHeadphoneOutputs");
    reveal_strlit("disableAllLineoutOutputs");
    reveal_strlit("disableAllPhysicalButtons");
    reveal_strlit("usb1Connected");
    reveal_strlit("usbHostOnUsb2");
    reveal_strlit("usbHostUnspportedFirmware");
    reveal_strlit("remountPadStorage");
    reveal_strlit("badPadDetected");
    reveal_strlit("shareAnom");
    reveal_strlit("shareResource");
    assert("systemMidiControl"@.len() == 17);
    assert("systemChannelSelected"@.len() == 21);
    assert("systemMixSelected"@.len() == 17);
    assert("systemFirmwareVersion"@.len() == 21);
    assert("engineMode"@.len() == 10);
    assert("systemSerialNumber"@.len() == 18);
    assert("boardType"@.len() == 9);
    assert("systemDateTimezone"@.len() == 18);
    assert("systemDateTimeDaylightSavings"@.len() == 29);
    assert("systemDateTimeOnHome"@.len() == 20);
    assert("systemDateTime24h"@.len() == 17);
    assert("systemBetaMode"@.len() == 14);
    assert("systemHapticSetting"@.len() == 19);
    assert("systemRecButtonSetting"@.len() == 22);
    assert("unifyMode"@.len() == 9);
    assert("presenterMode"@.len() == 13);
    assert("presenterSoftware"@.len() == 17);
    assert("assignableMeterSource"@.len() == 21);
    assert("lastRecordingID"@.len() == 15);
    assert("transferModeType"@.len() == 16);
    assert("appUpdateAvailable"@.len() == 18);
    assert("osUpdateAvailable"@.len() == 17);
    assert("updateDownloaded"@.len() == 16);
    assert("updateChecking"@.len() == 14);
    assert("updateNoInternet"@.len() == 16);
    assert("updateComplete"@.len() == 14);
    assert("updateDownloadProgress"@.len() == 22);
    assert("updateInstalledProgress"@.len() == 23);
    assert("updateVersion"@.len() == 13);
    assert("updateViaUSB"@.len() == 12);
    assert("updateCheckRequested"@.len() == 20);
    assert("updateInitiateRequested"@.len() == 23);
    assert("downloadInitiateRequested"@.len() == 25);
    assert("downloadCancelRequested"@.len() == 23);
    assert("updateRebootRequested"@.len() == 21);
    assert("updateResetDeviceRequested"@.len() == 26);
    assert("updateResetAppRequested"@.len() == 23);
    assert("updateResetAfterFWURequested"@.len() == 28);
    assert("powerOffRequest"@.len() == 15);
    assert("disableAllHeadphoneOutputs"@.len() == 26);
    assert("disableAllLineoutOutputs"@.len() == 24);
    assert("disableAllPhysicalButtons"@.len() == 25);
    assert("usb1Connected"@.len() == 13);
    assert("usbHostOnUsb2"@.len() == 13);
    assert("usbHostUnspportedFirmware"@.len() == 25);
    assert("remountPadStorage"@.len() == 17);
    assert("badPadDetected"@.len() == 14);
    assert("shareAnom"@.len() == 9);
    assert("shareResource"@.len() == 13);
    assert("systemMidiControl"@[8] != "systemMixSelected"@[8]);
    assert("systemMidiControl"@[6] != "systemDateTime24h"@[6]);
    assert("systemMidiControl"@[0] != "presenterSoftware"@[0]);
    assert("systemMidiControl"@[0] != "osUpdateAvailable"@[0]);
    assert("systemMidiControl"@[0] != "remountPadStorage"@[0]);
    assert("systemChannelSelected"@[6] != "systemFirmwareVersion"@[6]);
    assert("systemChannelSelected"@[0] != "assignableMeterSource"@[0]);
    assert("systemChannelSelected"@[0] != "updateRebootRequested"@[0]);
    assert("systemMixSelected"@[6] != "systemDateTime24h"@[6]);
    assert("systemMixSelected"@[0] != "presenterSoftware"@[0]);
    assert("systemMixSelected"@[0] != "osUpdateAvailable"@[0]);
    assert("systemMixSelected"@[0] != "remountPadStorage"@[0]);
    assert("systemFirmwareVersion"@[0] != "assignableMeterSource"@[0]);
    assert("systemFirmwareVersion"@[0] != "updateRebootRequested"@[0]);
    assert("systemSerialNumber"@[6] != "systemDateTimezone"@[6]);
    assert("systemSerialNumber"@[0] != "appUpdateAvailable"@[0]);
    assert("boardType"@[0] != "unifyMode"@[0]);
    assert("boardType"@[0] != "shareAnom"@[0]);
    assert("systemDateTimezone"@[0] != "appUpdateAvailable"@[0]);
    assert("systemDateTimeOnHome"@[0] != "updateCheckRequested"@[0]);
    assert("systemDateTime24h"@[0] != "presenterSoftware"@[0]);
    assert("systemDateTime24h"@[0] != "osUpdateAvailable"@[0]);
    assert("systemDateTime24h"@[0] != "remountPadStorage"@[0]);
    assert("systemBetaMode"@[0] != "updateChecking"@[0]);
    assert("systemBetaMode"@[0] != "updateComplete"@[0]);
    assert("systemBetaMode"@[0] != "badPadDetected"@[0]);
    assert("systemRecButtonSetting"@[0] != "updateDownloadProgress"@[0]);
    assert("unifyMode"@[0] != "shareAnom"@[0]);
    assert("presenterMode"@[0] != "updateVersion"@[0]);
    assert("presenterMode"@[0] != "usb1Connected"@[0]);
    assert("presenterMode"@[0] != "usbHostOnUsb2"@[0]);
    assert("presenterMode"@[0] != "shareResource"@[0]);
    assert("presenterSoftware"@[0] != "osUpdateAvailable"@[0]);
    assert("presenterSoftware"@[0] != "remountPadStorage"@[0]);
    assert("assignableMeterSource"@[0] != "updateRebootRequested"@[0]);
    assert("lastRecordingID"@[0] != "powerOffRequest"@[0]);
    assert("transferModeType"@[0] != "updateDownloaded"@[0]);
    assert("transferModeType"@[0] != "updateNoInternet"@[0]);
    assert("osUpdateAvailable"@[0] != "remountPadStorage"@[0]);
    assert("updateDownloaded"@[6] != "updateNoInternet"@[6]);
    assert("updateChecking"@[7] != "updateComplete"@[7]);
    assert("updateChecking"@[0] != "badPadDetected"@[0]);
    assert("updateComplete"@[0] != "badPadDetected"@[0]);
    assert("updateInstalledProgress"@[8] != "updateInitiateRequested"@[8]);
    assert("updateInstalledProgress"@[0] != "downloadCancelRequested"@[0]);
    assert("updateInstalledProgress"@[6] != "updateResetAppRequested"@[6]);
    assert("updateVersion"@[1] != "usb1Connected"@[1]);
    assert("updateVersion"@[1] != "usbHostOnUsb2"@[1]);
    assert("updateVersion"@[0] != "shareResource"@[0]);
    assert("updateInitiateRequested"@[0] != "downloadCancelRequested"@[0]);
    assert("updateInitiateRequested"@[6] != "updateResetAppRequested"@[6]);
    assert("downloadInitiateRequested"@[1] != "disableAllPhysicalButtons"@[1]);
    assert("downloadInitiateRequested"@[0] != "usbHostUnspportedFirmware"@[0]);
    assert("downloadCancelRequested"@[0] != "updateResetAppRequested"@[0]);
    assert("updateResetDeviceRequested"@[0] != "disableAllHeadphoneOutputs"@[0]);
    assert("disableAllPhysicalButtons"@[0] != "usbHostUnspportedFirmware"@[0]);
    assert("usb1Connected"@[3] != "usbHostOnUsb2"@[3]);
    assert("usb1Connected"@[0] != "shareResource"@[0]);
    assert("usbHostOnUsb2"@[0] != "shareResource"@[0]);
}

} // verus!
