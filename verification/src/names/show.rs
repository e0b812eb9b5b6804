//! Show-system parameter families: [`ShowParam`] (per-show), [`CurrentShowParam`]
//! (the loaded show), and [`ShowControlParam`] (the show-lifecycle command
//! channel).

use vstd::prelude::*;

use crate::names::ParamModel;
use crate::text::{no_nul, str_eq};

verus! {

/// A per-show parameter: one of the flat properties the device carries on
/// each `SHOW` child under the singleton `SHOWS` container. `Uid` is a
/// stable integer; `Uuid` is a canonical string identifier;
/// `SnapshotIndex` selects which snapshot of the show is active;
/// `LastModification` is a wall-clock timestamp string.
#[derive(Debug, PartialEq, Eq, Hash)]
#[non_exhaustive]
pub enum ShowParam {
    Icon,
    LastModification,
    Name,
    SnapshotIndex,
    StorageType,
    Uid,
    Uuid,
    /// A property without a typed [`ShowParam`] identifier yet. Holds the raw wire
    /// name; the value still rides in the carrying event/command.
    Other(String),
}

impl ShowParam {
    /// The wire property name.
    pub open spec fn wire_name(self) -> Seq<char> {
        match self {
            ShowParam::Icon => "showIcon"@,
            ShowParam::LastModification => "showLastModification"@,
            ShowParam::Name => "showName"@,
            ShowParam::SnapshotIndex => "showSnapshotIndex"@,
            ShowParam::StorageType => "showStorageType"@,
            ShowParam::Uid => "showUID"@,
            ShowParam::Uuid => "showUUID"@,
            ShowParam::Other(s) => s@,
        }
    }

    /// The typed variant a wire name denotes, if any.
    pub open spec fn known(name: Seq<char>) -> Option<ShowParam> {
        if name == "showIcon"@ {
            Some(ShowParam::Icon)
        } else if name == "showLastModification"@ {
            Some(ShowParam::LastModification)
        } else if name == "showName"@ {
            Some(ShowParam::Name)
        } else if name == "showSnapshotIndex"@ {
            Some(ShowParam::SnapshotIndex)
        } else if name == "showStorageType"@ {
            Some(ShowParam::StorageType)
        } else if name == "showUID"@ {
            Some(ShowParam::Uid)
        } else if name == "showUUID"@ {
            Some(ShowParam::Uuid)
        } else {
            None
        }
    }

    /// The parameter as events report it: its wire name, and whether it is a
    /// typed variant.
    pub open spec fn model(self) -> ParamModel {
        ParamModel { name: self.wire_name(), typed: !(self is Other) }
    }

    /// The parameter a wire name decodes to, as events report it: the name,
    /// typed exactly when a typed variant carries it.
    #[verifier::opaque]
    pub open spec fn name_model(name: Seq<char>) -> ParamModel {
        ParamModel { name, typed: Self::known(name) is Some }
    }

    /// Map a wire property name to its typed [`ShowParam`] variant if known, without
    /// allocating.
    pub fn from_known_name(name: &str) -> (r: Option<ShowParam>)
        ensures
            r == Self::known(name@),
            r matches Some(p) ==> p.wire_name() == name@,
            r matches Some(p) ==> p.model() == Self::name_model(name@),
    {
        proof {
            reveal(ShowParam::name_model);
        }
        if str_eq(name, "showIcon") {
            return Some(ShowParam::Icon);
        }
        if str_eq(name, "showLastModification") {
            return Some(ShowParam::LastModification);
        }
        if str_eq(name, "showName") {
            return Some(ShowParam::Name);
        }
        if str_eq(name, "showSnapshotIndex") {
            return Some(ShowParam::SnapshotIndex);
        }
        if str_eq(name, "showStorageType") {
            return Some(ShowParam::StorageType);
        }
        if str_eq(name, "showUID") {
            return Some(ShowParam::Uid);
        }
        if str_eq(name, "showUUID") {
            return Some(ShowParam::Uuid);
        }
        None
    }

    /// Check if a wire property name matches a known [`ShowParam`] variant without
    /// allocating.
    pub fn is_known_name(name: &str) -> (r: bool)
        ensures
            r == Self::known(name@) is Some,
    {
        Self::from_known_name(name).is_some()
    }

    /// Map a wire property name to its typed [`ShowParam`] variant. Unknown names map
    /// to [`ShowParam::Other`], so this is total (never fails).
    pub fn from_name(name: &str) -> (r: ShowParam)
        ensures
            match Self::known(name@) {
                Some(p) => r == p,
                None => r matches ShowParam::Other(s) && s@ == name@,
            },
            r.wire_name() == name@,
            r.model() == Self::name_model(name@),
    {
        proof {
            reveal(ShowParam::name_model);
        }
        match Self::from_known_name(name) {
            Some(p) => p,
            None => ShowParam::Other(name.to_owned()),
        }
    }

    /// The wire property name for this parameter (inverse of [`ShowParam::from_name`]).
    pub fn as_str(&self) -> (r: &str)
        ensures
            r@ == self.wire_name(),
    {
        match self {
            ShowParam::Icon => "showIcon",
            ShowParam::LastModification => "showLastModification",
            ShowParam::Name => "showName",
            ShowParam::SnapshotIndex => "showSnapshotIndex",
            ShowParam::StorageType => "showStorageType",
            ShowParam::Uid => "showUID",
            ShowParam::Uuid => "showUUID",
            ShowParam::Other(s) => s.as_str(),
        }
    }

    /// The wire property name as an owned string.
    pub fn to_string(&self) -> (r: String)
        ensures
            r@ == self.wire_name(),
    {
        self.as_str().to_owned()
    }

    /// `true` if this is a typed variant (not [`ShowParam::Other`]).
    pub fn is_known(&self) -> (r: bool)
        ensures
            r == !(self is Other),
    {
        !matches!(self, ShowParam::Other(_))
    }
}

impl Clone for ShowParam {
    fn clone(&self) -> (r: Self)
        ensures
            r.wire_name() == self.wire_name(),
            self is Other ==> r is Other,
            !(self is Other) ==> r == *self,
    {
        match self {
            ShowParam::Icon => ShowParam::Icon,
            ShowParam::LastModification => ShowParam::LastModification,
            ShowParam::Name => ShowParam::Name,
            ShowParam::SnapshotIndex => ShowParam::SnapshotIndex,
            ShowParam::StorageType => ShowParam::StorageType,
            ShowParam::Uid => ShowParam::Uid,
            ShowParam::Uuid => ShowParam::Uuid,
            ShowParam::Other(s) => ShowParam::Other(s.clone()),
        }
    }
}

/// Every typed [`ShowParam`] variant is found again from its wire name.
pub proof fn lemma_show_param_name_round_trip(p: ShowParam)
    requires
        !(p is Other),
    ensures
        ShowParam::known(p.wire_name()) == Some(p),
        no_nul(p.wire_name()),
{
    reveal_strlit("showIcon");
    reveal_strlit("showLastModification");
    reveal_strlit("showName");
    reveal_strlit("showSnapshotIndex");
    reveal_strlit("showStorageType");
    reveal_strlit("showUID");
    reveal_strlit("showUUID");
    assert("showIcon"@.len() == 8);
    assert("showLastModification"@.len() == 20);
    assert("showName"@.len() == 8);
    assert("showSnapshotIndex"@.len() == 17);
    assert("showStorageType"@.len() == 15);
    assert("showUID"@.len() == 7);
    assert("showUUID"@.len() == 8);
    assert("showIcon"@[4] != "showName"@[4]);
    assert("showIcon"@[4] != "showUUID"@[4]);
    assert("showName"@[4] != "showUUID"@[4]);
}

/// A currently-loaded-show parameter: one of the flat properties the
/// device carries on the singleton `CURRENTSHOW` node. Reflects which
/// [`ShowParam`]-addressed show is currently active on the device.
#[derive(Debug, PartialEq, Eq, Hash)]
#[non_exhaustive]
pub enum CurrentShowParam {
    Icon,
    Name,
    Uuid,
    /// A property without a typed [`CurrentShowParam`] identifier yet. Holds the raw wire
    /// name; the value still rides in the carrying event/command.
    Other(String),
}

impl CurrentShowParam {
    /// The wire property name.
    pub open spec fn wire_name(self) -> Seq<char> {
        match self {
            CurrentShowParam::Icon => "currentShowIcon"@,
            CurrentShowParam::Name => "currentShowName"@,
            CurrentShowParam::Uuid => "currentShowUUID"@,
            CurrentShowParam::Other(s) => s@,
        }
    }

    /// The typed variant a wire name denotes, if any.
    pub open spec fn known(name: Seq<char>) -> Option<CurrentShowParam> {
        if name == "currentShowIcon"@ {
            Some(CurrentShowParam::Icon)
        } else if name == "currentShowName"@ {
            Some(CurrentShowParam::Name)
        } else if name == "currentShowUUID"@ {
            Some(CurrentShowParam::Uuid)
        } else {
            None
        }
    }

    /// The parameter as events report it: its wire name, and whether it is a
    /// typed variant.
    pub open spec fn model(self) -> ParamModel {
        ParamModel { name: self.wire_name(), typed: !(self is Other) }
    }

    /// The parameter a wire name decodes to, as events report it: the name,
    /// typed exactly when a typed variant carries it.
    #[verifier::opaque]
    pub open spec fn name_model(name: Seq<char>) -> ParamModel {
        ParamModel { name, typed: Self::known(name) is Some }
    }

    /// Map a wire property name to its typed [`CurrentShowParam`] variant if known, without
    /// allocating.
    pub fn from_known_name(name: &str) -> (r: Option<CurrentShowParam>)
        ensures
            r == Self::known(name@),
            r matches Some(p) ==> p.wire_name() == name@,
            r matches Some(p) ==> p.model() == Self::name_model(name@),
    {
        proof {
            reveal(CurrentShowParam::name_model);
        }
        if str_eq(name, "currentShowIcon") {
            return Some(CurrentShowParam::Icon);
        }
        if str_eq(name, "currentShowName") {
            return Some(CurrentShowParam::Name);
        }
        if str_eq(name, "currentShowUUID") {
            return Some(CurrentShowParam::Uuid);
        }
        None
    }

    /// Check if a wire property name matches a known [`CurrentShowParam`] variant without
    /// allocating.
    pub fn is_known_name(name: &str) -> (r: bool)
        ensures
            r == Self::known(name@) is Some,
    {
        Self::from_known_name(name).is_some()
    }

    /// Map a wire property name to its typed [`CurrentShowParam`] variant. Unknown names map
    /// to [`CurrentShowParam::Other`], so this is total (never fails).
    pub fn from_name(name: &str) -> (r: CurrentShowParam)
        ensures
            match Self::known(name@) {
                Some(p) => r == p,
                None => r matches CurrentShowParam::Other(s) && s@ == name@,
            },
            r.wire_name() == name@,
            r.model() == Self::name_model(name@),
    {
        proof {
            reveal(CurrentShowParam::name_model);
        }
        match Self::from_known_name(name) {
            Some(p) => p,
            None => CurrentShowParam::Other(name.to_owned()),
        }
    }

    /// The wire property name for this parameter (inverse of [`CurrentShowParam::from_name`]).
    pub fn as_str(&self) -> (r: &str)
        ensures
            r@ == self.wire_name(),
    {
        match self {
            CurrentShowParam::Icon => "currentShowIcon",
            CurrentShowParam::Name => "currentShowName",
            CurrentShowParam::Uuid => "currentShowUUID",
            CurrentShowParam::Other(s) => s.as_str(),
        }
    }

    /// The wire property name as an owned string.
    pub fn to_string(&self) -> (r: String)
        ensures
            r@ == self.wire_name(),
    {
        self.as_str().to_owned()
    }

    /// `true` if this is a typed variant (not [`CurrentShowParam::Other`]).
    pub fn is_known(&self) -> (r: bool)
        ensures
            r == !(self is Other),
    {
        !matches!(self, CurrentShowParam::Other(_))
    }
}

impl Clone for CurrentShowParam {
    fn clone(&self) -> (r: Self)
        ensures
            r.wire_name() == self.wire_name(),
            self is Other ==> r is Other,
            !(self is Other) ==> r == *self,
    {
        match self {
            CurrentShowParam::Icon => CurrentShowParam::Icon,
            CurrentShowParam::Name => CurrentShowParam::Name,
            CurrentShowParam::Uuid => CurrentShowParam::Uuid,
            CurrentShowParam::Other(s) => CurrentShowParam::Other(s.clone()),
        }
    }
}

/// Every typed [`CurrentShowParam`] variant is found again from its wire name.
pub proof fn lemma_current_show_param_name_round_trip(p: CurrentShowParam)
    requires
        !(p is Other),
    ensures
        CurrentShowParam::known(p.wire_name()) == Some(p),
        no_nul(p.wire_name()),
{
    reveal_strlit("currentShowIcon");
    reveal_strlit("currentShowName");
    reveal_strlit("currentShowUUID");
    assert("currentShowIcon"@.len() == 15);
    assert("currentShowName"@.len() == 15);
    assert("currentShowUUID"@.len() == 15);
    assert("currentShowIcon"@[11] != "currentShowName"@[11]);
    assert("currentShowIcon"@[11] != "currentShowUUID"@[11]);
    assert("currentShowName"@[11] != "currentShowUUID"@[11]);
}

/// A show-lifecycle-command parameter: one of the flat properties the
/// device carries on the singleton `SHOWCONTROL` node. This is the
/// write channel for creating, deleting, exporting, and importing
/// shows (`showControlDelete`, `showControlExport`, `showControlImport`,
/// `showControlNewFromDefault*`), plus the read-back `showControlProgress`
/// and `showControlLastError` for observing an in-progress action.
#[derive(Debug, PartialEq, Eq, Hash)]
#[non_exhaustive]
pub enum ShowControlParam {
    Delete,
    Export,
    ExportImport,
    Import,
    LastError,
    LockoutCentral,
    NewFromDefault,
    NewFromDefaultMuted,
    Progress,
    Updating,
    /// A property without a typed [`ShowControlParam`] identifier yet. Holds the raw wire
    /// name; the value still rides in the carrying event/command.
    Other(String),
}

impl ShowControlParam {
    /// The wire property name.
    pub open spec fn wire_name(self) -> Seq<char> {
        match self {
            ShowControlParam::Delete => "showControlDelete"@,
            ShowControlParam::Export => "showControlExport"@,
            ShowControlParam::ExportImport => "showControlExportImport"@,
            ShowControlParam::Import => "showControlImport"@,
            ShowControlParam::LastError => "showControlLastError"@,
            ShowControlParam::LockoutCentral => "showControlLockoutCentral"@,
            ShowControlParam::NewFromDefault => "showControlNewFromDefault"@,
            ShowControlParam::NewFromDefaultMuted => "showControlNewFromDefaultMuted"@,
            ShowControlParam::Progress => "showControlProgress"@,
            ShowControlParam::Updating => "showControlUpdating"@,
            ShowControlParam::Other(s) => s@,
        }
    }

    /// The typed variant a wire name denotes, if any.
    pub open spec fn known(name: Seq<char>) -> Option<ShowControlParam> {
        if name == "showControlDelete"@ {
            Some(ShowControlParam::Delete)
        } else if name == "showControlExport"@ {
            Some(ShowControlParam::Export)
        } else if name == "showControlExportImport"@ {
            Some(ShowControlParam::ExportImport)
        } else if name == "showControlImport"@ {
            Some(ShowControlParam::Import)
        } else if name == "showControlLastError"@ {
            Some(ShowControlParam::LastError)
        } else if name == "showControlLockoutCentral"@ {
            Some(ShowControlParam::LockoutCentral)
        } else if name == "showControlNewFromDefault"@ {
            Some(ShowControlParam::NewFromDefault)
        } else if name == "showControlNewFromDefaultMuted"@ {
            Some(ShowControlParam::NewFromDefaultMuted)
        } else if name == "showControlProgress"@ {
            Some(ShowControlParam::Progress)
        } else if name == "showControlUpdating"@ {
            Some(ShowControlParam::Updating)
        } else {
            None
        }
    }

    /// The parameter as events report it: its wire name, and whether it is a
    /// typed variant.
    pub open spec fn model(self) -> ParamModel {
        ParamModel { name: self.wire_name(), typed: !(self is Other) }
    }

    /// The parameter a wire name decodes to, as events report it: the name,
    /// typed exactly when a typed variant carries it.
    #[verifier::opaque]
    pub open spec fn name_model(name: Seq<char>) -> ParamModel {
        ParamModel { name, typed: Self::known(name) is Some }
    }

    /// Map a wire property name to its typed [`ShowControlParam`] variant if known, without
    /// allocating.
    pub fn from_known_name(name: &str) -> (r: Option<ShowControlParam>)
        ensures
            r == Self::known(name@),
            r matches Some(p) ==> p.wire_name() == name@,
            r matches Some(p) ==> p.model() == Self::name_model(name@),
    {
        proof {
            reveal(ShowControlParam::name_model);
        }
        if str_eq(name, "showControlDelete") {
            return Some(ShowControlParam::Delete);
        }
        if str_eq(name, "showControlExport") {
            return Some(ShowControlParam::Export);
        }
        if str_eq(name, "showControlExportImport") {
            return Some(ShowControlParam::ExportImport);
        }
        if str_eq(name, "showControlImport") {
            return Some(ShowControlParam::Import);
        }
        if str_eq(name, "showControlLastError") {
            return Some(ShowControlParam::LastError);
        }
        if str_eq(name, "showControlLockoutCentral") {
            return Some(ShowControlParam::LockoutCentral);
        }
        if str_eq(name, "showControlNewFromDefault") {
            return Some(ShowControlParam::NewFromDefault);
        }
        if str_eq(name, "showControlNewFromDefaultMuted") {
            return Some(ShowControlParam::NewFromDefaultMuted);
        }
        if str_eq(name, "showControlProgress") {
            return Some(ShowControlParam::Progress);
        }
        if str_eq(name, "showControlUpdating") {
            return Some(ShowControlParam::Updating);
        }
        None
    }

    /// Check if a wire property name matches a known [`ShowControlParam`] variant without
    /// allocating.
    pub fn is_known_name(name: &str) -> (r: bool)
        ensures
            r == Self::known(name@) is Some,
    {
        Self::from_known_name(name).is_some()
    }

    /// Map a wire property name to its typed [`ShowControlParam`] variant. Unknown names map
    /// to [`ShowControlParam::Other`], so this is total (never fails).
    pub fn from_name(name: &str) -> (r: ShowControlParam)
        ensures
            match Self::known(name@) {
                Some(p) => r == p,
                None => r matches ShowControlParam::Other(s) && s@ == name@,
            },
            r.wire_name() == name@,
            r.model() == Self::name_model(name@),
    {
        proof {
            reveal(ShowControlParam::name_model);
        }
        match Self::from_known_name(name) {
            Some(p) => p,
            None => ShowControlParam::Other(name.to_owned()),
        }
    }

    /// The wire property name for this parameter (inverse of [`ShowControlParam::from_name`]).
    pub fn as_str(&self) -> (r: &str)
        ensures
            r@ == self.wire_name(),
    {
        match self {
            ShowControlParam::Delete => "showControlDelete",
            ShowControlParam::Export => "showControlExport",
            ShowControlParam::ExportImport => "showControlExportImport",
            ShowControlParam::Import => "showControlImport",
            ShowControlParam::LastError => "showControlLastError",
            ShowControlParam::LockoutCentral => "showControlLockoutCentral",
            ShowControlParam::NewFromDefault => "showControlNewFromDefault",
            ShowControlParam::NewFromDefaultMuted => "showControlNewFromDefaultMuted",
            ShowControlParam::Progress => "showControlProgress",
            ShowControlParam::Updating => "showControlUpdating",
            ShowControlParam::Other(s) => s.as_str(),
        }
    }

    /// The wire property name as an owned string.
    pub fn to_string(&self) -> (r: String)
        ensures
            r@ == self.wire_name(),
    {
        self.as_str().to_owned()
    }

    /// `true` if this is a typed variant (not [`ShowControlParam::Other`]).
    pub fn is_known(&self) -> (r: bool)
        ensures
            r == !(self is Other),
    {
        !matches!(self, ShowControlParam::Other(_))
    }
}

impl Clone for ShowControlParam {
    fn clone(&self) -> (r: Self)
        ensures
            r.wire_name() == self.wire_name(),
            self is Other ==> r is Other,
            !(self is Other) ==> r == *self,
    {
        match self {
            ShowControlParam::Delete => ShowControlParam::Delete,
            ShowControlParam::Export => ShowControlParam::Export,
            ShowControlParam::ExportImport => ShowControlParam::ExportImport,
            ShowControlParam::Import => ShowControlParam::Import,
            ShowControlParam::LastError => ShowControlParam::LastError,
            ShowControlParam::LockoutCentral => ShowControlParam::LockoutCentral,
            ShowControlParam::NewFromDefault => ShowControlParam::NewFromDefault,
            ShowControlParam::NewFromDefaultMuted => ShowControlParam::NewFromDefaultMuted,
            ShowControlParam::Progress => ShowControlParam::Progress,
            ShowControlParam::Updating => ShowControlParam::Updating,
            ShowControlParam::Other(s) => ShowControlParam::Other(s.clone()),
        }
    }
}

/// Every typed [`ShowControlParam`] variant is found again from its wire name.
pub proof fn lemma_show_control_param_name_round_trip(p: ShowControlParam)
    requires
        !(p is Other),
    ensures
        ShowControlParam::known(p.wire_name()) == Some(p),
        no_nul(p.wire_name()),
{
    reveal_strlit("showControlDelete");
    reveal_strlit("showControlExport");
    reveal_strlit("showControlExportImport");
    reveal_strlit("showControlImport");
    reveal_strlit("showControlLastError");
    reveal_strlit("showControlLockoutCentral");
    reveal_strlit("showControlNewFromDefault");
    reveal_strlit("showControlNewFromDefaultMuted");
    reveal_strlit("showControlProgress");
    reveal_strlit("showControlUpdating");
    assert("showControlDelete"@.len() == 17);
    assert("showControlExport"@.len() == 17);
    assert("showControlExportImport"@.len() == 23);
    assert("showControlImport"@.len() == 17);
    assert("showControlLastError"@.len() == 20);
    assert("showControlLockoutCentral"@.len() == 25);
    assert("showControlNewFromDefault"@.len() == 25);
    assert("showControlNewFromDefaultMuted"@.len() == 30);
    assert("showControlProgress"@.len() == 19);
    assert("showControlUpdating"@.len() == 19);
    assert("showControlDelete"@[11] != "showControlExport"@[11]);
    assert("showControlDelete"@[11] != "showControlImport"@[11]);
    assert("showControlExport"@[11] != "showControlImport"@[11]);
    assert("showControlLockoutCentral"@[11] != "showControlNewFromDefault"@[11]);
    assert("showControlProgress"@[11] != "showControlUpdating"@[11]);
}

} // verus!
