//! [`StorageVolumeParam`]: per-`STORAGEVOLUME`-node parameter family.

use vstd::prelude::*;

use crate::names::ParamModel;
use crate::text::{no_nul, str_eq};

verus! {

/// A storage-volume parameter: one of the flat properties the device
/// carries on each `STORAGEVOLUME` node. Read-back state describes the
/// volume's capacity, free bytes, mount + format status, and the pipe-
/// separated `storageVolumeState` progress string that the device
/// updates live during recording (`total|used|f|f|f`). Command channel
/// props (`Eject`, `Erase`, `Transfer`) request device-side actions.
#[derive(Debug, PartialEq, Eq, Hash)]
#[non_exhaustive]
pub enum StorageVolumeParam {
    Name,
    Capacity,
    Free,
    Inserted,
    Mounted,
    Formatted,
    RecDestination,
    State,
    Eject,
    Erase,
    Transfer,
    /// A property without a typed [`StorageVolumeParam`] identifier yet. Holds the raw wire
    /// name; the value still rides in the carrying event/command.
    Other(String),
}

impl StorageVolumeParam {
    /// The wire property name.
    pub open spec fn wire_name(self) -> Seq<char> {
        match self {
            StorageVolumeParam::Name => "storageVolumeName"@,
            StorageVolumeParam::Capacity => "storageVolumeCapacity"@,
            StorageVolumeParam::Free => "storageVolumeFree"@,
            StorageVolumeParam::Inserted => "storageVolumeInserted"@,
            StorageVolumeParam::Mounted => "storageVolumeMounted"@,
            StorageVolumeParam::Formatted => "storageVolumeFormatted"@,
            StorageVolumeParam::RecDestination => "storageVolumeRecDestination"@,
            StorageVolumeParam::State => "storageVolumeState"@,
            StorageVolumeParam::Eject => "storageVolumeEject"@,
            StorageVolumeParam::Erase => "storageVolumeErase"@,
            StorageVolumeParam::Transfer => "storageVolumeTransfer"@,
            StorageVolumeParam::Other(s) => s@,
        }
    }

    /// The typed variant a wire name denotes, if any.
    pub open spec fn known(name: Seq<char>) -> Option<StorageVolumeParam> {
        if name == "storageVolumeName"@ {
            Some(StorageVolumeParam::Name)
        } else if name == "storageVolumeCapacity"@ {
            Some(StorageVolumeParam::Capacity)
        } else if name == "storageVolumeFree"@ {
            Some(StorageVolumeParam::Free)
        } else if name == "storageVolumeInserted"@ {
            Some(StorageVolumeParam::Inserted)
        } else if name == "storageVolumeMounted"@ {
            Some(StorageVolumeParam::Mounted)
        } else if name == "storageVolumeFormatted"@ {
            Some(StorageVolumeParam::Formatted)
        } else if name == "storageVolumeRecDestination"@ {
            Some(StorageVolumeParam::RecDestination)
        } else if name == "storageVolumeState"@ {
            Some(StorageVolumeParam::State)
        } else if name == "storageVolumeEject"@ {
            Some(StorageVolumeParam::Eject)
        } else if name == "storageVolumeErase"@ {
            Some(StorageVolumeParam::Erase)
        } else if name == "storageVolumeTransfer"@ {
            Some(StorageVolumeParam::Transfer)
        } else {
            None
        }
    }

    /// The parameter as events report it: its wire name, and whether it is a
    /// typed variant.
    pub open spec fn model(self) -> ParamModel {
        ParamModel { name: self.wire_name(), typed: !(self is Other) }
    }

    /// The parameter a wire name decodes to, as events report it: the name,
    /// typed exactly when a typed variant carries it.
    #[verifier::opaque]
    pub open spec fn name_model(name: Seq<char>) -> ParamModel {
        ParamModel { name, typed: Self::known(name) is Some }
    }

    /// Map a wire property name to its typed [`StorageVolumeParam`] variant if known, without
    /// allocating.
    pub fn from_known_name(name: &str) -> (r: Option<StorageVolumeParam>)
        ensures
            r == Self::known(name@),
            r matches Some(p) ==> p.wire_name() == name@,
            r matches Some(p) ==> p.model() == Self::name_model(name@),
    {
        proof {
            reveal(StorageVolumeParam::name_model);
        }
        if str_eq(name, "storageVolumeName") {
            return Some(StorageVolumeParam::Name);
        }
        if str_eq(name, "storageVolumeCapacity") {
            return Some(StorageVolumeParam::Capacity);
        }
        if str_eq(name, "storageVolumeFree") {
            return Some(StorageVolumeParam::Free);
        }
        if str_eq(name, "storageVolumeInserted") {
            return Some(StorageVolumeParam::Inserted);
        }
        if str_eq(name, "storageVolumeMounted") {
            return Some(StorageVolumeParam::Mounted);
        }
        if str_eq(name, "storageVolumeFormatted") {
            return Some(StorageVolumeParam::Formatted);
        }
        if str_eq(name, "storageVolumeRecDestination") {
            return Some(StorageVolumeParam::RecDestination);
        }
        if str_eq(name, "storageVolumeState") {
            return Some(StorageVolumeParam::State);
        }
        if str_eq(name, "storageVolumeEject") {
            return Some(StorageVolumeParam::Eject);
        }
        if str_eq(name, "storageVolumeErase") {
            return Some(StorageVolumeParam::Erase);
        }
        if str_eq(name, "storageVolumeTransfer") {
            return Some(StorageVolumeParam::Transfer);
        }
        None
    }

    /// Check if a wire property name matches a known [`StorageVolumeParam`] variant without
    /// allocating.
    pub fn is_known_name(name: &str) -> (r: bool)
        ensures
            r == Self::known(name@) is Some,
    {
        Self::from_known_name(name).is_some()
    }

    /// Map a wire property name to its typed [`StorageVolumeParam`] variant. Unknown names map
    /// to [`StorageVolumeParam::Other`], so this is total (never fails).
    pub fn from_name(name: &str) -> (r: StorageVolumeParam)
        ensures
            match Self::known(name@) {
                Some(p) => r == p,
                None => r matches StorageVolumeParam::Other(s) && s@ == name@,
            },
            r.wire_name() == name@,
            r.model() == Self::name_model(name@),
    {
        proof {
            reveal(StorageVolumeParam::name_model);
        }
        match Self::from_known_name(name) {
            Some(p) => p,
            None => StorageVolumeParam::Other(name.to_owned()),
        }
    }

    /// The wire property name for this parameter (inverse of [`StorageVolumeParam::from_name`]).
    pub fn as_str(&self) -> (r: &str)
        ensures
            r@ == self.wire_name(),
    {
        match self {
            StorageVolumeParam::Name => "storageVolumeName",
            StorageVolumeParam::Capacity => "storageVolumeCapacity",
            StorageVolumeParam::Free => "storageVolumeFree",
            StorageVolumeParam::Inserted => "storageVolumeInserted",
            StorageVolumeParam::Mounted => "storageVolumeMounted",
            StorageVolumeParam::Formatted => "storageVolumeFormatted",
            StorageVolumeParam::RecDestination => "storageVolumeRecDestination",
            StorageVolumeParam::State => "storageVolumeState",
            StorageVolumeParam::Eject => "storageVolumeEject",
            StorageVolumeParam::Erase => "storageVolumeErase",
            StorageVolumeParam::Transfer => "storageVolumeTransfer",
            StorageVolumeParam::Other(s) => s.as_str(),
        }
    }

    /// The wire property name as an owned string.
    pub fn to_string(&self) -> (r: String)
        ensures
            r@ == self.wire_name(),
    {
        self.as_str().to_owned()
    }

    /// `true` if this is a typed variant (not [`StorageVolumeParam::Other`]).
    pub fn is_known(&self) -> (r: bool)
        ensures
            r == !(self is Other),
    {
        !matches!(self, StorageVolumeParam::Other(_))
    }
}

impl Clone for StorageVolumeParam {
    fn clone(&self) -> (r: Self)
        ensures
            r.wire_name() == self.wire_name(),
            self is Other ==> r is Other,
            !(self is Other) ==> r == *self,
    {
        match self {
            StorageVolumeParam::Name => StorageVolumeParam::Name,
            StorageVolumeParam::Capacity => StorageVolumeParam::Capacity,
            StorageVolumeParam::Free => StorageVolumeParam::Free,
            StorageVolumeParam::Inserted => StorageVolumeParam::Inserted,
            StorageVolumeParam::Mounted => StorageVolumeParam::Mounted,
            StorageVolumeParam::Formatted => StorageVolumeParam::Formatted,
            StorageVolumeParam::RecDestination => StorageVolumeParam::RecDestination,
            StorageVolumeParam::State => StorageVolumeParam::State,
            StorageVolumeParam::Eject => StorageVolumeParam::Eject,
            StorageVolumeParam::Erase => StorageVolumeParam::Erase,
            StorageVolumeParam::Transfer => StorageVolumeParam::Transfer,
            StorageVolumeParam::Other(s) => StorageVolumeParam::Other(s.clone()),
        }
    }
}

/// Every typed [`StorageVolumeParam`] variant is found again from its wire name.
pub proof fn lemma_storage_volume_param_name_round_trip(p: StorageVolumeParam)
    requires
        !(p is Other),
    ensures
        StorageVolumeParam::known(p.wire_name()) == Some(p),
        no_nul(p.wire_name()),
{
    reveal_strlit("storageVolumeName");
    reveal_strlit("storageVolumeCapacity");
    reveal_strlit("storageVolumeFree");
    reveal_strlit("storageVolumeInserted");
    reveal_strlit("storageVolumeMounted");
    reveal_strlit("storageVolumeFormatted");
    reveal_strlit("storageVolumeRecDestination");
    reveal_strlit("storageVolumeState");
    reveal_strlit("storageVolumeEject");
    reveal_strlit("storageVolumeErase");
    reveal_strlit("storageVolumeTransfer");
    assert("storageVolumeName"@.len() == 17);
    assert("storageVolumeCapacity"@.len() == 21);
    assert("storageVolumeFree"@.len() == 17);
    assert("storageVolumeInserted"@.len() == 21);
    assert("storageVolumeMounted"@.len() == 20);
    assert("storageVolumeFormatted"@.len() == 22);
    assert("storageVolumeRecDestination"@.len() == 27);
    assert("storageVolumeState"@.len() == 18);
    assert("storageVolumeEject"@.len() == 18);
    assert("storageVolumeErase"@.len() == 18);
    assert("storageVolumeTransfer"@.len() == 21);
    assert("storageVolumeName"@[13] != "storageVolumeFree"@[13]);
    assert("storageVolumeCapacity"@[13] != "storageVolumeInserted"@[13]);
    assert("storageVolumeCapacity"@[13] != "storageVolumeTransfer"@[13]);
    assert("storageVolumeInserted"@[13] != "storageVolumeTransfer"@[13]);
    assert("storageVolumeState"@[13] != "storageVolumeEject"@[13]);
    assert("storageVolumeState"@[13] != "storageVolumeErase"@[13]);
    assert("storageVolumeEject"@[14] != "storageVolumeErase"@[14]);
}

} // verus!
