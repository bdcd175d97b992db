//! The registry: the records of all three kinds, each in its slot.

use vstd::prelude::*;

use crate::identity::Identity;
use crate::model::RegistryView;
use crate::record::{FileMetadata, SharedAccess, UserRSAKey};
use crate::slot::{
    find_file_metadata_slot, find_shared_access_slot, find_user_key_slot, SlotAddress,
};
use crate::table::SlotTable;

verus! {

/// The records that one program keeps.
pub struct Registry {
    program_id: Identity,
    user_keys: SlotTable<UserRSAKey>,
    files: SlotTable<FileMetadata>,
    shares: SlotTable<SharedAccess>,
}

impl View for Registry {
    type V = RegistryView;

    closed spec fn view(&self) -> RegistryView {
        RegistryView {
            program_id: self.program_id@,
            user_keys: self.user_keys@,
            files: self.files@,
            shares: self.shares@,
        }
    }
}

impl Registry {
    /// The registry of the program `program_id`, with no record in it.
    pub fn new(program_id: Identity) -> (registry: Registry)
        ensures
            registry@ == RegistryView::empty(program_id@),
    {
        Registry {
            program_id,
            user_keys: SlotTable::new(),
            files: SlotTable::new(),
            shares: SlotTable::new(),
        }
    }

    /// The program that owns the slots of this registry.
    pub fn program_id(&self) -> (id: Identity)
        ensures
            id@ == self@.program_id,
    {
        self.program_id
    }

    /// The RSA key record of `owner`, if there is one.
    pub fn user_key(&self, owner: &Identity) -> (found: Option<&UserRSAKey>)
        ensures
            match found {
                Some(record) => self@.user_key_of(owner@) == Some(record@),
                None => self@.user_key_of(owner@) is None,
            },
    {
        match find_user_key_slot(&self.program_id, owner) {
            Some(slot) => self.user_keys.get(&slot),
            None => None,
        }
    }

    /// The metadata of the file `cid`, if there is any.
    pub fn file_metadata(&self, cid: &str) -> (found: Option<&FileMetadata>)
        ensures
            match found {
                Some(record) => self@.file_metadata_of(cid@) == Some(record@),
                None => self@.file_metadata_of(cid@) is None,
            },
    {
        match find_file_metadata_slot(&self.program_id, cid) {
            Some(slot) => self.files.get(&slot),
            None => None,
        }
    }

    /// The grant that lets `grantee` open the file `cid`, if there is one.
    pub fn shared_access(&self, cid: &str, grantee: &Identity) -> (found: Option<&SharedAccess>)
        ensures
            match found {
                Some(record) => self@.shared_access_of(cid@, grantee@) == Some(record@),
                None => self@.shared_access_of(cid@, grantee@) is None,
            },
    {
        match find_shared_access_slot(&self.program_id, cid, grantee) {
            Some(slot) => self.shares.get(&slot),
            None => None,
        }
    }

    /// Puts an RSA key record in `slot`, in place of what was there.
    pub(crate) fn put_user_key(&mut self, slot: SlotAddress, record: UserRSAKey)
        ensures
            final(self)@ == (RegistryView {
                user_keys: old(self)@.user_keys.insert(slot@, record@),
                ..old(self)@
            }),
    {
        self.user_keys.put(slot, record);
    }

    /// Puts file metadata in `slot`, in place of what was there.
    pub(crate) fn put_file_metadata(&mut self, slot: SlotAddress, record: FileMetadata)
        ensures
            final(self)@ == (RegistryView {
                files: old(self)@.files.insert(slot@, record@),
                ..old(self)@
            }),
    {
        self.files.put(slot, record);
    }

    /// Whether a grant occupies `slot`.
    pub(crate) fn has_shared_access(&self, slot: &SlotAddress) -> (occupied: bool)
        ensures
            occupied == self@.shares.contains_key(slot@),
    {
        self.shares.contains(slot)
    }

    /// Puts a grant in `slot`.
    pub(crate) fn put_shared_access(&mut self, slot: SlotAddress, record: SharedAccess)
        ensures
            final(self)@ == (RegistryView {
                shares: old(self)@.shares.insert(slot@, record@),
                ..old(self)@
            }),
    {
        self.shares.put(slot, record);
    }
}

} // verus!
