//! The registry as a mathematical object, and what each operation does to it.
//!
//! A registry is three maps from slot addresses to records, one for
//! each kind of record, so that records of different kinds never share a
//! slot. Each operation is a function from the registry before it, and the
//! request, to the registry after it and the answer. The checks of an
//! operation are made in a fixed order, and the first that fails gives the
//! error; a refused operation leaves the registry as it was.

use vstd::prelude::*;

use crate::context::{GetKey, Initialize, ShareFileAccess, StoreFileMetadata, StoreKey};
use crate::error::RegistryError;
use crate::record::{
    FileMetadata, FileMetadataView, SharedAccess, SharedAccessView, UserRSAKey, UserRSAKeyView,
};
use crate::slot::{file_metadata_slot, shared_access_slot, user_key_slot};

verus! {

/// The registry as three maps from slot addresses to records.
pub struct RegistryView {
    /// Identity of the program that owns the slots.
    pub program_id: Seq<u8>,
    /// The RSA keys, by the slot of their owner.
    pub user_keys: Map<Seq<u8>, UserRSAKeyView>,
    /// The file metadata, by the slot of the content identifier.
    pub files: Map<Seq<u8>, FileMetadataView>,
    /// The grants, by the slot of content identifier and grantee.
    pub shares: Map<Seq<u8>, SharedAccessView>,
}

/// The metadata that `store_file_metadata` writes for a request at a time.
pub open spec fn stored_file_metadata(
    ctx: StoreFileMetadata,
    cid: Seq<char>,
    key_cid: Seq<char>,
    is_public: bool,
    timestamp: i64,
) -> FileMetadataView {
    FileMetadataView { cid, key_cid, uploader: ctx.uploader.key@, timestamp, is_public }
}

/// The grant that `share_file_access` writes for a request at a time.
pub open spec fn stored_shared_access(
    ctx: ShareFileAccess,
    cid: Seq<char>,
    shared_key_cid: Seq<char>,
    timestamp: i64,
) -> SharedAccessView {
    SharedAccessView {
        cid,
        shared_key_cid,
        shared_by: ctx.sharer.key@,
        shared_with: ctx.shared_with@,
        timestamp,
    }
}

impl RegistryView {
    /// The registry of `program_id` with every slot vacant.
    pub open spec fn empty(program_id: Seq<u8>) -> RegistryView {
        RegistryView {
            program_id,
            user_keys: Map::empty(),
            files: Map::empty(),
            shares: Map::empty(),
        }
    }

    /// The RSA key record of `owner`, if there is one.
    pub open spec fn user_key_of(self, owner: Seq<u8>) -> Option<UserRSAKeyView> {
        match user_key_slot(self.program_id, owner) {
            Some(slot) => if self.user_keys.contains_key(slot) {
                Some(self.user_keys[slot])
            } else {
                None
            },
            None => None,
        }
    }

    /// The metadata of the file `cid`, if there is any.
    pub open spec fn file_metadata_of(self, cid: Seq<char>) -> Option<FileMetadataView> {
        match file_metadata_slot(self.program_id, cid) {
            Some(slot) => if self.files.contains_key(slot) {
                Some(self.files[slot])
            } else {
                None
            },
            None => None,
        }
    }

    /// The grant that lets `grantee` open the file `cid`, if there is one.
    pub open spec fn shared_access_of(self, cid: Seq<char>, grantee: Seq<u8>) -> Option<
        SharedAccessView,
    > {
        match shared_access_slot(self.program_id, cid, grantee) {
            Some(slot) => if self.shares.contains_key(slot) {
                Some(self.shares[slot])
            } else {
                None
            },
            None => None,
        }
    }

    /// `initialize` succeeds and changes nothing.
    pub open spec fn initialize(self, ctx: Initialize) -> (RegistryView, Result<(), RegistryError>) {
        (self, Ok(()))
    }

    /// The slot that `store_rsa_key` writes, or why it refuses: the user must
    /// have signed, a slot must exist for the user, and the key must fit.
    pub open spec fn admit_store_key(self, ctx: StoreKey, rsa_key: Seq<char>) -> Result<
        Seq<u8>,
        RegistryError,
    > {
        if !ctx.user.is_signer {
            Err(RegistryError::Unauthorized)
        } else {
            match user_key_slot(self.program_id, ctx.user.key@) {
                None => Err(RegistryError::SlotUnavailable),
                Some(slot) => if !UserRSAKey::admits(rsa_key) {
                    Err(RegistryError::CapacityExceeded)
                } else {
                    Ok(slot)
                },
            }
        }
    }

    /// `store_rsa_key` puts the key in the slot of the user, in place of any
    /// key that was there.
    pub open spec fn store_rsa_key(self, ctx: StoreKey, rsa_key: Seq<char>) -> (
        RegistryView,
        Result<(), RegistryError>,
    ) {
        match self.admit_store_key(ctx, rsa_key) {
            Ok(slot) => (
                RegistryView {
                    user_keys: self.user_keys.insert(slot, UserRSAKeyView { rsa_key }),
                    ..self
                },
                Ok(()),
            ),
            Err(e) => (self, Err(e)),
        }
    }

    /// `get_rsa_key` gives the key of the owner: there must be one, and the
    /// caller must have signed. An owner for whom no slot exists has no key.
    pub open spec fn get_rsa_key(self, ctx: GetKey) -> Result<Seq<char>, RegistryError> {
        match self.user_key_of(ctx.owner@) {
            None => Err(RegistryError::RecordNotFound),
            Some(record) => if !ctx.caller.is_signer {
                Err(RegistryError::Unauthorized)
            } else {
                Ok(record.rsa_key)
            },
        }
    }

    /// The slot that `store_file_metadata` writes, or why it refuses before it
    /// asks for the time: the uploader must have signed, and a slot must exist
    /// for the content identifier.
    pub open spec fn admit_store_file(self, ctx: StoreFileMetadata, cid: Seq<char>) -> Result<
        Seq<u8>,
        RegistryError,
    > {
        if !ctx.uploader.is_signer {
            Err(RegistryError::Unauthorized)
        } else {
            match file_metadata_slot(self.program_id, cid) {
                None => Err(RegistryError::SlotUnavailable),
                Some(slot) => Ok(slot),
            }
        }
    }

    /// `store_file_metadata`, with the ledger time that the host reports in
    /// `ledger_time`, puts the metadata in the slot of the content identifier,
    /// in place of any that was there, whoever stored that: the time must be
    /// known and both strings must fit.
    pub open spec fn store_file_metadata(
        self,
        ctx: StoreFileMetadata,
        cid: Seq<char>,
        key_cid: Seq<char>,
        is_public: bool,
        ledger_time: Option<i64>,
    ) -> (RegistryView, Result<(), RegistryError>) {
        match self.admit_store_file(ctx, cid) {
            Err(e) => (self, Err(e)),
            Ok(slot) => match ledger_time {
                None => (self, Err(RegistryError::ClockUnavailable)),
                Some(timestamp) => if !FileMetadata::admits(cid, key_cid) {
                    (self, Err(RegistryError::CapacityExceeded))
                } else {
                    (
                        RegistryView {
                            files: self.files.insert(
                                slot,
                                stored_file_metadata(ctx, cid, key_cid, is_public, timestamp),
                            ),
                            ..self
                        },
                        Ok(()),
                    )
                },
            },
        }
    }

    /// The slot that `share_file_access` fills, or why it refuses before it
    /// asks for the time: the sharer must have signed, a slot must exist for
    /// content identifier and grantee, and that slot must be vacant.
    pub open spec fn admit_share(self, ctx: ShareFileAccess, cid: Seq<char>) -> Result<
        Seq<u8>,
        RegistryError,
    > {
        if !ctx.sharer.is_signer {
            Err(RegistryError::Unauthorized)
        } else {
            match shared_access_slot(self.program_id, cid, ctx.shared_with@) {
                None => Err(RegistryError::SlotUnavailable),
                Some(slot) => if self.shares.contains_key(slot) {
                    Err(RegistryError::AlreadyExists)
                } else {
                    Ok(slot)
                },
            }
        }
    }

    /// `share_file_access`, with the ledger time that the host reports in
    /// `ledger_time`, puts the grant in the vacant slot of content identifier
    /// and grantee: the time must be known and both strings must fit.
    pub open spec fn share_file_access(
        self,
        ctx: ShareFileAccess,
        cid: Seq<char>,
        shared_key_cid: Seq<char>,
        ledger_time: Option<i64>,
    ) -> (RegistryView, Result<(), RegistryError>) {
        match self.admit_share(ctx, cid) {
            Err(e) => (self, Err(e)),
            Ok(slot) => match ledger_time {
                None => (self, Err(RegistryError::ClockUnavailable)),
                Some(timestamp) => if !SharedAccess::admits(cid, shared_key_cid) {
                    (self, Err(RegistryError::CapacityExceeded))
                } else {
                    (
                        RegistryView {
                            shares: self.shares.insert(
                                slot,
                                stored_shared_access(ctx, cid, shared_key_cid, timestamp),
                            ),
                            ..self
                        },
                        Ok(()),
                    )
                },
            },
        }
    }
}

} // verus!
