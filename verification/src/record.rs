//! The three kinds of record, and the capacity of their string fields.

use vstd::prelude::*;
use vstd::utf8::encode_utf8;

use crate::error::RegistryError;
use crate::identity::Identity;

verus! {

/// Most bytes that an RSA public key may take.
pub const MAX_RSA_KEY_LEN: usize = 512;

/// Most bytes that the content identifier of a file may take.
pub const MAX_CID_LEN: usize = 128;

/// Most bytes that the content identifier of a wrapped key may take.
pub const MAX_KEY_CID_LEN: usize = 128;

/// Number of bytes that a string takes when stored.
pub open spec fn byte_len(text: Seq<char>) -> nat {
    encode_utf8(text).len()
}

/// Whether `text` takes at most `capacity` bytes.
pub open spec fn fits(text: Seq<char>, capacity: usize) -> bool {
    byte_len(text) <= capacity
}

/// Decides whether a string fits in a field of the given capacity.
pub fn check_fits(text: &str, capacity: usize) -> (ok: bool)
    ensures
        ok == fits(text@, capacity),
{
    text.as_bytes().len() <= capacity
}

/// The RSA public key of one user.
#[derive(Debug, PartialEq, Eq)]
pub struct UserRSAKey {
    /// The key material; the registry does not look inside it.
    pub rsa_key: String,
}

/// What a [`UserRSAKey`] holds.
pub struct UserRSAKeyView {
    pub rsa_key: Seq<char>,
}

impl View for UserRSAKey {
    type V = UserRSAKeyView;

    open spec fn view(&self) -> UserRSAKeyView {
        UserRSAKeyView { rsa_key: self.rsa_key@ }
    }
}

impl Clone for UserRSAKey {
    fn clone(&self) -> (copy: UserRSAKey)
        ensures
            copy@ == self@,
    {
        UserRSAKey { rsa_key: self.rsa_key.clone() }
    }
}

impl UserRSAKey {
    /// Whether a key of this content can be stored.
    pub open spec fn admits(rsa_key: Seq<char>) -> bool {
        fits(rsa_key, MAX_RSA_KEY_LEN)
    }

    /// Builds the record, if the key fits.
    pub fn new(rsa_key: String) -> (made: Result<UserRSAKey, RegistryError>)
        ensures
            match made {
                Ok(record) => Self::admits(rsa_key@) && record@ == (UserRSAKeyView {
                    rsa_key: rsa_key@,
                }),
                Err(e) => !Self::admits(rsa_key@) && e == RegistryError::CapacityExceeded,
            },
    {
        if !check_fits(rsa_key.as_str(), MAX_RSA_KEY_LEN) {
            return Err(RegistryError::CapacityExceeded);
        }
        Ok(UserRSAKey { rsa_key })
    }
}

/// What is known about one encrypted file that is stored elsewhere.
#[derive(Debug, PartialEq, Eq)]
pub struct FileMetadata {
    /// Content identifier of the encrypted file.
    pub cid: String,
    /// Content identifier of the wrapped symmetric key.
    pub key_cid: String,
    /// Who stored this record.
    pub uploader: Identity,
    /// Ledger time at which the record was stored, in seconds since the epoch.
    pub timestamp: i64,
    /// Whether the file is meant for everyone.
    pub is_public: bool,
}

/// What a [`FileMetadata`] holds.
pub struct FileMetadataView {
    pub cid: Seq<char>,
    pub key_cid: Seq<char>,
    pub uploader: Seq<u8>,
    pub timestamp: i64,
    pub is_public: bool,
}

impl View for FileMetadata {
    type V = FileMetadataView;

    open spec fn view(&self) -> FileMetadataView {
        FileMetadataView {
            cid: self.cid@,
            key_cid: self.key_cid@,
            uploader: self.uploader@,
            timestamp: self.timestamp,
            is_public: self.is_public,
        }
    }
}

impl Clone for FileMetadata {
    fn clone(&self) -> (copy: FileMetadata)
        ensures
            copy@ == self@,
    {
        FileMetadata {
            cid: self.cid.clone(),
            key_cid: self.key_cid.clone(),
            uploader: self.uploader,
            timestamp: self.timestamp,
            is_public: self.is_public,
        }
    }
}

impl FileMetadata {
    /// Whether strings of this content can be stored.
    pub open spec fn admits(cid: Seq<char>, key_cid: Seq<char>) -> bool {
        fits(cid, MAX_CID_LEN) && fits(key_cid, MAX_KEY_CID_LEN)
    }

    /// Builds the record, if both strings fit.
    pub fn new(
        cid: String,
        key_cid: String,
        uploader: Identity,
        timestamp: i64,
        is_public: bool,
    ) -> (made: Result<FileMetadata, RegistryError>)
        ensures
            match made {
                Ok(record) => Self::admits(cid@, key_cid@) && record@ == (FileMetadataView {
                    cid: cid@,
                    key_cid: key_cid@,
                    uploader: uploader@,
                    timestamp,
                    is_public,
                }),
                Err(e) => !Self::admits(cid@, key_cid@) && e == RegistryError::CapacityExceeded,
            },
    {
        if !check_fits(cid.as_str(), MAX_CID_LEN) || !check_fits(key_cid.as_str(), MAX_KEY_CID_LEN) {
            return Err(RegistryError::CapacityExceeded);
        }
        Ok(FileMetadata { cid, key_cid, uploader, timestamp, is_public })
    }
}

/// A grant that lets one user open one file.
#[derive(Debug, PartialEq, Eq)]
pub struct SharedAccess {
    /// Content identifier of the encrypted file.
    pub cid: String,
    /// Content identifier of the symmetric key wrapped for the grantee.
    pub shared_key_cid: String,
    /// Who granted access.
    pub shared_by: Identity,
    /// Who was granted access.
    pub shared_with: Identity,
    /// Ledger time at which access was granted, in seconds since the epoch.
    pub timestamp: i64,
}

/// What a [`SharedAccess`] holds.
pub struct SharedAccessView {
    pub cid: Seq<char>,
    pub shared_key_cid: Seq<char>,
    pub shared_by: Seq<u8>,
    pub shared_with: Seq<u8>,
    pub timestamp: i64,
}

impl View for SharedAccess {
    type V = SharedAccessView;

    open spec fn view(&self) -> SharedAccessView {
        SharedAccessView {
            cid: self.cid@,
            shared_key_cid: self.shared_key_cid@,
            shared_by: self.shared_by@,
            shared_with: self.shared_with@,
            timestamp: self.timestamp,
        }
    }
}

impl Clone for SharedAccess {
    fn clone(&self) -> (copy: SharedAccess)
        ensures
            copy@ == self@,
    {
        SharedAccess {
            cid: self.cid.clone(),
            shared_key_cid: self.shared_key_cid.clone(),
            shared_by: self.shared_by,
            shared_with: self.shared_with,
            timestamp: self.timestamp,
        }
    }
}

impl SharedAccess {
    /// Whether strings of this content can be stored.
    pub open spec fn admits(cid: Seq<char>, shared_key_cid: Seq<char>) -> bool {
        fits(cid, MAX_CID_LEN) && fits(shared_key_cid, MAX_KEY_CID_LEN)
    }

    /// Builds the record, if both strings fit.
    pub fn new(
        cid: String,
        shared_key_cid: String,
        shared_by: Identity,
        shared_with: Identity,
        timestamp: i64,
    ) -> (made: Result<SharedAccess, RegistryError>)
        ensures
            match made {
                Ok(record) => Self::admits(cid@, shared_key_cid@) && record@ == (SharedAccessView {
                    cid: cid@,
                    shared_key_cid: shared_key_cid@,
                    shared_by: shared_by@,
                    shared_with: shared_with@,
                    timestamp,
                }),
                Err(e) => !Self::admits(cid@, shared_key_cid@) && e
                    == RegistryError::CapacityExceeded,
            },
    {
        if !check_fits(cid.as_str(), MAX_CID_LEN) || !check_fits(
            shared_key_cid.as_str(),
            MAX_KEY_CID_LEN,
        ) {
            return Err(RegistryError::CapacityExceeded);
        }
        Ok(SharedAccess { cid, shared_key_cid, shared_by, shared_with, timestamp })
    }
}

} // verus!
