//! The operations of the registry.
//!
//! Each operation takes the registry, the parties to the request and the
//! arguments, and answers `Ok` or the error of the first check that failed.
//! Its contract says that registry and answer are what the model in
//! [`crate::model`] gives for the same request.

use vstd::prelude::*;

use crate::clock::read_ledger_time;
use crate::context::{GetKey, Initialize, ShareFileAccess, StoreFileMetadata, StoreKey};
use crate::error::RegistryError;
use crate::model::{stored_file_metadata, stored_shared_access};
use crate::record::{FileMetadata, SharedAccess, UserRSAKey};
use crate::registry::Registry;
use crate::slot::{find_file_metadata_slot, find_shared_access_slot, find_user_key_slot};

verus! {

/// Does nothing, and succeeds.
pub fn initialize(registry: &Registry, ctx: &Initialize) -> (result: Result<(), RegistryError>)
    ensures
        (registry@, result) == registry@.initialize(*ctx),
{
    Ok(())
}

/// Stores `rsa_key` as the RSA public key of the user, in place of any key
/// stored before.
///
/// Refused as `Unauthorized` unless the user has signed, as `SlotUnavailable`
/// where no slot exists for the user, as `CapacityExceeded` where the key
/// does not fit.
pub fn store_rsa_key(registry: &mut Registry, ctx: &StoreKey, rsa_key: String) -> (result: Result<
    (),
    RegistryError,
>)
    ensures
        (final(registry)@, result) == old(registry)@.store_rsa_key(*ctx, rsa_key@),
{
    if !ctx.user.is_signer {
        return Err(RegistryError::Unauthorized);
    }
    let slot = match find_user_key_slot(&registry.program_id(), &ctx.user.key) {
        Some(slot) => slot,
        None => {
            return Err(RegistryError::SlotUnavailable);
        },
    };
    let record = match UserRSAKey::new(rsa_key) {
        Ok(record) => record,
        Err(e) => {
            return Err(e);
        },
    };
    registry.put_user_key(slot, record);
    Ok(())
}

/// Reads the RSA public key of the owner. Any caller that has signed may
/// read the key of any owner.
///
/// Refused as `RecordNotFound` where the owner has stored no key, as
/// `Unauthorized` unless the caller has signed.
pub fn get_rsa_key(registry: &Registry, ctx: &GetKey) -> (result: Result<String, RegistryError>)
    ensures
        match result {
            Ok(rsa_key) => registry@.get_rsa_key(*ctx) == Ok::<Seq<char>, RegistryError>(rsa_key@),
            Err(e) => registry@.get_rsa_key(*ctx) == Err::<Seq<char>, RegistryError>(e),
        },
{
    match registry.user_key(&ctx.owner) {
        None => Err(RegistryError::RecordNotFound),
        Some(record) => {
            if !ctx.caller.is_signer {
                Err(RegistryError::Unauthorized)
            } else {
                Ok(record.rsa_key.clone())
            }
        },
    }
}

/// Stores the metadata of the file `cid`, stamped with the ledger time that
/// the host reports in `ledger_time`, in place of any metadata stored for
/// that content identifier before, whoever stored it.
///
/// Refused as `Unauthorized` unless the uploader has signed, as
/// `SlotUnavailable` where no slot exists for the content identifier, as
/// `ClockUnavailable` where `ledger_time` is `None`, as `CapacityExceeded`
/// where `cid` or `key_cid` does not fit.
pub fn store_file_metadata_at(
    registry: &mut Registry,
    ctx: &StoreFileMetadata,
    cid: String,
    key_cid: String,
    is_public: bool,
    ledger_time: Option<i64>,
) -> (result: Result<(), RegistryError>)
    ensures
        (final(registry)@, result) == old(registry)@.store_file_metadata(
            *ctx,
            cid@,
            key_cid@,
            is_public,
            ledger_time,
        ),
{
    if !ctx.uploader.is_signer {
        return Err(RegistryError::Unauthorized);
    }
    let slot = match find_file_metadata_slot(&registry.program_id(), cid.as_str()) {
        Some(slot) => slot,
        None => {
            return Err(RegistryError::SlotUnavailable);
        },
    };
    let timestamp = match ledger_time {
        Some(timestamp) => timestamp,
        None => {
            return Err(RegistryError::ClockUnavailable);
        },
    };
    let record = match FileMetadata::new(cid, key_cid, ctx.uploader.key, timestamp, is_public) {
        Ok(record) => record,
        Err(e) => {
            return Err(e);
        },
    };
    registry.put_file_metadata(slot, record);
    Ok(())
}

/// Stores the metadata of the file `cid`, stamped with the ledger time that
/// the host reports now.
///
/// What the host reports is not known beforehand, so the contract says that
/// registry and answer are what [`store_file_metadata_at`] gives for some
/// report.
pub fn store_file_metadata(
    registry: &mut Registry,
    ctx: &StoreFileMetadata,
    cid: String,
    key_cid: String,
    is_public: bool,
) -> (result: Result<(), RegistryError>)
    ensures
        exists|ledger_time: Option<i64>|
            (final(registry)@, result) == #[trigger] old(registry)@.store_file_metadata(
                *ctx,
                cid@,
                key_cid@,
                is_public,
                ledger_time,
            ),
        old(registry)@.admit_store_file(*ctx, cid@) matches Err(e) ==> result == Err::<
            (),
            RegistryError,
        >(e),
        result is Err ==> final(registry)@ == old(registry)@,
        result is Ok ==> FileMetadata::admits(cid@, key_cid@) && exists|timestamp: i64|
            final(registry)@.file_metadata_of(cid@) == Some(
                #[trigger] stored_file_metadata(*ctx, cid@, key_cid@, is_public, timestamp),
            ),
{
    store_file_metadata_at(registry, ctx, cid, key_cid, is_public, read_ledger_time())
}

/// Grants `ctx.shared_with` access to the file `cid`, stamped with the ledger
/// time that the host reports in `ledger_time`. A grant that exists is never
/// replaced.
///
/// Refused as `Unauthorized` unless the sharer has signed, as
/// `SlotUnavailable` where no slot exists for content identifier and
/// grantee, as `AlreadyExists` where that slot holds a grant, as
/// `ClockUnavailable` where `ledger_time` is `None`, as `CapacityExceeded`
/// where `cid` or `shared_key_cid` does not fit.
pub fn share_file_access_at(
    registry: &mut Registry,
    ctx: &ShareFileAccess,
    cid: String,
    shared_key_cid: String,
    ledger_time: Option<i64>,
) -> (result: Result<(), RegistryError>)
    ensures
        (final(registry)@, result) == old(registry)@.share_file_access(
            *ctx,
            cid@,
            shared_key_cid@,
            ledger_time,
        ),
{
    if !ctx.sharer.is_signer {
        return Err(RegistryError::Unauthorized);
    }
    let slot = match find_shared_access_slot(
        &registry.program_id(),
        cid.as_str(),
        &ctx.shared_with,
    ) {
        Some(slot) => slot,
        None => {
            return Err(RegistryError::SlotUnavailable);
        },
    };
    if registry.has_shared_access(&slot) {
        return Err(RegistryError::AlreadyExists);
    }
    let timestamp = match ledger_time {
        Some(timestamp) => timestamp,
        None => {
            return Err(RegistryError::ClockUnavailable);
        },
    };
    let record = match SharedAccess::new(
        cid,
        shared_key_cid,
        ctx.sharer.key,
        ctx.shared_with,
        timestamp,
    ) {
        Ok(record) => record,
        Err(e) => {
            return Err(e);
        },
    };
    registry.put_shared_access(slot, record);
    Ok(())
}

/// Grants `ctx.shared_with` access to the file `cid`, stamped with the ledger
/// time that the host reports now.
///
/// What the host reports is not known beforehand, so the contract says that
/// registry and answer are what [`share_file_access_at`] gives for some
/// report.
pub fn share_file_access(
    registry: &mut Registry,
    ctx: &ShareFileAccess,
    cid: String,
    shared_key_cid: String,
) -> (result: Result<(), RegistryError>)
    ensures
        exists|ledger_time: Option<i64>|
            (final(registry)@, result) == #[trigger] old(registry)@.share_file_access(
                *ctx,
                cid@,
                shared_key_cid@,
                ledger_time,
            ),
        old(registry)@.admit_share(*ctx, cid@) matches Err(e) ==> result == Err::<
            (),
            RegistryError,
        >(e),
        result is Err ==> final(registry)@ == old(registry)@,
        result is Ok ==> SharedAccess::admits(cid@, shared_key_cid@) && exists|timestamp: i64|
            final(registry)@.shared_access_of(cid@, ctx.shared_with@) == Some(
                #[trigger] stored_shared_access(*ctx, cid@, shared_key_cid@, timestamp),
            ),
{
    share_file_access_at(registry, ctx, cid, shared_key_cid, read_ledger_time())
}

} // verus!
