//! What holds of the operations taken together.
//!
//! Each law is stated over the model of [`crate::model`], which the contracts
//! of the operations in [`crate::instructions`] tie the code to.

use vstd::prelude::*;

use crate::context::{GetKey, Initialize, ShareFileAccess, StoreFileMetadata, StoreKey};
use crate::error::RegistryError;
use crate::model::{stored_file_metadata, stored_shared_access, RegistryView};
use crate::record::{FileMetadata, SharedAccess, UserRSAKey};
use crate::slot::{file_metadata_slot, shared_access_slot, user_key_slot};

verus! {

/// The last key stored wins: after a user has stored a key, a reader of that
/// user's key gets it, whatever was stored before, provided the reader has
/// signed. Two stores by a user who signs, of keys that fit, both succeed
/// where a slot exists for the user.
pub proof fn lemma_last_stored_key_is_read(
    pre: RegistryView,
    first: StoreKey,
    key1: Seq<char>,
    second: StoreKey,
    key2: Seq<char>,
    reader: GetKey,
)
    requires
        first.user.key@ == second.user.key@,
        reader.owner@ == second.user.key@,
    ensures
        ({
            let (mid, stored1) = pre.store_rsa_key(first, key1);
            let (post, stored2) = mid.store_rsa_key(second, key2);
            &&& stored2 is Ok && reader.caller.is_signer ==> post.get_rsa_key(reader) == Ok::<
                Seq<char>,
                RegistryError,
            >(key2)
            &&& first.user.is_signer && second.user.is_signer && UserRSAKey::admits(key1)
                && UserRSAKey::admits(key2) && user_key_slot(pre.program_id, second.user.key@)
                is Some ==> stored1 is Ok && stored2 is Ok
        }),
{
}

/// In a registry in which nothing was stored, no key is found, whoever asks
/// and for whomever.
pub proof fn lemma_no_key_in_new_registry(program_id: Seq<u8>, reader: GetKey)
    ensures
        RegistryView::empty(program_id).get_rsa_key(reader) == Err::<Seq<char>, RegistryError>(
            RegistryError::RecordNotFound,
        ),
{
}

/// A key that is not found stays not found until it is stored: no operation
/// but `store_rsa_key` touches the keys, and `store_rsa_key` touches only the
/// slot of its user.
pub proof fn lemma_key_not_found_until_stored(
    pre: RegistryView,
    reader: GetKey,
    init: Initialize,
    writer: StoreKey,
    rsa_key: Seq<char>,
    uploader: StoreFileMetadata,
    sharer: ShareFileAccess,
    cid: Seq<char>,
    key_cid: Seq<char>,
    is_public: bool,
    ledger_time: Option<i64>,
)
    ensures
        ({
            let not_found = Err::<Seq<char>, RegistryError>(RegistryError::RecordNotFound);
            pre.get_rsa_key(reader) == not_found ==> {
                &&& pre.initialize(init).0.get_rsa_key(reader) == not_found
                &&& pre.store_file_metadata(uploader, cid, key_cid, is_public, ledger_time).0.get_rsa_key(
                    reader,
                ) == not_found
                &&& pre.share_file_access(sharer, cid, key_cid, ledger_time).0.get_rsa_key(reader)
                    == not_found
                &&& user_key_slot(pre.program_id, writer.user.key@) != user_key_slot(
                    pre.program_id,
                    reader.owner@,
                ) || pre.store_rsa_key(writer, rsa_key).1 is Err ==> pre.store_rsa_key(
                    writer,
                    rsa_key,
                ).0.get_rsa_key(reader) == not_found
            }
        }),
{
}

/// Metadata is created if needed: a second store for the same content
/// identifier gets the answer that it would get were no record there, and
/// where it succeeds the record is the one that it wrote. Two stores by
/// uploaders who sign, of strings that fit, at known times, both succeed where
/// a slot exists for the content identifier.
pub proof fn lemma_file_metadata_is_replaced(
    pre: RegistryView,
    cid: Seq<char>,
    first: StoreFileMetadata,
    key_cid1: Seq<char>,
    is_public1: bool,
    time1: Option<i64>,
    second: StoreFileMetadata,
    key_cid2: Seq<char>,
    is_public2: bool,
    time2: i64,
)
    ensures
        ({
            let (mid, stored1) = pre.store_file_metadata(first, cid, key_cid1, is_public1, time1);
            let (post, stored2) = mid.store_file_metadata(
                second,
                cid,
                key_cid2,
                is_public2,
                Some(time2),
            );
            &&& stored2 == pre.store_file_metadata(second, cid, key_cid2, is_public2, Some(time2)).1
            &&& stored2 is Ok ==> post.file_metadata_of(cid) == Some(
                stored_file_metadata(second, cid, key_cid2, is_public2, time2),
            )
            &&& first.uploader.is_signer && second.uploader.is_signer && time1 is Some
                && FileMetadata::admits(cid, key_cid1) && FileMetadata::admits(cid, key_cid2)
                && file_metadata_slot(pre.program_id, cid) is Some ==> stored1 is Ok && stored2
                is Ok
        }),
{
}

/// A grant is created once: after a grant has been made, a second request for
/// the same file and grantee is refused and changes nothing, so the first
/// grant stays as it was; where the second sharer has signed, the refusal is
/// `AlreadyExists`.
pub proof fn lemma_second_share_is_refused(
    pre: RegistryView,
    cid: Seq<char>,
    first: ShareFileAccess,
    shared_key_cid1: Seq<char>,
    time1: Option<i64>,
    second: ShareFileAccess,
    shared_key_cid2: Seq<char>,
    time2: Option<i64>,
)
    requires
        first.shared_with@ == second.shared_with@,
    ensures
        ({
            let (mid, shared1) = pre.share_file_access(first, cid, shared_key_cid1, time1);
            let (post, shared2) = mid.share_file_access(second, cid, shared_key_cid2, time2);
            shared1 is Ok ==> {
                &&& shared2 is Err
                &&& second.sharer.is_signer ==> shared2 == Err::<(), RegistryError>(
                    RegistryError::AlreadyExists,
                )
                &&& post == mid
                &&& time1 matches Some(timestamp) && post.shared_access_of(
                    cid,
                    first.shared_with@,
                ) == Some(stored_shared_access(first, cid, shared_key_cid1, timestamp))
            }
        }),
{
}

/// Grants in different slots do not hinder each other: a request gets the
/// same answer after a grant was made in another slot as before it. So two
/// requests by sharers who sign, of strings that fit, at known times, both
/// succeed where their slots exist, differ and are vacant.
pub proof fn lemma_shares_in_distinct_slots_are_independent(
    pre: RegistryView,
    first: ShareFileAccess,
    cid1: Seq<char>,
    shared_key_cid1: Seq<char>,
    time1: Option<i64>,
    second: ShareFileAccess,
    cid2: Seq<char>,
    shared_key_cid2: Seq<char>,
    time2: Option<i64>,
)
    ensures
        ({
            let slot1 = shared_access_slot(pre.program_id, cid1, first.shared_with@);
            let slot2 = shared_access_slot(pre.program_id, cid2, second.shared_with@);
            let (mid, shared1) = pre.share_file_access(first, cid1, shared_key_cid1, time1);
            let (post, shared2) = mid.share_file_access(second, cid2, shared_key_cid2, time2);
            slot1 != slot2 ==> {
                &&& shared2 == pre.share_file_access(second, cid2, shared_key_cid2, time2).1
                &&& shared1 is Ok ==> post.shared_access_of(cid1, first.shared_with@)
                    == mid.shared_access_of(cid1, first.shared_with@)
                &&& first.sharer.is_signer && second.sharer.is_signer && time1 is Some && time2
                    is Some && SharedAccess::admits(cid1, shared_key_cid1) && SharedAccess::admits(
                    cid2,
                    shared_key_cid2,
                ) && slot1 is Some && slot2 is Some && !pre.shares.contains_key(slot1->0)
                    && !pre.shares.contains_key(slot2->0) ==> shared1 is Ok && shared2 is Ok
            }
        }),
{
}

/// What is in `slot` before is still there after: a record of each kind that
/// was there, and the very grant that was there.
pub open spec fn stays(pre: RegistryView, post: RegistryView, slot: Seq<u8>) -> bool {
    &&& post.program_id == pre.program_id
    &&& pre.user_keys.contains_key(slot) ==> post.user_keys.contains_key(slot)
    &&& pre.files.contains_key(slot) ==> post.files.contains_key(slot)
    &&& pre.shares.contains_key(slot) ==> post.shares.contains_key(slot) && post.shares[slot]
        == pre.shares[slot]
}

/// No operation removes a record, and none touches a grant that exists: an
/// occupied slot stays occupied, and a grant stays as it was made.
pub proof fn lemma_records_stay(
    pre: RegistryView,
    init: Initialize,
    writer: StoreKey,
    rsa_key: Seq<char>,
    uploader: StoreFileMetadata,
    sharer: ShareFileAccess,
    cid: Seq<char>,
    key_cid: Seq<char>,
    is_public: bool,
    ledger_time: Option<i64>,
    slot: Seq<u8>,
)
    ensures
        stays(pre, pre.initialize(init).0, slot),
        stays(pre, pre.store_rsa_key(writer, rsa_key).0, slot),
        stays(pre, pre.store_file_metadata(uploader, cid, key_cid, is_public, ledger_time).0, slot),
        stays(pre, pre.share_file_access(sharer, cid, key_cid, ledger_time).0, slot),
{
}

/// A refused operation changes nothing.
pub proof fn lemma_refusal_changes_nothing(
    pre: RegistryView,
    writer: StoreKey,
    rsa_key: Seq<char>,
    uploader: StoreFileMetadata,
    sharer: ShareFileAccess,
    cid: Seq<char>,
    key_cid: Seq<char>,
    is_public: bool,
    ledger_time: Option<i64>,
)
    ensures
        ({
            let (post, stored) = pre.store_rsa_key(writer, rsa_key);
            stored is Err ==> post == pre
        }),
        ({
            let (post, stored) = pre.store_file_metadata(
                uploader,
                cid,
                key_cid,
                is_public,
                ledger_time,
            );
            stored is Err ==> post == pre
        }),
        ({
            let (post, shared) = pre.share_file_access(sharer, cid, key_cid, ledger_time);
            shared is Err ==> post == pre
        }),
{
}

/// An RSA key that does not fit is refused, and as `CapacityExceeded` where no
/// earlier check fails: the user has signed and has a slot.
pub proof fn lemma_oversize_rsa_key_is_refused(
    pre: RegistryView,
    writer: StoreKey,
    rsa_key: Seq<char>,
)
    requires
        !UserRSAKey::admits(rsa_key),
    ensures
        ({
            let (post, stored) = pre.store_rsa_key(writer, rsa_key);
            &&& stored is Err
            &&& post == pre
            &&& writer.user.is_signer && user_key_slot(pre.program_id, writer.user.key@) is Some
                ==> stored == Err::<(), RegistryError>(RegistryError::CapacityExceeded)
        }),
{
}

/// File metadata with a string that does not fit is refused, and as
/// `CapacityExceeded` where no earlier check fails: the uploader has signed,
/// the content identifier has a slot, and the time is known.
pub proof fn lemma_oversize_file_metadata_is_refused(
    pre: RegistryView,
    uploader: StoreFileMetadata,
    cid: Seq<char>,
    key_cid: Seq<char>,
    is_public: bool,
    ledger_time: Option<i64>,
)
    requires
        !FileMetadata::admits(cid, key_cid),
    ensures
        ({
            let (post, stored) = pre.store_file_metadata(
                uploader,
                cid,
                key_cid,
                is_public,
                ledger_time,
            );
            &&& stored is Err
            &&& post == pre
            &&& uploader.uploader.is_signer && file_metadata_slot(pre.program_id, cid) is Some
                && ledger_time is Some ==> stored == Err::<(), RegistryError>(
                RegistryError::CapacityExceeded,
            )
        }),
{
}

/// A grant with a string that does not fit is refused, and as
/// `CapacityExceeded` where no earlier check fails: the sharer has signed,
/// the slot of content identifier and grantee exists and is vacant, and the
/// time is known.
pub proof fn lemma_oversize_share_is_refused(
    pre: RegistryView,
    sharer: ShareFileAccess,
    cid: Seq<char>,
    shared_key_cid: Seq<char>,
    ledger_time: Option<i64>,
)
    requires
        !SharedAccess::admits(cid, shared_key_cid),
    ensures
        ({
            let slot = shared_access_slot(pre.program_id, cid, sharer.shared_with@);
            let (post, shared) = pre.share_file_access(sharer, cid, shared_key_cid, ledger_time);
            &&& shared is Err
            &&& post == pre
            &&& sharer.sharer.is_signer && slot is Some && !pre.shares.contains_key(slot->0)
                && ledger_time is Some ==> shared == Err::<(), RegistryError>(
                RegistryError::CapacityExceeded,
            )
        }),
{
}

} // verus!
