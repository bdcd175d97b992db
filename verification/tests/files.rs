use std::str::FromStr;

use anchor_lang::solana_program::pubkey::Pubkey;
use rsa_storage::record::check_fits;
use rsa_storage::{
    store_file_metadata, store_file_metadata_at, store_rsa_key, Caller, FileMetadata, Identity,
    Registry, RegistryError, SharedAccess, StoreFileMetadata, StoreKey, UserRSAKey, MAX_CID_LEN,
    MAX_KEY_CID_LEN,
};

fn registry() -> Registry {
    let id = Pubkey::from_str("2yErQiMAVSgabTtYt9FJQY6sUyBX7P1R1N7i1m2ytRY3").unwrap();
    Registry::new(Identity::new(id.to_bytes()))
}

fn party(tag: u8) -> Identity {
    Identity::new([tag; 32])
}

fn by(uploader: Identity) -> StoreFileMetadata {
    StoreFileMetadata { uploader: Caller::signed(uploader) }
}

fn upload(
    registry: &mut Registry,
    uploader: Identity,
    cid: &str,
    key_cid: &str,
    is_public: bool,
    now: i64,
) -> Result<(), RegistryError> {
    store_file_metadata_at(
        registry,
        &by(uploader),
        cid.to_string(),
        key_cid.to_string(),
        is_public,
        Some(now),
    )
}

#[test]
fn stored_metadata_holds_what_was_given() {
    let mut registry = registry();
    let alice = party(1);
    assert_eq!(upload(&mut registry, alice, "bafy123", "bafykey", false, 1_700_000_000), Ok(()));
    assert_eq!(
        registry.file_metadata("bafy123"),
        Some(&FileMetadata {
            cid: "bafy123".to_string(),
            key_cid: "bafykey".to_string(),
            uploader: alice,
            timestamp: 1_700_000_000,
            is_public: false,
        })
    );
}

#[test]
fn metadata_of_unknown_file_is_absent() {
    let mut registry = registry();
    assert_eq!(registry.file_metadata("bafy123"), None);
    assert_eq!(upload(&mut registry, party(1), "bafy123", "k", true, 5), Ok(()));
    assert_eq!(registry.file_metadata("bafy124"), None);
    assert_eq!(registry.file_metadata(""), None);
}

#[test]
fn second_store_of_same_cid_succeeds_and_replaces() {
    let mut registry = registry();
    let alice = party(1);
    assert_eq!(upload(&mut registry, alice, "bafy123", "key-1", false, 100), Ok(()));
    assert_eq!(upload(&mut registry, alice, "bafy123", "key-2", true, 200), Ok(()));
    assert_eq!(
        registry.file_metadata("bafy123"),
        Some(&FileMetadata {
            cid: "bafy123".to_string(),
            key_cid: "key-2".to_string(),
            uploader: alice,
            timestamp: 200,
            is_public: true,
        })
    );
}

#[test]
fn another_uploader_may_replace_metadata() {
    let mut registry = registry();
    let alice = party(1);
    let mallory = party(66);
    assert_eq!(upload(&mut registry, alice, "bafy123", "key-1", false, 100), Ok(()));
    assert_eq!(upload(&mut registry, mallory, "bafy123", "key-m", true, 50), Ok(()));
    let record = registry.file_metadata("bafy123").unwrap();
    assert_eq!(record.uploader, mallory);
    assert_eq!(record.timestamp, 50);
    assert!(record.is_public);
    assert_eq!(record.key_cid, "key-m");
}

#[test]
fn metadata_of_different_files_do_not_mix() {
    let mut registry = registry();
    let alice = party(1);
    let bob = party(2);
    assert_eq!(upload(&mut registry, alice, "bafy-a", "key-a", false, 1), Ok(()));
    assert_eq!(upload(&mut registry, bob, "bafy-b", "key-b", true, 2), Ok(()));
    assert_eq!(registry.file_metadata("bafy-a").unwrap().uploader, alice);
    assert_eq!(registry.file_metadata("bafy-a").unwrap().key_cid, "key-a");
    assert_eq!(registry.file_metadata("bafy-b").unwrap().uploader, bob);
    assert_eq!(registry.file_metadata("bafy-b").unwrap().timestamp, 2);
}

#[test]
fn uploader_needs_no_stored_key() {
    let mut registry = registry();
    let alice = party(1);
    assert_eq!(registry.user_key(&alice), None);
    assert_eq!(upload(&mut registry, alice, "bafy123", "k", false, 1), Ok(()));
}

#[test]
fn records_of_different_kinds_do_not_mix() {
    let mut registry = registry();
    let alice = party(1);
    let ctx = StoreKey { user: Caller::signed(alice) };
    assert_eq!(store_rsa_key(&mut registry, &ctx, "bafy123".to_string()), Ok(()));
    assert_eq!(registry.file_metadata("bafy123"), None);
    assert_eq!(registry.shared_access("bafy123", &alice), None);
    assert_eq!(upload(&mut registry, alice, "bafy123", "k", false, 1), Ok(()));
    assert_eq!(registry.shared_access("bafy123", &alice), None);
    assert_eq!(registry.user_key(&alice).unwrap().rsa_key, "bafy123");
}

#[test]
fn store_metadata_by_unsigned_caller_is_unauthorized() {
    let mut registry = registry();
    let ctx = StoreFileMetadata { uploader: Caller::unsigned(party(1)) };
    assert_eq!(
        store_file_metadata_at(
            &mut registry,
            &ctx,
            "bafy123".to_string(),
            "k".to_string(),
            false,
            Some(1)
        ),
        Err(RegistryError::Unauthorized)
    );
    assert_eq!(registry.file_metadata("bafy123"), None);
}

#[test]
fn store_metadata_without_ledger_time_is_refused() {
    let mut registry = registry();
    assert_eq!(
        store_file_metadata_at(
            &mut registry,
            &by(party(1)),
            "bafy123".to_string(),
            "k".to_string(),
            false,
            None
        ),
        Err(RegistryError::ClockUnavailable)
    );
    assert_eq!(registry.file_metadata("bafy123"), None);
}

#[test]
fn cid_and_key_cid_of_exactly_the_capacity_are_stored() {
    let mut registry = registry();
    let cid = "c".repeat(128);
    let key_cid = "k".repeat(128);
    assert_eq!(MAX_CID_LEN, 128);
    assert_eq!(MAX_KEY_CID_LEN, 128);
    assert_eq!(upload(&mut registry, party(1), &cid, &key_cid, true, 9), Ok(()));
    let record = registry.file_metadata(&cid).unwrap();
    assert_eq!(record.cid, cid);
    assert_eq!(record.key_cid, key_cid);
}

#[test]
fn oversize_cid_is_refused() {
    let mut registry = registry();
    let cid = "c".repeat(129);
    assert_eq!(
        upload(&mut registry, party(1), &cid, "k", true, 9),
        Err(RegistryError::CapacityExceeded)
    );
    assert_eq!(registry.file_metadata(&cid), None);
}

#[test]
fn oversize_key_cid_is_refused() {
    let mut registry = registry();
    let key_cid = "k".repeat(129);
    assert_eq!(
        upload(&mut registry, party(1), "bafy123", &key_cid, true, 9),
        Err(RegistryError::CapacityExceeded)
    );
    assert_eq!(registry.file_metadata("bafy123"), None);
}

#[test]
fn oversize_key_cid_leaves_the_stored_metadata() {
    let mut registry = registry();
    let alice = party(1);
    assert_eq!(upload(&mut registry, alice, "bafy123", "key-1", false, 100), Ok(()));
    assert_eq!(
        upload(&mut registry, party(2), "bafy123", &"k".repeat(200), true, 200),
        Err(RegistryError::CapacityExceeded)
    );
    assert_eq!(
        registry.file_metadata("bafy123"),
        Some(&FileMetadata {
            cid: "bafy123".to_string(),
            key_cid: "key-1".to_string(),
            uploader: alice,
            timestamp: 100,
            is_public: false,
        })
    );
}

#[test]
fn cid_capacity_counts_bytes() {
    let mut registry = registry();
    // Each of these characters takes three bytes.
    let cid = "\u{20ac}".repeat(43);
    assert_eq!(cid.len(), 129);
    assert_eq!(
        upload(&mut registry, party(1), &cid, "k", true, 9),
        Err(RegistryError::CapacityExceeded)
    );
    let shorter = "\u{20ac}".repeat(42);
    assert_eq!(upload(&mut registry, party(1), &shorter, "k", true, 9), Ok(()));
}

#[test]
fn checks_of_store_metadata_come_in_order() {
    let mut registry = registry();
    let unsigned = StoreFileMetadata { uploader: Caller::unsigned(party(1)) };
    let long = "c".repeat(129);
    assert_eq!(
        store_file_metadata_at(&mut registry, &unsigned, long.clone(), long.clone(), false, None),
        Err(RegistryError::Unauthorized)
    );
    assert_eq!(
        store_file_metadata_at(&mut registry, &by(party(1)), long.clone(), long.clone(), false, None),
        Err(RegistryError::ClockUnavailable)
    );
    assert_eq!(
        store_file_metadata_at(&mut registry, &by(party(1)), long.clone(), long, false, Some(1)),
        Err(RegistryError::CapacityExceeded)
    );
}

#[test]
fn negative_and_extreme_timestamps_are_kept() {
    let mut registry = registry();
    assert_eq!(upload(&mut registry, party(1), "old", "k", false, -1), Ok(()));
    assert_eq!(upload(&mut registry, party(1), "first", "k", false, i64::MIN), Ok(()));
    assert_eq!(upload(&mut registry, party(1), "last", "k", false, i64::MAX), Ok(()));
    assert_eq!(registry.file_metadata("old").unwrap().timestamp, -1);
    assert_eq!(registry.file_metadata("first").unwrap().timestamp, i64::MIN);
    assert_eq!(registry.file_metadata("last").unwrap().timestamp, i64::MAX);
}

#[test]
fn store_metadata_asks_the_host_for_the_time() {
    let mut registry = registry();
    let alice = party(1);
    let stored = store_file_metadata(
        &mut registry,
        &by(alice),
        "bafy123".to_string(),
        "bafykey".to_string(),
        true,
    );
    match stored {
        Ok(()) => {
            let record = registry.file_metadata("bafy123").unwrap();
            assert_eq!(record.cid, "bafy123");
            assert_eq!(record.key_cid, "bafykey");
            assert_eq!(record.uploader, alice);
            assert!(record.is_public);
        }
        Err(e) => {
            assert_eq!(e, RegistryError::ClockUnavailable);
            assert_eq!(registry.file_metadata("bafy123"), None);
        }
    }
}

#[test]
fn store_metadata_checks_the_signature_whatever_the_time() {
    let mut registry = registry();
    let unsigned = StoreFileMetadata { uploader: Caller::unsigned(party(1)) };
    assert_eq!(
        store_file_metadata(&mut registry, &unsigned, "bafy123".to_string(), "k".to_string(), true),
        Err(RegistryError::Unauthorized)
    );
    assert_eq!(registry.file_metadata("bafy123"), None);
}

#[test]
fn file_metadata_record_is_built_only_if_it_fits() {
    let alice = party(1);
    assert_eq!(
        FileMetadata::new("c".to_string(), "k".to_string(), alice, 7, true),
        Ok(FileMetadata {
            cid: "c".to_string(),
            key_cid: "k".to_string(),
            uploader: alice,
            timestamp: 7,
            is_public: true,
        })
    );
    assert_eq!(
        FileMetadata::new("c".repeat(129), "k".to_string(), alice, 7, true),
        Err(RegistryError::CapacityExceeded)
    );
    assert_eq!(
        FileMetadata::new("c".to_string(), "k".repeat(129), alice, 7, true),
        Err(RegistryError::CapacityExceeded)
    );
}

#[test]
fn copy_of_a_record_equals_it() {
    let key = UserRSAKey { rsa_key: "PEM-1".to_string() };
    assert_eq!(key.clone(), key);
    let metadata = FileMetadata {
        cid: "bafy123".to_string(),
        key_cid: "bafykey".to_string(),
        uploader: party(1),
        timestamp: -5,
        is_public: true,
    };
    assert_eq!(metadata.clone(), metadata);
    let grant = SharedAccess {
        cid: "bafy123".to_string(),
        shared_key_cid: "wrapped".to_string(),
        shared_by: party(1),
        shared_with: party(2),
        timestamp: 6,
    };
    assert_eq!(grant.clone(), grant);
}

#[test]
fn check_fits_compares_the_byte_length() {
    assert!(check_fits("", 0));
    assert!(!check_fits("a", 0));
    assert!(check_fits("abc", 3));
    assert!(!check_fits("abcd", 3));
    assert!(!check_fits("\u{e9}", 1));
    assert!(check_fits("\u{e9}", 2));
}
