use std::str::FromStr;

use anchor_lang::solana_program::pubkey::Pubkey;
use rsa_storage::{
    get_rsa_key, share_file_access_at, store_file_metadata_at, store_rsa_key, Caller, GetKey,
    Identity, Registry, RegistryError, ShareFileAccess, StoreFileMetadata, StoreKey,
};

#[test]
fn key_then_upload_then_share_once() {
    let program = Pubkey::from_str("2yErQiMAVSgabTtYt9FJQY6sUyBX7P1R1N7i1m2ytRY3").unwrap();
    let mut registry = Registry::new(Identity::new(program.to_bytes()));
    let a = Identity::new([0xa1; 32]);
    let b = Identity::new([0xb2; 32]);
    let c = Identity::new([0xc3; 32]);

    let store = StoreKey { user: Caller::signed(a) };
    assert_eq!(store_rsa_key(&mut registry, &store, "PEM-1".to_string()), Ok(()));

    let read = GetKey { owner: a, caller: Caller::signed(b) };
    assert_eq!(get_rsa_key(&registry, &read), Ok("PEM-1".to_string()));

    let upload = StoreFileMetadata { uploader: Caller::signed(a) };
    assert_eq!(
        store_file_metadata_at(
            &mut registry,
            &upload,
            "bafy123".to_string(),
            "bafykey".to_string(),
            false,
            Some(1_700_000_000)
        ),
        Ok(())
    );
    let metadata = registry.file_metadata("bafy123").unwrap();
    assert_eq!(metadata.uploader, a);
    assert!(!metadata.is_public);

    let grant = ShareFileAccess { sharer: Caller::signed(a), shared_with: c };
    assert_eq!(
        share_file_access_at(
            &mut registry,
            &grant,
            "bafy123".to_string(),
            "wrappedKeyCid1".to_string(),
            Some(1_700_000_001)
        ),
        Ok(())
    );
    assert_eq!(
        share_file_access_at(
            &mut registry,
            &grant,
            "bafy123".to_string(),
            "wrappedKeyCid2".to_string(),
            Some(1_700_000_002)
        ),
        Err(RegistryError::AlreadyExists)
    );
    let stored = registry.shared_access("bafy123", &c).unwrap();
    assert_eq!(stored.cid, "bafy123");
    assert_eq!(stored.shared_key_cid, "wrappedKeyCid1");
    assert_eq!(stored.shared_by, a);
    assert_eq!(stored.shared_with, c);
    assert_eq!(stored.timestamp, 1_700_000_001);

    assert_eq!(get_rsa_key(&registry, &read), Ok("PEM-1".to_string()));
}
