//! A registry of per-user RSA public keys, of metadata about encrypted files
//! that live elsewhere, and of grants that let other users open those files.
//!
//! Every record sits in a slot whose address is derived from a namespace tag
//! and the key material of the record, so a lookup needs no index.
//!
//! - [`instructions`] holds the operations, each with its contract.
//! - [`model`] is the registry as a mathematical object: what the contracts
//!   are stated over.
//! - [`laws`] proves what holds of the operations taken together.
//! - [`registry`] and [`table`] keep the records; [`record`] defines them and
//!   the capacity of their fields.
//! - [`slot`] derives slot addresses; [`identity`] and [`context`] name the
//!   parties to a request; [`error`] lists the refusals.

mod clock;
pub mod context;
pub mod error;
pub mod identity;
pub mod instructions;
pub mod laws;
pub mod model;
pub mod record;
pub mod registry;
pub mod slot;
pub mod table;

pub use context::{GetKey, Initialize, ShareFileAccess, StoreFileMetadata, StoreKey};
pub use error::RegistryError;
pub use identity::{Caller, Identity};
pub use instructions::{
    get_rsa_key, initialize, share_file_access, share_file_access_at, store_file_metadata,
    store_file_metadata_at, store_rsa_key,
};
pub use record::{
    FileMetadata, SharedAccess, UserRSAKey, MAX_CID_LEN, MAX_KEY_CID_LEN, MAX_RSA_KEY_LEN,
};
pub use registry::Registry;
pub use slot::SlotAddress;
