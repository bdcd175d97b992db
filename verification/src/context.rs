//! What each operation is told about the parties to it.

use vstd::prelude::*;

use crate::identity::{Caller, Identity};

verus! {

/// The parties to `initialize`: none.
#[derive(Clone, Copy, Debug, PartialEq, Eq)]
pub struct Initialize {}

/// The parties to `store_rsa_key`.
#[derive(Clone, Copy, Debug, PartialEq, Eq)]
pub struct StoreKey {
    /// Who stores a key; the key goes to the slot of this identity.
    pub user: Caller,
}

/// The parties to `get_rsa_key`.
#[derive(Clone, Copy, Debug, PartialEq, Eq)]
pub struct GetKey {
    /// Whose key is read.
    pub owner: Identity,
    /// Who reads it; need not be the owner.
    pub caller: Caller,
}

/// The parties to `store_file_metadata`.
#[derive(Clone, Copy, Debug, PartialEq, Eq)]
pub struct StoreFileMetadata {
    /// Who stores the metadata.
    pub uploader: Caller,
}

/// The parties to `share_file_access`.
#[derive(Clone, Copy, Debug, PartialEq, Eq)]
pub struct ShareFileAccess {
    /// Who grants access.
    pub sharer: Caller,
    /// Who is granted access; takes no part in the request.
    pub shared_with: Identity,
}

} // verus!
