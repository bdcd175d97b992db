//! Identities of the parties that use the registry.

use vstd::prelude::*;

verus! {

/// An opaque, fixed-size, public-key-like value that names a party.
#[derive(Clone, Copy, Debug, PartialEq, Eq, Hash)]
pub struct Identity {
    pub bytes: [u8; 32],
}

impl View for Identity {
    type V = Seq<u8>;

    open spec fn view(&self) -> Seq<u8> {
        self.bytes@
    }
}

impl Identity {
    /// The identity with the given bytes.
    pub fn new(bytes: [u8; 32]) -> (id: Identity)
        ensures
            id@ == bytes@,
    {
        Identity { bytes }
    }

    /// The bytes of this identity.
    pub fn to_bytes(&self) -> (bytes: [u8; 32])
        ensures
            bytes@ == self@,
    {
        self.bytes
    }

    /// Whether two identities name the same party.
    pub fn equals(&self, other: &Identity) -> (same: bool)
        ensures
            same == (self@ == other@),
    {
        bytes_equal(&self.bytes, &other.bytes)
    }
}

/// The party that asks for an operation: who it is, and whether the host has
/// verified its signature on the request.
#[derive(Clone, Copy, Debug, PartialEq, Eq)]
pub struct Caller {
    pub key: Identity,
    pub is_signer: bool,
}

impl Caller {
    /// A caller whose signature the host has verified.
    pub fn signed(key: Identity) -> (caller: Caller)
        ensures
            caller.key == key,
            caller.is_signer,
    {
        Caller { key, is_signer: true }
    }

    /// A caller that only claims an identity.
    pub fn unsigned(key: Identity) -> (caller: Caller)
        ensures
            caller.key == key,
            !caller.is_signer,
    {
        Caller { key, is_signer: false }
    }
}

/// Compares two 32-byte values position by position.
pub(crate) fn bytes_equal(a: &[u8; 32], b: &[u8; 32]) -> (same: bool)
    ensures
        same == (a@ == b@),
{
    let mut i: usize = 0;
    while i < 32
        invariant
            0 <= i <= 32,
            forall|j: int| 0 <= j < i ==> a@[j] == b@[j],
        decreases 32 - i,
    {
        if a[i] != b[i] {
            return false;
        }
        i += 1;
    }
    assert(a@ =~= b@);
    true
}

} // verus!
