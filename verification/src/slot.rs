//! Slot addressing: where in the registry a record lives.
//!
//! A slot address is a program-derived address. It is computed from the
//! identity of the program that owns the registry, a namespace tag that tells
//! the kinds of record apart, and the key material of the record. A content
//! identifier enters by its Keccak-256 digest, so that it fits in one seed
//! whatever its length.
//!
//! Both the digest and the derivation are the work of `solana_program`. Here
//! they have names only: [`keccak256`] and [`program_address`]. Nothing is
//! claimed of them but that they are functions of their arguments, so no
//! two slots are known to differ unless the code has compared them.

use anchor_lang::solana_program::keccak;
use anchor_lang::solana_program::pubkey::Pubkey;
use vstd::prelude::*;
use vstd::slice::slice_to_vec;
use vstd::string::StrSliceExecFns;
use vstd::string::StringSliceAdditionalSpecFns;
use vstd::utf8::encode_utf8;

use crate::identity::Identity;

verus! {

/// Most seeds from which an address can be derived.
pub const MAX_SLOT_SEEDS: usize = 15;

/// Most bytes that one seed may have.
pub const MAX_SEED_LEN: usize = 32;

/// The Keccak-256 digest of a byte string, as `keccak::hash` computes it.
pub uninterp spec fn keccak256(data: Seq<u8>) -> Seq<u8>;

/// The program-derived address, with its bump seed, that
/// `Pubkey::try_find_program_address` finds for the given seeds and program;
/// `None` where it finds none.
pub uninterp spec fn program_address(seeds: Seq<Seq<u8>>, program_id: Seq<u8>) -> Option<
    (Seq<u8>, u8),
>;

/// The seeds as byte strings, in their order.
pub open spec fn seed_bytes(seeds: Seq<Vec<u8>>) -> Seq<Seq<u8>> {
    Seq::new(seeds.len(), |i: int| seeds[i]@)
}

/// Whether the seeds are few enough and each short enough to derive an
/// address from.
pub open spec fn seeds_in_bounds(seeds: Seq<Seq<u8>>) -> bool {
    &&& seeds.len() <= MAX_SLOT_SEEDS
    &&& forall|i: int| 0 <= i < seeds.len() ==> (#[trigger] seeds[i]).len() <= MAX_SEED_LEN
}

/// Calls `keccak::hash` of `solana_program`. Trusted: the digest is the named
/// function of the input bytes and of nothing else.
#[verifier::external_body]
fn keccak_digest(data: &[u8]) -> (digest: [u8; 32])
    ensures
        digest@ == keccak256(data@),
{
    keccak::hash(data).to_bytes()
}

/// Calls `Pubkey::try_find_program_address` of `solana_program`. Trusted: what
/// comes back, an address with its bump seed or nothing, is the named function
/// of the seeds and the program identity and of nothing else; and nothing
/// comes back where there are more seeds than [`MAX_SLOT_SEEDS`] or one is longer
/// than [`MAX_SEED_LEN`].
#[verifier::external_body]
fn find_program_address(seeds: &Vec<Vec<u8>>, program_id: &[u8; 32]) -> (found: Option<
    ([u8; 32], u8),
>)
    ensures
        match found {
            Some((address, bump)) => program_address(seed_bytes(seeds@), program_id@) == Some(
                (address@, bump),
            ),
            None => program_address(seed_bytes(seeds@), program_id@) is None,
        },
        !seeds_in_bounds(seed_bytes(seeds@)) ==> found is None,
{
    let parts: Vec<&[u8]> = seeds.iter().map(|seed| seed.as_slice()).collect();
    match Pubkey::try_find_program_address(&parts, &Pubkey::new_from_array(*program_id)) {
        Some((address, bump)) => Some((address.to_bytes(), bump)),
        None => None,
    }
}

/// The address of a slot.
#[derive(Clone, Copy, Debug, PartialEq, Eq, Hash)]
pub struct SlotAddress {
    pub bytes: [u8; 32],
}

impl View for SlotAddress {
    type V = Seq<u8>;

    open spec fn view(&self) -> Seq<u8> {
        self.bytes@
    }
}

/// The view of an address that may be missing.
pub open spec fn slot_view(slot: Option<SlotAddress>) -> Option<Seq<u8>> {
    match slot {
        Some(address) => Some(address@),
        None => None,
    }
}

/// Namespace tag of the slots that hold a user's RSA key.
pub open spec fn user_rsa_tag() -> Seq<u8> {
    "user_rsa".spec_bytes()
}

/// Namespace tag of the slots that hold the metadata of a file.
pub open spec fn file_metadata_tag() -> Seq<u8> {
    "file_metadata".spec_bytes()
}

/// Namespace tag of the slots that hold a grant of access to a file.
pub open spec fn shared_access_tag() -> Seq<u8> {
    "shared_access".spec_bytes()
}

/// The digest by which a content identifier enters a slot address.
pub open spec fn cid_digest(cid: Seq<char>) -> Seq<u8> {
    keccak256(encode_utf8(cid))
}

/// The address that the given seeds derive, without its bump seed.
pub open spec fn derived_slot(seeds: Seq<Seq<u8>>, program_id: Seq<u8>) -> Option<Seq<u8>> {
    match program_address(seeds, program_id) {
        Some((address, _)) => Some(address),
        None => None,
    }
}

/// The slot of the RSA key of `owner`.
pub open spec fn user_key_slot(program_id: Seq<u8>, owner: Seq<u8>) -> Option<Seq<u8>> {
    derived_slot(seq![user_rsa_tag(), owner], program_id)
}

/// The slot of the metadata of the file with content identifier `cid`.
pub open spec fn file_metadata_slot(program_id: Seq<u8>, cid: Seq<char>) -> Option<Seq<u8>> {
    derived_slot(seq![file_metadata_tag(), cid_digest(cid)], program_id)
}

/// The slot of the grant that lets `grantee` open the file with content
/// identifier `cid`.
pub open spec fn shared_access_slot(program_id: Seq<u8>, cid: Seq<char>, grantee: Seq<u8>) -> Option<
    Seq<u8>,
> {
    derived_slot(seq![shared_access_tag(), cid_digest(cid), grantee], program_id)
}

/// Derives the address for the given seeds, if they have one. They have none
/// where they are out of bounds.
pub fn derive_slot(seeds: &Vec<Vec<u8>>, program_id: &Identity) -> (slot: Option<SlotAddress>)
    ensures
        slot_view(slot) == derived_slot(seed_bytes(seeds@), program_id@),
        !seeds_in_bounds(seed_bytes(seeds@)) ==> slot is None,
{
    match find_program_address(seeds, &program_id.bytes) {
        Some((bytes, _)) => Some(SlotAddress { bytes }),
        None => None,
    }
}

/// Computes the digest by which a content identifier enters a slot address.
pub fn content_digest(cid: &str) -> (digest: [u8; 32])
    ensures
        digest@ == cid_digest(cid@),
{
    keccak_digest(cid.as_bytes())
}

/// Computes the slot of the RSA key of `owner`.
pub fn find_user_key_slot(program_id: &Identity, owner: &Identity) -> (slot: Option<SlotAddress>)
    ensures
        slot_view(slot) == user_key_slot(program_id@, owner@),
{
    let mut seeds: Vec<Vec<u8>> = Vec::new();
    seeds.push("user_rsa".as_bytes_vec());
    seeds.push(slice_to_vec(owner.bytes.as_slice()));
    assert(seed_bytes(seeds@) =~= seq![user_rsa_tag(), owner@]);
    derive_slot(&seeds, program_id)
}

/// Computes the slot of the metadata of the file with content identifier `cid`.
pub fn find_file_metadata_slot(program_id: &Identity, cid: &str) -> (slot: Option<SlotAddress>)
    ensures
        slot_view(slot) == file_metadata_slot(program_id@, cid@),
{
    let digest = content_digest(cid);
    let mut seeds: Vec<Vec<u8>> = Vec::new();
    seeds.push("file_metadata".as_bytes_vec());
    seeds.push(slice_to_vec(digest.as_slice()));
    assert(seed_bytes(seeds@) =~= seq![file_metadata_tag(), cid_digest(cid@)]);
    derive_slot(&seeds, program_id)
}

/// Computes the slot of the grant that lets `grantee` open the file with
/// content identifier `cid`.
pub fn find_shared_access_slot(program_id: &Identity, cid: &str, grantee: &Identity) -> (slot:
    Option<SlotAddress>)
    ensures
        slot_view(slot) == shared_access_slot(program_id@, cid@, grantee@),
{
    let digest = content_digest(cid);
    let mut seeds: Vec<Vec<u8>> = Vec::new();
    seeds.push("shared_access".as_bytes_vec());
    seeds.push(slice_to_vec(digest.as_slice()));
    seeds.push(slice_to_vec(grantee.bytes.as_slice()));
    assert(seed_bytes(seeds@) =~= seq![shared_access_tag(), cid_digest(cid@), grantee@]);
    derive_slot(&seeds, program_id)
}

} // verus!
