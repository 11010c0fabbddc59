//! Deterministic derivation of program addresses from a namespace tag and an
//! optional input.
use anchor_lang::solana_program::pubkey::Pubkey;
use vstd::prelude::*;
use vstd::slice::slice_to_vec;
use vstd::string::StringSliceAdditionalSpecFns;

use crate::constants::{AUTHORITY_SEED, MEMORY_SEED};

verus! {

/// The (address, bump) pair that the program-address search finds for the
/// given seeds under the given program id, if any bump gives an address off
/// the ed25519 curve.
pub uninterp spec fn program_address(seeds: Seq<Seq<u8>>, program_id: Seq<u8>) -> Option<(Seq<u8>, u8)>;

/// Relies on `Pubkey::try_find_program_address`: it hashes the seeds, a bump
/// and the program id and returns the first off-curve address with its bump,
/// or `None`; the result depends on the seeds and the program id alone.
#[verifier::external_body]
fn find_program_address(seeds: &Vec<Vec<u8>>, program_id: &[u8; 32]) -> (r: Option<([u8; 32], u8)>)
    ensures
        match r {
            Some((address, bump)) => program_address(seeds.deep_view(), program_id@) == Some((address@, bump)),
            None => program_address(seeds.deep_view(), program_id@) is None,
        },
{
    let seeds: Vec<&[u8]> = seeds.iter().map(|s| s.as_slice()).collect();
    Pubkey::try_find_program_address(&seeds, &Pubkey::new_from_array(*program_id))
        .map(|(address, bump)| (address.to_bytes(), bump))
}

/// An address derived from seeds, with the bump that makes it a valid program
/// address. The bump is the proof that the program may sign for the address.
#[derive(Clone, Copy, Debug)]
pub struct DerivedAddress {
    pub address: [u8; 32],
    pub bump: u8,
}

impl DerivedAddress {
    pub open spec fn pair(self) -> (Seq<u8>, u8) {
        (self.address@, self.bump)
    }
}

/// `r` is the executable form of the derivation result `d`.
pub open spec fn derived_as(r: Option<DerivedAddress>, d: Option<(Seq<u8>, u8)>) -> bool {
    match r {
        Some(a) => d == Some(a.pair()),
        None => d is None,
    }
}

/// Seeds of the address of the record for `hash`.
pub open spec fn memory_seeds(hash: Seq<u8>) -> Seq<Seq<u8>> {
    seq![MEMORY_SEED.spec_bytes(), hash]
}

/// Seeds of the vault authority's address: the namespace tag alone.
pub open spec fn authority_seeds() -> Seq<Seq<u8>> {
    seq![AUTHORITY_SEED.spec_bytes()]
}

/// The address (and bump) of the record for `hash`.
pub open spec fn memory_address(program_id: Seq<u8>, hash: Seq<u8>) -> Option<(Seq<u8>, u8)> {
    program_address(memory_seeds(hash), program_id)
}

/// The vault authority's address and bump.
pub open spec fn vault_authority(program_id: Seq<u8>) -> Option<(Seq<u8>, u8)> {
    program_address(authority_seeds(), program_id)
}

fn search(seeds: &Vec<Vec<u8>>, program_id: &[u8; 32]) -> (r: Option<DerivedAddress>)
    ensures
        derived_as(r, program_address(seeds.deep_view(), program_id@)),
{
    match find_program_address(seeds, program_id) {
        Some((address, bump)) => Some(DerivedAddress { address, bump }),
        None => None,
    }
}

/// Derives the address of the record for `hash` under `program_id`.
pub fn derive_memory_address(program_id: &[u8; 32], hash: &[u8; 32]) -> (r: Option<DerivedAddress>)
    ensures
        derived_as(r, memory_address(program_id@, hash@)),
{
    let mut seeds: Vec<Vec<u8>> = Vec::new();
    seeds.push(slice_to_vec(MEMORY_SEED.as_bytes()));
    seeds.push(slice_to_vec(hash.as_slice()));
    assert(seeds.deep_view() =~= memory_seeds(hash@)) by {
        assert(seeds@[0].deep_view() =~= seeds@[0]@);
        assert(seeds@[1].deep_view() =~= seeds@[1]@);
    }
    search(&seeds, program_id)
}

/// Derives the vault authority's address under `program_id`.
pub fn derive_vault_authority(program_id: &[u8; 32]) -> (r: Option<DerivedAddress>)
    ensures
        derived_as(r, vault_authority(program_id@)),
{
    let mut seeds: Vec<Vec<u8>> = Vec::new();
    seeds.push(slice_to_vec(AUTHORITY_SEED.as_bytes()));
    assert(seeds.deep_view() =~= authority_seeds()) by {
        assert(seeds@[0].deep_view() =~= seeds@[0]@);
    }
    search(&seeds, program_id)
}

/// Whether two 32-byte keys are equal.
pub fn same_key(a: &[u8; 32], b: &[u8; 32]) -> (r: bool)
    ensures
        r == (a@ == b@),
{
    let mut i: usize = 0;
    while i < 32
        invariant
            0 <= i <= 32,
            a@.len() == 32,
            b@.len() == 32,
            forall|j: int| 0 <= j < i ==> a@[j] == b@[j],
        decreases 32 - i,
    {
        if a[i] != b[i] {
            return false;
        }
        i = i + 1;
    }
    assert(a@ =~= b@);
    true
}

/// Derivation is deterministic: equal program ids and hashes give the same
/// address and bump, on every call.
pub proof fn lemma_memory_derivation_deterministic(
    program_id1: Seq<u8>,
    hash1: Seq<u8>,
    program_id2: Seq<u8>,
    hash2: Seq<u8>,
)
    requires
        program_id1 == program_id2,
        hash1 == hash2,
    ensures
        memory_address(program_id1, hash1) == memory_address(program_id2, hash2),
{
}

} // verus!
