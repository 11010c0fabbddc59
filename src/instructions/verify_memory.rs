//! Reading a record back and checking it against the supplied hash.
use vstd::prelude::*;

use crate::derivation::{derive_memory_address, memory_address, same_key};
use crate::error::MemoryError;
use crate::state::{Caller, MemoryBlock, MemoryStore};

verus! {

/// The accounts of a verification: any signer.
#[derive(Clone, Copy, Debug)]
pub struct VerifyMemory {
    pub verifier: Caller,
}

/// The hash of the data to check.
#[derive(Clone, Copy, Debug)]
pub struct MemoryHash {
    pub hash: [u8; 32],
}

/// What verifying `hash` against `records` gives: the record, or the error.
pub open spec fn verify_outcome(
    program_id: Seq<u8>,
    records: Map<Seq<u8>, MemoryBlock>,
    verifier: Caller,
    hash: [u8; 32],
) -> Result<MemoryBlock, MemoryError> {
    if !verifier.signed {
        Err(MemoryError::MissingSignature)
    } else {
        match memory_address(program_id, hash@) {
            None => Err(MemoryError::DerivationFailure),
            Some((address, _)) => if !records.contains_key(address) {
                Err(MemoryError::NotFound)
            } else if records[address].data_hash@ != hash@ {
                Err(MemoryError::IntegrityViolation)
            } else {
                Ok(records[address])
            },
        }
    }
}

/// Finds the record at the address derived from `memory_hash` and checks
/// that it holds that hash. Changes nothing.
pub fn handler(store: &MemoryStore, ctx: &VerifyMemory, memory_hash: &MemoryHash) -> (r: Result<MemoryBlock, MemoryError>)
    ensures
        r == verify_outcome(store.spec_program_id()@, store.records(), ctx.verifier, memory_hash.hash),
{
    if !ctx.verifier.signed {
        return Err(MemoryError::MissingSignature);
    }
    let program_id = store.program_id();
    let derived = match derive_memory_address(&program_id, &memory_hash.hash) {
        Some(d) => d,
        None => return Err(MemoryError::DerivationFailure),
    };
    let block = match store.lookup(&derived.address) {
        Some(b) => b,
        None => return Err(MemoryError::NotFound),
    };
    if !same_key(&block.data_hash, &memory_hash.hash) {
        return Err(MemoryError::IntegrityViolation);
    }
    Ok(block)
}

} // verus!
