//! Writing a record, once, at the address derived from its hash.
use vstd::prelude::*;

use crate::derivation::{derive_memory_address, memory_address};
use crate::error::MemoryError;
use crate::state::{Caller, MemoryBlock, MemoryStore};

verus! {

/// The accounts of a store: the paying signer, and the host's clock reading.
#[derive(Clone, Copy, Debug)]
pub struct StoreMemory {
    pub payer: Caller,
    pub unix_timestamp: i64,
}

/// The hash of the data to remember.
#[derive(Clone, Copy, Debug)]
pub struct MemoryHash {
    pub hash: [u8; 32],
}

/// What storing `hash` for `payer` at time `now` does to `records`: the
/// address and the record written, or the error.
pub open spec fn store_outcome(
    program_id: Seq<u8>,
    records: Map<Seq<u8>, MemoryBlock>,
    payer: Caller,
    hash: [u8; 32],
    now: i64,
) -> Result<(Seq<u8>, MemoryBlock), MemoryError> {
    if !payer.signed {
        Err(MemoryError::MissingSignature)
    } else {
        match memory_address(program_id, hash@) {
            None => Err(MemoryError::DerivationFailure),
            Some((address, _)) => if records.contains_key(address) {
                Err(MemoryError::AlreadyExists)
            } else {
                Ok((address, MemoryBlock { owner: payer.key, data_hash: hash, timestamp: now }))
            },
        }
    }
}

/// The record that a store outcome hands back.
pub open spec fn written_block(o: Result<(Seq<u8>, MemoryBlock), MemoryError>) -> Result<MemoryBlock, MemoryError> {
    match o {
        Ok((_, block)) => Ok(block),
        Err(e) => Err(e),
    }
}

/// The records after a store with outcome `o`: unchanged on failure.
pub open spec fn records_after(
    records: Map<Seq<u8>, MemoryBlock>,
    o: Result<(Seq<u8>, MemoryBlock), MemoryError>,
) -> Map<Seq<u8>, MemoryBlock> {
    match o {
        Ok((address, block)) => records.insert(address, block),
        Err(_) => records,
    }
}

/// Creates the record of `memory_hash` for the payer, stamped with the
/// clock reading, unless its address is already taken.
pub fn handler(store: &mut MemoryStore, ctx: &StoreMemory, memory_hash: &MemoryHash) -> (r: Result<MemoryBlock, MemoryError>)
    ensures
        final(store).spec_program_id() == old(store).spec_program_id(),
        r == written_block(
            store_outcome(old(store).spec_program_id()@, old(store).records(), ctx.payer, memory_hash.hash, ctx.unix_timestamp),
        ),
        final(store).records() == records_after(
            old(store).records(),
            store_outcome(old(store).spec_program_id()@, old(store).records(), ctx.payer, memory_hash.hash, ctx.unix_timestamp),
        ),
{
    if !ctx.payer.signed {
        return Err(MemoryError::MissingSignature);
    }
    let program_id = store.program_id();
    let derived = match derive_memory_address(&program_id, &memory_hash.hash) {
        Some(d) => d,
        None => return Err(MemoryError::DerivationFailure),
    };
    if store.lookup(&derived.address).is_some() {
        return Err(MemoryError::AlreadyExists);
    }
    let block = MemoryBlock { owner: ctx.payer.key, data_hash: memory_hash.hash, timestamp: ctx.unix_timestamp };
    store.insert(derived.address, block);
    Ok(block)
}

} // verus!
