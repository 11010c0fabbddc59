//! The program's four operations, and the laws that relate them.
use vstd::prelude::*;

use crate::derivation::{memory_address, vault_authority, DerivedAddress};
use crate::error::MemoryError;
use crate::instructions::initialize::{self, Initialize};
use crate::instructions::reward_miner::{self, paid, reward_outcome, RewardArgs, RewardMiner};
use crate::instructions::store_memory::{self, records_after, store_outcome, written_block, StoreMemory};
use crate::instructions::verify_memory::{self, verify_outcome, VerifyMemory};
use crate::state::{Caller, MemoryBlock, MemoryStore};

verus! {

/// Bootstraps the program: succeeds exactly when the caller signed.
pub fn initialize(ctx: &Initialize) -> (r: Result<(), MemoryError>)
    ensures
        r == (if ctx.signer.signed {
            Ok::<(), MemoryError>(())
        } else {
            Err(MemoryError::MissingSignature)
        }),
{
    initialize::handler(ctx)
}

/// Stores the record of `memory_hash` for the payer; see
/// `store_memory::handler`.
pub fn store_memory(store: &mut MemoryStore, ctx: &StoreMemory, memory_hash: &store_memory::MemoryHash) -> (r: Result<MemoryBlock, MemoryError>)
    ensures
        final(store).spec_program_id() == old(store).spec_program_id(),
        r == written_block(
            store_outcome(old(store).spec_program_id()@, old(store).records(), ctx.payer, memory_hash.hash, ctx.unix_timestamp),
        ),
        final(store).records() == records_after(
            old(store).records(),
            store_outcome(old(store).spec_program_id()@, old(store).records(), ctx.payer, memory_hash.hash, ctx.unix_timestamp),
        ),
{
    store_memory::handler(store, ctx, memory_hash)
}

/// Reads back and checks the record of `memory_hash`; see
/// `verify_memory::handler`.
pub fn verify_memory(store: &MemoryStore, ctx: &VerifyMemory, memory_hash: &verify_memory::MemoryHash) -> (r: Result<MemoryBlock, MemoryError>)
    ensures
        r == verify_outcome(store.spec_program_id()@, store.records(), ctx.verifier, memory_hash.hash),
{
    verify_memory::handler(store, ctx, memory_hash)
}

/// Pays `args.amount` from the vault to the miner; see
/// `reward_miner::handler`.
pub fn reward_miner(program_id: &[u8; 32], ctx: &mut RewardMiner, args: &RewardArgs) -> (r: Result<DerivedAddress, MemoryError>)
    ensures
        match reward_outcome(program_id@, *old(ctx), args.amount) {
            Ok(signer) => r matches Ok(a) && a.pair() == signer && *final(ctx) == paid(*old(ctx), args.amount),
            Err(e) => r == Err::<DerivedAddress, MemoryError>(e) && *final(ctx) == *old(ctx),
        },
{
    reward_miner::handler(program_id, ctx, args)
}

/// Every record sits at the address derived from its own hash.
pub open spec fn records_well_formed(program_id: Seq<u8>, records: Map<Seq<u8>, MemoryBlock>) -> bool {
    forall|a: Seq<u8>| #[trigger]
        records.contains_key(a) ==> memory_address(program_id, records[a].data_hash@) == Some(
            (a, memory_address(program_id, records[a].data_hash@).unwrap().1),
        )
}

/// A store, successful or not, keeps every record at the address derived
/// from its own hash.
pub proof fn lemma_store_keeps_records_well_formed(
    program_id: Seq<u8>,
    records: Map<Seq<u8>, MemoryBlock>,
    payer: Caller,
    hash: [u8; 32],
    now: i64,
)
    requires
        records_well_formed(program_id, records),
    ensures
        records_well_formed(program_id, records_after(records, store_outcome(program_id, records, payer, hash, now))),
{
}

/// Write-once: storing a hash whose address is free succeeds; storing the
/// same hash again, by any signer at any time, fails with `AlreadyExists`
/// and leaves the records as the first store left them.
pub proof fn lemma_store_write_once(
    program_id: Seq<u8>,
    records: Map<Seq<u8>, MemoryBlock>,
    first: Caller,
    second: Caller,
    hash: [u8; 32],
    first_time: i64,
    second_time: i64,
)
    requires
        first.signed,
        second.signed,
        memory_address(program_id, hash@) matches Some((address, _)) && !records.contains_key(address),
    ensures
        store_outcome(program_id, records, first, hash, first_time) is Ok,
        ({
            let after = records_after(records, store_outcome(program_id, records, first, hash, first_time));
            let again = store_outcome(program_id, after, second, hash, second_time);
            again == Err::<(Seq<u8>, MemoryBlock), MemoryError>(MemoryError::AlreadyExists)
                && records_after(after, again) == after
        }),
{
}

/// Round trip: after a successful store of `hash` by `owner` at `time`, any
/// signer that verifies `hash` gets back exactly the record written.
pub proof fn lemma_verify_after_store(
    program_id: Seq<u8>,
    records: Map<Seq<u8>, MemoryBlock>,
    owner: Caller,
    verifier: Caller,
    hash: [u8; 32],
    time: i64,
)
    requires
        store_outcome(program_id, records, owner, hash, time) is Ok,
        verifier.signed,
    ensures
        verify_outcome(
            program_id,
            records_after(records, store_outcome(program_id, records, owner, hash, time)),
            verifier,
            hash,
        ) == Ok::<MemoryBlock, MemoryError>(MemoryBlock { owner: owner.key, data_hash: hash, timestamp: time }),
{
}

/// Verifying a hash whose derived address holds no record fails with
/// `NotFound`.
pub proof fn lemma_verify_absent(
    program_id: Seq<u8>,
    records: Map<Seq<u8>, MemoryBlock>,
    verifier: Caller,
    hash: [u8; 32],
)
    requires
        verifier.signed,
        memory_address(program_id, hash@) matches Some((address, _)) && !records.contains_key(address),
    ensures
        verify_outcome(program_id, records, verifier, hash) == Err::<MemoryBlock, MemoryError>(MemoryError::NotFound),
{
}

/// Vault authorisation scope: a reward succeeds only when the custodial
/// vault is owned by the re-derived vault authority, which then signs it;
/// a signed reward whose vault has another owner fails with
/// `AccountMismatch`.
pub proof fn lemma_reward_scope(program_id: Seq<u8>, accounts: RewardMiner, amount: u64)
    ensures
        reward_outcome(program_id, accounts, amount) matches Ok(signer) ==> vault_authority(program_id) == Some(signer)
            && accounts.reward_vault.owner@ == signer.0,
        accounts.payer.signed ==> (vault_authority(program_id) matches Some((authority, _))
            && accounts.reward_vault.owner@ != authority ==> reward_outcome(program_id, accounts, amount)
            == Err::<(Seq<u8>, u8), MemoryError>(MemoryError::AccountMismatch)),
{
}

} // verus!
