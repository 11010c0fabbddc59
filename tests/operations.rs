use anchor_lang::solana_program::hash::hash;
use anchor_lang::solana_program::pubkey::Pubkey;
use memorychain::derivation::same_key;
use memorychain::instructions::{store_memory::MemoryHash as StoreHash, verify_memory::MemoryHash as VerifyHash};
use memorychain::{
    derive_memory_address, derive_vault_authority, initialize, reward_miner, store_memory, verify_memory, Caller,
    Initialize, MemoryBlock, MemoryError, MemoryStore, RewardArgs, RewardMiner, StoreMemory, TokenAccount,
    VerifyMemory, AUTHORITY_SEED, MEMORY_SEED,
};

const PROGRAM: [u8; 32] = [7u8; 32];

fn signer(k: u8) -> Caller {
    Caller { key: [k; 32], signed: true }
}

fn store_ctx(payer: Caller, now: i64) -> StoreMemory {
    StoreMemory { payer, unix_timestamp: now }
}

fn verify_ctx(verifier: Caller) -> VerifyMemory {
    VerifyMemory { verifier }
}

#[test]
fn derivation_is_deterministic() {
    let h = [3u8; 32];
    let a = derive_memory_address(&PROGRAM, &h).unwrap();
    let b = derive_memory_address(&PROGRAM, &h).unwrap();
    assert_eq!(a.address, b.address);
    assert_eq!(a.bump, b.bump);
}

#[test]
fn derivation_matches_program_address_search() {
    let h = [9u8; 32];
    let pid = Pubkey::new_from_array(PROGRAM);
    let (expected, bump) = Pubkey::find_program_address(&[MEMORY_SEED.as_bytes(), &h], &pid);
    let d = derive_memory_address(&PROGRAM, &h).unwrap();
    assert_eq!(d.address, expected.to_bytes());
    assert_eq!(d.bump, bump);
    assert_ne!(d.address, h);

    let (authority, abump) = Pubkey::find_program_address(&[AUTHORITY_SEED.as_bytes()], &pid);
    let v = derive_vault_authority(&PROGRAM).unwrap();
    assert_eq!(v.address, authority.to_bytes());
    assert_eq!(v.bump, abump);
}

#[test]
fn distinct_hashes_get_distinct_addresses() {
    let a = derive_memory_address(&PROGRAM, &[1u8; 32]).unwrap();
    let b = derive_memory_address(&PROGRAM, &[2u8; 32]).unwrap();
    assert_ne!(a.address, b.address);
    let v = derive_vault_authority(&PROGRAM).unwrap();
    assert_ne!(a.address, v.address);
}

#[test]
fn same_key_compares_bytes() {
    let a = [5u8; 32];
    let mut b = [5u8; 32];
    assert!(same_key(&a, &b));
    b[31] = 6;
    assert!(!same_key(&a, &b));
}

#[test]
fn store_is_write_once() {
    let mut store = MemoryStore::new(PROGRAM);
    let h = [4u8; 32];
    let first = store_memory(&mut store, &store_ctx(signer(1), 100), &StoreHash { hash: h }).unwrap();
    assert_eq!(first.owner, [1u8; 32]);
    assert_eq!(first.timestamp, 100);
    let second = store_memory(&mut store, &store_ctx(signer(2), 200), &StoreHash { hash: h });
    assert_eq!(second.unwrap_err(), MemoryError::AlreadyExists);
    let back = verify_memory(&store, &verify_ctx(signer(3)), &VerifyHash { hash: h }).unwrap();
    assert_eq!(back.owner, [1u8; 32]);
    assert_eq!(back.data_hash, h);
    assert_eq!(back.timestamp, 100);
}

#[test]
fn verify_round_trip() {
    let mut store = MemoryStore::new(PROGRAM);
    for k in 0u8..5 {
        store_memory(&mut store, &store_ctx(signer(k), k as i64 * 10), &StoreHash { hash: [k; 32] }).unwrap();
    }
    for k in 0u8..5 {
        let b = verify_memory(&store, &verify_ctx(signer(42)), &VerifyHash { hash: [k; 32] }).unwrap();
        assert_eq!(b.owner, [k; 32]);
        assert_eq!(b.data_hash, [k; 32]);
        assert_eq!(b.timestamp, k as i64 * 10);
    }
}

#[test]
fn verify_absent_is_not_found() {
    let mut store = MemoryStore::new(PROGRAM);
    let r = verify_memory(&store, &verify_ctx(signer(1)), &VerifyHash { hash: [8u8; 32] });
    assert_eq!(r.unwrap_err(), MemoryError::NotFound);
    store_memory(&mut store, &store_ctx(signer(1), 5), &StoreHash { hash: [9u8; 32] }).unwrap();
    let r = verify_memory(&store, &verify_ctx(signer(1)), &VerifyHash { hash: [8u8; 32] });
    assert_eq!(r.unwrap_err(), MemoryError::NotFound);
}

#[test]
fn unsigned_callers_are_refused() {
    let mut store = MemoryStore::new(PROGRAM);
    let nobody = Caller { key: [1u8; 32], signed: false };
    let r = store_memory(&mut store, &store_ctx(nobody, 1), &StoreHash { hash: [1u8; 32] });
    assert_eq!(r.unwrap_err(), MemoryError::MissingSignature);
    let r = verify_memory(&store, &verify_ctx(nobody), &VerifyHash { hash: [1u8; 32] });
    assert_eq!(r.unwrap_err(), MemoryError::MissingSignature);
    // the refused store left nothing behind
    let r = verify_memory(&store, &verify_ctx(signer(1)), &VerifyHash { hash: [1u8; 32] });
    assert_eq!(r.unwrap_err(), MemoryError::NotFound);
}

#[test]
fn initialize_needs_a_signer() {
    assert_eq!(initialize(&Initialize { signer: signer(1) }), Ok(()));
    let nobody = Caller { key: [1u8; 32], signed: false };
    assert_eq!(initialize(&Initialize { signer: nobody }), Err(MemoryError::MissingSignature));
}

#[test]
fn record_layout_is_eighty_bytes() {
    assert_eq!(MemoryBlock::LEN, 80);
}

#[test]
fn scenario_hello() {
    let h = hash(b"hello").to_bytes();
    let owner = signer(0xA);
    let t: i64 = 1_700_000_000;
    let mut store = MemoryStore::new(PROGRAM);
    let rec = store_memory(&mut store, &store_ctx(owner, t), &StoreHash { hash: h }).unwrap();
    assert_eq!(rec.owner, [0xA; 32]);
    assert_eq!(rec.data_hash, h);
    assert_eq!(rec.timestamp, t);
    let back = verify_memory(&store, &verify_ctx(signer(0xB)), &VerifyHash { hash: h }).unwrap();
    assert_eq!(back.owner, [0xA; 32]);
    assert_eq!(back.data_hash, h);
    assert_eq!(back.timestamp, t);

    let mut ctx = reward_accounts(50, 0);
    let r = reward_miner(&PROGRAM, &mut ctx, &RewardArgs { amount: 100 });
    assert_eq!(r.unwrap_err(), MemoryError::InsufficientFunds);
    assert_eq!(ctx.reward_vault.amount, 50);
    assert_eq!(ctx.miner_token_account.amount, 0);
}

const MINT: [u8; 32] = [0xEE; 32];
const MINER: [u8; 32] = [0x33; 32];

fn reward_accounts(vault: u64, miner: u64) -> RewardMiner {
    let authority = derive_vault_authority(&PROGRAM).unwrap().address;
    RewardMiner {
        payer: signer(1),
        vault_authority: authority,
        reward_vault: TokenAccount { address: [0x10; 32], mint: MINT, owner: authority, amount: vault },
        miner: MINER,
        miner_token_account: TokenAccount { address: [0x20; 32], mint: MINT, owner: MINER, amount: miner },
        reward_mint: MINT,
    }
}

#[test]
fn reward_moves_the_amount() {
    let mut ctx = reward_accounts(500, 7);
    let signer_used = reward_miner(&PROGRAM, &mut ctx, &RewardArgs { amount: 120 }).unwrap();
    let expected = derive_vault_authority(&PROGRAM).unwrap();
    assert_eq!(signer_used.address, expected.address);
    assert_eq!(signer_used.bump, expected.bump);
    assert_eq!(ctx.reward_vault.amount, 380);
    assert_eq!(ctx.miner_token_account.amount, 127);
    // the whole balance can go
    reward_miner(&PROGRAM, &mut ctx, &RewardArgs { amount: 380 }).unwrap();
    assert_eq!(ctx.reward_vault.amount, 0);
    assert_eq!(ctx.miner_token_account.amount, 507);
}

#[test]
fn reward_vault_owned_by_another_authority() {
    let mut ctx = reward_accounts(500, 0);
    ctx.reward_vault.owner = [0x44; 32];
    let r = reward_miner(&PROGRAM, &mut ctx, &RewardArgs { amount: 1 });
    assert_eq!(r.unwrap_err(), MemoryError::AccountMismatch);
    assert_eq!(ctx.reward_vault.amount, 500);
    assert_eq!(ctx.miner_token_account.amount, 0);
}

#[test]
fn reward_supplied_authority_not_derived() {
    let mut ctx = reward_accounts(500, 0);
    ctx.vault_authority = [0x44; 32];
    ctx.reward_vault.owner = [0x44; 32];
    let r = reward_miner(&PROGRAM, &mut ctx, &RewardArgs { amount: 1 });
    assert_eq!(r.unwrap_err(), MemoryError::AccountMismatch);
    assert_eq!(ctx.reward_vault.amount, 500);
}

#[test]
fn reward_under_another_program_is_refused() {
    let mut ctx = reward_accounts(500, 0);
    let r = reward_miner(&[8u8; 32], &mut ctx, &RewardArgs { amount: 1 });
    assert_eq!(r.unwrap_err(), MemoryError::AccountMismatch);
    assert_eq!(ctx.reward_vault.amount, 500);
}

#[test]
fn reward_wrong_mint_or_miner() {
    let mut ctx = reward_accounts(500, 0);
    ctx.miner_token_account.mint = [0x01; 32];
    assert_eq!(reward_miner(&PROGRAM, &mut ctx, &RewardArgs { amount: 1 }).unwrap_err(), MemoryError::AccountMismatch);
    let mut ctx = reward_accounts(500, 0);
    ctx.reward_vault.mint = [0x01; 32];
    assert_eq!(reward_miner(&PROGRAM, &mut ctx, &RewardArgs { amount: 1 }).unwrap_err(), MemoryError::AccountMismatch);
    let mut ctx = reward_accounts(500, 0);
    ctx.miner_token_account.owner = [0x01; 32];
    assert_eq!(reward_miner(&PROGRAM, &mut ctx, &RewardArgs { amount: 1 }).unwrap_err(), MemoryError::AccountMismatch);
    assert_eq!(ctx.reward_vault.amount, 500);
}

#[test]
fn reward_unsigned_payer() {
    let mut ctx = reward_accounts(500, 0);
    ctx.payer.signed = false;
    let r = reward_miner(&PROGRAM, &mut ctx, &RewardArgs { amount: 1 });
    assert_eq!(r.unwrap_err(), MemoryError::MissingSignature);
}

#[test]
fn reward_overflowing_recipient() {
    let mut ctx = reward_accounts(10, u64::MAX - 5);
    let r = reward_miner(&PROGRAM, &mut ctx, &RewardArgs { amount: 6 });
    assert_eq!(r.unwrap_err(), MemoryError::BalanceOverflow);
    assert_eq!(ctx.reward_vault.amount, 10);
    assert_eq!(ctx.miner_token_account.amount, u64::MAX - 5);
    reward_miner(&PROGRAM, &mut ctx, &RewardArgs { amount: 5 }).unwrap();
    assert_eq!(ctx.miner_token_account.amount, u64::MAX);
}

#[test]
fn reward_to_the_vault_itself_moves_nothing() {
    let authority = derive_vault_authority(&PROGRAM).unwrap().address;
    let mut ctx = reward_accounts(40, 0);
    ctx.miner = authority;
    ctx.miner_token_account = ctx.reward_vault;
    reward_miner(&PROGRAM, &mut ctx, &RewardArgs { amount: 30 }).unwrap();
    assert_eq!(ctx.reward_vault.amount, 40);
    assert_eq!(ctx.miner_token_account.amount, 40);
}

#[test]
fn error_messages_are_distinct() {
    let all = [
        MemoryError::MissingSignature,
        MemoryError::AlreadyExists,
        MemoryError::NotFound,
        MemoryError::IntegrityViolation,
        MemoryError::InsufficientFunds,
        MemoryError::BalanceOverflow,
        MemoryError::AccountMismatch,
        MemoryError::DerivationFailure,
    ];
    for (i, a) in all.iter().enumerate() {
        for b in all.iter().skip(i + 1) {
            assert_ne!(a.message(), b.message());
        }
    }
}

#[test]
fn verify_detects_a_record_with_another_hash() {
    let mut store = MemoryStore::new(PROGRAM);
    let h = [0x5A; 32];
    let address = derive_memory_address(&PROGRAM, &h).unwrap().address;
    store.insert(address, MemoryBlock { owner: [1u8; 32], data_hash: [0x5B; 32], timestamp: 3 });
    let r = verify_memory(&store, &verify_ctx(signer(2)), &VerifyHash { hash: h });
    assert_eq!(r.unwrap_err(), MemoryError::IntegrityViolation);
}

#[test]
fn store_lookup_and_insert() {
    let mut store = MemoryStore::new(PROGRAM);
    assert_eq!(store.program_id(), PROGRAM);
    assert!(store.lookup(&[1u8; 32]).is_none());
    store.insert([1u8; 32], MemoryBlock { owner: [2u8; 32], data_hash: [3u8; 32], timestamp: -4 });
    store.insert([5u8; 32], MemoryBlock { owner: [6u8; 32], data_hash: [7u8; 32], timestamp: 8 });
    let a = store.lookup(&[1u8; 32]).unwrap();
    assert_eq!(a.owner, [2u8; 32]);
    assert_eq!(a.timestamp, -4);
    let b = store.lookup(&[5u8; 32]).unwrap();
    assert_eq!(b.data_hash, [7u8; 32]);
    assert!(store.lookup(&[9u8; 32]).is_none());
    let stored = store_memory(&mut store, &store_ctx(signer(1), 9), &StoreHash { hash: [1u8; 32] }).unwrap();
    let address = derive_memory_address(&PROGRAM, &[1u8; 32]).unwrap().address;
    assert_eq!(store.lookup(&address).unwrap().timestamp, stored.timestamp);
}
