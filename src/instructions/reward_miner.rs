//! Paying a reward out of the custodial vault, authorised by the vault
//! authority's re-derived address and bump.
use vstd::prelude::*;

use crate::derivation::{derive_vault_authority, same_key, vault_authority, DerivedAddress};
use crate::error::MemoryError;
use crate::state::{Caller, TokenAccount};

verus! {

/// The accounts of a reward: the paying signer, the vault authority's
/// address as the caller supplied it, the custodial vault, the miner and the
/// miner's token account, and the reward mint.
#[derive(Clone, Copy, Debug)]
pub struct RewardMiner {
    pub payer: Caller,
    pub vault_authority: [u8; 32],
    pub reward_vault: TokenAccount,
    pub miner: [u8; 32],
    pub miner_token_account: TokenAccount,
    pub reward_mint: [u8; 32],
}

/// The amount to pay out.
#[derive(Clone, Copy, Debug)]
pub struct RewardArgs {
    pub amount: u64,
}

/// Whether the supplied accounts are the ones that a transfer signed by the
/// vault authority at `authority` may move `reward_mint` between.
pub open spec fn accounts_match(accounts: RewardMiner, authority: Seq<u8>) -> bool {
    &&& accounts.vault_authority@ == authority
    &&& accounts.reward_vault.owner@ == authority
    &&& accounts.reward_vault.mint@ == accounts.reward_mint@
    &&& accounts.miner_token_account.owner@ == accounts.miner@
    &&& accounts.miner_token_account.mint@ == accounts.reward_mint@
}

/// Whether the vault and the miner's token account are one account.
pub open spec fn self_transfer(accounts: RewardMiner) -> bool {
    accounts.reward_vault.address@ == accounts.miner_token_account.address@
}

/// What a reward of `amount` does: the vault authority's address and bump
/// that sign the transfer, or the error.
pub open spec fn reward_outcome(program_id: Seq<u8>, accounts: RewardMiner, amount: u64) -> Result<(Seq<u8>, u8), MemoryError> {
    if !accounts.payer.signed {
        Err(MemoryError::MissingSignature)
    } else {
        match vault_authority(program_id) {
            None => Err(MemoryError::DerivationFailure),
            Some((authority, bump)) => if !accounts_match(accounts, authority) {
                Err(MemoryError::AccountMismatch)
            } else if amount > accounts.reward_vault.amount {
                Err(MemoryError::InsufficientFunds)
            } else if !self_transfer(accounts) && accounts.miner_token_account.amount + amount > u64::MAX {
                Err(MemoryError::BalanceOverflow)
            } else {
                Ok((authority, bump))
            },
        }
    }
}

/// The accounts after a successful transfer of `amount`: it leaves the vault
/// and reaches the miner, and a transfer to the vault itself moves nothing.
pub open spec fn paid(accounts: RewardMiner, amount: u64) -> RewardMiner {
    if self_transfer(accounts) {
        accounts
    } else {
        RewardMiner {
            reward_vault: TokenAccount {
                amount: (accounts.reward_vault.amount - amount) as u64,
                ..accounts.reward_vault
            },
            miner_token_account: TokenAccount {
                amount: (accounts.miner_token_account.amount + amount) as u64,
                ..accounts.miner_token_account
            },
            ..accounts
        }
    }
}

/// Moves `args.amount` from the custodial vault to the miner's token account,
/// signed for by the re-derived vault authority, whose address and bump are
/// returned. On any error no balance changes.
pub fn handler(program_id: &[u8; 32], ctx: &mut RewardMiner, args: &RewardArgs) -> (r: Result<DerivedAddress, MemoryError>)
    ensures
        match reward_outcome(program_id@, *old(ctx), args.amount) {
            Ok(signer) => r matches Ok(a) && a.pair() == signer && *final(ctx) == paid(*old(ctx), args.amount),
            Err(e) => r == Err::<DerivedAddress, MemoryError>(e) && *final(ctx) == *old(ctx),
        },
{
    if !ctx.payer.signed {
        return Err(MemoryError::MissingSignature);
    }
    let authority = match derive_vault_authority(program_id) {
        Some(a) => a,
        None => return Err(MemoryError::DerivationFailure),
    };
    if !same_key(&ctx.vault_authority, &authority.address) || !same_key(&ctx.reward_vault.owner, &authority.address)
        || !same_key(&ctx.reward_vault.mint, &ctx.reward_mint) || !same_key(&ctx.miner_token_account.owner, &ctx.miner)
        || !same_key(&ctx.miner_token_account.mint, &ctx.reward_mint)
    {
        return Err(MemoryError::AccountMismatch);
    }
    if args.amount > ctx.reward_vault.amount {
        return Err(MemoryError::InsufficientFunds);
    }
    if same_key(&ctx.reward_vault.address, &ctx.miner_token_account.address) {
        return Ok(authority);
    }
    let credited = match ctx.miner_token_account.amount.checked_add(args.amount) {
        Some(c) => c,
        None => return Err(MemoryError::BalanceOverflow),
    };
    ctx.reward_vault.amount = ctx.reward_vault.amount - args.amount;
    ctx.miner_token_account.amount = credited;
    Ok(authority)
}

} // verus!
