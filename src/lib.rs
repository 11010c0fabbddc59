//! A content-addressed record store with a program-derived vault authority.
//!
//! Records live at addresses derived from a namespace tag and their content
//! hash, are written once and never changed, and can be read back and checked
//! by any signer. Reward transfers out of a custodial token balance are
//! authorised by re-deriving the vault authority's address and bump.
pub mod constants;
pub mod derivation;
pub mod error;
pub mod instructions;
pub mod memorychain;
pub mod state;

pub use constants::{AUTHORITY_SEED, MEMORY_SEED, SEED};
pub use derivation::{derive_memory_address, derive_vault_authority, DerivedAddress};
pub use error::MemoryError;
pub use state::{Caller, MemoryBlock, MemoryStore, TokenAccount};
pub use instructions::{Initialize, RewardArgs, RewardMiner, StoreMemory, VerifyMemory};
pub use memorychain::{initialize, reward_miner, store_memory, verify_memory};
