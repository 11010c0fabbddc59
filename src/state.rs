pub mod accounts;
pub mod memory_block;
pub mod memory_store;

pub use accounts::{Caller, TokenAccount};
pub use memory_block::MemoryBlock;
pub use memory_store::MemoryStore;
