pub mod initialize;
pub mod reward_miner;
pub mod store_memory;
pub mod verify_memory;

pub use initialize::Initialize;
pub use reward_miner::{RewardArgs, RewardMiner};
pub use store_memory::StoreMemory;
pub use verify_memory::VerifyMemory;
