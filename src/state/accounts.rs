use vstd::prelude::*;

verus! {

/// An identity that takes part in an operation, and whether it signed it.
#[derive(Clone, Copy, Debug)]
pub struct Caller {
    pub key: [u8; 32],
    pub signed: bool,
}

/// A typed token balance held in the external balance ledger: its own
/// address, the mint (asset type) it holds, the authority that owns it and
/// the amount.
#[derive(Clone, Copy, Debug)]
pub struct TokenAccount {
    pub address: [u8; 32],
    pub mint: [u8; 32],
    pub owner: [u8; 32],
    pub amount: u64,
}

} // verus!
