use vstd::prelude::*;

verus! {

/// Every way in which an operation of the program can fail. A failed
/// operation changes no state.
#[derive(Clone, Copy, Debug, PartialEq, Eq, Structural)]
pub enum MemoryError {
    /// The caller that must sign the operation did not sign it.
    MissingSignature,
    /// A record already occupies the address derived from the hash.
    AlreadyExists,
    /// No record is stored at the address derived from the hash.
    NotFound,
    /// The record at the derived address holds a different hash.
    IntegrityViolation,
    /// The custodial balance holds less than the requested amount.
    InsufficientFunds,
    /// The recipient's balance would exceed `u64::MAX`.
    BalanceOverflow,
    /// An account does not belong to the expected authority or mint.
    AccountMismatch,
    /// No bump makes the seeds a valid program address.
    DerivationFailure,
}

impl MemoryError {
    /// A short human-readable description of the error.
    pub fn message(&self) -> (r: &'static str) {
        match self {
            MemoryError::MissingSignature => "missing required signature",
            MemoryError::AlreadyExists => "a record already exists for this hash",
            MemoryError::NotFound => "no record exists for this hash",
            MemoryError::IntegrityViolation => "stored hash differs from the requested hash",
            MemoryError::InsufficientFunds => "insufficient funds in the vault",
            MemoryError::BalanceOverflow => "recipient balance would overflow",
            MemoryError::AccountMismatch => "account does not match the expected authority or mint",
            MemoryError::DerivationFailure => "no valid bump for the derived address",
        }
    }
}

} // verus!
