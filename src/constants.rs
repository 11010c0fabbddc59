use vstd::prelude::*;

verus! {

/// General seed of the program.
pub const SEED: &'static str = "anchor";

/// Namespace tag of the addresses that hold memory records.
pub const MEMORY_SEED: &'static str = "memory";

/// Namespace tag of the vault authority's address.
pub const AUTHORITY_SEED: &'static str = "authority";

} // verus!
