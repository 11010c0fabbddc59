use vstd::prelude::*;

use crate::error::MemoryError;
use crate::state::Caller;

verus! {

/// The accounts of the bootstrap operation: only its signer.
#[derive(Clone, Copy, Debug)]
pub struct Initialize {
    pub signer: Caller,
}

/// The bootstrap handshake: it succeeds exactly when the caller signed.
pub fn handler(ctx: &Initialize) -> (r: Result<(), MemoryError>)
    ensures
        r == (if ctx.signer.signed {
            Ok::<(), MemoryError>(())
        } else {
            Err(MemoryError::MissingSignature)
        }),
{
    if ctx.signer.signed {
        Ok(())
    } else {
        Err(MemoryError::MissingSignature)
    }
}

} // verus!
