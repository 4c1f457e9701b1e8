//! The finalization sub-protocol: ask the chain backend to mark a block
//! final, optionally attaching a justification, and report the outcome.
//! It performs no retries; the engine's caller retries if desired.

use vstd::prelude::*;

verus! {

use crate::BlockHash;
use crate::chain::Chain;
use crate::chain::ChainModel;
use crate::commands::EncodedJustification;
use crate::commands::Error;

/// Params for block finalization.
pub struct FinalizeBlockParams {
    /// Hash of the block.
    pub hash: BlockHash,
    /// Finalization justification.
    pub justification: Option<EncodedJustification>,
}

/// The outcome the backend reports for a finalization request: success
/// exactly when the hash is on the chain at or above the finalized height.
pub open spec fn finalize_outcome(c: ChainModel, hash: BlockHash) -> Result<(), Error> {
    match c.height_of(hash) {
        Some(h) => {
            if h >= c.finalized {
                Ok(())
            } else {
                Err(Error::FinalizeFailed)
            }
        },
        None => Err(Error::FinalizeFailed),
    }
}

/// The backend state a finalization request leaves behind: on success the
/// finalized height moves to the block's height; on failure nothing moves.
pub open spec fn finalize_effect(c: ChainModel, hash: BlockHash) -> ChainModel {
    match c.height_of(hash) {
        Some(h) => {
            if h >= c.finalized {
                ChainModel { finalized: h, ..c }
            } else {
                c
            }
        },
        None => c,
    }
}

/// Finalizes a block in the backend with the given params. A block not yet
/// imported never mutates state: the call fails and the finalized height
/// stays where it was.
pub fn finalize_block(chain: &mut Chain, params: FinalizeBlockParams) -> (r: Result<(), Error>)
    requires
        old(chain)@.wf(),
    ensures
        final(chain)@.wf(),
        r == finalize_outcome(old(chain)@, params.hash),
        final(chain)@ == finalize_effect(old(chain)@, params.hash),
{
    let ghost pre = chain@;
    match chain.finalize(params.hash, &params.justification) {
        Ok(()) => {
            proof {
                assert(chain@ =~= finalize_effect(pre, params.hash));
            }
            Ok(())
        },
        Err(()) => {
            proof {
                assert(chain@ =~= finalize_effect(pre, params.hash));
            }
            Err(Error::FinalizeFailed)
        },
    }
}

} // verus!
