//! Commands carried by the engine's queue, the results they report, and the
//! one-shot reply slots through which a waiting caller receives its outcome.

use vstd::prelude::*;

verus! {

use crate::BlockHash;

/// Justification: opaque proof data accompanying a finalization claim.
pub type EncodedJustification = Vec<u8>;

/// Side effects observed while importing a block.
#[derive(Clone, Copy, Debug, PartialEq, Eq, Structural)]
pub struct ImportedAux {
    /// Only the header was imported.
    pub header_only: bool,
    /// Pending justification requests for this block were cleared.
    pub clear_justification_requests: bool,
    /// The block still needs a justification.
    pub needs_justification: bool,
    /// A justification arrived with the block but did not check out.
    pub bad_justification: bool,
    /// The block became the new best block.
    pub is_new_best: bool,
}

impl ImportedAux {
    /// The side effects of a clean import that advanced the best height.
    pub fn new_best() -> (r: ImportedAux)
        ensures
            r == ImportedAux::new_best_spec(),
    {
        ImportedAux {
            header_only: false,
            clear_justification_requests: false,
            needs_justification: false,
            bad_justification: false,
            is_new_best: true,
        }
    }

    /// Spec-level value of `new_best`.
    pub open spec fn new_best_spec() -> ImportedAux {
        ImportedAux {
            header_only: false,
            clear_justification_requests: false,
            needs_justification: false,
            bad_justification: false,
            is_new_best: true,
        }
    }
}

/// Returned on successful sealing.
#[derive(Clone, Copy, Debug, PartialEq, Eq, Structural)]
pub struct CreatedBlock {
    /// Hash of the created block.
    pub hash: BlockHash,
    /// Extra details about the import operation.
    pub aux: ImportedAux,
}

/// Everything that can go wrong while the engine handles a request.
#[derive(Clone, Copy, Debug, PartialEq, Eq, Structural)]
pub enum Error {
    /// A block without transactions was refused and the pool holds none.
    EmptyTransactionPool,
    /// The proposer could not assemble a candidate block.
    ProposalFailed,
    /// The importer refused the candidate block.
    ImportFailed,
    /// The backend refused to finalize the block.
    FinalizeFailed,
    /// The backend refused to revert the requested number of blocks.
    BackendRevertFailed,
    /// The requested target height is on the wrong side of the best height.
    InvalidHeightRequest,
}

/// A single-use, single-reader reply slot. The authorship task writes at
/// most once; a reader takes the value at most once; a reader that walked
/// away leaves later writes without effect.
#[derive(Clone, Copy, Debug, PartialEq, Eq, Structural)]
pub enum ReplySlot<T> {
    /// The reader still waits; no write happened yet.
    Waiting,
    /// The outcome was written and not yet read.
    Delivered(T),
    /// The reader abandoned the slot.
    Abandoned,
    /// The outcome was written and read.
    Taken,
}

/// What writing `result` leaves in a slot: a waiting slot receives the
/// value; writing anywhere else is a no-op.
pub open spec fn deliver_spec<T>(slot: ReplySlot<T>, result: T) -> ReplySlot<T> {
    match slot {
        ReplySlot::Waiting => ReplySlot::Delivered(result),
        _ => slot,
    }
}

/// Report an outcome encountered by the authorship task back to the slot's
/// reader. Writing to a slot whose reader is gone, or that was already
/// written, changes nothing (the outcome is merely logged by the caller's
/// surroundings), so at most one write ever lands in a slot.
pub fn send_result<T>(slot: &mut ReplySlot<T>, result: T)
    ensures
        *final(slot) == deliver_spec(*old(slot), result),
{
    match slot {
        ReplySlot::Waiting => {
            *slot = ReplySlot::Delivered(result);
        },
        _ => {},
    }
}

/// Mathematical image of an optional justification blob.
pub open spec fn justification_model(j: Option<EncodedJustification>) -> Option<Seq<u8>> {
    match j {
        Some(v) => Some(v@),
        None => None,
    }
}

/// Message sent to the background authorship task. A sender of `None` marks
/// a fire-and-forget command whose outcome is only logged; otherwise the
/// sender names the reply slot awaiting the outcome.
pub enum EngineCommand {
    /// Tells the engine to propose and import a new block. With
    /// `create_empty` set, a block is created even if the transaction pool
    /// is empty; with `finalize` set, the block is finalized at once.
    /// `parent_hash` of `None` means "build on the current best block".
    SealNewBlock {
        /// Seal a block even when no transactions are pending.
        create_empty: bool,
        /// Finalize the new block immediately after import.
        finalize: bool,
        /// Parent of the block about to be created.
        parent_hash: Option<BlockHash>,
        /// Reply slot of the caller awaiting the created block.
        sender: Option<usize>,
    },
    /// Tells the engine to finalize the block with the supplied hash.
    FinalizeBlock {
        /// Hash of the block.
        hash: BlockHash,
        /// Finalization justification.
        justification: Option<EncodedJustification>,
        /// Reply slot of the caller awaiting the outcome.
        sender: Option<usize>,
    },
}

/// Mathematical image of an [`EngineCommand`].
pub enum CommandModel {
    /// Image of [`EngineCommand::SealNewBlock`].
    Seal {
        /// Seal a block even when no transactions are pending.
        create_empty: bool,
        /// Finalize the new block immediately after import.
        finalize: bool,
        /// Parent of the block about to be created.
        parent_hash: Option<BlockHash>,
        /// Reply slot of the caller awaiting the created block.
        sender: Option<int>,
    },
    /// Image of [`EngineCommand::FinalizeBlock`].
    Finalize {
        /// Hash of the block.
        hash: BlockHash,
        /// Finalization justification.
        justification: Option<Seq<u8>>,
        /// Reply slot of the caller awaiting the outcome.
        sender: Option<int>,
    },
}

impl View for EngineCommand {
    type V = CommandModel;

    open spec fn view(&self) -> CommandModel {
        match self {
            EngineCommand::SealNewBlock { create_empty, finalize, parent_hash, sender } => {
                CommandModel::Seal {
                    create_empty: *create_empty,
                    finalize: *finalize,
                    parent_hash: *parent_hash,
                    sender: match sender {
                        Some(t) => Some(*t as int),
                        None => None,
                    },
                }
            },
            EngineCommand::FinalizeBlock { hash, justification, sender } => {
                CommandModel::Finalize {
                    hash: *hash,
                    justification: match justification {
                        Some(j) => Some(j@),
                        None => None,
                    },
                    sender: match sender {
                        Some(t) => Some(*t as int),
                        None => None,
                    },
                }
            },
        }
    }
}

} // verus!
