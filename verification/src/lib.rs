//! Core of an on-demand block-production node: a manually driven sealing
//! engine with a chain backend model, plus the RMRK chain-extension surface
//! and the balances RPC helpers that accompany it.

use vstd::prelude::*;

pub mod balances;
pub mod chain;
pub mod chain_extension;
pub mod commands;
pub mod engine;
pub mod finalize;
pub mod laws;
pub mod rmrk;
pub mod rmrk_example;
pub mod scale;

verus! {

/// Height of the most recently imported block along the chosen chain.
pub type BlockNumber = u64;

/// Identifier of an imported block. The model treats hashes as opaque
/// 64-bit identifiers; zero is reserved for the genesis block.
pub type BlockHash = u64;

} // verus!
