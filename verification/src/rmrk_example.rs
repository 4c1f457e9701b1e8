//! An example contract over the RMRK chain extension, exercising a few of
//! its methods under the extension id this chain registers for contracts.

use vstd::prelude::*;

verus! {

use crate::rmrk::CollectionId;
use crate::rmrk::NftId;
use crate::rmrk::ResourceId;

/// Error surface of the example contract. Failure status codes make the
/// host call trap instead of returning an error value, so the contract
/// never constructs the type; the one variant only gives the `Result`
/// signatures their error arm.
#[derive(Clone, Copy, Debug, PartialEq, Eq, Structural)]
pub enum RmrkError {
    /// Never produced by this contract.
    Unreported,
}

impl RmrkError {
    /// Status-code handling of the original contract: zero is success, and
    /// the contract does not return on any other code, so only zero is
    /// accepted here.
    pub fn from_status_code(status_code: u32) -> (r: Result<(), RmrkError>)
        requires
            status_code == 0,
        ensures
            r is Ok,
    {
        Ok(())
    }
}

/// Relies on ink_env's `ChainExtensionMethod`: calls extension method
/// 0x00230001 with the encoded collection id and decodes the reply as an
/// NFT id. The reply is chain state, so nothing is stated of it.
#[verifier::external_body]
fn ext_next_nft_id(collection_id: u32) -> u32 {
    ink_env::chain_extension::ChainExtensionMethod::build(0x00230001)
        .input::<u32>()
        .output::<u32>()
        .ignore_error_code()
        .call(&collection_id)
}

/// Relies on ink_env's `ChainExtensionMethod`: calls extension method
/// 0x00230002 with no input and decodes the reply as a collection count.
#[verifier::external_body]
fn ext_collection_index() -> u32 {
    ink_env::chain_extension::ChainExtensionMethod::build(0x00230002)
        .input::<()>()
        .output::<u32>()
        .ignore_error_code()
        .call(&())
}

/// Relies on ink_env's `ChainExtensionMethod`: calls extension method
/// 0x00230003 with the encoded pair and decodes the reply as a resource id.
#[verifier::external_body]
fn ext_next_resource_id(collection_id: u32, nft_id: u32) -> u32 {
    ink_env::chain_extension::ChainExtensionMethod::build(0x00230003)
        .input::<(u32, u32)>()
        .output::<u32>()
        .ignore_error_code()
        .call(&(collection_id, nft_id))
}

/// Relies on ink_env's `ChainExtensionMethod`: calls extension method
/// 0x0023000F with the encoded collection data. The
/// status code is not consulted and the reply carries no data, so the call
/// itself reports nothing.
#[verifier::external_body]
fn ext_create_collection(metadata: Vec<u8>, max: Option<u32>, symbol: Vec<u8>) {
    ink_env::chain_extension::ChainExtensionMethod::build(0x0023000F)
        .input::<(Vec<u8>, Option<u32>, Vec<u8>)>()
        .output::<()>()
        .ignore_error_code()
        .call(&(metadata, max, symbol))
}

/// Storage of the example contract; it keeps no state of its own.
pub struct RmrkExample {}

impl RmrkExample {
    /// A fresh contract instance.
    pub fn new() -> RmrkExample {
        RmrkExample {  }
    }

    /// Id the next NFT minted into `collection_id` will get. Chain state.
    pub fn next_nft_id(&self, collection_id: CollectionId) -> NftId {
        ext_next_nft_id(collection_id)
    }

    /// Number of collections minted so far. Chain state.
    pub fn collection_index(&self) -> CollectionId {
        ext_collection_index()
    }

    /// Id the next resource added to the NFT will get. Chain state.
    pub fn next_resource_id(&self, collection_id: CollectionId, nft_id: NftId) -> ResourceId {
        ext_next_resource_id(collection_id, nft_id)
    }

    /// Create a collection with the given metadata, optional size cap and
    /// symbol. The extension reports refusals through its status
    /// code, which this surface does not consult: the returned value is
    /// always success.
    pub fn create_collection(
        &mut self,
        metadata: Vec<u8>,
        max: Option<u32>,
        symbol: Vec<u8>,
    ) -> (r: Result<(), RmrkError>)
        ensures
            r is Ok,
    {
        ext_create_collection(metadata, max, symbol);
        Ok(())
    }
}

} // verus!
