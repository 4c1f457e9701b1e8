//! Client surface of the RMRK chain extension, as an ink smart contract
//! sees it: each operation SCALE-encodes its arguments, invokes one
//! extension method by its id, and decodes the reply. The replies depend on
//! the chain the contract runs on, so nothing can be promised of their
//! values; what the library guarantees is that the error-free surface never
//! hands back an error value.

use vstd::prelude::*;

verus! {

/// Identifier of an NFT collection.
pub type CollectionId = u32;

/// Identifier of an NFT within its collection.
pub type NftId = u32;

/// Identifier of a resource attached to an NFT.
pub type ResourceId = u32;

/// Identifier of a base.
pub type BaseId = u32;

/// Identifier of a slot of a base.
pub type SlotId = u32;

/// Identifier of a part of a base.
pub type PartId = u32;

/// A chain account, carried as its raw 32 bytes.
#[derive(Clone, Debug, PartialEq, Eq)]
pub struct AccountId {
    /// The raw bytes of the account; an account id is exactly 32 of them.
    pub bytes: Vec<u8>,
}

impl View for AccountId {
    type V = Seq<u8>;

    open spec fn view(&self) -> Seq<u8> {
        self.bytes@
    }
}

/// The owner of an NFT: either an account, or another NFT.
#[derive(Clone, Debug, PartialEq, Eq)]
pub enum AccountIdOrCollectionNftTuple {
    /// An account owns the NFT.
    AccountId(AccountId),
    /// Another NFT owns the NFT.
    CollectionAndNftTuple(CollectionId, NftId),
}

/// Mathematical image of an [`AccountIdOrCollectionNftTuple`].
pub enum OwnerModel {
    /// An account owns the NFT.
    Account(Seq<u8>),
    /// Another NFT owns the NFT.
    Nft(u32, u32),
}

impl View for AccountIdOrCollectionNftTuple {
    type V = OwnerModel;

    open spec fn view(&self) -> OwnerModel {
        match self {
            AccountIdOrCollectionNftTuple::AccountId(a) => OwnerModel::Account(a@),
            AccountIdOrCollectionNftTuple::CollectionAndNftTuple(c, n) => OwnerModel::Nft(*c, *n),
        }
    }
}

/// Error surface of the extension client. Failure status codes make the
/// host call trap instead of returning an error value, so this surface
/// never constructs the type; the one variant only gives the `Result`
/// signatures their error arm.
#[derive(Clone, Copy, Debug, PartialEq, Eq, Structural)]
pub enum RmrkError {
    /// Never produced by this surface.
    Unreported,
}

impl RmrkError {
    /// Status-code handling of the original surface: zero is success, and
    /// the surface does not return on any other code, so only zero is
    /// accepted here.
    pub fn from_status_code(status_code: u32) -> (r: Result<(), RmrkError>)
        requires
            status_code == 0,
        ensures
            r is Ok,
    {
        Ok(())
    }
}

/// A resource that is a plain media reference.
#[derive(Clone, Debug, PartialEq, Eq)]
pub struct BasicResource {
    /// Reference to the IPFS location of metadata.
    pub metadata: Option<Vec<u8>>,
}

/// A resource composed of parts of a base.
#[derive(Clone, Debug, PartialEq, Eq)]
pub struct ComposableResource {
    /// The parts that compose the resource.
    pub parts: Vec<PartId>,
    /// The base the parts belong to.
    pub base: BaseId,
    /// Media source, a URI such as an IPFS hash.
    pub src: Option<Vec<u8>>,
    /// Reference to the IPFS location of metadata.
    pub metadata: Option<Vec<u8>>,
    /// The base slot the resource was designed to fit into, if any.
    pub slot: Option<(BaseId, SlotId)>,
    /// Location or identifier of a license.
    pub license: Option<Vec<u8>>,
    /// URI of a thumbnail representing the resource.
    pub thumb: Option<Vec<u8>>,
}

/// A resource designed to fit into a specific slot of a base.
#[derive(Clone, Debug, PartialEq, Eq)]
pub struct SlotResource {
    /// The base the slot belongs to.
    pub base: BaseId,
    /// Media source, a URI such as an IPFS hash.
    pub src: Option<Vec<u8>>,
    /// Reference to the IPFS location of metadata.
    pub metadata: Option<Vec<u8>>,
    /// The slot the resource fits into.
    pub slot: SlotId,
    /// Location or identifier of a license.
    pub license: Option<Vec<u8>>,
    /// URI of a thumbnail representing the resource.
    pub thumb: Option<Vec<u8>>,
}

/// A resource of an NFT, of one of the three shapes.
#[derive(Clone, Debug, PartialEq, Eq)]
pub enum ResourceTypes {
    /// A plain media reference.
    Basic(BasicResource),
    /// A resource composed of parts of a base.
    Composable(ComposableResource),
    /// A resource fitting a slot of a base.
    Slot(SlotResource),
}

/// Mathematical image of an optional byte string field.
pub open spec fn opt_bytes_model(v: Option<Vec<u8>>) -> Option<Seq<u8>> {
    match v {
        Some(b) => Some(b@),
        None => None,
    }
}

/// Mathematical image of a [`BasicResource`].
pub struct BasicResourceModel {
    /// Reference to the IPFS location of metadata.
    pub metadata: Option<Seq<u8>>,
}

/// Mathematical image of a [`ComposableResource`].
pub struct ComposableResourceModel {
    /// The parts that compose the resource.
    pub parts: Seq<u32>,
    /// The base the parts belong to.
    pub base: u32,
    /// Media source.
    pub src: Option<Seq<u8>>,
    /// Reference to the IPFS location of metadata.
    pub metadata: Option<Seq<u8>>,
    /// The base slot the resource was designed to fit into, if any.
    pub slot: Option<(u32, u32)>,
    /// Location or identifier of a license.
    pub license: Option<Seq<u8>>,
    /// URI of a thumbnail.
    pub thumb: Option<Seq<u8>>,
}

/// Mathematical image of a [`SlotResource`].
pub struct SlotResourceModel {
    /// The base the slot belongs to.
    pub base: u32,
    /// Media source.
    pub src: Option<Seq<u8>>,
    /// Reference to the IPFS location of metadata.
    pub metadata: Option<Seq<u8>>,
    /// The slot the resource fits into.
    pub slot: u32,
    /// Location or identifier of a license.
    pub license: Option<Seq<u8>>,
    /// URI of a thumbnail.
    pub thumb: Option<Seq<u8>>,
}

/// Mathematical image of a [`ResourceTypes`].
pub enum ResourceTypesModel {
    /// A plain media reference.
    Basic(BasicResourceModel),
    /// A resource composed of parts of a base.
    Composable(ComposableResourceModel),
    /// A resource fitting a slot of a base.
    Slot(SlotResourceModel),
}

impl View for BasicResource {
    type V = BasicResourceModel;

    open spec fn view(&self) -> BasicResourceModel {
        BasicResourceModel { metadata: opt_bytes_model(self.metadata) }
    }
}

impl View for ComposableResource {
    type V = ComposableResourceModel;

    open spec fn view(&self) -> ComposableResourceModel {
        ComposableResourceModel {
            parts: self.parts@,
            base: self.base,
            src: opt_bytes_model(self.src),
            metadata: opt_bytes_model(self.metadata),
            slot: self.slot,
            license: opt_bytes_model(self.license),
            thumb: opt_bytes_model(self.thumb),
        }
    }
}

impl View for SlotResource {
    type V = SlotResourceModel;

    open spec fn view(&self) -> SlotResourceModel {
        SlotResourceModel {
            base: self.base,
            src: opt_bytes_model(self.src),
            metadata: opt_bytes_model(self.metadata),
            slot: self.slot,
            license: opt_bytes_model(self.license),
            thumb: opt_bytes_model(self.thumb),
        }
    }
}

impl View for ResourceTypes {
    type V = ResourceTypesModel;

    open spec fn view(&self) -> ResourceTypesModel {
        match self {
            ResourceTypes::Basic(b) => ResourceTypesModel::Basic(b@),
            ResourceTypes::Composable(c) => ResourceTypesModel::Composable(c@),
            ResourceTypes::Slot(sl) => ResourceTypesModel::Slot(sl@),
        }
    }
}

/// Relies on ink_env's `ChainExtensionMethod`: calls extension method
/// 0x00010001 with the encoded collection id and decodes the reply as an
/// NFT id. The reply is chain state, so nothing is stated of it.
#[verifier::external_body]
fn ext_next_nft_id(collection_id: u32) -> u32 {
    ink_env::chain_extension::ChainExtensionMethod::build(0x00010001)
        .input::<u32>()
        .output::<u32>()
        .ignore_error_code()
        .call(&collection_id)
}

/// Relies on ink_env's `ChainExtensionMethod`: calls extension method
/// 0x00010002 with no input and decodes the reply as a collection count.
#[verifier::external_body]
fn ext_collection_index() -> u32 {
    ink_env::chain_extension::ChainExtensionMethod::build(0x00010002)
        .input::<()>()
        .output::<u32>()
        .ignore_error_code()
        .call(&())
}

/// Relies on ink_env's `ChainExtensionMethod`: calls extension method
/// 0x00010003 with the encoded pair and decodes the reply as a resource id.
#[verifier::external_body]
fn ext_next_resource_id(collection_id: u32, nft_id: u32) -> u32 {
    ink_env::chain_extension::ChainExtensionMethod::build(0x00010003)
        .input::<(u32, u32)>()
        .output::<u32>()
        .ignore_error_code()
        .call(&(collection_id, nft_id))
}

/// Relies on ink_env's `ChainExtensionMethod`: calls extension method
/// 0x00010006 with the encoded triple and decodes the reply as an optional
/// priority.
#[verifier::external_body]
fn ext_priorities(collection_id: u32, nft_id: u32, resource_id: u32) -> Option<u32> {
    ink_env::chain_extension::ChainExtensionMethod::build(0x00010006)
        .input::<(u32, u32, u32)>()
        .output::<Option<u32>>()
        .ignore_error_code()
        .call(&(collection_id, nft_id, resource_id))
}

/// Relies on ink_env's `ChainExtensionMethod`: calls extension method
/// 0x00010007 with the two encoded pairs and decodes the reply as an
/// optional unit.
#[verifier::external_body]
fn ext_children(parent: (u32, u32), child: (u32, u32)) -> Option<()> {
    ink_env::chain_extension::ChainExtensionMethod::build(0x00010007)
        .input::<((u32, u32), (u32, u32))>()
        .output::<Option<()>>()
        .ignore_error_code()
        .call(&(parent, child))
}

/// Relies on ink_env's `ChainExtensionMethod`: calls extension method
/// 0x00010009 with the encoded triple and decodes the reply as an optional
/// unit.
#[verifier::external_body]
fn ext_equippable_bases(collection_id: u32, nft_id: u32, base_id: u32) -> Option<()> {
    ink_env::chain_extension::ChainExtensionMethod::build(0x00010009)
        .input::<(u32, u32, u32)>()
        .output::<Option<()>>()
        .ignore_error_code()
        .call(&(collection_id, nft_id, base_id))
}

/// Relies on ink_env's `ChainExtensionMethod`: calls extension method
/// 0x0001000A with the five encoded ids and decodes the reply as an
/// optional unit.
#[verifier::external_body]
fn ext_equippable_slots(
    collection_id: u32,
    nft_id: u32,
    resource_id: u32,
    base_id: u32,
    slot_id: u32,
) -> Option<()> {
    ink_env::chain_extension::ChainExtensionMethod::build(0x0001000A)
        .input::<(u32, u32, u32, u32, u32)>()
        .output::<Option<()>>()
        .ignore_error_code()
        .call(&(collection_id, nft_id, resource_id, base_id, slot_id))
}

/// Relies on ink_env's `ChainExtensionMethod`: calls extension method
/// 0x0001000B with the encoded key and decodes the reply as an optional
/// property value.
#[verifier::external_body]
fn ext_properties(collection_id: u32, nft_id: Option<u32>, key: Vec<u8>) -> Option<Vec<u8>> {
    ink_env::chain_extension::ChainExtensionMethod::build(0x0001000B)
        .input::<(u32, Option<u32>, Vec<u8>)>()
        .output::<Option<Vec<u8>>>()
        .ignore_error_code()
        .call(&(collection_id, nft_id, key))
}

/// Relies on ink_env's `ChainExtensionMethod`: calls extension method
/// 0x0001000C with the encoded pair and decodes the reply as the lock
/// state.
#[verifier::external_body]
fn ext_lock(collection_id: u32, nft_id: u32) -> bool {
    ink_env::chain_extension::ChainExtensionMethod::build(0x0001000C)
        .input::<(u32, u32)>()
        .output::<bool>()
        .ignore_error_code()
        .call(&(collection_id, nft_id))
}

/// Relies on ink_env's `ChainExtensionMethod`: calls extension method
/// 0x0001000F with the encoded collection data. The
/// status code is not consulted and the reply carries no data, so the call
/// itself reports nothing.
#[verifier::external_body]
fn ext_create_collection(metadata: Vec<u8>, max: Option<u32>, symbol: Vec<u8>) {
    ink_env::chain_extension::ChainExtensionMethod::build(0x0001000F)
        .input::<(Vec<u8>, Option<u32>, Vec<u8>)>()
        .output::<()>()
        .ignore_error_code()
        .call(&(metadata, max, symbol))
}

/// Relies on ink_env's `ChainExtensionMethod`: calls extension method
/// 0x00010010 with the encoded triple. The status code is not consulted and
/// the reply carries no data, so the call itself reports nothing.
#[verifier::external_body]
fn ext_burn_nft(collection_id: u32, nft_id: u32, max_burns: u32) {
    ink_env::chain_extension::ChainExtensionMethod::build(0x00010010)
        .input::<(u32, u32, u32)>()
        .output::<()>()
        .ignore_error_code()
        .call(&(collection_id, nft_id, max_burns))
}

/// Relies on ink_env's `ChainExtensionMethod`: calls extension method
/// 0x00010011 with the encoded collection id. The status code is not consulted
/// and the reply carries no data, so the call itself reports nothing.
#[verifier::external_body]
fn ext_destroy_collection(collection_id: u32) {
    ink_env::chain_extension::ChainExtensionMethod::build(0x00010011)
        .input::<u32>()
        .output::<()>()
        .ignore_error_code()
        .call(&collection_id)
}

/// Relies on ink_env's `ChainExtensionMethod`: calls extension method
/// 0x00010014 with the encoded pair. The status code is not consulted and the
/// reply carries no data, so the call itself reports nothing.
#[verifier::external_body]
fn ext_reject_nft(collection_id: u32, nft_id: u32) {
    ink_env::chain_extension::ChainExtensionMethod::build(0x00010014)
        .input::<(u32, u32)>()
        .output::<()>()
        .ignore_error_code()
        .call(&(collection_id, nft_id))
}

/// Relies on ink_env's `ChainExtensionMethod`: calls extension method
/// 0x00010015 with the collection id and the new issuer's account bytes. The
/// status code is not consulted and the reply carries no data, so the
/// call itself reports nothing.
#[verifier::external_body]
fn ext_change_collection_issuer(collection_id: u32, new_issuer: AccountId)
    requires
        new_issuer@.len() == 32,
{
    let mut raw = [0u8; 32];
    raw.copy_from_slice(new_issuer.bytes.as_slice());
    ink_env::chain_extension::ChainExtensionMethod::build(0x00010015)
        .input::<(u32, ink_env::AccountId)>()
        .output::<()>()
        .ignore_error_code()
        .call(&(collection_id, ink_env::AccountId::from(raw)))
}

/// Relies on ink_env's `ChainExtensionMethod`: calls extension method
/// 0x00010016 with the encoded key and value. The status code is not consulted
/// and the reply carries no data, so the call itself reports nothing.
#[verifier::external_body]
fn ext_set_property(collection_id: u32, maybe_nft_id: Option<u32>, key: Vec<u8>, value: Vec<u8>) {
    ink_env::chain_extension::ChainExtensionMethod::build(0x00010016)
        .input::<(u32, Option<u32>, Vec<u8>, Vec<u8>)>()
        .output::<()>()
        .ignore_error_code()
        .call(&(collection_id, maybe_nft_id, key, value))
}

/// Relies on ink_env's `ChainExtensionMethod`: calls extension method
/// 0x00010017 with the encoded collection id. The status code is not consulted
/// and the reply carries no data, so the call itself reports nothing.
#[verifier::external_body]
fn ext_lock_collection(collection_id: u32) {
    ink_env::chain_extension::ChainExtensionMethod::build(0x00010017)
        .input::<u32>()
        .output::<()>()
        .ignore_error_code()
        .call(&collection_id)
}

/// Relies on ink_env's `ChainExtensionMethod`: calls extension method
/// 0x00010018. SCALE encodes a struct as the concatenation of its encoded
/// fields, so the resource travels as the tuple of its fields. The status code is not
/// consulted and the reply carries no data, so the call itself reports
/// nothing.
#[verifier::external_body]
fn ext_add_basic_resource(collection_id: u32, nft_id: u32, resource: BasicResource) {
    ink_env::chain_extension::ChainExtensionMethod::build(0x00010018)
        .input::<(u32, u32, Option<Vec<u8>>)>()
        .output::<()>()
        .ignore_error_code()
        .call(&(collection_id, nft_id, resource.metadata))
}

/// Relies on ink_env's `ChainExtensionMethod`: calls extension method
/// 0x00010019. SCALE encodes a struct as the concatenation of its encoded
/// fields, so the resource travels as the tuple of its fields. The status code is not
/// consulted and the reply carries no data, so the call itself reports
/// nothing.
#[verifier::external_body]
fn ext_add_composable_resource(collection_id: u32, nft_id: u32, resource: ComposableResource) {
    let ComposableResource { parts, base, src, metadata, slot, license, thumb } = resource;
    ink_env::chain_extension::ChainExtensionMethod::build(0x00010019)
        .input::<(
            u32,
            u32,
            (Vec<u32>, u32, Option<Vec<u8>>, Option<Vec<u8>>, Option<(u32, u32)>, Option<Vec<u8>>, Option<Vec<u8>>),
        )>()
        .output::<()>()
        .ignore_error_code()
        .call(&(collection_id, nft_id, (parts, base, src, metadata, slot, license, thumb)))
}

/// Relies on ink_env's `ChainExtensionMethod`: calls extension method
/// 0x0001001A. SCALE encodes a struct as the concatenation of its encoded
/// fields, so the resource travels as the tuple of its fields. The status code is not
/// consulted and the reply carries no data, so the call itself reports
/// nothing.
#[verifier::external_body]
fn ext_add_slot_resource(collection_id: u32, nft_id: u32, resource: SlotResource) {
    let SlotResource { base, src, metadata, slot, license, thumb } = resource;
    ink_env::chain_extension::ChainExtensionMethod::build(0x0001001A)
        .input::<(
            u32,
            u32,
            (u32, Option<Vec<u8>>, Option<Vec<u8>>, u32, Option<Vec<u8>>, Option<Vec<u8>>),
        )>()
        .output::<()>()
        .ignore_error_code()
        .call(&(collection_id, nft_id, (base, src, metadata, slot, license, thumb)))
}

/// Relies on ink_env's `ChainExtensionMethod`: calls extension method
/// 0x0001001B with the encoded triple. The status code is not consulted and
/// the reply carries no data, so the call itself reports nothing.
#[verifier::external_body]
fn ext_accept_resource(collection_id: u32, nft_id: u32, resource_id: u32) {
    ink_env::chain_extension::ChainExtensionMethod::build(0x0001001B)
        .input::<(u32, u32, u32)>()
        .output::<()>()
        .ignore_error_code()
        .call(&(collection_id, nft_id, resource_id))
}

/// Relies on ink_env's `ChainExtensionMethod`: calls extension method
/// 0x0001001C with the encoded triple. The status code is not consulted and
/// the reply carries no data, so the call itself reports nothing.
#[verifier::external_body]
fn ext_remove_resource(collection_id: u32, nft_id: u32, resource_id: u32) {
    ink_env::chain_extension::ChainExtensionMethod::build(0x0001001C)
        .input::<(u32, u32, u32)>()
        .output::<()>()
        .ignore_error_code()
        .call(&(collection_id, nft_id, resource_id))
}

/// Relies on ink_env's `ChainExtensionMethod`: calls extension method
/// 0x0001001D with the encoded triple. The status code is not consulted and
/// the reply carries no data, so the call itself reports nothing.
#[verifier::external_body]
fn ext_accept_resource_removal(collection_id: u32, nft_id: u32, resource_id: u32) {
    ink_env::chain_extension::ChainExtensionMethod::build(0x0001001D)
        .input::<(u32, u32, u32)>()
        .output::<()>()
        .ignore_error_code()
        .call(&(collection_id, nft_id, resource_id))
}

/// Relies on ink_env's `ChainExtensionMethod`: calls extension method
/// 0x0001001E with the encoded priority list. The status code is not consulted
/// and the reply carries no data, so the call itself reports nothing.
#[verifier::external_body]
fn ext_set_priority(collection_id: u32, nft_id: u32, priorities: Vec<u32>) {
    ink_env::chain_extension::ChainExtensionMethod::build(0x0001001E)
        .input::<(u32, u32, Vec<u32>)>()
        .output::<()>()
        .ignore_error_code()
        .call(&(collection_id, nft_id, priorities))
}

/// The RMRK chain-extension client.
pub struct Rmrk;

impl Rmrk {
    /// Id the next NFT minted into `collection_id` will get. Chain state:
    /// the value is whatever the chain holds at call time.
    pub fn next_nft_id(collection_id: CollectionId) -> NftId {
        ext_next_nft_id(collection_id)
    }

    /// Number of collections minted so far. Chain state.
    pub fn collection_index() -> CollectionId {
        ext_collection_index()
    }

    /// Id the next resource added to the NFT will get. Chain state.
    pub fn next_resource_id(collection_id: CollectionId, nft_id: NftId) -> ResourceId {
        ext_next_resource_id(collection_id, nft_id)
    }

    /// Priority of a resource of an NFT, if set. Chain state.
    pub fn priorities(
        collection_id: CollectionId,
        nft_id: NftId,
        resource_id: ResourceId,
    ) -> Option<u32> {
        ext_priorities(collection_id, nft_id, resource_id)
    }

    /// Whether `child` is a child NFT of `parent`. Chain state.
    pub fn children(parent: (CollectionId, NftId), child: (CollectionId, NftId)) -> Option<()> {
        ext_children(parent, child)
    }

    /// Whether the NFT can equip resources of the base. Chain state.
    pub fn equippable_bases(
        collection_id: CollectionId,
        nft_id: NftId,
        base_id: BaseId,
    ) -> Option<()> {
        ext_equippable_bases(collection_id, nft_id, base_id)
    }

    /// Whether the resource fits the slot of the base. Chain state.
    pub fn equippable_slots(
        collection_id: CollectionId,
        nft_id: NftId,
        resource_id: ResourceId,
        base_id: BaseId,
        slot_id: SlotId,
    ) -> Option<()> {
        ext_equippable_slots(collection_id, nft_id, resource_id, base_id, slot_id)
    }

    /// Value stored under a property key of a collection or of one of its
    /// NFTs. Chain state.
    pub fn properties(
        collection_id: CollectionId,
        nft_id: Option<NftId>,
        key: Vec<u8>,
    ) -> Option<Vec<u8>> {
        ext_properties(collection_id, nft_id, key)
    }

    /// Lock state of an NFT. Chain state.
    pub fn lock(collection_id: CollectionId, nft_id: NftId) -> bool {
        ext_lock(collection_id, nft_id)
    }

    /// Create a collection with the given metadata, optional size cap and
    /// symbol. The extension reports refusals through its status
    /// code, which this surface does not consult: the returned value is
    /// always success.
    pub fn create_collection(metadata: Vec<u8>, max: Option<u32>, symbol: Vec<u8>) -> (r: Result<
        (),
        RmrkError,
    >)
        ensures
            r is Ok,
    {
        ext_create_collection(metadata, max, symbol);
        Ok(())
    }

    /// Burn an NFT and up to `max_burns` of its descendants. The extension
    /// reports refusals through its status code, which this surface does
    /// not consult: the returned value is always success.
    pub fn burn_nft(collection_id: CollectionId, nft_id: NftId, max_burns: u32) -> (r: Result<
        (),
        RmrkError,
    >)
        ensures
            r is Ok,
    {
        ext_burn_nft(collection_id, nft_id, max_burns);
        Ok(())
    }

    /// Destroy an empty collection. The extension reports refusals through
    /// its status code, which this surface does not consult: the returned
    /// value is always success.
    pub fn destroy_collection(collection_id: CollectionId) -> (r: Result<(), RmrkError>)
        ensures
            r is Ok,
    {
        ext_destroy_collection(collection_id);
        Ok(())
    }

    /// Reject an NFT sent to one of the caller's NFTs. The extension reports
    /// refusals through its status code, which this surface does not
    /// consult: the returned value is always success.
    pub fn reject_nft(collection_id: CollectionId, nft_id: NftId) -> (r: Result<(), RmrkError>)
        ensures
            r is Ok,
    {
        ext_reject_nft(collection_id, nft_id);
        Ok(())
    }

    /// Hand a collection to a new issuer. The extension reports refusals
    /// through its status code, which this surface does not consult: the
    /// returned value is always success.
    pub fn change_collection_issuer(collection_id: CollectionId, new_issuer: AccountId) -> (r:
        Result<(), RmrkError>)
        requires
            new_issuer@.len() == 32,
        ensures
            r is Ok,
    {
        ext_change_collection_issuer(collection_id, new_issuer);
        Ok(())
    }

    /// Set a property key of a collection or of one of its NFTs. The extension
    /// reports refusals through its status code, which this surface does
    /// not consult: the returned value is always success.
    pub fn set_property(
        collection_id: CollectionId,
        maybe_nft_id: Option<NftId>,
        key: Vec<u8>,
        value: Vec<u8>,
    ) -> (r: Result<(), RmrkError>)
        ensures
            r is Ok,
    {
        ext_set_property(collection_id, maybe_nft_id, key, value);
        Ok(())
    }

    /// Lock a collection against further minting. The extension reports refusals
    /// through its status code, which this surface does not consult: the
    /// returned value is always success.
    pub fn lock_collection(collection_id: CollectionId) -> (r: Result<(), RmrkError>)
        ensures
            r is Ok,
    {
        ext_lock_collection(collection_id);
        Ok(())
    }

    /// Attach a basic resource to an NFT. The extension reports refusals
    /// through its status code, which this surface does not consult: the
    /// returned value is always success.
    pub fn add_basic_resource(
        collection_id: CollectionId,
        nft_id: NftId,
        resource: BasicResource,
    ) -> (r: Result<(), RmrkError>)
        ensures
            r is Ok,
    {
        ext_add_basic_resource(collection_id, nft_id, resource);
        Ok(())
    }

    /// Attach a composable resource to an NFT. The extension reports refusals through
    /// its status code, which this surface does not consult: the returned
    /// value is always success.
    pub fn add_composable_resource(
        collection_id: CollectionId,
        nft_id: NftId,
        resource: ComposableResource,
    ) -> (r: Result<(), RmrkError>)
        ensures
            r is Ok,
    {
        ext_add_composable_resource(collection_id, nft_id, resource);
        Ok(())
    }

    /// Attach a slot resource to an NFT. The extension reports refusals
    /// through its status code, which this surface does not consult: the
    /// returned value is always success.
    pub fn add_slot_resource(
        collection_id: CollectionId,
        nft_id: NftId,
        resource: SlotResource,
    ) -> (r: Result<(), RmrkError>)
        ensures
            r is Ok,
    {
        ext_add_slot_resource(collection_id, nft_id, resource);
        Ok(())
    }

    /// Accept a pending resource of an NFT. The extension reports refusals through
    /// its status code, which this surface does not consult: the returned
    /// value is always success.
    pub fn accept_resource(
        collection_id: CollectionId,
        nft_id: NftId,
        resource_id: ResourceId,
    ) -> (r: Result<(), RmrkError>)
        ensures
            r is Ok,
    {
        ext_accept_resource(collection_id, nft_id, resource_id);
        Ok(())
    }

    /// Ask to remove a resource of an NFT. The extension reports refusals
    /// through its status code, which this surface does not consult: the
    /// returned value is always success.
    pub fn remove_resource(
        collection_id: CollectionId,
        nft_id: NftId,
        resource_id: ResourceId,
    ) -> (r: Result<(), RmrkError>)
        ensures
            r is Ok,
    {
        ext_remove_resource(collection_id, nft_id, resource_id);
        Ok(())
    }

    /// Accept the removal of a resource of an NFT. The extension reports refusals
    /// through its status code, which this surface does not consult: the
    /// returned value is always success.
    pub fn accept_resource_removal(
        collection_id: CollectionId,
        nft_id: NftId,
        resource_id: ResourceId,
    ) -> (r: Result<(), RmrkError>)
        ensures
            r is Ok,
    {
        ext_accept_resource_removal(collection_id, nft_id, resource_id);
        Ok(())
    }

    /// Set the priority order of the resources of an NFT. The extension reports
    /// refusals through its status code, which this surface does not
    /// consult: the returned value is always success.
    pub fn set_priority(
        collection_id: CollectionId,
        nft_id: NftId,
        priorities: Vec<ResourceId>,
    ) -> (r: Result<(), RmrkError>)
        ensures
            r is Ok,
    {
        ext_set_priority(collection_id, nft_id, priorities);
        Ok(())
    }
}

} // verus!
