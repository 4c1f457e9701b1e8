//! The chain-extension side of the RMRK surface: the table of extension
//! function ids, the error names a module error can carry, and the
//! dispatcher that reads a call's input and says which pallet operation it
//! asks for, with which arguments.

use vstd::prelude::*;

verus! {

use crate::rmrk::AccountId;
use crate::rmrk::AccountIdOrCollectionNftTuple;
use crate::rmrk::BasicResource;
use crate::rmrk::BasicResourceModel;
use crate::rmrk::ComposableResource;
use crate::rmrk::ComposableResourceModel;
use crate::rmrk::OwnerModel;
use crate::rmrk::ResourceTypes;
use crate::rmrk::ResourceTypesModel;
use crate::rmrk::SlotResource;
use crate::rmrk::SlotResourceModel;
use crate::scale::sd_account;
use crate::scale::sd_bool;
use crate::scale::sd_bytes;
use crate::scale::sd_compact;
use crate::scale::sd_opt_account;
use crate::scale::sd_opt_bytes;
use crate::scale::sd_opt_pair_u32;
use crate::scale::sd_pair_u32;
use crate::scale::sd_triple_u32;
use crate::scale::sd_opt_u32;
use crate::scale::sd_u32;
use crate::scale::sd_vec_u32;
use crate::scale::dec_account;
use crate::scale::dec_bool;
use crate::scale::dec_bytes;
use crate::scale::dec_compact;
use crate::scale::dec_opt_account;
use crate::scale::dec_opt_bytes;
use crate::scale::dec_opt_pair_u32;
use crate::scale::dec_pair_u32;
use crate::scale::dec_triple_u32;
use crate::scale::dec_opt_u32;
use crate::scale::dec_u32;
use crate::scale::dec_vec_u32;

/// The failure a runtime call reports: either a named error of one of the
/// runtime's modules, of which the logic here reads only the name, or plain
/// text.
#[derive(Clone, Debug, PartialEq, Eq)]
pub enum DispatchError {
    /// A module reported a named error.
    Module {
        /// Name of the error, where the runtime carries one.
        message: Option<String>,
    },
    /// Failure described by plain text.
    Other(&'static str),
}

/// The operations the RMRK chain extension serves, one per extension
/// function id.
#[derive(Clone, Copy, Debug, PartialEq, Eq, Structural)]
pub enum RmrkFunc {
    /// Read the number of collections minted so far.
    CollectionIndex,
    /// Read a collection.
    Collections,
    /// Read an NFT.
    Nfts,
    /// Read the priority of a resource of an NFT.
    Priorities,
    /// Read whether one NFT is a child of another.
    Children,
    /// Read a resource of an NFT.
    Resources,
    /// Read whether an NFT can equip resources of a base.
    EquippableBases,
    /// Read whether a resource fits a slot of a base.
    EquippableSlots,
    /// Read a property value.
    Properties,
    /// Read the lock state of an NFT.
    Lock,
    /// Mint an NFT to an account.
    MintNft,
    /// Mint an NFT owned by another NFT.
    MintNftDirectlyToNft,
    /// Create a collection.
    CreateCollection,
    /// Burn an NFT.
    BurnNft,
    /// Destroy an empty collection.
    DestroyCollection,
    /// Send an NFT to a new owner.
    Send,
    /// Accept an NFT sent to one of the caller's NFTs.
    AcceptNft,
    /// Reject an NFT sent to one of the caller's NFTs.
    RejectNft,
    /// Hand a collection to a new issuer.
    ChangeCollectionIssuer,
    /// Set a property key.
    SetProperty,
    /// Lock a collection against further minting.
    LockCollection,
    /// Attach a basic resource to an NFT.
    AddBasicResource,
    /// Attach a composable resource to an NFT.
    AddComposableResource,
    /// Attach a slot resource to an NFT.
    AddSlotResource,
    /// Accept a pending resource.
    AcceptResource,
    /// Ask to remove a resource.
    RemoveResource,
    /// Accept the removal of a resource.
    AcceptResourceRemoval,
    /// Set the priority order of the resources of an NFT.
    SetPriority,
}

impl RmrkFunc {
    /// The table of extension function ids: getters in the low range,
    /// extrinsics in the high one.
    pub open spec fn from_func_id(value: u32) -> Option<RmrkFunc> {
        if value == 0x0001 {
            Some(RmrkFunc::CollectionIndex)
        } else if value == 0x0002 {
            Some(RmrkFunc::Collections)
        } else if value == 0x0003 {
            Some(RmrkFunc::Nfts)
        } else if value == 0x0004 {
            Some(RmrkFunc::Priorities)
        } else if value == 0x0005 {
            Some(RmrkFunc::Children)
        } else if value == 0x0006 {
            Some(RmrkFunc::Resources)
        } else if value == 0x0007 {
            Some(RmrkFunc::EquippableBases)
        } else if value == 0x0008 {
            Some(RmrkFunc::EquippableSlots)
        } else if value == 0x0009 {
            Some(RmrkFunc::Properties)
        } else if value == 0x000A {
            Some(RmrkFunc::Lock)
        } else if value == 0x1001 {
            Some(RmrkFunc::MintNft)
        } else if value == 0x1002 {
            Some(RmrkFunc::MintNftDirectlyToNft)
        } else if value == 0x1003 {
            Some(RmrkFunc::CreateCollection)
        } else if value == 0x1004 {
            Some(RmrkFunc::BurnNft)
        } else if value == 0x1005 {
            Some(RmrkFunc::DestroyCollection)
        } else if value == 0x1006 {
            Some(RmrkFunc::Send)
        } else if value == 0x1007 {
            Some(RmrkFunc::AcceptNft)
        } else if value == 0x1008 {
            Some(RmrkFunc::RejectNft)
        } else if value == 0x1009 {
            Some(RmrkFunc::ChangeCollectionIssuer)
        } else if value == 0x100A {
            Some(RmrkFunc::SetProperty)
        } else if value == 0x100B {
            Some(RmrkFunc::LockCollection)
        } else if value == 0x100C {
            Some(RmrkFunc::AddBasicResource)
        } else if value == 0x100D {
            Some(RmrkFunc::AddComposableResource)
        } else if value == 0x100E {
            Some(RmrkFunc::AddSlotResource)
        } else if value == 0x100F {
            Some(RmrkFunc::AcceptResource)
        } else if value == 0x1010 {
            Some(RmrkFunc::RemoveResource)
        } else if value == 0x1011 {
            Some(RmrkFunc::AcceptResourceRemoval)
        } else if value == 0x1012 {
            Some(RmrkFunc::SetPriority)
        } else {
            None
        }
    }

    /// Map an extension function id to its operation; an id outside the
    /// table is refused by name.
    pub fn try_from(value: u32) -> (r: Result<RmrkFunc, DispatchError>)
        ensures
            match RmrkFunc::from_func_id(value) {
                Some(f) => r == Ok::<RmrkFunc, DispatchError>(f),
                None => r matches Err(DispatchError::Other(m)) && m@
                    == "RmrkExtension: Unimplemented func_id"@,
            },
    {
        match value {
            0x0001 => Ok(RmrkFunc::CollectionIndex),
            0x0002 => Ok(RmrkFunc::Collections),
            0x0003 => Ok(RmrkFunc::Nfts),
            0x0004 => Ok(RmrkFunc::Priorities),
            0x0005 => Ok(RmrkFunc::Children),
            0x0006 => Ok(RmrkFunc::Resources),
            0x0007 => Ok(RmrkFunc::EquippableBases),
            0x0008 => Ok(RmrkFunc::EquippableSlots),
            0x0009 => Ok(RmrkFunc::Properties),
            0x000A => Ok(RmrkFunc::Lock),
            0x1001 => Ok(RmrkFunc::MintNft),
            0x1002 => Ok(RmrkFunc::MintNftDirectlyToNft),
            0x1003 => Ok(RmrkFunc::CreateCollection),
            0x1004 => Ok(RmrkFunc::BurnNft),
            0x1005 => Ok(RmrkFunc::DestroyCollection),
            0x1006 => Ok(RmrkFunc::Send),
            0x1007 => Ok(RmrkFunc::AcceptNft),
            0x1008 => Ok(RmrkFunc::RejectNft),
            0x1009 => Ok(RmrkFunc::ChangeCollectionIssuer),
            0x100A => Ok(RmrkFunc::SetProperty),
            0x100B => Ok(RmrkFunc::LockCollection),
            0x100C => Ok(RmrkFunc::AddBasicResource),
            0x100D => Ok(RmrkFunc::AddComposableResource),
            0x100E => Ok(RmrkFunc::AddSlotResource),
            0x100F => Ok(RmrkFunc::AcceptResource),
            0x1010 => Ok(RmrkFunc::RemoveResource),
            0x1011 => Ok(RmrkFunc::AcceptResourceRemoval),
            0x1012 => Ok(RmrkFunc::SetPriority),
            _ => Err(DispatchError::Other("RmrkExtension: Unimplemented func_id")),
        }
    }
}

/// The errors the RMRK pallet reports, recovered from a module error's
/// name.
#[derive(Clone, Copy, Debug, PartialEq, Eq, Structural)]
pub enum RmrkError {
    /// Error names should be descriptive.
    NoneValue,
    /// Errors should have helpful documentation associated with them.
    StorageOverflow,
    /// A value exceeded its bound.
    TooLong,
    /// Every collection id is taken.
    NoAvailableCollectionId,
    /// Every resource id of the NFT is taken.
    NoAvailableResourceId,
    /// The metadata was not set.
    MetadataNotSet,
    /// The royalty recipient was not set.
    RecipientNotSet,
    /// Every NFT id of the collection is taken.
    NoAvailableNftId,
    /// A value fell outside its range.
    NotInRange,
    /// The royalty was not set.
    RoyaltyNotSet,
    /// The collection does not exist.
    CollectionUnknown,
    /// The caller may not do this.
    NoPermission,
    /// The witness was not given.
    NoWitness,
    /// The collection still holds NFTs.
    CollectionNotEmpty,
    /// The collection is full or locked.
    CollectionFullOrLocked,
    /// An NFT cannot be sent to itself or to a descendent.
    CannotSendToDescendentOrSelf,
    /// The resource already exists.
    ResourceAlreadyExists,
    /// The resource is empty.
    EmptyResource,
    /// The nesting recursion went too deep.
    TooManyRecursions,
    /// The NFT is locked.
    NftIsLocked,
    /// Only the owner may accept an NFT.
    CannotAcceptNonOwnedNft,
    /// Only the owner may reject an NFT.
    CannotRejectNonOwnedNft,
    /// Only a pending NFT can be rejected.
    CannotRejectNonPendingNft,
    /// The resource does not exist.
    ResourceDoesntExist,
    /// Accepting a resource that is not pending should fail.
    ResourceNotPending,
    /// The NFT is not transferable.
    NonTransferable,
    /// An item must be unequipped before it is sent.
    CannotSendEquippedItem,
}

/// The error name a runtime failure carries to this surface: the module
/// error's name where there is one, and fixed text for every other failure.
pub open spec fn error_text_model(input: DispatchError) -> Option<Seq<char>> {
    match input {
        DispatchError::Module { message } => match message {
            Some(m) => Some(m@),
            None => None,
        },
        _ => Some("No module error Info"@),
    }
}

/// The RMRK pallet error behind an error name, if the name is one of its
/// errors.
pub open spec fn rmrk_error_of_name(name: Seq<char>) -> Option<RmrkError> {
    if name == "NoneValue"@ {
        Some(RmrkError::NoneValue)
    } else if name == "StorageOverflow"@ {
        Some(RmrkError::StorageOverflow)
    } else if name == "TooLong"@ {
        Some(RmrkError::TooLong)
    } else if name == "NoAvailableCollectionId"@ {
        Some(RmrkError::NoAvailableCollectionId)
    } else if name == "NoAvailableResourceId"@ {
        Some(RmrkError::NoAvailableResourceId)
    } else if name == "MetadataNotSet"@ {
        Some(RmrkError::MetadataNotSet)
    } else if name == "RecipientNotSet"@ {
        Some(RmrkError::RecipientNotSet)
    } else if name == "NoAvailableNftId"@ {
        Some(RmrkError::NoAvailableNftId)
    } else if name == "NotInRange"@ {
        Some(RmrkError::NotInRange)
    } else if name == "RoyaltyNotSet"@ {
        Some(RmrkError::RoyaltyNotSet)
    } else if name == "CollectionUnknown"@ {
        Some(RmrkError::CollectionUnknown)
    } else if name == "NoPermission"@ {
        Some(RmrkError::NoPermission)
    } else if name == "NoWitness"@ {
        Some(RmrkError::NoWitness)
    } else if name == "CollectionNotEmpty"@ {
        Some(RmrkError::CollectionNotEmpty)
    } else if name == "CollectionFullOrLocked"@ {
        Some(RmrkError::CollectionFullOrLocked)
    } else if name == "CannotSendToDescendentOrSelf"@ {
        Some(RmrkError::CannotSendToDescendentOrSelf)
    } else if name == "ResourceAlreadyExists"@ {
        Some(RmrkError::ResourceAlreadyExists)
    } else if name == "EmptyResource"@ {
        Some(RmrkError::EmptyResource)
    } else if name == "TooManyRecursions"@ {
        Some(RmrkError::TooManyRecursions)
    } else if name == "NftIsLocked"@ {
        Some(RmrkError::NftIsLocked)
    } else if name == "CannotAcceptNonOwnedNft"@ {
        Some(RmrkError::CannotAcceptNonOwnedNft)
    } else if name == "CannotRejectNonOwnedNft"@ {
        Some(RmrkError::CannotRejectNonOwnedNft)
    } else if name == "CannotRejectNonPendingNft"@ {
        Some(RmrkError::CannotRejectNonPendingNft)
    } else if name == "ResourceDoesntExist"@ {
        Some(RmrkError::ResourceDoesntExist)
    } else if name == "ResourceNotPending"@ {
        Some(RmrkError::ResourceNotPending)
    } else if name == "NonTransferable"@ {
        Some(RmrkError::NonTransferable)
    } else if name == "CannotSendEquippedItem"@ {
        Some(RmrkError::CannotSendEquippedItem)
    } else {
        None
    }
}

impl RmrkError {
    /// Recover the RMRK pallet error behind a runtime failure from the
    /// error name it carries; a failure with no name, or with a name of no
    /// RMRK error, is refused by fixed text.
    pub fn try_from(input: DispatchError) -> (r: Result<RmrkError, DispatchError>)
        ensures
            match error_text_model(input) {
                Some(name) => match rmrk_error_of_name(name) {
                    Some(e) => r == Ok::<RmrkError, DispatchError>(e),
                    None => r matches Err(DispatchError::Other(m)) && m@
                        == "RmrkExtension: Unknown error"@,
                },
                None => r matches Err(DispatchError::Other(m)) && m@
                    == "RmrkExtension: Unknown error"@,
            },
    {
        let error_text: Option<String> = match input {
            DispatchError::Module { message } => message,
            _ => Some("No module error Info".to_owned()),
        };
        match error_text {
            Some(name) => {
                if name == "NoneValue".to_owned() {
                    Ok(RmrkError::NoneValue)
                } else if name == "StorageOverflow".to_owned() {
                    Ok(RmrkError::StorageOverflow)
                } else if name == "TooLong".to_owned() {
                    Ok(RmrkError::TooLong)
                } else if name == "NoAvailableCollectionId".to_owned() {
                    Ok(RmrkError::NoAvailableCollectionId)
                } else if name == "NoAvailableResourceId".to_owned() {
                    Ok(RmrkError::NoAvailableResourceId)
                } else if name == "MetadataNotSet".to_owned() {
                    Ok(RmrkError::MetadataNotSet)
                } else if name == "RecipientNotSet".to_owned() {
                    Ok(RmrkError::RecipientNotSet)
                } else if name == "NoAvailableNftId".to_owned() {
                    Ok(RmrkError::NoAvailableNftId)
                } else if name == "NotInRange".to_owned() {
                    Ok(RmrkError::NotInRange)
                } else if name == "RoyaltyNotSet".to_owned() {
                    Ok(RmrkError::RoyaltyNotSet)
                } else if name == "CollectionUnknown".to_owned() {
                    Ok(RmrkError::CollectionUnknown)
                } else if name == "NoPermission".to_owned() {
                    Ok(RmrkError::NoPermission)
                } else if name == "NoWitness".to_owned() {
                    Ok(RmrkError::NoWitness)
                } else if name == "CollectionNotEmpty".to_owned() {
                    Ok(RmrkError::CollectionNotEmpty)
                } else if name == "CollectionFullOrLocked".to_owned() {
                    Ok(RmrkError::CollectionFullOrLocked)
                } else if name == "CannotSendToDescendentOrSelf".to_owned() {
                    Ok(RmrkError::CannotSendToDescendentOrSelf)
                } else if name == "ResourceAlreadyExists".to_owned() {
                    Ok(RmrkError::ResourceAlreadyExists)
                } else if name == "EmptyResource".to_owned() {
                    Ok(RmrkError::EmptyResource)
                } else if name == "TooManyRecursions".to_owned() {
                    Ok(RmrkError::TooManyRecursions)
                } else if name == "NftIsLocked".to_owned() {
                    Ok(RmrkError::NftIsLocked)
                } else if name == "CannotAcceptNonOwnedNft".to_owned() {
                    Ok(RmrkError::CannotAcceptNonOwnedNft)
                } else if name == "CannotRejectNonOwnedNft".to_owned() {
                    Ok(RmrkError::CannotRejectNonOwnedNft)
                } else if name == "CannotRejectNonPendingNft".to_owned() {
                    Ok(RmrkError::CannotRejectNonPendingNft)
                } else if name == "ResourceDoesntExist".to_owned() {
                    Ok(RmrkError::ResourceDoesntExist)
                } else if name == "ResourceNotPending".to_owned() {
                    Ok(RmrkError::ResourceNotPending)
                } else if name == "NonTransferable".to_owned() {
                    Ok(RmrkError::NonTransferable)
                } else if name == "CannotSendEquippedItem".to_owned() {
                    Ok(RmrkError::CannotSendEquippedItem)
                } else {
                    Err(DispatchError::Other("RmrkExtension: Unknown error"))
                }
            },
            None => Err(DispatchError::Other("RmrkExtension: Unknown error")),
        }
    }
}

/// Grammar of a basic resource: its one optional metadata field.
pub open spec fn sd_basic_resource(s: Seq<u8>, pos: int) -> Option<(BasicResourceModel, int)> {
    match sd_opt_bytes(s, pos) {
        Some((m, e)) => Some((BasicResourceModel { metadata: m }, e)),
        None => None,
    }
}

/// Grammar of a composable resource: its fields in declaration order.
pub open spec fn sd_composable_resource(s: Seq<u8>, pos: int) -> Option<(
    ComposableResourceModel,
    int,
)> {
    match sd_vec_u32(s, pos) {
        Some((parts, p1)) => match sd_u32(s, p1) {
            Some((base, p2)) => match sd_opt_bytes(s, p2) {
                Some((src, p3)) => match sd_opt_bytes(s, p3) {
                    Some((metadata, p4)) => match sd_opt_pair_u32(s, p4) {
                        Some((slot, p5)) => match sd_opt_bytes(s, p5) {
                            Some((license, p6)) => match sd_opt_bytes(s, p6) {
                                Some((thumb, e)) => Some(
                                    (
                                        ComposableResourceModel {
                                            parts,
                                            base,
                                            src,
                                            metadata,
                                            slot,
                                            license,
                                            thumb,
                                        },
                                        e,
                                    ),
                                ),
                                None => None,
                            },
                            None => None,
                        },
                        None => None,
                    },
                    None => None,
                },
                None => None,
            },
            None => None,
        },
        None => None,
    }
}

/// Grammar of a slot resource: its fields in declaration order.
pub open spec fn sd_slot_resource(s: Seq<u8>, pos: int) -> Option<(SlotResourceModel, int)> {
    match sd_u32(s, pos) {
        Some((base, p1)) => match sd_opt_bytes(s, p1) {
            Some((src, p2)) => match sd_opt_bytes(s, p2) {
                Some((metadata, p3)) => match sd_u32(s, p3) {
                    Some((slot, p4)) => match sd_opt_bytes(s, p4) {
                        Some((license, p5)) => match sd_opt_bytes(s, p5) {
                            Some((thumb, e)) => Some(
                                (
                                    SlotResourceModel {
                                        base,
                                        src,
                                        metadata,
                                        slot,
                                        license,
                                        thumb,
                                    },
                                    e,
                                ),
                            ),
                            None => None,
                        },
                        None => None,
                    },
                    None => None,
                },
                None => None,
            },
            None => None,
        },
        None => None,
    }
}

/// Grammar of a resource: a variant tag, then the variant's fields.
pub open spec fn sd_resource(s: Seq<u8>, pos: int) -> Option<(ResourceTypesModel, int)> {
    if 0 <= pos && pos < s.len() {
        if s[pos] == 0 {
            match sd_basic_resource(s, pos + 1) {
                Some((b, e)) => Some((ResourceTypesModel::Basic(b), e)),
                None => None,
            }
        } else if s[pos] == 1 {
            match sd_composable_resource(s, pos + 1) {
                Some((c, e)) => Some((ResourceTypesModel::Composable(c), e)),
                None => None,
            }
        } else if s[pos] == 2 {
            match sd_slot_resource(s, pos + 1) {
                Some((c, e)) => Some((ResourceTypesModel::Slot(c), e)),
                None => None,
            }
        } else {
            None
        }
    } else {
        None
    }
}

/// Grammar of `n` consecutive resources.
pub open spec fn sd_resource_seq(s: Seq<u8>, pos: int, n: nat) -> Option<(
    Seq<ResourceTypesModel>,
    int,
)>
    decreases n,
{
    if n == 0 {
        Some((Seq::empty(), pos))
    } else {
        match sd_resource(s, pos) {
            Some((v, p1)) => match sd_resource_seq(s, p1, (n - 1) as nat) {
                Some((vs, p2)) => Some((seq![v] + vs, p2)),
                None => None,
            },
            None => None,
        }
    }
}

/// Grammar of a list of resources: a compact length, then the elements.
pub open spec fn sd_vec_resources(s: Seq<u8>, pos: int) -> Option<(Seq<ResourceTypesModel>, int)> {
    match sd_compact(s, pos) {
        Some((n, p)) => sd_resource_seq(s, p, n as nat),
        None => None,
    }
}

/// Grammar of an optional list of resources.
pub open spec fn sd_opt_resources(s: Seq<u8>, pos: int) -> Option<(
    Option<Seq<ResourceTypesModel>>,
    int,
)> {
    if 0 <= pos && pos < s.len() {
        if s[pos] == 0 {
            Some((None, pos + 1))
        } else if s[pos] == 1 {
            match sd_vec_resources(s, pos + 1) {
                Some((v, e)) => Some((Some(v), e)),
                None => None,
            }
        } else {
            None
        }
    } else {
        None
    }
}

/// Grammar of an NFT owner: a variant tag, then an account or an NFT.
pub open spec fn sd_owner(s: Seq<u8>, pos: int) -> Option<(OwnerModel, int)> {
    if 0 <= pos && pos < s.len() {
        if s[pos] == 0 {
            match sd_account(s, pos + 1) {
                Some((a, e)) => Some((OwnerModel::Account(a), e)),
                None => None,
            }
        } else if s[pos] == 1 {
            match sd_pair_u32(s, pos + 1) {
                Some(((c, n), e)) => Some((OwnerModel::Nft(c, n), e)),
                None => None,
            }
        } else {
            None
        }
    } else {
        None
    }
}

/// Decode a basic resource, as [`sd_basic_resource`] says.
fn dec_basic_resource(input: &[u8], pos: usize) -> (r: Option<(BasicResource, usize)>)
    requires
        pos <= input.len(),
    ensures
        match r {
            Some((v, e)) => sd_basic_resource(input@, pos as int) == Some((v@, e as int)) && pos
                < e <= input.len(),
            None => sd_basic_resource(input@, pos as int) is None,
        },
{
    match dec_opt_bytes(input, pos) {
        Some((m, e)) => Some((BasicResource { metadata: m }, e)),
        None => None,
    }
}

/// Decode a composable resource, as [`sd_composable_resource`] says.
fn dec_composable_resource(input: &[u8], pos: usize) -> (r: Option<(ComposableResource, usize)>)
    requires
        pos <= input.len(),
    ensures
        match r {
            Some((v, e)) => sd_composable_resource(input@, pos as int) == Some((v@, e as int))
                && pos < e <= input.len(),
            None => sd_composable_resource(input@, pos as int) is None,
        },
{
    match dec_vec_u32(input, pos) {
        Some((parts, p1)) => match dec_u32(input, p1) {
            Some((base, p2)) => match dec_opt_bytes(input, p2) {
                Some((src, p3)) => match dec_opt_bytes(input, p3) {
                    Some((metadata, p4)) => match dec_opt_pair_u32(input, p4) {
                        Some((slot, p5)) => match dec_opt_bytes(input, p5) {
                            Some((license, p6)) => match dec_opt_bytes(input, p6) {
                                Some((thumb, e)) => Some(
                                    (
                                        ComposableResource {
                                            parts,
                                            base,
                                            src,
                                            metadata,
                                            slot,
                                            license,
                                            thumb,
                                        },
                                        e,
                                    ),
                                ),
                                None => None,
                            },
                            None => None,
                        },
                        None => None,
                    },
                    None => None,
                },
                None => None,
            },
            None => None,
        },
        None => None,
    }
}

/// Decode a slot resource, as [`sd_slot_resource`] says.
fn dec_slot_resource(input: &[u8], pos: usize) -> (r: Option<(SlotResource, usize)>)
    requires
        pos <= input.len(),
    ensures
        match r {
            Some((v, e)) => sd_slot_resource(input@, pos as int) == Some((v@, e as int)) && pos
                < e <= input.len(),
            None => sd_slot_resource(input@, pos as int) is None,
        },
{
    match dec_u32(input, pos) {
        Some((base, p1)) => match dec_opt_bytes(input, p1) {
            Some((src, p2)) => match dec_opt_bytes(input, p2) {
                Some((metadata, p3)) => match dec_u32(input, p3) {
                    Some((slot, p4)) => match dec_opt_bytes(input, p4) {
                        Some((license, p5)) => match dec_opt_bytes(input, p5) {
                            Some((thumb, e)) => Some(
                                (SlotResource { base, src, metadata, slot, license, thumb }, e),
                            ),
                            None => None,
                        },
                        None => None,
                    },
                    None => None,
                },
                None => None,
            },
            None => None,
        },
        None => None,
    }
}

/// Decode a resource, as [`sd_resource`] says.
fn dec_resource(input: &[u8], pos: usize) -> (r: Option<(ResourceTypes, usize)>)
    requires
        pos <= input.len(),
    ensures
        match r {
            Some((v, e)) => sd_resource(input@, pos as int) == Some((v@, e as int)) && pos < e
                <= input.len(),
            None => sd_resource(input@, pos as int) is None,
        },
{
    if input.len() - pos < 1 {
        return None;
    }
    let b = input[pos];
    if b == 0 {
        match dec_basic_resource(input, pos + 1) {
            Some((v, e)) => Some((ResourceTypes::Basic(v), e)),
            None => None,
        }
    } else if b == 1 {
        match dec_composable_resource(input, pos + 1) {
            Some((v, e)) => Some((ResourceTypes::Composable(v), e)),
            None => None,
        }
    } else if b == 2 {
        match dec_slot_resource(input, pos + 1) {
            Some((v, e)) => Some((ResourceTypes::Slot(v), e)),
            None => None,
        }
    } else {
        None
    }
}

/// Decode a list of resources, as [`sd_vec_resources`] says.
fn dec_vec_resources(input: &[u8], pos: usize) -> (r: Option<(Vec<ResourceTypes>, usize)>)
    requires
        pos <= input.len(),
    ensures
        match r {
            Some((v, e)) => sd_vec_resources(input@, pos as int) == Some(
                (v@.map_values(|x: ResourceTypes| x@), e as int),
            ) && pos < e <= input.len(),
            None => sd_vec_resources(input@, pos as int) is None,
        },
{
    match dec_compact(input, pos) {
        Some((n, p0)) => {
            let mut out: Vec<ResourceTypes> = Vec::new();
            let mut p: usize = p0;
            let mut i: u32 = 0;
            while i < n
                invariant
                    pos < p0 <= input.len(),
                    sd_compact(input@, pos as int) == Some((n, p0 as int)),
                    p <= input.len(),
                    i <= n,
                    out@.len() == i,
                    p0 <= p,
                    ({
                        let whole = sd_resource_seq(input@, p0 as int, n as nat);
                        match sd_resource_seq(input@, p as int, (n - i) as nat) {
                            Some((vs, e)) => whole == Some(
                                (out@.map_values(|x: ResourceTypes| x@) + vs, e),
                            ),
                            None => whole is None,
                        }
                    }),
                decreases n - i,
            {
                let ghost rem = sd_resource_seq(input@, p as int, (n - i) as nat);
                match dec_resource(input, p) {
                    Some((v, p1)) => {
                        let ghost prev = out@;
                        out.push(v);
                        proof {
                            let rem1 = sd_resource_seq(input@, p1 as int, (n - i - 1) as nat);
                            assert(out@.map_values(|x: ResourceTypes| x@) =~= prev.map_values(
                                |x: ResourceTypes| x@,
                            ).push(v@));
                            match rem1 {
                                Some((vs1, e1)) => {
                                    assert(rem == Some((seq![v@] + vs1, e1)));
                                    assert(prev.map_values(|x: ResourceTypes| x@) + (seq![v@]
                                        + vs1) =~= out@.map_values(|x: ResourceTypes| x@) + vs1);
                                },
                                None => {
                                    assert(rem is None);
                                },
                            }
                        }
                        p = p1;
                        i = i + 1;
                    },
                    None => {
                        proof {
                            assert(rem is None);
                        }
                        return None;
                    },
                }
            }
            proof {
                assert(sd_resource_seq(input@, p as int, 0) == Some(
                    (Seq::<ResourceTypesModel>::empty(), p as int),
                ));
                assert(out@.map_values(|x: ResourceTypes| x@) + Seq::<
                    ResourceTypesModel,
                >::empty() =~= out@.map_values(|x: ResourceTypes| x@));
            }
            Some((out, p))
        },
        None => None,
    }
}

/// Decode an optional list of resources, as [`sd_opt_resources`] says.
fn dec_opt_resources(input: &[u8], pos: usize) -> (r: Option<(Option<Vec<ResourceTypes>>, usize)>)
    requires
        pos <= input.len(),
    ensures
        match r {
            Some((v, e)) => ({
                let sv = match v {
                    Some(rs) => Some(rs@.map_values(|x: ResourceTypes| x@)),
                    None => None,
                };
                sd_opt_resources(input@, pos as int) == Some((sv, e as int)) && pos < e
                    <= input.len()
            }),
            None => sd_opt_resources(input@, pos as int) is None,
        },
{
    if input.len() - pos < 1 {
        return None;
    }
    let b = input[pos];
    if b == 0 {
        Some((None, pos + 1))
    } else if b == 1 {
        match dec_vec_resources(input, pos + 1) {
            Some((v, e)) => Some((Some(v), e)),
            None => None,
        }
    } else {
        None
    }
}

/// Decode an NFT owner, as [`sd_owner`] says.
fn dec_owner(input: &[u8], pos: usize) -> (r: Option<(AccountIdOrCollectionNftTuple, usize)>)
    requires
        pos <= input.len(),
    ensures
        match r {
            Some((v, e)) => sd_owner(input@, pos as int) == Some((v@, e as int)) && pos < e
                <= input.len(),
            None => sd_owner(input@, pos as int) is None,
        },
{
    if input.len() - pos < 1 {
        return None;
    }
    let b = input[pos];
    if b == 0 {
        match dec_account(input, pos + 1) {
            Some((a, e)) => Some(
                (AccountIdOrCollectionNftTuple::AccountId(AccountId { bytes: a }), e),
            ),
            None => None,
        }
    } else if b == 1 {
        match dec_pair_u32(input, pos + 1) {
            Some(((c, n), e)) => Some(
                (AccountIdOrCollectionNftTuple::CollectionAndNftTuple(c, n), e),
            ),
            None => None,
        }
    } else {
        None
    }
}

/// The pallet operation a call to the extension asks for, with its decoded
/// arguments.
#[derive(Debug, PartialEq, Eq)]
pub enum RmrkDispatch {
    /// Read the number of collections minted so far.
    CollectionIndex,
    /// Read a collection.
    Collections {
        /// The collection.
        collection_id: u32,
    },
    /// Read an NFT.
    Nfts {
        /// The collection.
        collection_id: u32,
        /// The NFT.
        nft_id: u32,
    },
    /// Read the priority of a resource of an NFT.
    Priorities {
        /// The collection.
        collection_id: u32,
        /// The NFT.
        nft_id: u32,
        /// The resource.
        resource_id: u32,
    },
    /// Read whether one NFT is a child of another.
    Children {
        /// The would-be parent NFT.
        parent: (u32, u32),
        /// The would-be child NFT.
        child: (u32, u32),
    },
    /// Read a resource of an NFT.
    Resources {
        /// The collection.
        collection_id: u32,
        /// The NFT.
        nft_id: u32,
        /// The resource.
        resource_id: u32,
    },
    /// Read whether an NFT can equip resources of a base.
    EquippableBases {
        /// The collection.
        collection_id: u32,
        /// The NFT.
        nft_id: u32,
        /// The base.
        base_id: u32,
    },
    /// Read whether a resource fits a slot of a base.
    EquippableSlots {
        /// The collection.
        collection_id: u32,
        /// The NFT.
        nft_id: u32,
        /// The resource.
        resource_id: u32,
        /// The base.
        base_id: u32,
        /// The slot.
        slot_id: u32,
    },
    /// Read a property value.
    Properties {
        /// The collection.
        collection_id: u32,
        /// The NFT, where the property belongs to one.
        nft_id: Option<u32>,
        /// The property key.
        key: Vec<u8>,
    },
    /// Read the lock state of an NFT.
    Lock {
        /// The collection.
        collection_id: u32,
        /// The NFT.
        nft_id: u32,
    },
    /// Mint an NFT to an account.
    MintNft {
        /// The beneficiary account.
        owner: AccountId,
        /// The collection to mint into.
        collection_id: u32,
        /// Recipient of the royalty, if any.
        royalty_recipient: Option<AccountId>,
        /// Royalty amount, if any.
        royalty: Option<u32>,
        /// Metadata of the NFT.
        metadata: Vec<u8>,
        /// Whether the NFT can be transferred.
        transferable: bool,
        /// Resources to attach at minting, if any.
        resources: Option<Vec<ResourceTypes>>,
    },
    /// Mint an NFT owned by another NFT.
    MintNftDirectlyToNft {
        /// The owning NFT.
        owner: (u32, u32),
        /// The collection to mint into.
        collection_id: u32,
        /// Recipient of the royalty, if any.
        royalty_recipient: Option<AccountId>,
        /// Royalty amount, if any.
        royalty: Option<u32>,
        /// Metadata of the NFT.
        metadata: Vec<u8>,
        /// Whether the NFT can be transferred.
        transferable: bool,
        /// Resources to attach at minting, if any.
        resources: Option<Vec<ResourceTypes>>,
    },
    /// Create a collection.
    CreateCollection {
        /// Metadata of the collection.
        metadata: Vec<u8>,
        /// Cap on the collection's size, if any.
        max: Option<u32>,
        /// Symbol of the collection.
        symbol: Vec<u8>,
    },
    /// Burn an NFT.
    BurnNft {
        /// The collection.
        collection_id: u32,
        /// The NFT.
        nft_id: u32,
        /// How many nested burns to allow.
        max_burns: u32,
    },
    /// Destroy an empty collection.
    DestroyCollection {
        /// The collection.
        collection_id: u32,
    },
    /// Send an NFT to a new owner.
    Send {
        /// The collection.
        collection_id: u32,
        /// The NFT.
        nft_id: u32,
        /// The new owner.
        new_owner: AccountIdOrCollectionNftTuple,
    },
    /// Accept an NFT sent to one of the caller's NFTs.
    AcceptNft {
        /// The collection.
        collection_id: u32,
        /// The NFT.
        nft_id: u32,
        /// The accepting owner.
        new_owner: AccountIdOrCollectionNftTuple,
    },
    /// Reject an NFT sent to one of the caller's NFTs.
    RejectNft {
        /// The collection.
        collection_id: u32,
        /// The NFT.
        nft_id: u32,
    },
    /// Hand a collection to a new issuer.
    ChangeCollectionIssuer {
        /// The collection.
        collection_id: u32,
        /// The new issuer.
        new_issuer: AccountId,
    },
    /// Set a property key.
    SetProperty {
        /// The collection.
        collection_id: u32,
        /// The NFT, where the property belongs to one.
        maybe_nft_id: Option<u32>,
        /// The property key.
        key: Vec<u8>,
        /// The property value.
        value: Vec<u8>,
    },
    /// Lock a collection against further minting.
    LockCollection {
        /// The collection.
        collection_id: u32,
    },
    /// Attach a basic resource to an NFT.
    AddBasicResource {
        /// The collection.
        collection_id: u32,
        /// The NFT.
        nft_id: u32,
        /// The resource.
        resource: BasicResource,
    },
    /// Attach a composable resource to an NFT.
    AddComposableResource {
        /// The collection.
        collection_id: u32,
        /// The NFT.
        nft_id: u32,
        /// The resource.
        resource: ComposableResource,
    },
    /// Attach a slot resource to an NFT.
    AddSlotResource {
        /// The collection.
        collection_id: u32,
        /// The NFT.
        nft_id: u32,
        /// The resource.
        resource: SlotResource,
    },
    /// Accept a pending resource.
    AcceptResource {
        /// The collection.
        collection_id: u32,
        /// The NFT.
        nft_id: u32,
        /// The resource.
        resource_id: u32,
    },
    /// Ask to remove a resource.
    RemoveResource {
        /// The collection.
        collection_id: u32,
        /// The NFT.
        nft_id: u32,
        /// The resource.
        resource_id: u32,
    },
    /// Accept the removal of a resource.
    AcceptResourceRemoval {
        /// The collection.
        collection_id: u32,
        /// The NFT.
        nft_id: u32,
        /// The resource.
        resource_id: u32,
    },
    /// Set the priority order of the resources of an NFT.
    SetPriority {
        /// The collection.
        collection_id: u32,
        /// The NFT.
        nft_id: u32,
        /// The priority order.
        priorities: Vec<u32>,
    },
}

/// Mathematical image of an [`RmrkDispatch`].
pub enum RmrkDispatchModel {
    /// Image of the collection-count read.
    CollectionIndex,
    /// Image of the collection read.
    Collections { collection_id: u32 },
    /// Image of the NFT read.
    Nfts { collection_id: u32, nft_id: u32 },
    /// Image of the priority read.
    Priorities { collection_id: u32, nft_id: u32, resource_id: u32 },
    /// Image of the child read.
    Children { parent: (u32, u32), child: (u32, u32) },
    /// Image of the resource read.
    Resources { collection_id: u32, nft_id: u32, resource_id: u32 },
    /// Image of the equippable-base read.
    EquippableBases { collection_id: u32, nft_id: u32, base_id: u32 },
    /// Image of the equippable-slot read.
    EquippableSlots {
        collection_id: u32,
        nft_id: u32,
        resource_id: u32,
        base_id: u32,
        slot_id: u32,
    },
    /// Image of the property read.
    Properties { collection_id: u32, nft_id: Option<u32>, key: Seq<u8> },
    /// Image of the lock read.
    Lock { collection_id: u32, nft_id: u32 },
    /// Image of the mint.
    MintNft {
        owner: Seq<u8>,
        collection_id: u32,
        royalty_recipient: Option<Seq<u8>>,
        royalty: Option<u32>,
        metadata: Seq<u8>,
        transferable: bool,
        resources: Option<Seq<ResourceTypesModel>>,
    },
    /// Image of the nested mint.
    MintNftDirectlyToNft {
        owner: (u32, u32),
        collection_id: u32,
        royalty_recipient: Option<Seq<u8>>,
        royalty: Option<u32>,
        metadata: Seq<u8>,
        transferable: bool,
        resources: Option<Seq<ResourceTypesModel>>,
    },
    /// Image of the collection creation.
    CreateCollection { metadata: Seq<u8>, max: Option<u32>, symbol: Seq<u8> },
    /// Image of the burn.
    BurnNft { collection_id: u32, nft_id: u32, max_burns: u32 },
    /// Image of the collection destruction.
    DestroyCollection { collection_id: u32 },
    /// Image of the send.
    Send { collection_id: u32, nft_id: u32, new_owner: OwnerModel },
    /// Image of the acceptance.
    AcceptNft { collection_id: u32, nft_id: u32, new_owner: OwnerModel },
    /// Image of the rejection.
    RejectNft { collection_id: u32, nft_id: u32 },
    /// Image of the issuer change.
    ChangeCollectionIssuer { collection_id: u32, new_issuer: Seq<u8> },
    /// Image of the property write.
    SetProperty { collection_id: u32, maybe_nft_id: Option<u32>, key: Seq<u8>, value: Seq<u8> },
    /// Image of the collection lock.
    LockCollection { collection_id: u32 },
    /// Image of the basic-resource attachment.
    AddBasicResource { collection_id: u32, nft_id: u32, resource: BasicResourceModel },
    /// Image of the composable-resource attachment.
    AddComposableResource { collection_id: u32, nft_id: u32, resource: ComposableResourceModel },
    /// Image of the slot-resource attachment.
    AddSlotResource { collection_id: u32, nft_id: u32, resource: SlotResourceModel },
    /// Image of the resource acceptance.
    AcceptResource { collection_id: u32, nft_id: u32, resource_id: u32 },
    /// Image of the removal request.
    RemoveResource { collection_id: u32, nft_id: u32, resource_id: u32 },
    /// Image of the removal acceptance.
    AcceptResourceRemoval { collection_id: u32, nft_id: u32, resource_id: u32 },
    /// Image of the priority write.
    SetPriority { collection_id: u32, nft_id: u32, priorities: Seq<u32> },
}

/// Mathematical image of an optional account argument.
pub open spec fn opt_account_model(v: Option<AccountId>) -> Option<Seq<u8>> {
    match v {
        Some(a) => Some(a@),
        None => None,
    }
}

impl View for RmrkDispatch {
    type V = RmrkDispatchModel;

    open spec fn view(&self) -> RmrkDispatchModel {
        match self {
            RmrkDispatch::CollectionIndex => RmrkDispatchModel::CollectionIndex,
            RmrkDispatch::Collections { collection_id } => RmrkDispatchModel::Collections {
                collection_id: *collection_id,
            },
            RmrkDispatch::Nfts { collection_id, nft_id } => RmrkDispatchModel::Nfts {
                collection_id: *collection_id,
                nft_id: *nft_id,
            },
            RmrkDispatch::Priorities { collection_id, nft_id, resource_id } => {
                RmrkDispatchModel::Priorities {
                    collection_id: *collection_id,
                    nft_id: *nft_id,
                    resource_id: *resource_id,
                }
            },
            RmrkDispatch::Children { parent, child } => RmrkDispatchModel::Children {
                parent: *parent,
                child: *child,
            },
            RmrkDispatch::Resources { collection_id, nft_id, resource_id } => {
                RmrkDispatchModel::Resources {
                    collection_id: *collection_id,
                    nft_id: *nft_id,
                    resource_id: *resource_id,
                }
            },
            RmrkDispatch::EquippableBases { collection_id, nft_id, base_id } => {
                RmrkDispatchModel::EquippableBases {
                    collection_id: *collection_id,
                    nft_id: *nft_id,
                    base_id: *base_id,
                }
            },
            RmrkDispatch::EquippableSlots { collection_id, nft_id, resource_id, base_id, slot_id
            } => RmrkDispatchModel::EquippableSlots {
                collection_id: *collection_id,
                nft_id: *nft_id,
                resource_id: *resource_id,
                base_id: *base_id,
                slot_id: *slot_id,
            },
            RmrkDispatch::Properties { collection_id, nft_id, key } => {
                RmrkDispatchModel::Properties {
                    collection_id: *collection_id,
                    nft_id: *nft_id,
                    key: key@,
                }
            },
            RmrkDispatch::Lock { collection_id, nft_id } => RmrkDispatchModel::Lock {
                collection_id: *collection_id,
                nft_id: *nft_id,
            },
            RmrkDispatch::MintNft {
                owner,
                collection_id,
                royalty_recipient,
                royalty,
                metadata,
                transferable,
                resources,
            } => RmrkDispatchModel::MintNft {
                owner: owner@,
                collection_id: *collection_id,
                royalty_recipient: opt_account_model(*royalty_recipient),
                royalty: *royalty,
                metadata: metadata@,
                transferable: *transferable,
                resources: match resources {
                    Some(rs) => Some(rs@.map_values(|x: ResourceTypes| x@)),
                    None => None,
                },
            },
            RmrkDispatch::MintNftDirectlyToNft {
                owner,
                collection_id,
                royalty_recipient,
                royalty,
                metadata,
                transferable,
                resources,
            } => RmrkDispatchModel::MintNftDirectlyToNft {
                owner: *owner,
                collection_id: *collection_id,
                royalty_recipient: opt_account_model(*royalty_recipient),
                royalty: *royalty,
                metadata: metadata@,
                transferable: *transferable,
                resources: match resources {
                    Some(rs) => Some(rs@.map_values(|x: ResourceTypes| x@)),
                    None => None,
                },
            },
            RmrkDispatch::CreateCollection { metadata, max, symbol } => {
                RmrkDispatchModel::CreateCollection {
                    metadata: metadata@,
                    max: *max,
                    symbol: symbol@,
                }
            },
            RmrkDispatch::BurnNft { collection_id, nft_id, max_burns } => {
                RmrkDispatchModel::BurnNft {
                    collection_id: *collection_id,
                    nft_id: *nft_id,
                    max_burns: *max_burns,
                }
            },
            RmrkDispatch::DestroyCollection { collection_id } => {
                RmrkDispatchModel::DestroyCollection { collection_id: *collection_id }
            },
            RmrkDispatch::Send { collection_id, nft_id, new_owner } => RmrkDispatchModel::Send {
                collection_id: *collection_id,
                nft_id: *nft_id,
                new_owner: new_owner@,
            },
            RmrkDispatch::AcceptNft { collection_id, nft_id, new_owner } => {
                RmrkDispatchModel::AcceptNft {
                    collection_id: *collection_id,
                    nft_id: *nft_id,
                    new_owner: new_owner@,
                }
            },
            RmrkDispatch::RejectNft { collection_id, nft_id } => RmrkDispatchModel::RejectNft {
                collection_id: *collection_id,
                nft_id: *nft_id,
            },
            RmrkDispatch::ChangeCollectionIssuer { collection_id, new_issuer } => {
                RmrkDispatchModel::ChangeCollectionIssuer {
                    collection_id: *collection_id,
                    new_issuer: new_issuer@,
                }
            },
            RmrkDispatch::SetProperty { collection_id, maybe_nft_id, key, value } => {
                RmrkDispatchModel::SetProperty {
                    collection_id: *collection_id,
                    maybe_nft_id: *maybe_nft_id,
                    key: key@,
                    value: value@,
                }
            },
            RmrkDispatch::LockCollection { collection_id } => RmrkDispatchModel::LockCollection {
                collection_id: *collection_id,
            },
            RmrkDispatch::AddBasicResource { collection_id, nft_id, resource } => {
                RmrkDispatchModel::AddBasicResource {
                    collection_id: *collection_id,
                    nft_id: *nft_id,
                    resource: resource@,
                }
            },
            RmrkDispatch::AddComposableResource { collection_id, nft_id, resource } => {
                RmrkDispatchModel::AddComposableResource {
                    collection_id: *collection_id,
                    nft_id: *nft_id,
                    resource: resource@,
                }
            },
            RmrkDispatch::AddSlotResource { collection_id, nft_id, resource } => {
                RmrkDispatchModel::AddSlotResource {
                    collection_id: *collection_id,
                    nft_id: *nft_id,
                    resource: resource@,
                }
            },
            RmrkDispatch::AcceptResource { collection_id, nft_id, resource_id } => {
                RmrkDispatchModel::AcceptResource {
                    collection_id: *collection_id,
                    nft_id: *nft_id,
                    resource_id: *resource_id,
                }
            },
            RmrkDispatch::RemoveResource { collection_id, nft_id, resource_id } => {
                RmrkDispatchModel::RemoveResource {
                    collection_id: *collection_id,
                    nft_id: *nft_id,
                    resource_id: *resource_id,
                }
            },
            RmrkDispatch::AcceptResourceRemoval { collection_id, nft_id, resource_id } => {
                RmrkDispatchModel::AcceptResourceRemoval {
                    collection_id: *collection_id,
                    nft_id: *nft_id,
                    resource_id: *resource_id,
                }
            },
            RmrkDispatch::SetPriority { collection_id, nft_id, priorities } => {
                RmrkDispatchModel::SetPriority {
                    collection_id: *collection_id,
                    nft_id: *nft_id,
                    priorities: priorities@,
                }
            },
        }
    }
}

/// Why the dispatcher refuses a call: an extension function id outside the
/// table, or an input that is not exactly the encoded arguments the
/// operation takes.
pub enum ExecuteFault {
    /// The function id is not in the table.
    UnknownFuncId,
    /// The input does not hold exactly the operation's encoded arguments.
    DecodingFailed,
}

/// Arm of [`spec_execute_func`]: the grammar of the operation's input.
pub open spec fn spec_dispatch_collection_index(s: Seq<u8>) -> Result<RmrkDispatchModel, ExecuteFault> {
    Ok(RmrkDispatchModel::CollectionIndex)
}

/// Arm of [`spec_execute_func`]: the grammar of the operation's input.
pub open spec fn spec_dispatch_collections(s: Seq<u8>) -> Result<RmrkDispatchModel, ExecuteFault> {
    match sd_u32(s, 0) {
                Some((collection_id, e)) => if e == s.len() {
                    Ok(RmrkDispatchModel::Collections { collection_id })
                } else {
                    Err(ExecuteFault::DecodingFailed)
                },
                None => Err(ExecuteFault::DecodingFailed),
            }
}

/// Arm of [`spec_execute_func`]: the grammar of the operation's input.
pub open spec fn spec_dispatch_nfts(s: Seq<u8>) -> Result<RmrkDispatchModel, ExecuteFault> {
    match sd_pair_u32(s, 0) {
                Some(((collection_id, nft_id), e)) => if e == s.len() {
                    Ok(RmrkDispatchModel::Nfts { collection_id, nft_id })
                } else {
                    Err(ExecuteFault::DecodingFailed)
                },
                None => Err(ExecuteFault::DecodingFailed),
            }
}

/// Arm of [`spec_execute_func`]: the grammar of the operation's input.
pub open spec fn spec_dispatch_priorities(s: Seq<u8>) -> Result<RmrkDispatchModel, ExecuteFault> {
    match sd_triple_u32(s, 0) {
                Some(((collection_id, nft_id, resource_id), e)) => if e == s.len() {
                    Ok(RmrkDispatchModel::Priorities { collection_id, nft_id, resource_id })
                } else {
                    Err(ExecuteFault::DecodingFailed)
                },
                None => Err(ExecuteFault::DecodingFailed),
            }
}

/// Arm of [`spec_execute_func`]: the grammar of the operation's input.
pub open spec fn spec_dispatch_children(s: Seq<u8>) -> Result<RmrkDispatchModel, ExecuteFault> {
    match sd_pair_u32(s, 0) {
                Some((parent, p1)) => match sd_pair_u32(s, p1) {
                    Some((child, e)) => if e == s.len() {
                        Ok(RmrkDispatchModel::Children { parent, child })
                    } else {
                        Err(ExecuteFault::DecodingFailed)
                    },
                    None => Err(ExecuteFault::DecodingFailed),
                },
                None => Err(ExecuteFault::DecodingFailed),
            }
}

/// Arm of [`spec_execute_func`]: the grammar of the operation's input.
pub open spec fn spec_dispatch_resources(s: Seq<u8>) -> Result<RmrkDispatchModel, ExecuteFault> {
    match sd_triple_u32(s, 0) {
                Some(((collection_id, nft_id, resource_id), e)) => if e == s.len() {
                    Ok(RmrkDispatchModel::Resources { collection_id, nft_id, resource_id })
                } else {
                    Err(ExecuteFault::DecodingFailed)
                },
                None => Err(ExecuteFault::DecodingFailed),
            }
}

/// Arm of [`spec_execute_func`]: the grammar of the operation's input.
pub open spec fn spec_dispatch_equippable_bases(s: Seq<u8>) -> Result<RmrkDispatchModel, ExecuteFault> {
    match sd_triple_u32(s, 0) {
                Some(((collection_id, nft_id, base_id), e)) => if e == s.len() {
                    Ok(RmrkDispatchModel::EquippableBases { collection_id, nft_id, base_id })
                } else {
                    Err(ExecuteFault::DecodingFailed)
                },
                None => Err(ExecuteFault::DecodingFailed),
            }
}

/// Arm of [`spec_execute_func`]: the grammar of the operation's input.
pub open spec fn spec_dispatch_equippable_slots(s: Seq<u8>) -> Result<RmrkDispatchModel, ExecuteFault> {
    match sd_triple_u32(s, 0) {
                Some(((collection_id, nft_id, resource_id), p1)) => match sd_pair_u32(s, p1) {
                    Some(((base_id, slot_id), e)) => if e == s.len() {
                        Ok(RmrkDispatchModel::EquippableSlots {
                            collection_id,
                            nft_id,
                            resource_id,
                            base_id,
                            slot_id,
                        })
                    } else {
                        Err(ExecuteFault::DecodingFailed)
                    },
                    None => Err(ExecuteFault::DecodingFailed),
                },
                None => Err(ExecuteFault::DecodingFailed),
            }
}

/// Arm of [`spec_execute_func`]: the grammar of the operation's input.
pub open spec fn spec_dispatch_properties(s: Seq<u8>) -> Result<RmrkDispatchModel, ExecuteFault> {
    match sd_u32(s, 0) {
                Some((collection_id, p1)) => match sd_opt_u32(s, p1) {
                    Some((nft_id, p2)) => match sd_bytes(s, p2) {
                        Some((key, e)) => if e == s.len() {
                            Ok(RmrkDispatchModel::Properties { collection_id, nft_id, key })
                        } else {
                            Err(ExecuteFault::DecodingFailed)
                        },
                        None => Err(ExecuteFault::DecodingFailed),
                    },
                    None => Err(ExecuteFault::DecodingFailed),
                },
                None => Err(ExecuteFault::DecodingFailed),
            }
}

/// Arm of [`spec_execute_func`]: the grammar of the operation's input.
pub open spec fn spec_dispatch_lock(s: Seq<u8>) -> Result<RmrkDispatchModel, ExecuteFault> {
    match sd_pair_u32(s, 0) {
                Some(((collection_id, nft_id), e)) => if e == s.len() {
                    Ok(RmrkDispatchModel::Lock { collection_id, nft_id })
                } else {
                    Err(ExecuteFault::DecodingFailed)
                },
                None => Err(ExecuteFault::DecodingFailed),
            }
}

/// Arm of [`spec_execute_func`]: the grammar of the operation's input.
pub open spec fn spec_dispatch_mint_nft(s: Seq<u8>) -> Result<RmrkDispatchModel, ExecuteFault> {
    match sd_account(s, 0) {
                Some((owner, p1)) => match sd_u32(s, p1) {
                    Some((collection_id, p2)) => match sd_opt_account(s, p2) {
                        Some((royalty_recipient, p3)) => match sd_opt_u32(s, p3) {
                            Some((royalty, p4)) => match sd_bytes(s, p4) {
                                Some((metadata, p5)) => match sd_bool(s, p5) {
                                    Some((transferable, p6)) => match sd_opt_resources(s, p6) {
                                        Some((resources, e)) => if e == s.len() {
                                            Ok(RmrkDispatchModel::MintNft {
                                                owner,
                                                collection_id,
                                                royalty_recipient,
                                                royalty,
                                                metadata,
                                                transferable,
                                                resources,
                                            })
                                        } else {
                                            Err(ExecuteFault::DecodingFailed)
                                        },
                                        None => Err(ExecuteFault::DecodingFailed),
                                    },
                                    None => Err(ExecuteFault::DecodingFailed),
                                },
                                None => Err(ExecuteFault::DecodingFailed),
                            },
                            None => Err(ExecuteFault::DecodingFailed),
                        },
                        None => Err(ExecuteFault::DecodingFailed),
                    },
                    None => Err(ExecuteFault::DecodingFailed),
                },
                None => Err(ExecuteFault::DecodingFailed),
            }
}

/// Arm of [`spec_execute_func`]: the grammar of the operation's input.
pub open spec fn spec_dispatch_mint_nft_directly_to_nft(s: Seq<u8>) -> Result<RmrkDispatchModel, ExecuteFault> {
    match sd_pair_u32(s, 0) {
                Some((owner, p1)) => match sd_u32(s, p1) {
                    Some((collection_id, p2)) => match sd_opt_account(s, p2) {
                        Some((royalty_recipient, p3)) => match sd_opt_u32(s, p3) {
                            Some((royalty, p4)) => match sd_bytes(s, p4) {
                                Some((metadata, p5)) => match sd_bool(s, p5) {
                                    Some((transferable, p6)) => match sd_opt_resources(s, p6) {
                                        Some((resources, e)) => if e == s.len() {
                                            Ok(RmrkDispatchModel::MintNftDirectlyToNft {
                                                owner,
                                                collection_id,
                                                royalty_recipient,
                                                royalty,
                                                metadata,
                                                transferable,
                                                resources,
                                            })
                                        } else {
                                            Err(ExecuteFault::DecodingFailed)
                                        },
                                        None => Err(ExecuteFault::DecodingFailed),
                                    },
                                    None => Err(ExecuteFault::DecodingFailed),
                                },
                                None => Err(ExecuteFault::DecodingFailed),
                            },
                            None => Err(ExecuteFault::DecodingFailed),
                        },
                        None => Err(ExecuteFault::DecodingFailed),
                    },
                    None => Err(ExecuteFault::DecodingFailed),
                },
                None => Err(ExecuteFault::DecodingFailed),
            }
}

/// Arm of [`spec_execute_func`]: the grammar of the operation's input.
pub open spec fn spec_dispatch_create_collection(s: Seq<u8>) -> Result<RmrkDispatchModel, ExecuteFault> {
    match sd_bytes(s, 0) {
                Some((metadata, p1)) => match sd_opt_u32(s, p1) {
                    Some((max, p2)) => match sd_bytes(s, p2) {
                        Some((symbol, e)) => if e == s.len() {
                            Ok(RmrkDispatchModel::CreateCollection { metadata, max, symbol })
                        } else {
                            Err(ExecuteFault::DecodingFailed)
                        },
                        None => Err(ExecuteFault::DecodingFailed),
                    },
                    None => Err(ExecuteFault::DecodingFailed),
                },
                None => Err(ExecuteFault::DecodingFailed),
            }
}

/// Arm of [`spec_execute_func`]: the grammar of the operation's input.
pub open spec fn spec_dispatch_burn_nft(s: Seq<u8>) -> Result<RmrkDispatchModel, ExecuteFault> {
    match sd_triple_u32(s, 0) {
                Some(((collection_id, nft_id, max_burns), e)) => if e == s.len() {
                    Ok(RmrkDispatchModel::BurnNft { collection_id, nft_id, max_burns })
                } else {
                    Err(ExecuteFault::DecodingFailed)
                },
                None => Err(ExecuteFault::DecodingFailed),
            }
}

/// Arm of [`spec_execute_func`]: the grammar of the operation's input.
pub open spec fn spec_dispatch_destroy_collection(s: Seq<u8>) -> Result<RmrkDispatchModel, ExecuteFault> {
    match sd_u32(s, 0) {
                Some((collection_id, e)) => if e == s.len() {
                    Ok(RmrkDispatchModel::DestroyCollection { collection_id })
                } else {
                    Err(ExecuteFault::DecodingFailed)
                },
                None => Err(ExecuteFault::DecodingFailed),
            }
}

/// Arm of [`spec_execute_func`]: the grammar of the operation's input.
pub open spec fn spec_dispatch_send(s: Seq<u8>) -> Result<RmrkDispatchModel, ExecuteFault> {
    match sd_pair_u32(s, 0) {
                Some(((collection_id, nft_id), p1)) => match sd_owner(s, p1) {
                    Some((new_owner, e)) => if e == s.len() {
                        Ok(RmrkDispatchModel::Send { collection_id, nft_id, new_owner })
                    } else {
                        Err(ExecuteFault::DecodingFailed)
                    },
                    None => Err(ExecuteFault::DecodingFailed),
                },
                None => Err(ExecuteFault::DecodingFailed),
            }
}

/// Arm of [`spec_execute_func`]: the grammar of the operation's input.
pub open spec fn spec_dispatch_accept_nft(s: Seq<u8>) -> Result<RmrkDispatchModel, ExecuteFault> {
    match sd_pair_u32(s, 0) {
                Some(((collection_id, nft_id), p1)) => match sd_owner(s, p1) {
                    Some((new_owner, e)) => if e == s.len() {
                        Ok(RmrkDispatchModel::AcceptNft { collection_id, nft_id, new_owner })
                    } else {
                        Err(ExecuteFault::DecodingFailed)
                    },
                    None => Err(ExecuteFault::DecodingFailed),
                },
                None => Err(ExecuteFault::DecodingFailed),
            }
}

/// Arm of [`spec_execute_func`]: the grammar of the operation's input.
pub open spec fn spec_dispatch_reject_nft(s: Seq<u8>) -> Result<RmrkDispatchModel, ExecuteFault> {
    match sd_pair_u32(s, 0) {
                Some(((collection_id, nft_id), e)) => if e == s.len() {
                    Ok(RmrkDispatchModel::RejectNft { collection_id, nft_id })
                } else {
                    Err(ExecuteFault::DecodingFailed)
                },
                None => Err(ExecuteFault::DecodingFailed),
            }
}

/// Arm of [`spec_execute_func`]: the grammar of the operation's input.
pub open spec fn spec_dispatch_change_collection_issuer(s: Seq<u8>) -> Result<RmrkDispatchModel, ExecuteFault> {
    match sd_u32(s, 0) {
                Some((collection_id, p1)) => match sd_account(s, p1) {
                    Some((new_issuer, e)) => if e == s.len() {
                        Ok(RmrkDispatchModel::ChangeCollectionIssuer { collection_id, new_issuer })
                    } else {
                        Err(ExecuteFault::DecodingFailed)
                    },
                    None => Err(ExecuteFault::DecodingFailed),
                },
                None => Err(ExecuteFault::DecodingFailed),
            }
}

/// Arm of [`spec_execute_func`]: the grammar of the operation's input.
pub open spec fn spec_dispatch_set_property(s: Seq<u8>) -> Result<RmrkDispatchModel, ExecuteFault> {
    match sd_u32(s, 0) {
                Some((collection_id, p1)) => match sd_opt_u32(s, p1) {
                    Some((maybe_nft_id, p2)) => match sd_bytes(s, p2) {
                        Some((key, p3)) => match sd_bytes(s, p3) {
                            Some((value, e)) => if e == s.len() {
                                Ok(RmrkDispatchModel::SetProperty {
                                    collection_id,
                                    maybe_nft_id,
                                    key,
                                    value,
                                })
                            } else {
                                Err(ExecuteFault::DecodingFailed)
                            },
                            None => Err(ExecuteFault::DecodingFailed),
                        },
                        None => Err(ExecuteFault::DecodingFailed),
                    },
                    None => Err(ExecuteFault::DecodingFailed),
                },
                None => Err(ExecuteFault::DecodingFailed),
            }
}

/// Arm of [`spec_execute_func`]: the grammar of the operation's input.
pub open spec fn spec_dispatch_lock_collection(s: Seq<u8>) -> Result<RmrkDispatchModel, ExecuteFault> {
    match sd_u32(s, 0) {
                Some((collection_id, e)) => if e == s.len() {
                    Ok(RmrkDispatchModel::LockCollection { collection_id })
                } else {
                    Err(ExecuteFault::DecodingFailed)
                },
                None => Err(ExecuteFault::DecodingFailed),
            }
}

/// Arm of [`spec_execute_func`]: the grammar of the operation's input.
pub open spec fn spec_dispatch_add_basic_resource(s: Seq<u8>) -> Result<RmrkDispatchModel, ExecuteFault> {
    match sd_pair_u32(s, 0) {
                Some(((collection_id, nft_id), p1)) => match sd_basic_resource(s, p1) {
                    Some((resource, e)) => if e == s.len() {
                        Ok(RmrkDispatchModel::AddBasicResource { collection_id, nft_id, resource })
                    } else {
                        Err(ExecuteFault::DecodingFailed)
                    },
                    None => Err(ExecuteFault::DecodingFailed),
                },
                None => Err(ExecuteFault::DecodingFailed),
            }
}

/// Arm of [`spec_execute_func`]: the grammar of the operation's input.
pub open spec fn spec_dispatch_add_composable_resource(s: Seq<u8>) -> Result<RmrkDispatchModel, ExecuteFault> {
    match sd_pair_u32(s, 0) {
                Some(((collection_id, nft_id), p1)) => match sd_composable_resource(s, p1) {
                    Some((resource, e)) => if e == s.len() {
                        Ok(RmrkDispatchModel::AddComposableResource {
                            collection_id,
                            nft_id,
                            resource,
                        })
                    } else {
                        Err(ExecuteFault::DecodingFailed)
                    },
                    None => Err(ExecuteFault::DecodingFailed),
                },
                None => Err(ExecuteFault::DecodingFailed),
            }
}

/// Arm of [`spec_execute_func`]: the grammar of the operation's input.
pub open spec fn spec_dispatch_add_slot_resource(s: Seq<u8>) -> Result<RmrkDispatchModel, ExecuteFault> {
    match sd_pair_u32(s, 0) {
                Some(((collection_id, nft_id), p1)) => match sd_slot_resource(s, p1) {
                    Some((resource, e)) => if e == s.len() {
                        Ok(RmrkDispatchModel::AddSlotResource { collection_id, nft_id, resource })
                    } else {
                        Err(ExecuteFault::DecodingFailed)
                    },
                    None => Err(ExecuteFault::DecodingFailed),
                },
                None => Err(ExecuteFault::DecodingFailed),
            }
}

/// Arm of [`spec_execute_func`]: the grammar of the operation's input.
pub open spec fn spec_dispatch_accept_resource(s: Seq<u8>) -> Result<RmrkDispatchModel, ExecuteFault> {
    match sd_triple_u32(s, 0) {
                Some(((collection_id, nft_id, resource_id), e)) => if e == s.len() {
                    Ok(RmrkDispatchModel::AcceptResource { collection_id, nft_id, resource_id })
                } else {
                    Err(ExecuteFault::DecodingFailed)
                },
                None => Err(ExecuteFault::DecodingFailed),
            }
}

/// Arm of [`spec_execute_func`]: the grammar of the operation's input.
pub open spec fn spec_dispatch_remove_resource(s: Seq<u8>) -> Result<RmrkDispatchModel, ExecuteFault> {
    match sd_triple_u32(s, 0) {
                Some(((collection_id, nft_id, resource_id), e)) => if e == s.len() {
                    Ok(RmrkDispatchModel::RemoveResource { collection_id, nft_id, resource_id })
                } else {
                    Err(ExecuteFault::DecodingFailed)
                },
                None => Err(ExecuteFault::DecodingFailed),
            }
}

/// Arm of [`spec_execute_func`]: the grammar of the operation's input.
pub open spec fn spec_dispatch_accept_resource_removal(s: Seq<u8>) -> Result<RmrkDispatchModel, ExecuteFault> {
    match sd_triple_u32(s, 0) {
                Some(((collection_id, nft_id, resource_id), e)) => if e == s.len() {
                    Ok(RmrkDispatchModel::AcceptResourceRemoval {
                        collection_id,
                        nft_id,
                        resource_id,
                    })
                } else {
                    Err(ExecuteFault::DecodingFailed)
                },
                None => Err(ExecuteFault::DecodingFailed),
            }
}

/// Arm of [`spec_execute_func`]: the grammar of the operation's input.
pub open spec fn spec_dispatch_set_priority(s: Seq<u8>) -> Result<RmrkDispatchModel, ExecuteFault> {
    match sd_pair_u32(s, 0) {
                Some(((collection_id, nft_id), p1)) => match sd_vec_u32(s, p1) {
                    Some((priorities, e)) => if e == s.len() {
                        Ok(RmrkDispatchModel::SetPriority { collection_id, nft_id, priorities })
                    } else {
                        Err(ExecuteFault::DecodingFailed)
                    },
                    None => Err(ExecuteFault::DecodingFailed),
                },
                None => Err(ExecuteFault::DecodingFailed),
            }
}

/// What the dispatcher decides for a call: the operation of the function
/// id, with the arguments its grammar reads from the whole input. The
/// collection-count read takes no arguments and ignores its input; every
/// other operation demands that the input hold exactly its encoded
/// arguments.
pub open spec fn spec_execute_func(func_id: u32, s: Seq<u8>) -> Result<
    RmrkDispatchModel,
    ExecuteFault,
> {
    match RmrkFunc::from_func_id(func_id) {
        None => Err(ExecuteFault::UnknownFuncId),
        Some(f) => match f {
            RmrkFunc::CollectionIndex => spec_dispatch_collection_index(s),
            RmrkFunc::Collections => spec_dispatch_collections(s),
            RmrkFunc::Nfts => spec_dispatch_nfts(s),
            RmrkFunc::Priorities => spec_dispatch_priorities(s),
            RmrkFunc::Children => spec_dispatch_children(s),
            RmrkFunc::Resources => spec_dispatch_resources(s),
            RmrkFunc::EquippableBases => spec_dispatch_equippable_bases(s),
            RmrkFunc::EquippableSlots => spec_dispatch_equippable_slots(s),
            RmrkFunc::Properties => spec_dispatch_properties(s),
            RmrkFunc::Lock => spec_dispatch_lock(s),
            RmrkFunc::MintNft => spec_dispatch_mint_nft(s),
            RmrkFunc::MintNftDirectlyToNft => spec_dispatch_mint_nft_directly_to_nft(s),
            RmrkFunc::CreateCollection => spec_dispatch_create_collection(s),
            RmrkFunc::BurnNft => spec_dispatch_burn_nft(s),
            RmrkFunc::DestroyCollection => spec_dispatch_destroy_collection(s),
            RmrkFunc::Send => spec_dispatch_send(s),
            RmrkFunc::AcceptNft => spec_dispatch_accept_nft(s),
            RmrkFunc::RejectNft => spec_dispatch_reject_nft(s),
            RmrkFunc::ChangeCollectionIssuer => spec_dispatch_change_collection_issuer(s),
            RmrkFunc::SetProperty => spec_dispatch_set_property(s),
            RmrkFunc::LockCollection => spec_dispatch_lock_collection(s),
            RmrkFunc::AddBasicResource => spec_dispatch_add_basic_resource(s),
            RmrkFunc::AddComposableResource => spec_dispatch_add_composable_resource(s),
            RmrkFunc::AddSlotResource => spec_dispatch_add_slot_resource(s),
            RmrkFunc::AcceptResource => spec_dispatch_accept_resource(s),
            RmrkFunc::RemoveResource => spec_dispatch_remove_resource(s),
            RmrkFunc::AcceptResourceRemoval => spec_dispatch_accept_resource_removal(s),
            RmrkFunc::SetPriority => spec_dispatch_set_priority(s),
        },
    }
}

/// The failure the dispatcher reports for an input that does not hold
/// exactly the operation's encoded arguments, named as the contracts
/// pallet's decoding error.
fn decoding_failed() -> (r: DispatchError)
    ensures
        r matches DispatchError::Module { message } && message matches Some(m) && m@
            == "DecodingFailed"@,
{
    DispatchError::Module { message: Some("DecodingFailed".to_owned()) }
}

/// The RMRK chain extension as the runtime registers it for contracts.
pub struct RmrkExtension;

impl RmrkExtension {
    /// Decide which pallet operation a call to the extension asks for, and
    /// with which arguments: map the function id through the table, then
    /// read the input as exactly the operation's encoded arguments, as
    /// [`spec_execute_func`] says.
    #[verifier::rlimit(100)]
    #[verifier::spinoff_prover]
    pub fn execute_func(func_id: u32, input: &[u8]) -> (r: Result<RmrkDispatch, DispatchError>)
        ensures
            match r {
                Ok(d) => spec_execute_func(func_id, input@) == Ok::<
                    RmrkDispatchModel,
                    ExecuteFault,
                >(d@),
                Err(e) => match spec_execute_func(func_id, input@) {
                    Err(ExecuteFault::UnknownFuncId) => e matches DispatchError::Other(m) && m@
                        == "RmrkExtension: Unimplemented func_id"@,
                    Err(ExecuteFault::DecodingFailed) => e matches DispatchError::Module { message }
                        && message matches Some(m) && m@ == "DecodingFailed"@,
                    _ => false,
                },
            },
    {
        let func = match RmrkFunc::try_from(func_id) {
            Ok(f) => f,
            Err(e) => {
                return Err(e);
            },
        };
        match func {
            RmrkFunc::CollectionIndex => Ok(RmrkDispatch::CollectionIndex),
            RmrkFunc::Collections => match dec_u32(input, 0) {
                Some((collection_id, e)) => if e == input.len() {
                    Ok(RmrkDispatch::Collections { collection_id })
                } else {
                    Err(decoding_failed())
                },
                None => Err(decoding_failed()),
            },
            RmrkFunc::Nfts => match dec_pair_u32(input, 0) {
                Some(((collection_id, nft_id), e)) => if e == input.len() {
                    Ok(RmrkDispatch::Nfts { collection_id, nft_id })
                } else {
                    Err(decoding_failed())
                },
                None => Err(decoding_failed()),
            },
            RmrkFunc::Priorities => match dec_triple_u32(input, 0) {
                Some(((collection_id, nft_id, resource_id), e)) => if e == input.len() {
                    Ok(RmrkDispatch::Priorities { collection_id, nft_id, resource_id })
                } else {
                    Err(decoding_failed())
                },
                None => Err(decoding_failed()),
            },
            RmrkFunc::Children => match dec_pair_u32(input, 0) {
                Some((parent, p1)) => match dec_pair_u32(input, p1) {
                    Some((child, e)) => if e == input.len() {
                        Ok(RmrkDispatch::Children { parent, child })
                    } else {
                        Err(decoding_failed())
                    },
                    None => Err(decoding_failed()),
                },
                None => Err(decoding_failed()),
            },
            RmrkFunc::Resources => match dec_triple_u32(input, 0) {
                Some(((collection_id, nft_id, resource_id), e)) => if e == input.len() {
                    Ok(RmrkDispatch::Resources { collection_id, nft_id, resource_id })
                } else {
                    Err(decoding_failed())
                },
                None => Err(decoding_failed()),
            },
            RmrkFunc::EquippableBases => match dec_triple_u32(input, 0) {
                Some(((collection_id, nft_id, base_id), e)) => if e == input.len() {
                    Ok(RmrkDispatch::EquippableBases { collection_id, nft_id, base_id })
                } else {
                    Err(decoding_failed())
                },
                None => Err(decoding_failed()),
            },
            RmrkFunc::EquippableSlots => match dec_triple_u32(input, 0) {
                Some(((collection_id, nft_id, resource_id), p1)) => match dec_pair_u32(
                    input,
                    p1,
                ) {
                    Some(((base_id, slot_id), e)) => if e == input.len() {
                        Ok(RmrkDispatch::EquippableSlots {
                            collection_id,
                            nft_id,
                            resource_id,
                            base_id,
                            slot_id,
                        })
                    } else {
                        Err(decoding_failed())
                    },
                    None => Err(decoding_failed()),
                },
                None => Err(decoding_failed()),
            },
            RmrkFunc::Properties => match dec_u32(input, 0) {
                Some((collection_id, p1)) => match dec_opt_u32(input, p1) {
                    Some((nft_id, p2)) => match dec_bytes(input, p2) {
                        Some((key, e)) => if e == input.len() {
                            Ok(RmrkDispatch::Properties { collection_id, nft_id, key })
                        } else {
                            Err(decoding_failed())
                        },
                        None => Err(decoding_failed()),
                    },
                    None => Err(decoding_failed()),
                },
                None => Err(decoding_failed()),
            },
            RmrkFunc::Lock => match dec_pair_u32(input, 0) {
                Some(((collection_id, nft_id), e)) => if e == input.len() {
                    Ok(RmrkDispatch::Lock { collection_id, nft_id })
                } else {
                    Err(decoding_failed())
                },
                None => Err(decoding_failed()),
            },
            RmrkFunc::MintNft => match dec_account(input, 0) {
                Some((owner, p1)) => match dec_u32(input, p1) {
                    Some((collection_id, p2)) => match dec_opt_account(input, p2) {
                        Some((royalty_recipient, p3)) => match dec_opt_u32(input, p3) {
                            Some((royalty, p4)) => match dec_bytes(input, p4) {
                                Some((metadata, p5)) => match dec_bool(input, p5) {
                                    Some((transferable, p6)) => match dec_opt_resources(
                                        input,
                                        p6,
                                    ) {
                                        Some((resources, e)) => if e == input.len() {
                                            Ok(RmrkDispatch::MintNft {
                                                owner: AccountId { bytes: owner },
                                                collection_id,
                                                royalty_recipient: match royalty_recipient {
                                                    Some(a) => Some(AccountId { bytes: a }),
                                                    None => None,
                                                },
                                                royalty,
                                                metadata,
                                                transferable,
                                                resources,
                                            })
                                        } else {
                                            Err(decoding_failed())
                                        },
                                        None => Err(decoding_failed()),
                                    },
                                    None => Err(decoding_failed()),
                                },
                                None => Err(decoding_failed()),
                            },
                            None => Err(decoding_failed()),
                        },
                        None => Err(decoding_failed()),
                    },
                    None => Err(decoding_failed()),
                },
                None => Err(decoding_failed()),
            },
            RmrkFunc::MintNftDirectlyToNft => match dec_pair_u32(input, 0) {
                Some((owner, p1)) => match dec_u32(input, p1) {
                    Some((collection_id, p2)) => match dec_opt_account(input, p2) {
                        Some((royalty_recipient, p3)) => match dec_opt_u32(input, p3) {
                            Some((royalty, p4)) => match dec_bytes(input, p4) {
                                Some((metadata, p5)) => match dec_bool(input, p5) {
                                    Some((transferable, p6)) => match dec_opt_resources(
                                        input,
                                        p6,
                                    ) {
                                        Some((resources, e)) => if e == input.len() {
                                            Ok(RmrkDispatch::MintNftDirectlyToNft {
                                                owner,
                                                collection_id,
                                                royalty_recipient: match royalty_recipient {
                                                    Some(a) => Some(AccountId { bytes: a }),
                                                    None => None,
                                                },
                                                royalty,
                                                metadata,
                                                transferable,
                                                resources,
                                            })
                                        } else {
                                            Err(decoding_failed())
                                        },
                                        None => Err(decoding_failed()),
                                    },
                                    None => Err(decoding_failed()),
                                },
                                None => Err(decoding_failed()),
                            },
                            None => Err(decoding_failed()),
                        },
                        None => Err(decoding_failed()),
                    },
                    None => Err(decoding_failed()),
                },
                None => Err(decoding_failed()),
            },
            RmrkFunc::CreateCollection => match dec_bytes(input, 0) {
                Some((metadata, p1)) => match dec_opt_u32(input, p1) {
                    Some((max, p2)) => match dec_bytes(input, p2) {
                        Some((symbol, e)) => if e == input.len() {
                            Ok(RmrkDispatch::CreateCollection { metadata, max, symbol })
                        } else {
                            Err(decoding_failed())
                        },
                        None => Err(decoding_failed()),
                    },
                    None => Err(decoding_failed()),
                },
                None => Err(decoding_failed()),
            },
            RmrkFunc::BurnNft => match dec_triple_u32(input, 0) {
                Some(((collection_id, nft_id, max_burns), e)) => if e == input.len() {
                    Ok(RmrkDispatch::BurnNft { collection_id, nft_id, max_burns })
                } else {
                    Err(decoding_failed())
                },
                None => Err(decoding_failed()),
            },
            RmrkFunc::DestroyCollection => match dec_u32(input, 0) {
                Some((collection_id, e)) => if e == input.len() {
                    Ok(RmrkDispatch::DestroyCollection { collection_id })
                } else {
                    Err(decoding_failed())
                },
                None => Err(decoding_failed()),
            },
            RmrkFunc::Send => match dec_pair_u32(input, 0) {
                Some(((collection_id, nft_id), p1)) => match dec_owner(input, p1) {
                    Some((new_owner, e)) => if e == input.len() {
                        Ok(RmrkDispatch::Send { collection_id, nft_id, new_owner })
                    } else {
                        Err(decoding_failed())
                    },
                    None => Err(decoding_failed()),
                },
                None => Err(decoding_failed()),
            },
            RmrkFunc::AcceptNft => match dec_pair_u32(input, 0) {
                Some(((collection_id, nft_id), p1)) => match dec_owner(input, p1) {
                    Some((new_owner, e)) => if e == input.len() {
                        Ok(RmrkDispatch::AcceptNft { collection_id, nft_id, new_owner })
                    } else {
                        Err(decoding_failed())
                    },
                    None => Err(decoding_failed()),
                },
                None => Err(decoding_failed()),
            },
            RmrkFunc::RejectNft => match dec_pair_u32(input, 0) {
                Some(((collection_id, nft_id), e)) => if e == input.len() {
                    Ok(RmrkDispatch::RejectNft { collection_id, nft_id })
                } else {
                    Err(decoding_failed())
                },
                None => Err(decoding_failed()),
            },
            RmrkFunc::ChangeCollectionIssuer => match dec_u32(input, 0) {
                Some((collection_id, p1)) => match dec_account(input, p1) {
                    Some((new_issuer, e)) => if e == input.len() {
                        Ok(RmrkDispatch::ChangeCollectionIssuer {
                            collection_id,
                            new_issuer: AccountId { bytes: new_issuer },
                        })
                    } else {
                        Err(decoding_failed())
                    },
                    None => Err(decoding_failed()),
                },
                None => Err(decoding_failed()),
            },
            RmrkFunc::SetProperty => match dec_u32(input, 0) {
                Some((collection_id, p1)) => match dec_opt_u32(input, p1) {
                    Some((maybe_nft_id, p2)) => match dec_bytes(input, p2) {
                        Some((key, p3)) => match dec_bytes(input, p3) {
                            Some((value, e)) => if e == input.len() {
                                Ok(RmrkDispatch::SetProperty {
                                    collection_id,
                                    maybe_nft_id,
                                    key,
                                    value,
                                })
                            } else {
                                Err(decoding_failed())
                            },
                            None => Err(decoding_failed()),
                        },
                        None => Err(decoding_failed()),
                    },
                    None => Err(decoding_failed()),
                },
                None => Err(decoding_failed()),
            },
            RmrkFunc::LockCollection => match dec_u32(input, 0) {
                Some((collection_id, e)) => if e == input.len() {
                    Ok(RmrkDispatch::LockCollection { collection_id })
                } else {
                    Err(decoding_failed())
                },
                None => Err(decoding_failed()),
            },
            RmrkFunc::AddBasicResource => match dec_pair_u32(input, 0) {
                Some(((collection_id, nft_id), p1)) => match dec_basic_resource(input, p1) {
                    Some((resource, e)) => if e == input.len() {
                        Ok(RmrkDispatch::AddBasicResource { collection_id, nft_id, resource })
                    } else {
                        Err(decoding_failed())
                    },
                    None => Err(decoding_failed()),
                },
                None => Err(decoding_failed()),
            },
            RmrkFunc::AddComposableResource => match dec_pair_u32(input, 0) {
                Some(((collection_id, nft_id), p1)) => match dec_composable_resource(
                    input,
                    p1,
                ) {
                    Some((resource, e)) => if e == input.len() {
                        Ok(RmrkDispatch::AddComposableResource { collection_id, nft_id, resource })
                    } else {
                        Err(decoding_failed())
                    },
                    None => Err(decoding_failed()),
                },
                None => Err(decoding_failed()),
            },
            RmrkFunc::AddSlotResource => match dec_pair_u32(input, 0) {
                Some(((collection_id, nft_id), p1)) => match dec_slot_resource(input, p1) {
                    Some((resource, e)) => if e == input.len() {
                        Ok(RmrkDispatch::AddSlotResource { collection_id, nft_id, resource })
                    } else {
                        Err(decoding_failed())
                    },
                    None => Err(decoding_failed()),
                },
                None => Err(decoding_failed()),
            },
            RmrkFunc::AcceptResource => match dec_triple_u32(input, 0) {
                Some(((collection_id, nft_id, resource_id), e)) => if e == input.len() {
                    Ok(RmrkDispatch::AcceptResource { collection_id, nft_id, resource_id })
                } else {
                    Err(decoding_failed())
                },
                None => Err(decoding_failed()),
            },
            RmrkFunc::RemoveResource => match dec_triple_u32(input, 0) {
                Some(((collection_id, nft_id, resource_id), e)) => if e == input.len() {
                    Ok(RmrkDispatch::RemoveResource { collection_id, nft_id, resource_id })
                } else {
                    Err(decoding_failed())
                },
                None => Err(decoding_failed()),
            },
            RmrkFunc::AcceptResourceRemoval => match dec_triple_u32(input, 0) {
                Some(((collection_id, nft_id, resource_id), e)) => if e == input.len() {
                    Ok(RmrkDispatch::AcceptResourceRemoval { collection_id, nft_id, resource_id })
                } else {
                    Err(decoding_failed())
                },
                None => Err(decoding_failed()),
            },
            RmrkFunc::SetPriority => match dec_pair_u32(input, 0) {
                Some(((collection_id, nft_id), p1)) => match dec_vec_u32(input, p1) {
                    Some((priorities, e)) => if e == input.len() {
                        Ok(RmrkDispatch::SetPriority { collection_id, nft_id, priorities })
                    } else {
                        Err(decoding_failed())
                    },
                    None => Err(decoding_failed()),
                },
                None => Err(decoding_failed()),
            },
        }
    }
}

} // verus!
