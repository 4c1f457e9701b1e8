//! Tests of the SCALE grammar and the extension dispatcher against the
//! reference codec's encodings.

use parity_scale_codec::Compact;
use parity_scale_codec::Encode;

use swanky_node::chain_extension::DispatchError;
use swanky_node::chain_extension::RmrkDispatch;
use swanky_node::chain_extension::RmrkError;
use swanky_node::chain_extension::RmrkExtension;
use swanky_node::chain_extension::RmrkFunc;
use swanky_node::rmrk::AccountId;
use swanky_node::rmrk::AccountIdOrCollectionNftTuple;
use swanky_node::rmrk::BasicResource;
use swanky_node::rmrk::ResourceTypes;
use swanky_node::scale::dec_bool;
use swanky_node::scale::dec_bytes;
use swanky_node::scale::dec_compact;
use swanky_node::scale::dec_opt_u32;
use swanky_node::scale::dec_u32;
use swanky_node::scale::dec_vec_u32;

#[test]
fn u32_decodes_little_endian() {
    let bytes = 0xDEADBEEFu32.encode();
    assert_eq!(dec_u32(&bytes, 0), Some((0xDEADBEEF, 4)));
    assert_eq!(dec_u32(&bytes[..3], 0), None);
}

#[test]
fn bool_decodes_zero_and_one() {
    assert_eq!(dec_bool(&true.encode(), 0), Some((true, 1)));
    assert_eq!(dec_bool(&false.encode(), 0), Some((false, 1)));
    assert_eq!(dec_bool(&[2u8], 0), None);
}

#[test]
fn compact_decodes_all_three_widths() {
    let one = Compact(5u32).encode();
    assert_eq!(one.len(), 1);
    assert_eq!(dec_compact(&one, 0), Some((5, 1)));

    let two = Compact(100u32).encode();
    assert_eq!(two.len(), 2);
    assert_eq!(dec_compact(&two, 0), Some((100, 2)));

    let four = Compact(20000u32).encode();
    assert_eq!(four.len(), 4);
    assert_eq!(dec_compact(&four, 0), Some((20000, 4)));

    let widest = Compact(0x3FFF_FFFFu32).encode();
    assert_eq!(dec_compact(&widest, 0), Some((0x3FFF_FFFF, 4)));
}

#[test]
fn compact_refuses_the_big_integer_mode() {
    // Lengths of thirty bits and more use the big-integer mode, which this
    // grammar leaves out.
    let big = Compact(0x4000_0000u32).encode();
    assert_eq!(dec_compact(&big, 0), None);
}

#[test]
fn bytes_decode_with_their_length_prefix() {
    let v: Vec<u8> = vec![9, 8, 7];
    let bytes = v.encode();
    assert_eq!(dec_bytes(&bytes, 0), Some((v, 4)));
}

#[test]
fn u32_lists_decode() {
    let v: Vec<u32> = vec![3, 1, 2];
    let bytes = v.encode();
    assert_eq!(dec_vec_u32(&bytes, 0), Some((v, 13)));
}

#[test]
fn options_decode() {
    assert_eq!(dec_opt_u32(&Some(7u32).encode(), 0), Some((Some(7), 5)));
    let none: Option<u32> = None;
    assert_eq!(dec_opt_u32(&none.encode(), 0), Some((None, 1)));
    assert_eq!(dec_opt_u32(&[2u8, 0, 0, 0, 0], 0), None);
}

#[test]
fn func_id_table_maps_getters_and_extrinsics() {
    assert_eq!(RmrkFunc::try_from(0x0001), Ok(RmrkFunc::CollectionIndex));
    assert_eq!(RmrkFunc::try_from(0x000A), Ok(RmrkFunc::Lock));
    assert_eq!(RmrkFunc::try_from(0x1001), Ok(RmrkFunc::MintNft));
    assert_eq!(RmrkFunc::try_from(0x1012), Ok(RmrkFunc::SetPriority));
    match RmrkFunc::try_from(0x0B) {
        Err(DispatchError::Other(m)) => {
            assert_eq!(m, "RmrkExtension: Unimplemented func_id")
        },
        other => panic!("unexpected: {:?}", other),
    }
}

#[test]
fn rmrk_error_recovers_from_module_error_names() {
    let module = DispatchError::Module { message: Some("NoPermission".to_owned()) };
    assert_eq!(RmrkError::try_from(module), Ok(RmrkError::NoPermission));
    let nameless = DispatchError::Module { message: None };
    match RmrkError::try_from(nameless) {
        Err(DispatchError::Other(m)) => assert_eq!(m, "RmrkExtension: Unknown error"),
        other => panic!("unexpected: {:?}", other),
    }
    let unknown = DispatchError::Module { message: Some("SomethingElse".to_owned()) };
    assert!(RmrkError::try_from(unknown).is_err());
    let other = DispatchError::Other("boom");
    assert!(RmrkError::try_from(other).is_err());
}

#[test]
fn execute_func_reads_a_collection_query() {
    let input = 7u32.encode();
    assert_eq!(
        RmrkExtension::execute_func(0x0002, &input),
        Ok(RmrkDispatch::Collections { collection_id: 7 })
    );
}

#[test]
fn execute_func_reads_nested_queries() {
    let nfts = (1u32, 2u32).encode();
    assert_eq!(
        RmrkExtension::execute_func(0x0003, &nfts),
        Ok(RmrkDispatch::Nfts { collection_id: 1, nft_id: 2 })
    );
    let children = ((1u32, 2u32), (3u32, 4u32)).encode();
    assert_eq!(
        RmrkExtension::execute_func(0x0005, &children),
        Ok(RmrkDispatch::Children { parent: (1, 2), child: (3, 4) })
    );
    let slots = (1u32, 2u32, 3u32, 4u32, 5u32).encode();
    assert_eq!(
        RmrkExtension::execute_func(0x0008, &slots),
        Ok(RmrkDispatch::EquippableSlots {
            collection_id: 1,
            nft_id: 2,
            resource_id: 3,
            base_id: 4,
            slot_id: 5,
        })
    );
}

#[test]
fn execute_func_reads_properties() {
    let input = (1u32, Some(2u32), b"key".to_vec()).encode();
    assert_eq!(
        RmrkExtension::execute_func(0x0009, &input),
        Ok(RmrkDispatch::Properties {
            collection_id: 1,
            nft_id: Some(2),
            key: b"key".to_vec(),
        })
    );
}

#[test]
fn execute_func_reads_create_collection() {
    let input = (b"meta".to_vec(), Some(10u32), b"SYM".to_vec()).encode();
    assert_eq!(
        RmrkExtension::execute_func(0x1003, &input),
        Ok(RmrkDispatch::CreateCollection {
            metadata: b"meta".to_vec(),
            max: Some(10),
            symbol: b"SYM".to_vec(),
        })
    );
}

#[test]
fn execute_func_reads_set_priority() {
    let input = (1u32, 2u32, vec![5u32, 3u32]).encode();
    assert_eq!(
        RmrkExtension::execute_func(0x1012, &input),
        Ok(RmrkDispatch::SetPriority {
            collection_id: 1,
            nft_id: 2,
            priorities: vec![5, 3],
        })
    );
}

#[test]
fn execute_func_reads_change_collection_issuer() {
    let issuer = [7u8; 32];
    let input = (9u32, issuer).encode();
    assert_eq!(
        RmrkExtension::execute_func(0x1009, &input),
        Ok(RmrkDispatch::ChangeCollectionIssuer {
            collection_id: 9,
            new_issuer: AccountId { bytes: issuer.to_vec() },
        })
    );
}

#[test]
fn execute_func_reads_send_to_an_account() {
    let account = [5u8; 32];
    let mut input = (1u32, 2u32).encode();
    input.push(0);
    input.extend_from_slice(&account);
    assert_eq!(
        RmrkExtension::execute_func(0x1006, &input),
        Ok(RmrkDispatch::Send {
            collection_id: 1,
            nft_id: 2,
            new_owner: AccountIdOrCollectionNftTuple::AccountId(AccountId {
                bytes: account.to_vec(),
            }),
        })
    );
}

#[test]
fn execute_func_reads_send_to_an_nft() {
    let mut input = (1u32, 2u32).encode();
    input.push(1);
    input.extend_from_slice(&(8u32, 9u32).encode());
    assert_eq!(
        RmrkExtension::execute_func(0x1006, &input),
        Ok(RmrkDispatch::Send {
            collection_id: 1,
            nft_id: 2,
            new_owner: AccountIdOrCollectionNftTuple::CollectionAndNftTuple(8, 9),
        })
    );
}

#[test]
fn execute_func_reads_a_full_mint() {
    let owner = [1u8; 32];
    let recipient = [2u8; 32];
    let mut input =
        (owner, 4u32, Some(recipient), Some(250u32), b"ipfs".to_vec(), true).encode();
    // resources: one basic resource with metadata, written out by hand:
    // option tag, compact list length, variant tag, option tag, compact
    // byte length, the byte.
    input.extend_from_slice(&[1, 4, 0, 1, 4, 9]);
    let d = RmrkExtension::execute_func(0x1001, &input).unwrap();
    assert_eq!(
        d,
        RmrkDispatch::MintNft {
            owner: AccountId { bytes: owner.to_vec() },
            collection_id: 4,
            royalty_recipient: Some(AccountId { bytes: recipient.to_vec() }),
            royalty: Some(250),
            metadata: b"ipfs".to_vec(),
            transferable: true,
            resources: Some(vec![ResourceTypes::Basic(BasicResource {
                metadata: Some(vec![9]),
            })]),
        }
    );
}

#[test]
fn execute_func_refuses_an_unknown_func_id() {
    match RmrkExtension::execute_func(0x2001, &[]) {
        Err(DispatchError::Other(m)) => {
            assert_eq!(m, "RmrkExtension: Unimplemented func_id")
        },
        other => panic!("unexpected: {:?}", other),
    }
}

#[test]
fn execute_func_refuses_truncated_input() {
    let input = 7u32.encode();
    match RmrkExtension::execute_func(0x0003, &input) {
        Err(DispatchError::Module { message }) => {
            assert_eq!(message, Some("DecodingFailed".to_owned()))
        },
        other => panic!("unexpected: {:?}", other),
    }
}

#[test]
fn execute_func_refuses_trailing_input() {
    let mut input = 7u32.encode();
    input.push(0);
    assert!(RmrkExtension::execute_func(0x0002, &input).is_err());
}

#[test]
fn execute_func_ignores_input_of_the_collection_count() {
    assert_eq!(
        RmrkExtension::execute_func(0x0001, &[]),
        Ok(RmrkDispatch::CollectionIndex)
    );
}

#[test]
fn execute_func_reads_add_composable_resource() {
    let fields =
        (vec![11u32, 12u32], 4u32, Some(b"src".to_vec()), None::<Vec<u8>>, Some((4u32, 1u32)), None::<Vec<u8>>, Some(b"t".to_vec()));
    let input = ((7u32, 8u32), fields).encode();
    let d = RmrkExtension::execute_func(0x100D, &input).unwrap();
    assert_eq!(
        d,
        RmrkDispatch::AddComposableResource {
            collection_id: 7,
            nft_id: 8,
            resource: swanky_node::rmrk::ComposableResource {
                parts: vec![11, 12],
                base: 4,
                src: Some(b"src".to_vec()),
                metadata: None,
                slot: Some((4, 1)),
                license: None,
                thumb: Some(b"t".to_vec()),
            },
        }
    );
}

#[test]
fn execute_func_reads_add_slot_resource() {
    let fields = (9u32, None::<Vec<u8>>, Some(b"m".to_vec()), 3u32, None::<Vec<u8>>, None::<Vec<u8>>);
    let input = ((1u32, 2u32), fields).encode();
    let d = RmrkExtension::execute_func(0x100E, &input).unwrap();
    assert_eq!(
        d,
        RmrkDispatch::AddSlotResource {
            collection_id: 1,
            nft_id: 2,
            resource: swanky_node::rmrk::SlotResource {
                base: 9,
                src: None,
                metadata: Some(b"m".to_vec()),
                slot: 3,
                license: None,
                thumb: None,
            },
        }
    );
}

#[test]
fn execute_func_reads_a_nested_mint() {
    let recipient = [3u8; 32];
    let mut input =
        ((6u32, 7u32), 4u32, Some(recipient), None::<u32>, b"m".to_vec(), false).encode();
    // No resource list.
    input.push(0);
    let d = RmrkExtension::execute_func(0x1002, &input).unwrap();
    assert_eq!(
        d,
        RmrkDispatch::MintNftDirectlyToNft {
            owner: (6, 7),
            collection_id: 4,
            royalty_recipient: Some(AccountId { bytes: recipient.to_vec() }),
            royalty: None,
            metadata: b"m".to_vec(),
            transferable: false,
            resources: None,
        }
    );
}
