//! End-to-end tests of the sealing engine: the control surface, the
//! authorship task, ordering, and the revert path.

use swanky_node::commands::Error;
use swanky_node::commands::ReplySlot;
use swanky_node::commands::send_result;
use swanky_node::engine::ManualSeal;

fn engine_at_height(height: u64) -> ManualSeal {
    let mut node = ManualSeal::new(1000);
    if height > 0 {
        node.forward_blocks_to(height).unwrap();
        node.run_until_idle();
    }
    assert_eq!(node.best_height(), height);
    node
}

#[test]
fn create_block_with_empty_pool_fails() {
    let mut node = engine_at_height(10);
    assert_eq!(node.pending_extrinsics(), 0);
    let before = node.best_height();
    let r = node.create_block(false, false, None);
    assert_eq!(r, Err(Error::EmptyTransactionPool));
    assert_eq!(node.best_height(), before);
}

#[test]
fn create_block_with_pending_extrinsics_succeeds() {
    let mut node = engine_at_height(3);
    node.set_pending_extrinsics(5);
    let r = node.create_block(false, false, None);
    assert!(r.is_ok());
    assert_eq!(node.best_height(), 4);
    // The proposer consumed the pending transactions.
    assert_eq!(node.pending_extrinsics(), 0);
}

#[test]
fn create_empty_block_advances_best_by_one() {
    let mut node = engine_at_height(10);
    let r = node.create_block(true, false, None).unwrap();
    assert_eq!(node.best_height(), 11);
    assert_eq!(r.hash, node.best_hash());
    assert!(r.aux.is_new_best);
}

#[test]
fn create_block_with_finalize_advances_finalized() {
    let mut node = engine_at_height(2);
    let r = node.create_block(true, true, None).unwrap();
    assert_eq!(node.best_height(), 3);
    assert_eq!(node.finalized_height(), 3);
    assert_eq!(r.hash, node.best_hash());
}

#[test]
fn create_block_on_unknown_parent_fails_proposal() {
    let mut node = engine_at_height(4);
    let r = node.create_block(true, false, Some(999));
    assert_eq!(r, Err(Error::ProposalFailed));
    assert_eq!(node.best_height(), 4);
}

#[test]
fn create_block_on_stale_parent_fails_import() {
    let mut node = engine_at_height(0);
    let first = node.create_block(true, false, None).unwrap();
    let _second = node.create_block(true, false, None).unwrap();
    // The first block is imported but no longer the best block.
    let r = node.create_block(true, false, Some(first.hash));
    assert_eq!(r, Err(Error::ImportFailed));
    assert_eq!(node.best_height(), 2);
}

#[test]
fn finalize_block_of_unknown_hash_fails() {
    let mut node = engine_at_height(5);
    let finalized_before = node.finalized_height();
    let ok = node.finalize_block(12345, None);
    assert!(!ok);
    assert_eq!(node.finalized_height(), finalized_before);
}

#[test]
fn finalize_block_of_imported_hash_succeeds() {
    let mut node = engine_at_height(0);
    let created = node.create_block(true, false, None).unwrap();
    assert_eq!(node.finalized_height(), 0);
    let ok = node.finalize_block(created.hash, Some(vec![1, 2, 3]));
    assert!(ok);
    assert_eq!(node.finalized_height(), 1);
}

#[test]
fn finalize_below_finalized_height_fails() {
    let mut node = engine_at_height(0);
    let first = node.create_block(true, false, None).unwrap();
    let second = node.create_block(true, false, None).unwrap();
    assert!(node.finalize_block(second.hash, None));
    assert_eq!(node.finalized_height(), 2);
    // Finalization is irreversible: the engine refuses to move it back.
    assert!(!node.finalize_block(first.hash, None));
    assert_eq!(node.finalized_height(), 2);
}

#[test]
fn forward_blocks_enqueues_exactly_the_difference() {
    let mut node = engine_at_height(11);
    node.forward_blocks_to(15).unwrap();
    assert_eq!(node.queue_len(), 4);
    assert_eq!(node.best_height(), 11);
    node.run_until_idle();
    assert_eq!(node.best_height(), 15);
    assert_eq!(node.queue_len(), 0);
}

#[test]
fn forward_blocks_to_lower_height_fails_without_enqueueing() {
    let mut node = engine_at_height(11);
    let r = node.forward_blocks_to(9);
    assert_eq!(r, Err(Error::InvalidHeightRequest));
    assert_eq!(node.queue_len(), 0);
    assert_eq!(node.best_height(), 11);
}

#[test]
fn forward_blocks_to_current_height_fails_too() {
    let mut node = engine_at_height(11);
    let r = node.forward_blocks_to(11);
    assert_eq!(r, Err(Error::InvalidHeightRequest));
    assert_eq!(node.queue_len(), 0);
}

#[test]
fn revert_blocks_moves_best_back() {
    let mut node = engine_at_height(15);
    let r = node.revert_blocks_to(5);
    assert!(r.is_ok());
    assert_eq!(node.best_height(), 5);
}

#[test]
fn revert_blocks_above_best_fails_unchanged() {
    let mut node = engine_at_height(15);
    let r = node.revert_blocks_to(20);
    assert_eq!(r, Err(Error::InvalidHeightRequest));
    assert_eq!(node.best_height(), 15);
}

#[test]
fn revert_below_finalized_height_fails() {
    let mut node = engine_at_height(0);
    let _b1 = node.create_block(true, false, None).unwrap();
    let b2 = node.create_block(true, false, None).unwrap();
    let _b3 = node.create_block(true, false, None).unwrap();
    assert!(node.finalize_block(b2.hash, None));
    let r = node.revert_blocks_to(1);
    assert_eq!(r, Err(Error::BackendRevertFailed));
    assert_eq!(node.best_height(), 3);
    assert_eq!(node.finalized_height(), 2);
}

#[test]
fn revert_bypasses_the_queue() {
    let mut node = engine_at_height(8);
    node.forward_blocks_to(10).unwrap();
    assert_eq!(node.queue_len(), 2);
    node.revert_blocks_to(4).unwrap();
    // The queued commands were not touched and run against the shorter
    // chain afterwards.
    assert_eq!(node.queue_len(), 2);
    assert_eq!(node.best_height(), 4);
    node.run_until_idle();
    assert_eq!(node.best_height(), 6);
}

#[test]
fn commands_are_processed_in_submission_order() {
    let mut node = ManualSeal::new(1000);
    // The model proposer assigns hashes from a counter starting at one, so
    // the first sealed block carries hash one. A finalize command for that
    // hash is submitted after the seal command: first-in-first-out
    // processing makes it find the block imported.
    let seal_ticket = node.submit_create_block(true, false, None);
    let finalize_ticket = node.submit_finalize_block(1, None);
    node.run_until_idle();
    let sealed = node.take_seal_reply(seal_ticket).unwrap().unwrap();
    assert_eq!(sealed.hash, 1);
    let finalized = node.take_finalize_reply(finalize_ticket).unwrap();
    assert_eq!(finalized, Ok(()));
    assert_eq!(node.finalized_height(), 1);
}

#[test]
fn abandoned_reply_slot_does_not_block_processing() {
    let mut node = ManualSeal::new(1000);
    let abandoned = node.submit_create_block(true, false, None);
    node.abandon_seal_reply(abandoned);
    let kept = node.submit_create_block(true, false, None);
    node.run_until_idle();
    // Both commands were processed; the abandoned slot swallowed its write.
    assert_eq!(node.best_height(), 2);
    assert_eq!(node.take_seal_reply(abandoned), None);
    let second = node.take_seal_reply(kept).unwrap().unwrap();
    assert_eq!(second.hash, 2);
}

#[test]
fn replies_are_handed_out_once() {
    let mut node = ManualSeal::new(1000);
    let t = node.submit_create_block(true, false, None);
    assert_eq!(node.take_seal_reply(t), None);
    node.run_until_idle();
    assert!(node.take_seal_reply(t).is_some());
    assert_eq!(node.take_seal_reply(t), None);
}

#[test]
fn send_result_writes_once_and_tolerates_absence() {
    let mut slot: ReplySlot<u32> = ReplySlot::Waiting;
    send_result(&mut slot, 7);
    assert_eq!(slot, ReplySlot::Delivered(7));
    // A second write is a no-op.
    send_result(&mut slot, 8);
    assert_eq!(slot, ReplySlot::Delivered(7));
    let mut gone: ReplySlot<u32> = ReplySlot::Abandoned;
    send_result(&mut gone, 9);
    assert_eq!(gone, ReplySlot::Abandoned);
}

#[test]
fn backpressure_makes_room_instead_of_dropping() {
    let mut node = ManualSeal::new(2);
    node.forward_blocks_to(5).unwrap();
    // Capacity is two, so accepting the burst of five already processed
    // some commands; nothing was dropped.
    node.run_until_idle();
    assert_eq!(node.best_height(), 5);
}
