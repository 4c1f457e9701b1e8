//! Engine-wide guarantees, stated over the transition model that every
//! executable method of [`crate::engine::ManualSeal`] is proved against.

use vstd::prelude::*;

verus! {

use crate::commands::CommandModel;
use crate::commands::ReplySlot;
use crate::engine::EngineModel;
use crate::engine::drain_model;
use crate::engine::empty_seal_cmd;
use crate::engine::enqueue_model;
use crate::engine::forward_model;
use crate::engine::lemma_wf_drain;
use crate::engine::lemma_wf_step;
use crate::engine::step;
use crate::engine::wf;
use crate::engine::with_queue;

/// Commands are processed in exactly the order in which the queue accepted
/// them: the trace of processed commands after a drain is the old trace
/// followed by the queue's contents, unchanged and unreordered. Since every
/// submission appends to the queue, the order the backend observes is a
/// total order consistent with each caller's own submission order.
pub proof fn lemma_commands_processed_in_submission_order(s: EngineModel)
    ensures
        drain_model(s).processed == s.processed + s.queue,
    decreases s.queue.len(),
{
    if s.queue.len() == 0 {
        assert(s.processed + s.queue =~= s.processed);
    } else {
        lemma_commands_processed_in_submission_order(step(s));
        assert(step(s).processed + step(s).queue =~= s.processed + s.queue);
    }
}

/// The forward-fill burst without backpressure: while the queue has room
/// for all of them, accepting `n` fire-and-forget empty-block seal commands
/// appends exactly those `n` commands to the queue and touches nothing
/// else — in particular, the chain.
pub proof fn lemma_forward_fill_enqueues_burst(s: EngineModel, n: nat)
    requires
        wf(s),
        s.queue.len() + n <= s.capacity,
    ensures
        forward_model(s, n) == with_queue(
            s,
            s.queue + Seq::new(n, |i: int| empty_seal_cmd()),
        ),
    decreases n,
{
    if n == 0 {
        assert(s.queue + Seq::new(0, |i: int| empty_seal_cmd()) =~= s.queue);
        assert(with_queue(s, s.queue) =~= s);
    } else {
        let s1 = enqueue_model(s, empty_seal_cmd());
        assert(s1 == with_queue(s, s.queue.push(empty_seal_cmd())));
        assert(wf(s1)) by {
            assert forall|i: int| 0 <= i < s1.queue.len() implies crate::engine::cmd_senders_wf(
                #[trigger] s1.queue[i],
                s1.seal_slots.len() as int,
                s1.finalize_slots.len() as int,
            ) by {
                if i < s1.queue.len() - 1 {
                    assert(s1.queue[i] == s.queue[i]);
                } else {
                    assert(s1.queue[i] == empty_seal_cmd());
                }
            }
        }
        lemma_forward_fill_enqueues_burst(s1, (n - 1) as nat);
        assert(s1.queue + Seq::new((n - 1) as nat, |i: int| empty_seal_cmd()) =~= s.queue
            + Seq::new(n, |i: int| empty_seal_cmd()));
    }
}

/// Draining a queue of empty-block seal commands advances the best height
/// by exactly the number of commands, one block each, and moves the
/// finalized height not at all. The two bounds keep the model proposer's
/// hash counter and the backend's index space from running out.
pub proof fn lemma_forward_fill_drain_advances_best(s: EngineModel)
    requires
        wf(s),
        forall|i: int| 0 <= i < s.queue.len() ==> #[trigger] s.queue[i] == empty_seal_cmd(),
        s.next_hash + s.queue.len() <= u64::MAX,
        s.chain.blocks.len() + s.queue.len() + 1 < usize::MAX,
    ensures
        drain_model(s).chain.best_height() == s.chain.best_height() + s.queue.len(),
        drain_model(s).chain.finalized == s.chain.finalized,
    decreases s.queue.len(),
{
    if s.queue.len() > 0 {
        let c = s.queue[0];
        assert(c == empty_seal_cmd());
        let p = crate::engine::resolve_parent(s, None);
        assert(p == s.chain.best_hash());
        if s.chain.blocks.len() > 0 {
            assert(s.chain.blocks[s.chain.blocks.len() - 1] == p);
            assert(s.chain.blocks.contains(p));
        }
        assert(s.chain.contains_hash(p));
        assert(!s.chain.blocks.contains(s.next_hash)) by {
            if s.chain.blocks.contains(s.next_hash) {
                let i = choose|i: int|
                    0 <= i < s.chain.blocks.len() && s.chain.blocks[i] == s.next_hash;
                assert(s.chain.blocks[i] < s.next_hash);
            }
        }
        assert(!crate::engine::proposer_exhausted(s));
        assert(crate::engine::seal_outcome(s, true, None) is Ok);
        lemma_wf_step(s);
        let t = step(s);
        assert(t.chain.blocks.len() == s.chain.blocks.len() + 1);
        assert(t.chain.finalized == s.chain.finalized);
        assert forall|i: int| 0 <= i < t.queue.len() implies #[trigger] t.queue[i]
            == empty_seal_cmd() by {
            assert(t.queue[i] == s.queue[i + 1]);
        }
        lemma_forward_fill_drain_advances_best(t);
    }
}

/// Two engine states that differ only in their reply slots.
pub open spec fn same_but_slots(s1: EngineModel, s2: EngineModel) -> bool {
    &&& s1.chain == s2.chain
    &&& s1.pending == s2.pending
    &&& s1.next_hash == s2.next_hash
    &&& s1.capacity == s2.capacity
    &&& s1.queue == s2.queue
    &&& s1.processed == s2.processed
}

/// What the authorship task does to the chain, the queue and the trace
/// never depends on the state of any reply slot.
pub proof fn lemma_step_ignores_slots(s1: EngineModel, s2: EngineModel)
    requires
        same_but_slots(s1, s2),
    ensures
        same_but_slots(step(s1), step(s2)),
{
}

/// Draining the queue acts on the chain, the queue and the trace without
/// regard to any reply slot's state.
pub proof fn lemma_drain_ignores_slots(s1: EngineModel, s2: EngineModel)
    requires
        same_but_slots(s1, s2),
    ensures
        same_but_slots(drain_model(s1), drain_model(s2)),
    decreases s1.queue.len(),
{
    if s1.queue.len() > 0 {
        lemma_step_ignores_slots(s1, s2);
        lemma_drain_ignores_slots(step(s1), step(s2));
    }
}

/// A caller that abandons its seal reply slot before processing completes
/// blocks nothing: the task processes the whole queue exactly as it would
/// have, command for command, and ends idle.
pub proof fn lemma_abandoned_seal_reader_does_not_block(s: EngineModel, t: int)
    requires
        wf(s),
        0 <= t < s.seal_slots.len(),
    ensures
        ({
            let s2 = EngineModel {
                seal_slots: s.seal_slots.update(t, ReplySlot::Abandoned),
                ..s
            };
            wf(s2) && same_but_slots(drain_model(s2), drain_model(s)) && drain_model(
                s2,
            ).queue.len() == 0
        }),
{
    let s2 = EngineModel { seal_slots: s.seal_slots.update(t, ReplySlot::Abandoned), ..s };
    assert(wf(s2)) by {
        assert forall|i: int| 0 <= i < s2.queue.len() implies crate::engine::cmd_senders_wf(
            #[trigger] s2.queue[i],
            s2.seal_slots.len() as int,
            s2.finalize_slots.len() as int,
        ) by {
            assert(crate::engine::cmd_senders_wf(
                s.queue[i],
                s.seal_slots.len() as int,
                s.finalize_slots.len() as int,
            ));
        }
    }
    lemma_drain_ignores_slots(s2, s);
    lemma_wf_drain(s2);
}

/// A caller that abandons its finalize reply slot before processing
/// completes blocks nothing either.
pub proof fn lemma_abandoned_finalize_reader_does_not_block(s: EngineModel, t: int)
    requires
        wf(s),
        0 <= t < s.finalize_slots.len(),
    ensures
        ({
            let s2 = EngineModel {
                finalize_slots: s.finalize_slots.update(t, ReplySlot::Abandoned),
                ..s
            };
            wf(s2) && same_but_slots(drain_model(s2), drain_model(s)) && drain_model(
                s2,
            ).queue.len() == 0
        }),
{
    let s2 = EngineModel { finalize_slots: s.finalize_slots.update(t, ReplySlot::Abandoned), ..s };
    assert(wf(s2)) by {
        assert forall|i: int| 0 <= i < s2.queue.len() implies crate::engine::cmd_senders_wf(
            #[trigger] s2.queue[i],
            s2.seal_slots.len() as int,
            s2.finalize_slots.len() as int,
        ) by {
            assert(crate::engine::cmd_senders_wf(
                s.queue[i],
                s.seal_slots.len() as int,
                s.finalize_slots.len() as int,
            ));
        }
    }
    lemma_drain_ignores_slots(s2, s);
    lemma_wf_drain(s2);
}

/// At most one write ever lands in a reply slot: once a slot is anything
/// but waiting — delivered, read, or abandoned — no amount of further
/// processing changes it.
pub proof fn lemma_settled_slot_is_never_rewritten(s: EngineModel, t: int)
    requires
        0 <= t < s.seal_slots.len(),
        !(s.seal_slots[t] is Waiting),
    ensures
        drain_model(s).seal_slots[t] == s.seal_slots[t],
    decreases s.queue.len(),
{
    if s.queue.len() > 0 {
        assert(step(s).seal_slots[t] == s.seal_slots[t]) by {
            if s.queue.len() > 0 {
                match s.queue[0] {
                    CommandModel::Seal { sender, .. } => {
                        assert(step(s).seal_slots == crate::engine::deliver_to(
                            s.seal_slots,
                            sender,
                            crate::engine::seal_outcome(
                                s,
                                s.queue[0]->Seal_create_empty,
                                s.queue[0]->Seal_parent_hash,
                            ),
                        ));
                    },
                    CommandModel::Finalize { .. } => {},
                }
            }
        }
        lemma_settled_slot_is_never_rewritten(step(s), t);
    }
}

/// The same, for the finalize reply slots.
pub proof fn lemma_settled_finalize_slot_is_never_rewritten(s: EngineModel, t: int)
    requires
        0 <= t < s.finalize_slots.len(),
        !(s.finalize_slots[t] is Waiting),
    ensures
        drain_model(s).finalize_slots[t] == s.finalize_slots[t],
    decreases s.queue.len(),
{
    if s.queue.len() > 0 {
        lemma_settled_finalize_slot_is_never_rewritten(step(s), t);
    }
}


} // verus!
