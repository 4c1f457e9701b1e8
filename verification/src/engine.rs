//! The sealing engine: a bounded FIFO command queue, the authorship task
//! that drains it, and the control surface that turns caller requests into
//! commands and correlated replies.
//!
//! The engine serializes every queue-routed mutation of the chain: the
//! authorship task is the single consumer of the queue and applies one
//! command at a time. Its behaviour is captured by the transition function
//! [`step`]; draining the whole queue is [`drain_model`]. Every executable
//! method is proved against these functions, so ordering and delivery
//! properties can be stated once, over the model, and hold of the code.

use vstd::prelude::*;

verus! {

use crate::BlockHash;
use crate::BlockNumber;
use crate::chain::Chain;
use crate::chain::ChainModel;
use crate::chain::lemma_height_of_last;
use crate::commands::CommandModel;
use crate::commands::CreatedBlock;
use crate::commands::EncodedJustification;
use crate::commands::EngineCommand;
use crate::commands::Error;
use crate::commands::ImportedAux;
use crate::commands::ReplySlot;
use crate::commands::deliver_spec;
use crate::commands::justification_model;
use crate::commands::send_result;
use crate::finalize::FinalizeBlockParams;
use crate::finalize::finalize_block;
use crate::finalize::finalize_effect;
use crate::finalize::finalize_outcome;

/// Abstract state of the engine: the backend, the transaction-pool size it
/// observes, the proposer's hash counter, the bounded command queue, the
/// reply slots of both kinds, and the trace of commands processed so far.
#[verifier::ext_equal]
pub struct EngineModel {
    /// State of the chain backend.
    pub chain: ChainModel,
    /// Number of pending transactions the pool reports.
    pub pending: int,
    /// Next hash the model proposer will assign.
    pub next_hash: BlockHash,
    /// Capacity of the command queue.
    pub capacity: int,
    /// Commands accepted and not yet processed, oldest first.
    pub queue: Seq<CommandModel>,
    /// Reply slots awaiting a created block.
    pub seal_slots: Seq<ReplySlot<Result<CreatedBlock, Error>>>,
    /// Reply slots awaiting a finalization outcome.
    pub finalize_slots: Seq<ReplySlot<Result<(), Error>>>,
    /// Commands already processed, in processing order.
    pub processed: Seq<CommandModel>,
}

/// Whether a command's reply slot, if any, names an allocated slot.
pub open spec fn cmd_senders_wf(c: CommandModel, n_seal: int, n_finalize: int) -> bool {
    match c {
        CommandModel::Seal { sender, .. } => match sender {
            Some(t) => 0 <= t < n_seal,
            None => true,
        },
        CommandModel::Finalize { sender, .. } => match sender {
            Some(t) => 0 <= t < n_finalize,
            None => true,
        },
    }
}

/// Well-formedness of the engine state: the backend is well formed, the
/// proposer counter is ahead of every hash on the chain (so proposals are
/// fresh), the chain is shorter than the counter, the queue respects its
/// capacity, and every queued reply slot is allocated.
pub open spec fn wf(s: EngineModel) -> bool {
    &&& s.chain.wf()
    &&& 1 <= s.next_hash
    &&& forall|i: int| 0 <= i < s.chain.blocks.len() ==> s.chain.blocks[i] < s.next_hash
    &&& s.chain.blocks.len() < s.next_hash
    &&& 1 <= s.capacity
    &&& s.queue.len() <= s.capacity
    &&& forall|i: int|
        0 <= i < s.queue.len() ==> cmd_senders_wf(
            #[trigger] s.queue[i],
            s.seal_slots.len() as int,
            s.finalize_slots.len() as int,
        )
}

/// The parent a seal command builds on: the supplied hash, or the current
/// best block.
pub open spec fn resolve_parent(s: EngineModel, parent_hash: Option<BlockHash>) -> BlockHash {
    match parent_hash {
        Some(p) => p,
        None => s.chain.best_hash(),
    }
}

/// The model proposer draws hashes from a counter; it gives up once the
/// counter or the backend's index space is used up.
pub open spec fn proposer_exhausted(s: EngineModel) -> bool {
    s.next_hash == u64::MAX || s.chain.blocks.len() + 1 >= usize::MAX
}

/// What a seal command reports: the pool must hold a transaction unless an
/// empty block is allowed; the proposer must know the parent and have a
/// fresh hash left; the importer accepts only a child of the current best
/// block. On success the caller learns the new block's hash.
pub open spec fn seal_outcome(
    s: EngineModel,
    create_empty: bool,
    parent_hash: Option<BlockHash>,
) -> Result<CreatedBlock, Error> {
    let parent = resolve_parent(s, parent_hash);
    if !create_empty && s.pending == 0 {
        Err(Error::EmptyTransactionPool)
    } else if !s.chain.contains_hash(parent) {
        Err(Error::ProposalFailed)
    } else if proposer_exhausted(s) || s.next_hash == 0 || s.chain.blocks.contains(s.next_hash) {
        Err(Error::ProposalFailed)
    } else if parent != s.chain.best_hash() {
        Err(Error::ImportFailed)
    } else {
        Ok(CreatedBlock { hash: s.next_hash, aux: ImportedAux::new_best_spec() })
    }
}

/// The state a seal command leaves behind: on success the new block tops
/// the chain (finalized at once when asked), the proposer consumed the
/// pending transactions and one hash; on failure nothing moves.
pub open spec fn seal_effect(
    s: EngineModel,
    create_empty: bool,
    finalize: bool,
    parent_hash: Option<BlockHash>,
) -> EngineModel {
    if seal_outcome(s, create_empty, parent_hash) is Ok {
        EngineModel {
            chain: ChainModel {
                blocks: s.chain.blocks.push(s.next_hash),
                finalized: if finalize {
                    s.chain.blocks.len() + 1int
                } else {
                    s.chain.finalized
                },
            },
            pending: 0,
            next_hash: (s.next_hash + 1) as u64,
            ..s
        }
    } else {
        s
    }
}

/// Write an outcome into the slot a command named, if it named one; a
/// missing or already settled slot leaves everything as it is.
pub open spec fn deliver_to<T>(slots: Seq<ReplySlot<T>>, sender: Option<int>, r: T) -> Seq<
    ReplySlot<T>,
> {
    match sender {
        Some(t) => {
            if 0 <= t < slots.len() {
                slots.update(t, deliver_spec(slots[t], r))
            } else {
                slots
            }
        },
        None => slots,
    }
}

/// One turn of the authorship task: take the oldest queued command, apply
/// it against the chain, and report its outcome to the named reply slot.
/// An empty queue leaves the engine idle.
pub open spec fn step(s: EngineModel) -> EngineModel {
    if s.queue.len() == 0 {
        s
    } else {
        let c = s.queue[0];
        match c {
            CommandModel::Seal { create_empty, finalize, parent_hash, sender } => {
                let e = seal_effect(s, create_empty, finalize, parent_hash);
                EngineModel {
                    chain: e.chain,
                    pending: e.pending,
                    next_hash: e.next_hash,
                    seal_slots: deliver_to(
                        s.seal_slots,
                        sender,
                        seal_outcome(s, create_empty, parent_hash),
                    ),
                    queue: s.queue.drop_first(),
                    processed: s.processed.push(c),
                    ..s
                }
            },
            CommandModel::Finalize { hash, justification: _, sender } => {
                EngineModel {
                    chain: finalize_effect(s.chain, hash),
                    finalize_slots: deliver_to(
                        s.finalize_slots,
                        sender,
                        finalize_outcome(s.chain, hash),
                    ),
                    queue: s.queue.drop_first(),
                    processed: s.processed.push(c),
                    ..s
                }
            },
        }
    }
}

/// The authorship task run to quiescence: every queued command processed in
/// FIFO order.
pub open spec fn drain_model(s: EngineModel) -> EngineModel
    decreases s.queue.len(),
{
    if s.queue.len() == 0 {
        s
    } else {
        drain_model(step(s))
    }
}

/// One turn of the task preserves well-formedness.
pub proof fn lemma_wf_step(s: EngineModel)
    requires
        wf(s),
    ensures
        wf(step(s)),
        step(s).seal_slots.len() == s.seal_slots.len(),
        step(s).finalize_slots.len() == s.finalize_slots.len(),
        s.queue.len() > 0 ==> step(s).queue.len() == s.queue.len() - 1,
{
    if s.queue.len() > 0 {
        let c = s.queue[0];
        assert(cmd_senders_wf(
            c,
            s.seal_slots.len() as int,
            s.finalize_slots.len() as int,
        ));
        let t = step(s);
        assert forall|i: int| 0 <= i < t.queue.len() implies cmd_senders_wf(
            #[trigger] t.queue[i],
            t.seal_slots.len() as int,
            t.finalize_slots.len() as int,
        ) by {
            assert(t.queue[i] == s.queue[i + 1]);
            assert(cmd_senders_wf(
                s.queue[i + 1],
                s.seal_slots.len() as int,
                s.finalize_slots.len() as int,
            ));
        }
        match c {
            CommandModel::Seal { create_empty, finalize, parent_hash, sender } => {
                if seal_outcome(s, create_empty, parent_hash) is Ok {
                    assert(t.chain.wf());
                }
            },
            CommandModel::Finalize { hash, .. } => {
                assert(t.chain.wf());
            },
        }
    }
}

/// Draining the queue preserves well-formedness and settles the queue.
pub proof fn lemma_wf_drain(s: EngineModel)
    requires
        wf(s),
    ensures
        wf(drain_model(s)),
        drain_model(s).queue.len() == 0,
        drain_model(s).seal_slots.len() == s.seal_slots.len(),
        drain_model(s).finalize_slots.len() == s.finalize_slots.len(),
    decreases s.queue.len(),
{
    if s.queue.len() > 0 {
        lemma_wf_step(s);
        lemma_wf_drain(step(s));
    }
}

/// The engine around one chain instance: the single authorship task, its
/// bounded command queue, and the reply slots handed to callers. Exactly
/// one instance exists per chain; it is the only writer of new blocks.
pub struct ManualSeal {
    chain: Chain,
    pending_extrinsics: u64,
    next_hash: BlockHash,
    capacity: usize,
    queue: Vec<EngineCommand>,
    seal_slots: Vec<ReplySlot<Result<CreatedBlock, Error>>>,
    finalize_slots: Vec<ReplySlot<Result<(), Error>>>,
    processed: Ghost<Seq<CommandModel>>,
}

impl View for ManualSeal {
    type V = EngineModel;

    closed spec fn view(&self) -> EngineModel {
        EngineModel {
            chain: self.chain@,
            pending: self.pending_extrinsics as int,
            next_hash: self.next_hash,
            capacity: self.capacity as int,
            queue: self.queue@.map_values(|c: EngineCommand| c@),
            seal_slots: self.seal_slots@,
            finalize_slots: self.finalize_slots@,
            processed: self.processed@,
        }
    }
}

impl ManualSeal {
    /// Create a new engine over a fresh backend, with the given command
    /// queue capacity.
    pub fn new(capacity: usize) -> (r: ManualSeal)
        requires
            capacity >= 1,
        ensures
            wf(r@),
            r@.chain.blocks.len() == 0,
            r@.chain.finalized == 0,
            r@.pending == 0,
            r@.next_hash == 1,
            r@.capacity == capacity,
            r@.queue.len() == 0,
            r@.seal_slots.len() == 0,
            r@.finalize_slots.len() == 0,
            r@.processed.len() == 0,
    {
        let r = ManualSeal {
            chain: Chain::new(),
            pending_extrinsics: 0,
            next_hash: 1,
            capacity,
            queue: Vec::new(),
            seal_slots: Vec::new(),
            finalize_slots: Vec::new(),
            processed: Ghost(Seq::empty()),
        };
        proof {
            assert(r@.queue =~= Seq::<CommandModel>::empty());
        }
        r
    }

    /// Height of the most recently imported block.
    pub fn best_height(&self) -> (r: BlockNumber)
        ensures
            r == self@.chain.best_height(),
    {
        self.chain.best_height()
    }

    /// Height up to which the chain is finalized.
    pub fn finalized_height(&self) -> (r: BlockNumber)
        ensures
            r == self@.chain.finalized,
    {
        self.chain.finalized_height()
    }

    /// Hash of the block at the best height.
    pub fn best_hash(&self) -> (r: BlockHash)
        ensures
            r == self@.chain.best_hash(),
    {
        self.chain.best_hash()
    }

    /// Number of commands accepted and not yet processed.
    pub fn queue_len(&self) -> (r: usize)
        ensures
            r == self@.queue.len(),
    {
        self.queue.len()
    }

    /// Number of transactions the pool model reports as pending.
    pub fn pending_extrinsics(&self) -> (r: u64)
        ensures
            r == self@.pending,
    {
        self.pending_extrinsics
    }

    /// Set the number of pending transactions the pool model reports.
    pub fn set_pending_extrinsics(&mut self, n: u64)
        ensures
            final(self)@ == (EngineModel { pending: n as int, ..old(self)@ }),
    {
        self.pending_extrinsics = n;
        proof {
            assert(self@ =~= EngineModel { pending: n as int, ..old(self)@ });
        }
    }

    /// Process the oldest queued command, if any: drive it through propose,
    /// import and finalize as it asks, and report its outcome to the reply
    /// slot it names. Returns whether a command was processed.
    pub fn run_one(&mut self) -> (processed: bool)
        requires
            wf(old(self)@),
        ensures
            wf(final(self)@),
            final(self)@ == step(old(self)@),
            processed == (old(self)@.queue.len() > 0),
    {
        let ghost pre = self@;
        proof {
            lemma_wf_step(pre);
        }
        if self.queue.len() == 0 {
            proof {
                assert(self@ =~= step(pre));
            }
            return false;
        }
        let cmd = self.queue.remove(0);
        proof {
            assert(self@.queue =~= pre.queue.drop_first());
            assert(cmd@ == pre.queue[0]);
            assert(cmd_senders_wf(
                cmd@,
                pre.seal_slots.len() as int,
                pre.finalize_slots.len() as int,
            ));
        }
        self.processed = Ghost(self.processed@.push(cmd@));
        match cmd {
            EngineCommand::SealNewBlock { create_empty, finalize, parent_hash, sender } => {
                let ghost outcome = seal_outcome(pre, create_empty, parent_hash);
                let parent: BlockHash = match parent_hash {
                    Some(p) => p,
                    None => self.chain.best_hash(),
                };
                let result: Result<CreatedBlock, Error>;
                if !create_empty && self.pending_extrinsics == 0 {
                    result = Err(Error::EmptyTransactionPool);
                } else if !self.chain.contains_hash(parent) {
                    result = Err(Error::ProposalFailed);
                } else if self.next_hash == u64::MAX || self.chain.best_height() >= (usize::MAX
                    as u64) - 1 {
                    result = Err(Error::ProposalFailed);
                } else if parent != self.chain.best_hash() {
                    result = Err(Error::ImportFailed);
                } else {
                    let hash = self.next_hash;
                    proof {
                        assert(!pre.chain.blocks.contains(hash));
                        assert(pre.chain.blocks.len() < usize::MAX);
                    }
                    self.chain.push_block(hash);
                    self.next_hash = self.next_hash + 1;
                    self.pending_extrinsics = 0;
                    if finalize {
                        proof {
                            lemma_height_of_last(self.chain@);
                        }
                        let fr = finalize_block(
                            &mut self.chain,
                            FinalizeBlockParams { hash, justification: None },
                        );
                        proof {
                            assert(fr is Ok);
                        }
                    }
                    result = Ok(CreatedBlock { hash, aux: ImportedAux::new_best() });
                }
                proof {
                    assert(result == outcome);
                }
                match sender {
                    Some(t) => {
                        proof {
                            assert(t < self.seal_slots.len());
                        }
                        send_result(&mut self.seal_slots[t], result);
                    },
                    None => {
                        // Fire-and-forget command: the outcome is only
                        // logged, outside the engine.
                    },
                }
                proof {
                    assert(self@ =~= step(pre));
                }
                true
            },
            EngineCommand::FinalizeBlock { hash, justification, sender } => {
                let ghost outcome = finalize_outcome(pre.chain, hash);
                let result = finalize_block(
                    &mut self.chain,
                    FinalizeBlockParams { hash, justification },
                );
                match sender {
                    Some(t) => {
                        proof {
                            assert(t < self.finalize_slots.len());
                        }
                        send_result(&mut self.finalize_slots[t], result);
                    },
                    None => {
                        // Fire-and-forget command: the outcome is only
                        // logged, outside the engine.
                    },
                }
                proof {
                    assert(self@ =~= step(pre));
                }
                true
            },
        }
    }

    /// Run the authorship task until the queue is empty.
    pub fn run_until_idle(&mut self)
        requires
            wf(old(self)@),
        ensures
            wf(final(self)@),
            final(self)@ == drain_model(old(self)@),
            final(self)@.queue.len() == 0,
    {
        loop
            invariant
                wf(self@),
                drain_model(self@) == drain_model(old(self)@),
            decreases self@.queue.len(),
        {
            if self.queue.len() == 0 {
                proof {
                    assert(drain_model(self@) == self@);
                }
                return ;
            }
            let _ = self.run_one();
        }
    }
}

/// The same engine state with another queue.
pub open spec fn with_queue(s: EngineModel, q: Seq<CommandModel>) -> EngineModel {
    EngineModel { queue: q, ..s }
}

/// The same engine state with one more seal reply slot, still waiting.
pub open spec fn with_new_seal_slot(s: EngineModel) -> EngineModel {
    EngineModel { seal_slots: s.seal_slots.push(ReplySlot::Waiting), ..s }
}

/// The same engine state with one more finalize reply slot, still waiting.
pub open spec fn with_new_finalize_slot(s: EngineModel) -> EngineModel {
    EngineModel { finalize_slots: s.finalize_slots.push(ReplySlot::Waiting), ..s }
}

/// Accept a command into the queue. A full queue first suspends the sender
/// until the authorship task has made room: the engine processes one
/// command, then the new command enters. Nothing is ever dropped.
pub open spec fn enqueue_model(s: EngineModel, c: CommandModel) -> EngineModel {
    let s1 = if s.queue.len() >= s.capacity {
        step(s)
    } else {
        s
    };
    with_queue(s1, s1.queue.push(c))
}

/// The fire-and-forget command that the forward-fill operation enqueues.
pub open spec fn empty_seal_cmd() -> CommandModel {
    CommandModel::Seal { create_empty: true, finalize: false, parent_hash: None, sender: None }
}

/// Accept `n` fire-and-forget empty-block seal commands, in one ordered
/// burst.
pub open spec fn forward_model(s: EngineModel, n: nat) -> EngineModel
    decreases n,
{
    if n == 0 {
        s
    } else {
        forward_model(enqueue_model(s, empty_seal_cmd()), (n - 1) as nat)
    }
}

/// Whether a command names seal reply slot `t`.
pub open spec fn seal_ref(c: CommandModel, t: int) -> bool {
    match c {
        CommandModel::Seal { sender: Some(x), .. } => x == t,
        _ => false,
    }
}

/// Whether a command names finalize reply slot `t`.
pub open spec fn finalize_ref(c: CommandModel, t: int) -> bool {
    match c {
        CommandModel::Finalize { sender: Some(x), .. } => x == t,
        _ => false,
    }
}

/// No command of `q` names seal reply slot `t`.
pub open spec fn no_seal_ref(q: Seq<CommandModel>, t: int) -> bool {
    forall|i: int| 0 <= i < q.len() ==> !seal_ref(#[trigger] q[i], t)
}

/// No command of `q` names finalize reply slot `t`.
pub open spec fn no_finalize_ref(q: Seq<CommandModel>, t: int) -> bool {
    forall|i: int| 0 <= i < q.len() ==> !finalize_ref(#[trigger] q[i], t)
}

/// Commands waiting behind the head of the queue ride along unchanged
/// through one turn of the task.
pub proof fn lemma_step_append(s: EngineModel, extra: Seq<CommandModel>)
    requires
        s.queue.len() > 0,
    ensures
        step(with_queue(s, s.queue + extra)) == with_queue(step(s), step(s).queue + extra),
{
    let sa = with_queue(s, s.queue + extra);
    assert(sa.queue[0] == s.queue[0]);
    assert(sa.queue.drop_first() =~= s.queue.drop_first() + extra);
    assert(step(sa) =~= with_queue(step(s), step(s).queue + extra));
}

/// Draining a queue split in two parts equals draining the first part, then
/// the second against the drained state.
pub proof fn lemma_drain_append(s: EngineModel, extra: Seq<CommandModel>)
    ensures
        drain_model(with_queue(s, s.queue + extra)) == drain_model(
            with_queue(drain_model(s), extra),
        ),
    decreases s.queue.len(),
{
    if s.queue.len() == 0 {
        assert(s.queue + extra =~= extra);
        assert(with_queue(s, s.queue + extra) =~= with_queue(s, extra));
        assert(drain_model(s) == s);
        assert(with_queue(drain_model(s), extra) =~= with_queue(s, extra));
    } else {
        lemma_step_append(s, extra);
        let sa = with_queue(s, s.queue + extra);
        assert(sa.queue.len() > 0);
        assert(drain_model(sa) == drain_model(step(sa)));
        assert(step(sa) == with_queue(step(s), step(s).queue + extra));
        lemma_drain_append(step(s), extra);
        assert(drain_model(step(s)) == drain_model(s));
    }
}

/// One turn of the task never resizes the reply stores, and leaves every
/// slot alone that the head command does not name.
pub proof fn lemma_step_slots(s: EngineModel)
    ensures
        step(s).seal_slots.len() == s.seal_slots.len(),
        step(s).finalize_slots.len() == s.finalize_slots.len(),
        forall|t: int|
            0 <= t < s.seal_slots.len() && (s.queue.len() == 0 || !seal_ref(s.queue[0], t))
                ==> #[trigger] step(s).seal_slots[t] == s.seal_slots[t],
        forall|t: int|
            0 <= t < s.finalize_slots.len() && (s.queue.len() == 0 || !finalize_ref(s.queue[0], t))
                ==> #[trigger] step(s).finalize_slots[t] == s.finalize_slots[t],
{
}

/// A seal reply slot that no queued command names comes out of the drain
/// exactly as it went in.
pub proof fn lemma_drain_preserves_seal_slot(s: EngineModel, t: int)
    requires
        0 <= t < s.seal_slots.len(),
        no_seal_ref(s.queue, t),
    ensures
        drain_model(s).seal_slots.len() == s.seal_slots.len(),
        drain_model(s).seal_slots[t] == s.seal_slots[t],
    decreases s.queue.len(),
{
    if s.queue.len() > 0 {
        lemma_step_slots(s);
        assert(!seal_ref(s.queue[0], t));
        assert(no_seal_ref(step(s).queue, t)) by {
            assert forall|i: int| 0 <= i < step(s).queue.len() implies !seal_ref(
                #[trigger] step(s).queue[i],
                t,
            ) by {
                assert(step(s).queue[i] == s.queue[i + 1]);
            }
        }
        lemma_drain_preserves_seal_slot(step(s), t);
    }
}

/// A finalize reply slot that no queued command names comes out of the
/// drain exactly as it went in.
pub proof fn lemma_drain_preserves_finalize_slot(s: EngineModel, t: int)
    requires
        0 <= t < s.finalize_slots.len(),
        no_finalize_ref(s.queue, t),
    ensures
        drain_model(s).finalize_slots.len() == s.finalize_slots.len(),
        drain_model(s).finalize_slots[t] == s.finalize_slots[t],
    decreases s.queue.len(),
{
    if s.queue.len() > 0 {
        lemma_step_slots(s);
        assert(!finalize_ref(s.queue[0], t));
        assert(no_finalize_ref(step(s).queue, t)) by {
            assert forall|i: int| 0 <= i < step(s).queue.len() implies !finalize_ref(
                #[trigger] step(s).queue[i],
                t,
            ) by {
                assert(step(s).queue[i] == s.queue[i + 1]);
            }
        }
        lemma_drain_preserves_finalize_slot(step(s), t);
    }
}

/// Accepting a command and then draining is draining what an unbounded
/// queue would have held: the suspension on a full queue only reorders the
/// work, never the commands.
pub proof fn lemma_enqueue_drain(s: EngineModel, c: CommandModel)
    ensures
        drain_model(enqueue_model(s, c)) == drain_model(with_queue(s, s.queue.push(c))),
{
    if s.queue.len() >= s.capacity {
        if s.queue.len() == 0 {
            assert(enqueue_model(s, c) =~= with_queue(s, s.queue.push(c)));
        } else {
            assert(s.queue.push(c) =~= s.queue + seq![c]);
            lemma_step_append(s, seq![c]);
            let sp = with_queue(s, s.queue.push(c));
            assert(sp =~= with_queue(s, s.queue + seq![c]));
            assert(step(sp) == with_queue(step(s), step(s).queue + seq![c]));
            assert(step(s).queue + seq![c] =~= step(s).queue.push(c));
            assert(enqueue_model(s, c) =~= step(sp));
            assert(drain_model(sp) == drain_model(step(sp)));
        }
    }
}

/// The burst of the forward-fill operation grows one command at a time.
pub proof fn lemma_forward_model_snoc(s: EngineModel, n: nat)
    ensures
        forward_model(s, n + 1) == enqueue_model(forward_model(s, n), empty_seal_cmd()),
    decreases n,
{
    if n == 0 {
        assert(forward_model(s, 1) == forward_model(enqueue_model(s, empty_seal_cmd()), 0));
    } else {
        let s1 = enqueue_model(s, empty_seal_cmd());
        lemma_forward_model_snoc(s1, (n - 1) as nat);
        assert(forward_model(s, n + 1) == forward_model(s1, n));
        assert((n - 1) as nat + 1 == n);
        assert(forward_model(s1, n) == enqueue_model(forward_model(s1, (n - 1) as nat), empty_seal_cmd()));
        assert(forward_model(s1, (n - 1) as nat) == forward_model(s, n));
    }
}

/// The control surface: the externally reachable operations. Each one
/// translates its request into command-queue traffic and returns the
/// correlated result, except the revert operation, which goes to the
/// backend directly.
impl ManualSeal {
    /// Allocate a fresh seal reply slot and enqueue a seal command naming
    /// it, suspending on backpressure. Returns the slot, to be awaited with
    /// [`Self::take_seal_reply`] once the task ran, or walked away from
    /// with [`Self::abandon_seal_reply`].
    pub fn submit_create_block(
        &mut self,
        create_empty: bool,
        finalize: bool,
        parent_hash: Option<BlockHash>,
    ) -> (t: usize)
        requires
            wf(old(self)@),
        ensures
            wf(final(self)@),
            t == old(self)@.seal_slots.len(),
            final(self)@ == enqueue_model(
                with_new_seal_slot(old(self)@),
                CommandModel::Seal {
                    create_empty,
                    finalize,
                    parent_hash,
                    sender: Some(t as int),
                },
            ),
    {
        let ghost s0 = self@;
        let t = self.seal_slots.len();
        self.seal_slots.push(ReplySlot::Waiting);
        let ghost mid = self@;
        proof {
            assert(mid =~= with_new_seal_slot(s0));
            assert forall|i: int| 0 <= i < mid.queue.len() implies cmd_senders_wf(
                #[trigger] mid.queue[i],
                mid.seal_slots.len() as int,
                mid.finalize_slots.len() as int,
            ) by {
                assert(cmd_senders_wf(
                    s0.queue[i],
                    s0.seal_slots.len() as int,
                    s0.finalize_slots.len() as int,
                ));
            }
            assert(wf(mid));
        }
        if self.queue.len() >= self.capacity {
            let _ = self.run_one();
        }
        let ghost before_push = self@;
        let cmd = EngineCommand::SealNewBlock {
            create_empty,
            finalize,
            parent_hash,
            sender: Some(t),
        };
        self.queue.push(cmd);
        proof {
            let ghost cm = CommandModel::Seal {
                create_empty,
                finalize,
                parent_hash,
                sender: Some(t as int),
            };
            assert(cmd@ == cm);
            assert(self@.queue =~= before_push.queue.push(cm));
            assert(self@ =~= enqueue_model(mid, cm));
            assert forall|i: int| 0 <= i < self@.queue.len() implies cmd_senders_wf(
                #[trigger] self@.queue[i],
                self@.seal_slots.len() as int,
                self@.finalize_slots.len() as int,
            ) by {
                if i < self@.queue.len() - 1 {
                    assert(self@.queue[i] == before_push.queue[i]);
                    assert(cmd_senders_wf(
                        before_push.queue[i],
                        before_push.seal_slots.len() as int,
                        before_push.finalize_slots.len() as int,
                    ));
                } else {
                    assert(self@.queue[i] == cm);
                }
            }
            assert(wf(self@));
        }
        t
    }

    /// Allocate a fresh finalize reply slot and enqueue a finalize command
    /// naming it, suspending on backpressure. Returns the slot.
    pub fn submit_finalize_block(
        &mut self,
        hash: BlockHash,
        justification: Option<EncodedJustification>,
    ) -> (t: usize)
        requires
            wf(old(self)@),
        ensures
            wf(final(self)@),
            t == old(self)@.finalize_slots.len(),
            final(self)@ == enqueue_model(
                with_new_finalize_slot(old(self)@),
                CommandModel::Finalize {
                    hash,
                    justification: justification_model(justification),
                    sender: Some(t as int),
                },
            ),
    {
        let ghost s0 = self@;
        let t = self.finalize_slots.len();
        self.finalize_slots.push(ReplySlot::Waiting);
        let ghost mid = self@;
        proof {
            assert(mid =~= with_new_finalize_slot(s0));
            assert forall|i: int| 0 <= i < mid.queue.len() implies cmd_senders_wf(
                #[trigger] mid.queue[i],
                mid.seal_slots.len() as int,
                mid.finalize_slots.len() as int,
            ) by {
                assert(cmd_senders_wf(
                    s0.queue[i],
                    s0.seal_slots.len() as int,
                    s0.finalize_slots.len() as int,
                ));
            }
            assert(wf(mid));
        }
        if self.queue.len() >= self.capacity {
            let _ = self.run_one();
        }
        let ghost before_push = self@;
        let ghost cm = CommandModel::Finalize {
            hash,
            justification: justification_model(justification),
            sender: Some(t as int),
        };
        let cmd = EngineCommand::FinalizeBlock { hash, justification, sender: Some(t) };
        proof {
            assert(cmd@ == cm);
        }
        self.queue.push(cmd);
        proof {
            assert(self@.queue =~= before_push.queue.push(cm));
            assert(self@ =~= enqueue_model(mid, cm));
            assert forall|i: int| 0 <= i < self@.queue.len() implies cmd_senders_wf(
                #[trigger] self@.queue[i],
                self@.seal_slots.len() as int,
                self@.finalize_slots.len() as int,
            ) by {
                if i < self@.queue.len() - 1 {
                    assert(self@.queue[i] == before_push.queue[i]);
                    assert(cmd_senders_wf(
                        before_push.queue[i],
                        before_push.seal_slots.len() as int,
                        before_push.finalize_slots.len() as int,
                    ));
                } else {
                    assert(self@.queue[i] == cm);
                }
            }
            assert(wf(self@));
        }
        t
    }

    /// Read the outcome delivered to a seal reply slot. The value is handed
    /// out once; an undelivered slot reads as `None` and stays as it is.
    pub fn take_seal_reply(&mut self, t: usize) -> (r: Option<Result<CreatedBlock, Error>>)
        requires
            t < old(self)@.seal_slots.len(),
        ensures
            wf(old(self)@) ==> wf(final(self)@),
            (match old(self)@.seal_slots[t as int] {
                ReplySlot::Delivered(v) => r == Some(v) && final(self)@ == (EngineModel {
                    seal_slots: old(self)@.seal_slots.update(t as int, ReplySlot::Taken),
                    ..old(self)@
                }),
                _ => r is None && final(self)@ == old(self)@,
            }),
    {
        let cur = self.seal_slots[t];
        match cur {
            ReplySlot::Delivered(v) => {
                self.seal_slots[t] = ReplySlot::Taken;
                proof {
                    assert(self@ =~= (EngineModel {
                        seal_slots: old(self)@.seal_slots.update(t as int, ReplySlot::Taken),
                        ..old(self)@
                    }));
                }
                Some(v)
            },
            _ => None,
        }
    }

    /// Walk away from a seal reply slot: a later write to it becomes a
    /// no-op, never an error.
    pub fn abandon_seal_reply(&mut self, t: usize)
        requires
            t < old(self)@.seal_slots.len(),
        ensures
            wf(old(self)@) ==> wf(final(self)@),
            final(self)@ == (EngineModel {
                seal_slots: old(self)@.seal_slots.update(t as int, ReplySlot::Abandoned),
                ..old(self)@
            }),
    {
        self.seal_slots[t] = ReplySlot::Abandoned;
        proof {
            assert(self@ =~= (EngineModel {
                seal_slots: old(self)@.seal_slots.update(t as int, ReplySlot::Abandoned),
                ..old(self)@
            }));
        }
    }

    /// Read the outcome delivered to a finalize reply slot. The value is
    /// handed out once; an undelivered slot reads as `None` and stays as it
    /// is.
    pub fn take_finalize_reply(&mut self, t: usize) -> (r: Option<Result<(), Error>>)
        requires
            t < old(self)@.finalize_slots.len(),
        ensures
            wf(old(self)@) ==> wf(final(self)@),
            (match old(self)@.finalize_slots[t as int] {
                ReplySlot::Delivered(v) => r == Some(v) && final(self)@ == (EngineModel {
                    finalize_slots: old(self)@.finalize_slots.update(t as int, ReplySlot::Taken),
                    ..old(self)@
                }),
                _ => r is None && final(self)@ == old(self)@,
            }),
    {
        let cur = self.finalize_slots[t];
        match cur {
            ReplySlot::Delivered(v) => {
                self.finalize_slots[t] = ReplySlot::Taken;
                proof {
                    assert(self@ =~= (EngineModel {
                        finalize_slots: old(self)@.finalize_slots.update(
                            t as int,
                            ReplySlot::Taken,
                        ),
                        ..old(self)@
                    }));
                }
                Some(v)
            },
            _ => None,
        }
    }

    /// Walk away from a finalize reply slot: a later write to it becomes a
    /// no-op, never an error.
    pub fn abandon_finalize_reply(&mut self, t: usize)
        requires
            t < old(self)@.finalize_slots.len(),
        ensures
            wf(old(self)@) ==> wf(final(self)@),
            final(self)@ == (EngineModel {
                finalize_slots: old(self)@.finalize_slots.update(t as int, ReplySlot::Abandoned),
                ..old(self)@
            }),
    {
        self.finalize_slots[t] = ReplySlot::Abandoned;
        proof {
            assert(self@ =~= (EngineModel {
                finalize_slots: old(self)@.finalize_slots.update(t as int, ReplySlot::Abandoned),
                ..old(self)@
            }));
        }
    }
}

/// The four public engine operations.
impl ManualSeal {
    /// Instruct the authorship task to create a new block and await the
    /// outcome: the command takes its place at the back of the queue, every
    /// older command is processed first, and the reply arrives through a
    /// fresh one-shot slot. With `create_empty` unset the request fails on
    /// an empty transaction pool without touching the chain; on success the
    /// best height advances by exactly one block.
    pub fn create_block(
        &mut self,
        create_empty: bool,
        finalize: bool,
        parent_hash: Option<BlockHash>,
    ) -> (r: Result<CreatedBlock, Error>)
        requires
            wf(old(self)@),
        ensures
            wf(final(self)@),
            final(self)@.queue.len() == 0,
            ({
                let sd = drain_model(with_new_seal_slot(old(self)@));
                let t = old(self)@.seal_slots.len() as int;
                let c = CommandModel::Seal { create_empty, finalize, parent_hash, sender: (Some(t)) };
                let x = step(with_queue(sd, seq![c]));
                r == seal_outcome(sd, create_empty, parent_hash) && final(self)@ == (EngineModel {
                    seal_slots: x.seal_slots.update(t, ReplySlot::Taken),
                    ..x
                })
            }),
            ({
                let s0 = old(self)@;
                let sf = final(self)@;
                (s0.queue.len() == 0 && !create_empty && s0.pending == 0) ==> (r == Err::<
                    CreatedBlock,
                    Error,
                >(Error::EmptyTransactionPool) && sf.chain == s0.chain)
            }),
            ({
                let s0 = old(self)@;
                let sf = final(self)@;
                (s0.queue.len() == 0 && create_empty && parent_hash is None
                    && !proposer_exhausted(s0)) ==> (r matches Ok(cb) && cb.hash == s0.next_hash
                    && sf.chain.best_hash() == s0.next_hash && sf.chain.blocks
                    == s0.chain.blocks.push(s0.next_hash) && sf.chain.best_height()
                    == s0.chain.best_height() + 1)
            }),
    {
        let ghost s0 = self@;
        let t = self.submit_create_block(create_empty, finalize, parent_hash);
        let ghost mid = with_new_seal_slot(s0);
        let ghost cm = CommandModel::Seal {
            create_empty,
            finalize,
            parent_hash,
            sender: Some(t as int),
        };
        self.run_until_idle();
        let ghost sd = drain_model(mid);
        let ghost slast = with_queue(sd, seq![cm]);
        let ghost x = step(slast);
        proof {
            lemma_enqueue_drain(mid, cm);
            assert(mid.queue.push(cm) =~= mid.queue + seq![cm]);
            assert(with_queue(mid, mid.queue.push(cm)) =~= with_queue(mid, mid.queue + seq![cm]));
            lemma_drain_append(mid, seq![cm]);
            assert(self@ == drain_model(slast));
            assert(slast.queue.len() == 1);
            assert(drain_model(slast) == drain_model(x));
            assert(x.queue =~= Seq::<CommandModel>::empty());
            assert(drain_model(x) == x);
            assert(self@ == x);
            assert(no_seal_ref(mid.queue, t as int)) by {
                assert forall|i: int| 0 <= i < mid.queue.len() implies !seal_ref(
                    #[trigger] mid.queue[i],
                    t as int,
                ) by {
                    assert(cmd_senders_wf(
                        s0.queue[i],
                        s0.seal_slots.len() as int,
                        s0.finalize_slots.len() as int,
                    ));
                }
            }
            lemma_drain_preserves_seal_slot(mid, t as int);
            assert(mid.seal_slots[t as int] == ReplySlot::<Result<CreatedBlock, Error>>::Waiting);
            assert(x.seal_slots == deliver_to(
                sd.seal_slots,
                Some(t as int),
                seal_outcome(sd, create_empty, parent_hash),
            ));
            assert(x.seal_slots[t as int] == ReplySlot::Delivered(
                seal_outcome(sd, create_empty, parent_hash),
            ));
        }
        let out = self.take_seal_reply(t);
        proof {
            assert(out == Some(seal_outcome(sd, create_empty, parent_hash)));
            if s0.queue.len() == 0 {
                assert(mid.queue =~= Seq::<CommandModel>::empty());
                assert(sd == mid);
                if create_empty && parent_hash is None && !proposer_exhausted(s0) {
                    let p = resolve_parent(mid, parent_hash);
                    assert(p == mid.chain.best_hash());
                    if mid.chain.blocks.len() > 0 {
                        assert(mid.chain.blocks[mid.chain.blocks.len() - 1] == p);
                        assert(mid.chain.blocks.contains(p));
                    }
                    assert(mid.chain.contains_hash(p));
                    assert(!mid.chain.blocks.contains(mid.next_hash)) by {
                        if mid.chain.blocks.contains(mid.next_hash) {
                            let i = choose|i: int|
                                0 <= i < mid.chain.blocks.len() && mid.chain.blocks[i]
                                    == mid.next_hash;
                            assert(s0.chain.blocks[i] < s0.next_hash);
                        }
                    }
                    assert(seal_outcome(mid, create_empty, parent_hash) matches Ok(cb) && cb.hash
                        == s0.next_hash);
                    assert(x.chain.blocks == s0.chain.blocks.push(s0.next_hash));
                    assert(x.chain.best_hash() == s0.next_hash);
                }
            }
        }
        out.unwrap()
    }

    /// Instruct the authorship task to finalize the block with the supplied
    /// hash and await the outcome, as a boolean success indicator. A hash
    /// not yet imported reports failure and moves nothing.
    pub fn finalize_block(
        &mut self,
        hash: BlockHash,
        justification: Option<EncodedJustification>,
    ) -> (r: bool)
        requires
            wf(old(self)@),
        ensures
            wf(final(self)@),
            final(self)@.queue.len() == 0,
            ({
                let sd = drain_model(with_new_finalize_slot(old(self)@));
                let t = old(self)@.finalize_slots.len() as int;
                let c = CommandModel::Finalize {
                    hash,
                    justification: justification_model(justification),
                    sender: (Some(t)),
                };
                let x = step(with_queue(sd, seq![c]));
                r == (finalize_outcome(sd.chain, hash) is Ok) && final(self)@ == (EngineModel {
                    finalize_slots: x.finalize_slots.update(t, ReplySlot::Taken),
                    ..x
                })
            }),
            (old(self)@.queue.len() == 0 && old(self)@.chain.height_of(hash) is None) ==> (r
                == false && final(self)@.chain == old(self)@.chain),
    {
        let ghost s0 = self@;
        let t = self.submit_finalize_block(hash, justification);
        let ghost mid = with_new_finalize_slot(s0);
        let ghost cm = CommandModel::Finalize {
            hash,
            justification: justification_model(justification),
            sender: Some(t as int),
        };
        self.run_until_idle();
        let ghost sd = drain_model(mid);
        let ghost slast = with_queue(sd, seq![cm]);
        let ghost x = step(slast);
        proof {
            lemma_enqueue_drain(mid, cm);
            assert(mid.queue.push(cm) =~= mid.queue + seq![cm]);
            assert(with_queue(mid, mid.queue.push(cm)) =~= with_queue(mid, mid.queue + seq![cm]));
            lemma_drain_append(mid, seq![cm]);
            assert(self@ == drain_model(slast));
            assert(slast.queue.len() == 1);
            assert(drain_model(slast) == drain_model(x));
            assert(x.queue =~= Seq::<CommandModel>::empty());
            assert(drain_model(x) == x);
            assert(self@ == x);
            assert(no_finalize_ref(mid.queue, t as int)) by {
                assert forall|i: int| 0 <= i < mid.queue.len() implies !finalize_ref(
                    #[trigger] mid.queue[i],
                    t as int,
                ) by {
                    assert(cmd_senders_wf(
                        s0.queue[i],
                        s0.seal_slots.len() as int,
                        s0.finalize_slots.len() as int,
                    ));
                }
            }
            lemma_drain_preserves_finalize_slot(mid, t as int);
            assert(mid.finalize_slots[t as int] == ReplySlot::<Result<(), Error>>::Waiting);
            assert(x.finalize_slots == deliver_to(
                sd.finalize_slots,
                Some(t as int),
                finalize_outcome(sd.chain, hash),
            ));
            assert(x.finalize_slots[t as int] == ReplySlot::Delivered(
                finalize_outcome(sd.chain, hash),
            ));
            if s0.queue.len() == 0 {
                assert(mid.queue =~= Seq::<CommandModel>::empty());
                assert(sd == mid);
            }
        }
        let out = self.take_finalize_reply(t);
        match out.unwrap() {
            Ok(()) => true,
            Err(_) => false,
        }
    }

    /// Fill the chain up to `height` with empty blocks: enqueue exactly
    /// `height - best` fire-and-forget seal commands in one ordered burst
    /// and return once all are accepted (not once they are processed). A
    /// target at or below the current best height is rejected outright,
    /// with nothing enqueued.
    pub fn forward_blocks_to(&mut self, height: BlockNumber) -> (r: Result<(), Error>)
        requires
            wf(old(self)@),
        ensures
            wf(final(self)@),
            height <= old(self)@.chain.best_height() ==> (r == Err::<(), Error>(
                Error::InvalidHeightRequest,
            ) && final(self)@ == old(self)@),
            height > old(self)@.chain.best_height() ==> (r is Ok && final(self)@ == forward_model(
                old(self)@,
                (height - old(self)@.chain.best_height()) as nat,
            )),
    {
        let best = self.chain.best_height();
        if height <= best {
            return Err(Error::InvalidHeightRequest);
        }
        let diff = height - best;
        let mut i: u64 = 0;
        while i < diff
            invariant
                wf(self@),
                i <= diff,
                self@ == forward_model(old(self)@, i as nat),
            decreases diff - i,
        {
            let ghost prev = self@;
            if self.queue.len() >= self.capacity {
                let _ = self.run_one();
            }
            let ghost before_push = self@;
            self.queue.push(
                EngineCommand::SealNewBlock {
                    create_empty: true,
                    finalize: false,
                    parent_hash: None,
                    sender: None,
                },
            );
            proof {
                assert(self@.queue =~= before_push.queue.push(empty_seal_cmd()));
                assert(self@ =~= enqueue_model(prev, empty_seal_cmd()));
                lemma_forward_model_snoc(old(self)@, i as nat);
                assert(self@ == forward_model(old(self)@, i as nat + 1));
                assert forall|k: int| 0 <= k < self@.queue.len() implies cmd_senders_wf(
                    #[trigger] self@.queue[k],
                    self@.seal_slots.len() as int,
                    self@.finalize_slots.len() as int,
                ) by {
                    if k < self@.queue.len() - 1 {
                        assert(self@.queue[k] == before_push.queue[k]);
                        assert(cmd_senders_wf(
                            before_push.queue[k],
                            before_push.seal_slots.len() as int,
                            before_push.finalize_slots.len() as int,
                        ));
                    } else {
                        assert(self@.queue[k] == empty_seal_cmd());
                    }
                }
                assert(wf(self@));
            }
            i = i + 1;
        }
        Ok(())
    }

    /// Roll the chain back to `height`: invoke the backend's revert
    /// operation for `best - height` blocks directly, bypassing the command
    /// queue. A target at or above the current best height is rejected
    /// outright; a target below the finalized height makes the backend
    /// refuse, since finalization is irreversible. Commands already queued
    /// are untouched and will run against the shortened chain.
    pub fn revert_blocks_to(&mut self, height: BlockNumber) -> (r: Result<(), Error>)
        requires
            wf(old(self)@),
        ensures
            wf(final(self)@),
            height >= old(self)@.chain.best_height() ==> (r == Err::<(), Error>(
                Error::InvalidHeightRequest,
            ) && final(self)@ == old(self)@),
            (height < old(self)@.chain.best_height() && height >= old(self)@.chain.finalized)
                ==> (r is Ok && final(self)@ == (EngineModel {
                chain: (ChainModel {
                    blocks: old(self)@.chain.blocks.subrange(0, height as int),
                    finalized: old(self)@.chain.finalized,
                }),
                ..old(self)@
            })),
            (height < old(self)@.chain.finalized) ==> (r == Err::<(), Error>(
                Error::BackendRevertFailed,
            ) && final(self)@ == old(self)@),
    {
        let best = self.chain.best_height();
        if height >= best {
            return Err(Error::InvalidHeightRequest);
        }
        let diff = best - height;
        match self.chain.revert(diff) {
            Ok(_) => {
                proof {
                    assert(self@.chain.blocks =~= old(self)@.chain.blocks.subrange(
                        0,
                        height as int,
                    ));
                    assert(self@ =~= (EngineModel {
                        chain: (ChainModel {
                            blocks: old(self)@.chain.blocks.subrange(0, height as int),
                            finalized: old(self)@.chain.finalized,
                        }),
                        ..old(self)@
                    }));
                    assert forall|k: int| 0 <= k < self@.chain.blocks.len() implies #[trigger] self@.chain.blocks[k]
                        < self@.next_hash by {
                        assert(self@.chain.blocks[k] == old(self)@.chain.blocks[k]);
                    }
                    assert(wf(self@));
                }
                Ok(())
            },
            Err(()) => Err(Error::BackendRevertFailed),
        }
    }
}

} // verus!
