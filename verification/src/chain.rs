//! Model of the chain backend collaborator: it persists blocks, tracks the
//! best and finalized heights, and supports finalize-by-hash and
//! revert-by-count.
//!
//! The model keeps the chain linear: block hashes are opaque non-zero 64-bit
//! identifiers stored in height order, with hash zero reserved for the
//! genesis block at height zero. Finalization is irreversible, so the
//! backend refuses to revert past the finalized height.

use vstd::prelude::*;

verus! {

use crate::BlockHash;
use crate::BlockNumber;

/// Abstract state of the backend: the hashes of the imported non-genesis
/// blocks in height order (`blocks[i]` sits at height `i + 1`), and the
/// finalized height.
pub struct ChainModel {
    pub blocks: Seq<BlockHash>,
    pub finalized: int,
}

impl ChainModel {
    /// Height of the most recently imported block (the genesis block alone
    /// gives height zero).
    pub open spec fn best_height(self) -> int {
        self.blocks.len() as int
    }

    /// Hash of the block at the best height.
    pub open spec fn best_hash(self) -> BlockHash {
        if self.blocks.len() == 0 {
            0u64
        } else {
            self.blocks.last()
        }
    }

    /// Whether a hash is the genesis hash or belongs to an imported block.
    pub open spec fn contains_hash(self, hash: BlockHash) -> bool {
        hash == 0 || self.blocks.contains(hash)
    }

    /// Height of the block carrying `hash`, if it is on the chain.
    pub open spec fn height_of(self, hash: BlockHash) -> Option<int> {
        if hash == 0 {
            Some(0int)
        } else if self.blocks.contains(hash) {
            Some(self.blocks.index_of(hash) + 1)
        } else {
            None
        }
    }

    /// Well-formedness: hashes are distinct and non-zero, and the finalized
    /// height lies on the chain.
    pub open spec fn wf(self) -> bool {
        &&& 0 <= self.finalized <= self.blocks.len()
        &&& forall|i: int, j: int|
            0 <= i < j < self.blocks.len() ==> self.blocks[i] != self.blocks[j]
        &&& forall|i: int| 0 <= i < self.blocks.len() ==> self.blocks[i] != 0
    }
}

/// The chain backend.
pub struct Chain {
    blocks: Vec<BlockHash>,
    finalized: u64,
}

impl View for Chain {
    type V = ChainModel;

    closed spec fn view(&self) -> ChainModel {
        ChainModel { blocks: self.blocks@, finalized: self.finalized as int }
    }
}

impl Chain {
    /// A backend holding only the genesis block, with nothing finalized
    /// beyond it.
    pub fn new() -> (r: Chain)
        ensures
            r@.blocks == Seq::<BlockHash>::empty(),
            r@.finalized == 0,
            r@.wf(),
    {
        Chain { blocks: Vec::new(), finalized: 0 }
    }

    /// Height of the most recently imported block.
    pub fn best_height(&self) -> (r: BlockNumber)
        ensures
            r == self@.best_height(),
    {
        self.blocks.len() as u64
    }

    /// Height up to which the chain is finalized.
    pub fn finalized_height(&self) -> (r: BlockNumber)
        ensures
            r == self@.finalized,
    {
        self.finalized
    }

    /// Hash of the block at the best height.
    pub fn best_hash(&self) -> (r: BlockHash)
        ensures
            r == self@.best_hash(),
    {
        if self.blocks.len() == 0 {
            0
        } else {
            self.blocks[self.blocks.len() - 1]
        }
    }

    /// Whether `hash` is the genesis hash or belongs to an imported block.
    pub fn contains_hash(&self, hash: BlockHash) -> (r: bool)
        ensures
            r == self@.contains_hash(hash),
    {
        if hash == 0 {
            return true;
        }
        let mut i: usize = 0;
        while i < self.blocks.len()
            invariant
                i <= self.blocks.len(),
                forall|k: int| 0 <= k < i ==> self.blocks@[k] != hash,
            decreases self.blocks.len() - i,
        {
            if self.blocks[i] == hash {
                return true;
            }
            i = i + 1;
        }
        false
    }

    /// Height of the block carrying `hash`, if it is on the chain.
    pub fn height_of(&self, hash: BlockHash) -> (r: Option<BlockNumber>)
        requires
            self@.wf(),
        ensures
            match r {
                Some(h) => self@.height_of(hash) == Some(h as int),
                None => self@.height_of(hash) is None,
            },
    {
        if hash == 0 {
            return Some(0);
        }
        let mut i: usize = 0;
        while i < self.blocks.len()
            invariant
                self@.wf(),
                i <= self.blocks.len(),
                forall|k: int| 0 <= k < i ==> self.blocks@[k] != hash,
            decreases self.blocks.len() - i,
        {
            if self.blocks[i] == hash {
                proof {
                    assert(self.blocks@[i as int] == hash);
                    let j = self.blocks@.index_of(hash);
                    assert(self.blocks@[j] == hash);
                    assert(j == i as int);
                }
                return Some((i + 1) as u64);
            }
            i = i + 1;
        }
        proof {
            assert(!self.blocks@.contains(hash));
        }
        None
    }

    /// Commit a freshly proposed block on top of the current best block.
    pub fn push_block(&mut self, hash: BlockHash)
        requires
            old(self)@.wf(),
            hash != 0,
            !old(self)@.blocks.contains(hash),
            old(self)@.blocks.len() < usize::MAX,
        ensures
            final(self)@.blocks == old(self)@.blocks.push(hash),
            final(self)@.finalized == old(self)@.finalized,
            final(self)@.wf(),
    {
        self.blocks.push(hash);
    }

    /// Mark the block carrying `hash` as finalized; every block at or below
    /// it becomes irreversible. Fails if the hash is not on the chain, or if
    /// the block sits below the already finalized height. The justification
    /// blob accompanies the claim; the model keeps no justification data.
    pub fn finalize(&mut self, hash: BlockHash, justification: &Option<Vec<u8>>) -> (r: Result<
        (),
        (),
    >)
        requires
            old(self)@.wf(),
        ensures
            final(self)@.wf(),
            final(self)@.blocks == old(self)@.blocks,
            match old(self)@.height_of(hash) {
                Some(h) => {
                    if h >= old(self)@.finalized {
                        r is Ok && final(self)@.finalized == h
                    } else {
                        r is Err && final(self)@ == old(self)@
                    }
                },
                None => r is Err && final(self)@ == old(self)@,
            },
    {
        let _ = justification;
        match self.height_of(hash) {
            Some(h) => {
                if h >= self.finalized {
                    proof {
                        let oh = self@.height_of(hash);
                        assert(oh == Some(h as int));
                        assert(h as int <= self@.blocks.len()) by {
                            if hash != 0 {
                                let j = self.blocks@.index_of(hash);
                                assert(self.blocks@.contains(hash));
                                assert(0 <= j < self.blocks@.len());
                            }
                        }
                    }
                    self.finalized = h;
                    Ok(())
                } else {
                    Err(())
                }
            },
            None => Err(()),
        }
    }

    /// Remove the `count` most recent blocks, moving the best height
    /// backward. Finalized blocks are irreversible, so the call fails and
    /// leaves the chain unchanged when `count` reaches past the finalized
    /// height; on success it returns the number of blocks reverted.
    pub fn revert(&mut self, count: u64) -> (r: Result<u64, ()>)
        requires
            old(self)@.wf(),
        ensures
            final(self)@.wf(),
            final(self)@.finalized == old(self)@.finalized,
            if count <= old(self)@.blocks.len() - old(self)@.finalized {
                r == Ok::<u64, ()>(count) && final(self)@.blocks == old(self)@.blocks.subrange(
                    0,
                    old(self)@.blocks.len() - count,
                )
            } else {
                r is Err && final(self)@ == old(self)@
            },
    {
        let len = self.blocks.len();
        if count <= (len as u64) - self.finalized {
            let new_len = len - (count as usize);
            self.blocks.truncate(new_len);
            Ok(count)
        } else {
            Err(())
        }
    }
}

/// On a well-formed chain the block pushed last sits at the new best height.
pub proof fn lemma_height_of_last(c: ChainModel)
    requires
        c.wf(),
        c.blocks.len() > 0,
    ensures
        c.height_of(c.best_hash()) == Some(c.blocks.len() as int),
{
    let h = c.best_hash();
    assert(c.blocks[c.blocks.len() - 1] == h);
    assert(c.blocks.contains(h));
    let j = c.blocks.index_of(h);
    assert(c.blocks[j] == h);
    assert(j == c.blocks.len() - 1);
}

} // verus!
