//! The append-only chain of blocks, seeded with a genesis block and grown by
//! mining a candidate against the tip's hash.

use vstd::prelude::*;

use crate::block::attempt_digest;
use crate::block::block_hash_chars;
use crate::block::mine_post;
use crate::block::qualifies;
use crate::block::Block;

verus! {

/// How many leading zero hexadecimal digits a mined digest must show.
pub const DIFFICULTY: usize = 2;

/// How many nonces beyond the starting one a mining pass may try before the
/// bounded-effort escape accepts a non-qualifying digest.
pub const MAX_ATTEMPTS: u64 = 100;

/// The label the genesis block carries in place of a predecessor digest.
pub open spec fn genesis_label() -> Seq<char> {
    "Genesis Block"@
}

/// An append-only ledger: the genesis block, then one block per append, each
/// linked to its predecessor's hash.
pub struct Blockchain {
    /// The blocks, in insertion order; never reordered or shortened.
    pub chain: Vec<Block>,
}

impl Blockchain {
    /// Every block after the genesis block names its predecessor's hash.
    pub open spec fn linked(self) -> bool {
        forall|i: int|
            1 <= i < self.chain@.len() ==> self.chain@[i].previous_hash@ == self.chain@[i
                - 1].hash@
    }

    /// Every block after the genesis block stores the digest of its own
    /// stored field tuple.
    pub open spec fn hashes_match(self) -> bool {
        forall|i: int|
            1 <= i < self.chain@.len() ==> self.chain@[i].hash@ == block_hash_chars(
                self.chain@[i],
            )
    }

    /// The chain invariant: a genesis block of index 0 carrying the sentinel
    /// label sits first; every later block names its predecessor's hash and
    /// stores the digest of its own field tuple.
    pub open spec fn wf(self) -> bool {
        &&& self.chain@.len() >= 1
        &&& self.chain@[0].index == 0
        &&& self.chain@[0].previous_hash@ == genesis_label()
        &&& self.linked()
        &&& self.hashes_match()
    }

    /// Creates a chain holding only the genesis block: index 0, empty
    /// payload, the sentinel label in place of a predecessor digest, an empty
    /// hash and a zero nonce.
    pub fn new() -> (c: Blockchain)
        ensures
            c.wf(),
            c.chain@.len() == 1,
            c.chain@[0].index == 0,
            c.chain@[0].payload@ == Seq::<char>::empty(),
            c.chain@[0].previous_hash@ == genesis_label(),
            c.chain@[0].hash@ == Seq::<char>::empty(),
            c.chain@[0].nonce == 0,
    {
        let genesis = Block::new(0, String::new(), String::from_str("Genesis Block"));
        Blockchain { chain: vec![genesis] }
    }

    /// Mines a candidate onto the tip and appends it: the candidate's
    /// `previous_hash` is overwritten with the tip's hash, the mining loop
    /// runs to completion at `DIFFICULTY` with the `MAX_ATTEMPTS` escape, and
    /// the result is pushed. The prior blocks are untouched, so the chain
    /// grows by exactly one block and its invariant is preserved.
    pub fn add_block(&mut self, new_block: Block)
        requires
            old(self).wf(),
            new_block.nonce + MAX_ATTEMPTS <= u64::MAX,
        ensures
            final(self).wf(),
            final(self).chain@.len() == old(self).chain@.len() + 1,
            forall|i: int|
                0 <= i < old(self).chain@.len() ==> final(self).chain@[i] == old(self).chain@[i],
            final(self).chain@.last().index == new_block.index,
            final(self).chain@.last().timestamp == new_block.timestamp,
            final(self).chain@.last().payload@ == new_block.payload@,
            final(self).chain@.last().previous_hash@ == old(self).chain@.last().hash@,
            final(self).chain@.last().hash@ == block_hash_chars(final(self).chain@.last()),
            final(self).chain@.last().hash@.len() == 64,
            new_block.nonce <= final(self).chain@.last().nonce <= new_block.nonce + MAX_ATTEMPTS,
            forall|m: u64|
                new_block.nonce <= m < final(self).chain@.last().nonce ==> !qualifies(
                    attempt_digest(
                        new_block.index,
                        old(self).chain@.last().hash@,
                        new_block.timestamp,
                        new_block.payload@,
                        m,
                    ),
                    DIFFICULTY as nat,
                ),
            qualifies(final(self).chain@.last().hash@, DIFFICULTY as nat)
                || final(self).chain@.last().nonce == new_block.nonce + MAX_ATTEMPTS,
    {
        let n = self.chain.len();
        let previous_hash = self.chain[n - 1].hash.clone();
        let mut b = new_block;
        b.previous_hash = previous_hash;
        let ghost candidate = b;
        let outcome = b.mine_block(DIFFICULTY, MAX_ATTEMPTS);
        proof {
            assert(mine_post(candidate, b, outcome, DIFFICULTY, MAX_ATTEMPTS));
        }
        self.chain.push(b);
    }

    /// Re-checks the integrity of the stored chain from scratch: every block
    /// after the genesis block must name its predecessor's hash, and
    /// recomputing its digest over its stored fields must reproduce its
    /// stored hash. Appends alone can never break this; the check guards
    /// chains assembled by hand.
    pub fn verify_integrity(&self) -> (r: bool)
        ensures
            r == (self.linked() && self.hashes_match()),
    {
        let n = self.chain.len();
        let mut i: usize = 1;
        while i < n
            invariant
                1 <= i,
                n == self.chain@.len(),
                forall|j: int|
                    1 <= j < i ==> self.chain@[j].previous_hash@ == self.chain@[j - 1].hash@,
                forall|j: int|
                    1 <= j < i ==> self.chain@[j].hash@ == block_hash_chars(self.chain@[j]),
            decreases n - i,
        {
            if !(self.chain[i].previous_hash == self.chain[i - 1].hash) {
                proof {
                    assert(!(self.chain@[i as int].previous_hash@ == self.chain@[i as int
                        - 1].hash@));
                }
                return false;
            }
            let recomputed = self.chain[i].calculate_hash();
            if !(recomputed == self.chain[i].hash) {
                proof {
                    assert(!(self.chain@[i as int].hash@ == block_hash_chars(
                        self.chain@[i as int],
                    )));
                }
                return false;
            }
            i = i + 1;
        }
        true
    }

    /// The number of blocks in the chain, the genesis block included.
    pub fn get_total_blocks(&self) -> (n: usize)
        ensures
            n == self.chain@.len(),
    {
        self.chain.len()
    }
}

/// Law: chain linkage. Under the chain invariant, every block after the
/// genesis block names exactly its predecessor's hash.
pub proof fn lemma_chain_linkage(c: &Blockchain, i: int)
    requires
        c.wf(),
        1 <= i < c.chain@.len(),
    ensures
        c.chain@[i].previous_hash@ == c.chain@[i - 1].hash@,
{
}

/// Law: hash reproducibility. Under the chain invariant, every block after
/// the genesis block stores the digest of exactly its own stored field tuple,
/// so recomputing that digest returns the stored hash — whether the block was
/// mined to the difficulty target or accepted by the bounded-effort escape.
pub proof fn lemma_hash_reproducible(c: &Blockchain, i: int)
    requires
        c.wf(),
        1 <= i < c.chain@.len(),
    ensures
        c.chain@[i].hash@ == block_hash_chars(c.chain@[i]),
{
}

} // verus!
