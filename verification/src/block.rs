//! Blocks and the proof-of-work mining loop: a block's content digest is
//! recomputed under varying nonces until it shows the demanded number of
//! leading zero digits, or a bounded-effort escape accepts the last digest.

use vstd::prelude::*;

use crate::digest::sha256_of;
use crate::digest::sha256_str;
use crate::encoding::dec_of;
use crate::encoding::hex_of;
use crate::encoding::lemma_hex_digit_zero;
use crate::encoding::lemma_hex_of_index;
use crate::encoding::lemma_hex_of_len;
use crate::encoding::to_hex;
use crate::encoding::u64_to_string;

verus! {

/// One record of the ledger. A block is built with an empty `hash` and a zero
/// `nonce`; mining then fills `hash` and settles `nonce`, and the block is
/// never changed again once appended.
#[derive(Debug)]
pub struct Block {
    /// Position in the chain; the genesis block has index 0.
    pub index: u32,
    /// Seconds since the Unix epoch, captured when the block was built.
    pub timestamp: u64,
    /// The text the block carries; unvalidated.
    pub payload: String,
    /// The predecessor's hexadecimal digest; a fixed label on the genesis block.
    pub previous_hash: String,
    /// The block's own hexadecimal digest; empty until mining completes.
    pub hash: String,
    /// The value varied by mining until the digest qualifies.
    pub nonce: u64,
}

/// How a mining pass ended: either the digest met the difficulty target, or
/// the bounded-effort escape accepted a digest that did not.
#[derive(Clone, Copy, Debug, PartialEq, Eq, Structural)]
pub enum MineOutcome {
    Mined,
    Abandoned,
}

/// The text a block is hashed over: its index, predecessor digest, timestamp,
/// payload and nonce, concatenated in that order, integers in decimal.
pub open spec fn preimage_of(
    index: nat,
    previous_hash: Seq<char>,
    timestamp: nat,
    payload: Seq<char>,
    nonce: nat,
) -> Seq<char> {
    dec_of(index) + previous_hash + dec_of(timestamp) + payload + dec_of(nonce)
}

/// The hexadecimal content digest of a block's field tuple under a given
/// nonce: the digit string mining inspects at each attempt.
pub open spec fn attempt_digest(
    index: u32,
    previous_hash: Seq<char>,
    timestamp: u64,
    payload: Seq<char>,
    nonce: u64,
) -> Seq<char> {
    hex_of(
        sha256_of(
            preimage_of(index as nat, previous_hash, timestamp as nat, payload, nonce as nat),
        ),
    )
}

/// The hexadecimal content digest of a block's stored field tuple.
pub open spec fn block_hash_chars(b: Block) -> Seq<char> {
    attempt_digest(b.index, b.previous_hash@, b.timestamp, b.payload@, b.nonce)
}

/// A digest qualifies at difficulty `d` when its first `d` characters all
/// equal the zero digit.
pub open spec fn qualifies(h: Seq<char>, d: nat) -> bool {
    d <= h.len() && (forall|j: int| 0 <= j < d ==> h[j] == '0')
}

/// What a completed mining pass guarantees: only `hash` and `nonce` moved,
/// the nonce advanced by at most `max_attempts`, every nonce passed over
/// failed the difficulty target, the stored hash is the digest of the stored
/// fields, and the outcome tells exactly whether that digest qualifies.
pub open spec fn mine_post(
    pre: Block,
    post: Block,
    outcome: MineOutcome,
    difficulty: usize,
    max_attempts: u64,
) -> bool {
    &&& post.index == pre.index
    &&& post.timestamp == pre.timestamp
    &&& post.payload@ == pre.payload@
    &&& post.previous_hash@ == pre.previous_hash@
    &&& pre.nonce <= post.nonce <= pre.nonce + max_attempts
    &&& post.hash@ == block_hash_chars(post)
    &&& post.hash@.len() == 64
    &&& (forall|m: u64|
        pre.nonce <= m < post.nonce ==> !qualifies(
            attempt_digest(pre.index, pre.previous_hash@, pre.timestamp, pre.payload@, m),
            difficulty as nat,
        ))
    &&& (outcome == MineOutcome::Mined <==> qualifies(post.hash@, difficulty as nat))
    &&& (outcome == MineOutcome::Abandoned ==> post.nonce == pre.nonce + max_attempts)
}

/// Relies on std::time::SystemTime::now and duration_since(UNIX_EPOCH):
/// whole seconds of the wall clock since the Unix epoch. Nothing is promised
/// of the value; the process aborts if the clock reads before the epoch.
#[verifier::external_body]
fn now_unix_seconds() -> u64 {
    std::time::SystemTime::now()
        .duration_since(std::time::UNIX_EPOCH)
        .expect("system clock reads before the Unix epoch")
        .as_secs()
}

/// Decides whether the digest's hexadecimal rendering qualifies at the given
/// difficulty, by inspecting the first `difficulty` nibbles.
fn meets_difficulty(digest: &Vec<u8>, difficulty: usize) -> (r: bool)
    requires
        digest@.len() == 32,
    ensures
        r == qualifies(hex_of(digest@), difficulty as nat),
{
    proof {
        lemma_hex_of_len(digest@);
    }
    if difficulty > 64 {
        return false;
    }
    let mut j: usize = 0;
    while j < difficulty
        invariant
            digest@.len() == 32,
            j <= difficulty <= 64,
            forall|k: int| 0 <= k < j ==> hex_of(digest@)[k] == '0',
        decreases difficulty - j,
    {
        let b = digest[j / 2];
        proof {
            lemma_hex_of_len(digest@);
            lemma_hex_of_index(digest@, (j / 2) as int);
            lemma_hex_digit_zero((b / 16) as nat);
            lemma_hex_digit_zero((b % 16) as nat);
        }
        let nib: u8 = if j % 2 == 0 {
            b / 16
        } else {
            b % 16
        };
        if nib != 0 {
            proof {
                assert(hex_of(digest@)[j as int] != '0');
            }
            return false;
        }
        j = j + 1;
    }
    proof {
        lemma_hex_of_len(digest@);
    }
    true
}

impl Block {
    /// Builds an unmined block from explicit parts: empty hash, zero nonce.
    pub fn with_timestamp(
        index: u32,
        payload: String,
        previous_hash: String,
        timestamp: u64,
    ) -> (b: Block)
        ensures
            b.index == index,
            b.timestamp == timestamp,
            b.payload == payload,
            b.previous_hash == previous_hash,
            b.hash@ == Seq::<char>::empty(),
            b.nonce == 0,
    {
        Block { index, timestamp, payload, previous_hash, hash: String::new(), nonce: 0 }
    }

    /// Builds an unmined block stamped with the current wall-clock time.
    pub fn new(index: u32, payload: String, previous_hash: String) -> (b: Block)
        ensures
            b.index == index,
            b.payload == payload,
            b.previous_hash == previous_hash,
            b.hash@ == Seq::<char>::empty(),
            b.nonce == 0,
    {
        let timestamp = now_unix_seconds();
        Block::with_timestamp(index, payload, previous_hash, timestamp)
    }

    /// The text this block is hashed over.
    fn preimage(&self) -> (s: String)
        ensures
            s@ == preimage_of(
                self.index as nat,
                self.previous_hash@,
                self.timestamp as nat,
                self.payload@,
                self.nonce as nat,
            ),
    {
        let mut s = u64_to_string(self.index as u64);
        s.append(self.previous_hash.as_str());
        let t = u64_to_string(self.timestamp);
        s.append(t.as_str());
        s.append(self.payload.as_str());
        let n = u64_to_string(self.nonce);
        s.append(n.as_str());
        proof {
            assert(s@ =~= preimage_of(
                self.index as nat,
                self.previous_hash@,
                self.timestamp as nat,
                self.payload@,
                self.nonce as nat,
            ));
        }
        s
    }

    /// The hexadecimal content digest of this block's stored field tuple:
    /// a pure function of (index, previous_hash, timestamp, payload, nonce).
    pub fn calculate_hash(&self) -> (r: String)
        ensures
            r@ == block_hash_chars(*self),
            r@.len() == 64,
    {
        let s = self.preimage();
        let digest = sha256_str(s.as_str());
        proof {
            lemma_hex_of_len(digest@);
        }
        to_hex(&digest)
    }

    /// Mines this block: recomputes the content digest under successive
    /// nonces until it qualifies at `difficulty`, or until `max_attempts`
    /// further nonces have been tried, in which case the last digest is
    /// stored anyway and the pass reports `Abandoned`.
    pub fn mine_block(&mut self, difficulty: usize, max_attempts: u64) -> (outcome: MineOutcome)
        requires
            old(self).nonce + max_attempts <= u64::MAX,
        ensures
            mine_post(*old(self), *final(self), outcome, difficulty, max_attempts),
    {
        let ghost pre = *self;
        let mut attempts: u64 = 0;
        loop
            invariant
                pre == *old(self),
                self.index == pre.index,
                self.timestamp == pre.timestamp,
                self.payload@ == pre.payload@,
                self.previous_hash@ == pre.previous_hash@,
                attempts <= max_attempts,
                self.nonce == pre.nonce + attempts,
                pre.nonce + max_attempts <= u64::MAX,
                forall|m: u64|
                    pre.nonce <= m < self.nonce ==> !qualifies(
                        attempt_digest(
                            pre.index,
                            pre.previous_hash@,
                            pre.timestamp,
                            pre.payload@,
                            m,
                        ),
                        difficulty as nat,
                    ),
            decreases max_attempts - attempts,
        {
            let s = self.preimage();
            let digest = sha256_str(s.as_str());
            proof {
                lemma_hex_of_len(digest@);
            }
            let ok = meets_difficulty(&digest, difficulty);
            self.hash = to_hex(&digest);
            if ok {
                return MineOutcome::Mined;
            }
            if attempts == max_attempts {
                return MineOutcome::Abandoned;
            }
            attempts = attempts + 1;
            self.nonce = self.nonce + 1;
        }
    }
}

/// Law: hashing is deterministic. Blocks whose (index, previous_hash,
/// timestamp, payload, nonce) tuples agree have the same content digest, so
/// repeated digest computations over one tuple always return the same string.
pub proof fn lemma_hash_deterministic(a: Block, b: Block)
    requires
        a.index == b.index,
        a.previous_hash@ == b.previous_hash@,
        a.timestamp == b.timestamp,
        a.payload@ == b.payload@,
        a.nonce == b.nonce,
    ensures
        block_hash_chars(a) == block_hash_chars(b),
{
}

/// Law: difficulty satisfaction on success. A mining pass that reports
/// `Mined` left a stored hash with at least `difficulty` leading zero digits.
pub proof fn lemma_mined_meets_difficulty(
    pre: Block,
    post: Block,
    difficulty: usize,
    max_attempts: u64,
)
    requires
        mine_post(pre, post, MineOutcome::Mined, difficulty, max_attempts),
    ensures
        qualifies(post.hash@, difficulty as nat),
        post.hash@.len() >= difficulty,
        forall|j: int| 0 <= j < difficulty ==> post.hash@[j] == '0',
{
}

} // verus!
