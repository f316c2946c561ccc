//! The append-only ledger: a hash chain of blocks, a FIFO mempool of
//! pending transactions, and the proof-of-work search that seals a batch
//! of them into a new block.

use vstd::prelude::*;
use vstd::string::{StringExecFns, StrSliceExecFns};
use crate::block::Block;
use crate::clock::now_rfc3339;
use crate::hashing::{sha256_digest, sha256_of};
use crate::hexstr::hex_text_of;
use crate::numfmt::{dec_str_of, u64_to_string};
use crate::transaction::{transactions_text, transactions_text_of, Transaction};

verus! {

/// The text a block's hash commits to: index, previous hash, timestamp,
/// the concatenated transaction texts, and the nonce, in that order.
pub open spec fn block_text_of(
    index: nat,
    previous_hash: Seq<char>,
    timestamp: Seq<char>,
    txs: Seq<Transaction>,
    nonce: nat,
) -> Seq<char> {
    dec_str_of(index) + previous_hash + timestamp + transactions_text_of(txs) + dec_str_of(nonce)
}

/// A block's hex-encoded hash: SHA-256 over the block text.
pub open spec fn block_hash_text_of(
    index: nat,
    previous_hash: Seq<char>,
    timestamp: Seq<char>,
    txs: Seq<Transaction>,
    nonce: nat,
) -> Seq<char> {
    hex_text_of(sha256_of(block_text_of(index, previous_hash, timestamp, txs, nonce)))
}

/// The difficulty predicate: at least `d` leading `'0'` characters.
pub open spec fn meets_difficulty_spec(s: Seq<char>, d: nat) -> bool {
    d <= s.len() && (forall|i: int| 0 <= i < d ==> #[trigger] s[i] == '0')
}

/// Checks the difficulty predicate on a hex-encoded hash.
pub fn meets_difficulty(s: &str, difficulty: u64) -> (r: bool)
    ensures
        r == meets_difficulty_spec(s@, difficulty as nat),
{
    let len = s.unicode_len();
    if difficulty > len as u64 {
        return false;
    }
    let d = difficulty as usize;
    let mut i: usize = 0;
    while i < d
        invariant
            i <= d,
            d == difficulty,
            d <= s@.len(),
            forall|j: int| 0 <= j < i ==> #[trigger] s@[j] == '0',
        decreases d - i,
    {
        if s.get_char(i) != '0' {
            return false;
        }
        i = i + 1;
    }
    true
}

/// What a successful mining step does to the ledger: exactly one block is
/// appended, linked to the previous last block's hash, carrying the whole
/// mempool in order, sealed by a hash that recomputes from its own fields
/// and meets the difficulty; the mempool is cleared, the difficulty kept,
/// and the new hash is returned.
pub open spec fn mine_appended(pre: Blockchain, post: Blockchain, r: Seq<char>) -> bool {
    &&& post.chain@ == pre.chain@.push(post.chain@.last())
    &&& post.chain@.last().index == pre.chain@.len()
    &&& post.chain@.last().previous_hash@ == pre.chain@.last().hash@
    &&& post.chain@.last().tx@ == pre.mempool@
    &&& post.chain@.last().hash@ == block_hash_text_of(
        post.chain@.last().index as nat,
        post.chain@.last().previous_hash@,
        post.chain@.last().timestamp@,
        post.chain@.last().tx@,
        post.chain@.last().nonce as nat,
    )
    &&& meets_difficulty_spec(post.chain@.last().hash@, post.difficulty as nat)
    &&& post.mempool@.len() == 0
    &&& post.difficulty == pre.difficulty
    &&& r == post.chain@.last().hash@
}

/// A well-linked chain: every block sits at the index it names, and every
/// block after genesis names the hash of the block before it.
pub open spec fn chain_linked(chain: Seq<Block>) -> bool {
    &&& forall|i: int| 0 <= i < chain.len() ==> (#[trigger] chain[i].index) == i
    &&& forall|i: int|
        1 <= i < chain.len() ==> (#[trigger] chain[i].previous_hash@) == chain[i - 1].hash@
}

/// Mining keeps the chain well-linked: the appended block continues the
/// hash chain, so any later tampering with an earlier block breaks a link.
pub proof fn lemma_mine_preserves_chain_links(pre: Blockchain, post: Blockchain, r: Seq<char>)
    requires
        pre.chain@.len() >= 1,
        chain_linked(pre.chain@),
        mine_appended(pre, post, r),
    ensures
        chain_linked(post.chain@),
{
    let n = pre.chain@.len() as int;
    assert forall|i: int| 0 <= i < post.chain@.len() implies (#[trigger] post.chain@[i].index)
        == i by {
        if i < n {
            assert(post.chain@[i] == pre.chain@[i]);
        }
    }
    assert forall|i: int| 1 <= i < post.chain@.len() implies (
    #[trigger] post.chain@[i].previous_hash@) == post.chain@[i - 1].hash@ by {
        if i < n {
            assert(post.chain@[i] == pre.chain@[i]);
            assert(post.chain@[i - 1] == pre.chain@[i - 1]);
        } else {
            assert(post.chain@[i - 1] == pre.chain@[n - 1]);
        }
    }
}

/// The ledger. The chain is never empty once built (genesis is present),
/// and only `mine_block` ever appends proof-of-work-sealed blocks; the
/// difficulty is fixed at construction.
#[derive(Clone, Debug)]
pub struct Blockchain {
    pub chain: Vec<Block>,
    pub mempool: Vec<Transaction>,
    pub difficulty: u64,
}

impl Blockchain {
    /// Builds the genesis block — index 0, sentinel previous hash and hash
    /// `"0"`, no transactions, nonce 0, not proof-of-work-sealed — and an
    /// empty mempool.
    pub fn new(difficulty: u64) -> (r: Blockchain)
        ensures
            r.chain@.len() == 1,
            r.chain@[0].index == 0,
            r.chain@[0].previous_hash@ == "0"@,
            r.chain@[0].tx@.len() == 0,
            r.chain@[0].nonce == 0,
            r.chain@[0].hash@ == "0"@,
            r.mempool@.len() == 0,
            r.difficulty == difficulty,
    {
        let timestamp = now_rfc3339();
        let genesis_block = Block::new(0, "0".to_owned(), timestamp, Vec::new(), 0, "0".to_owned());
        let mut chain: Vec<Block> = Vec::new();
        chain.push(genesis_block);
        Blockchain { chain, mempool: Vec::new(), difficulty }
    }

    /// Appends an already-built block; the chain is strictly append-only.
    pub fn add_block(&mut self, block: Block)
        ensures
            final(self).chain@ == old(self).chain@.push(block),
            final(self).mempool == old(self).mempool,
            final(self).difficulty == old(self).difficulty,
    {
        self.chain.push(block);
    }

    pub fn get_blocks(&self) -> (r: &Vec<Block>)
        ensures
            r@ == self.chain@,
    {
        &self.chain
    }

    /// Admits a transaction to the mempool unconditionally: signature
    /// verification is the caller's duty, before this call.
    pub fn add_transaction(&mut self, tx: Transaction)
        ensures
            final(self).mempool@ == old(self).mempool@.push(tx),
            final(self).chain == old(self).chain,
            final(self).difficulty == old(self).difficulty,
    {
        self.mempool.push(tx);
    }

    /// Seals the pending transactions into a new block and returns its
    /// hash, or reports the no-op on an empty mempool without touching any
    /// state. On success the chain grows by exactly one block, linked to
    /// the previous last block's hash, and the mempool is cleared. Should
    /// the whole nonce space hold no winning nonce — unreachable in any
    /// feasible run — the ledger is left unchanged as well.
    pub fn mine_block(&mut self) -> (r: String)
        requires
            old(self).chain@.len() >= 1,
        ensures
            old(self).mempool@.len() == 0 ==> *final(self) == *old(self) && r@
                == "No transactions to mine."@,
            old(self).mempool@.len() > 0 ==> mine_appended(*old(self), *final(self), r@) || (
            *final(self) == *old(self) && r@ == "No nonce satisfies the difficulty."@),
    {
        if self.mempool.len() == 0 {
            return "No transactions to mine.".to_owned();
        }
        let index = self.chain.len() as u64;
        let previous_hash = self.chain[self.chain.len() - 1].hash.clone();
        let timestamp = now_rfc3339();

        let found = self.find_nonce(
            index,
            previous_hash.as_str(),
            timestamp.as_str(),
            self.mempool.as_slice(),
        );
        match found {
            Some((nonce, hash)) => {
                let mut tx: Vec<Transaction> = Vec::new();
                core::mem::swap(&mut tx, &mut self.mempool);
                let mined_hash = hash.clone();
                let new_block = Block::new(index, previous_hash, timestamp, tx, nonce, hash);
                self.add_block(new_block);
                mined_hash
            },
            None => "No nonce satisfies the difficulty.".to_owned(),
        }
    }

    /// Computes the hex-encoded SHA-256 digest of the block text formed
    /// from the given fields. Deterministic: the same fields always give
    /// the same hash.
    pub fn calculate_hash(
        &self,
        index: u64,
        previous_hash: &str,
        timestamp: String,
        tx: &[Transaction],
        nonce: u64,
    ) -> (r: String)
        ensures
            r@ == block_hash_text_of(
                index as nat,
                previous_hash@,
                timestamp@,
                tx@,
                nonce as nat,
            ),
    {
        let mut block_text = u64_to_string(index);
        block_text.append(previous_hash);
        block_text.append(timestamp.as_str());
        let tx_text = transactions_text(tx);
        block_text.append(tx_text.as_str());
        let nonce_text = u64_to_string(nonce);
        block_text.append(nonce_text.as_str());
        proof {
            assert(block_text@ =~= block_text_of(
                index as nat,
                previous_hash@,
                timestamp@,
                tx@,
                nonce as nat,
            ));
        }
        let digest = sha256_digest(block_text.as_str());
        crate::hexstr::hex_encode(&digest)
    }

    /// The proof-of-work search itself: starting at nonce 0, hashes the
    /// block text and retries with the next nonce until the hash meets
    /// the difficulty, walking the whole nonce space if it must.
    fn find_nonce(
        &self,
        index: u64,
        previous_hash: &str,
        timestamp: &str,
        tx: &[Transaction],
    ) -> (r: Option<(u64, String)>)
        ensures
            r is Some ==> r.unwrap().1@ == block_hash_text_of(
                index as nat,
                previous_hash@,
                timestamp@,
                tx@,
                r.unwrap().0 as nat,
            ) && meets_difficulty_spec(r.unwrap().1@, self.difficulty as nat),
            r is None ==> forall|n: u64|
                !meets_difficulty_spec(
                    #[trigger] block_hash_text_of(
                        index as nat,
                        previous_hash@,
                        timestamp@,
                        tx@,
                        n as nat,
                    ),
                    self.difficulty as nat,
                ),
    {
        let mut nonce: u64 = 0;
        loop
            invariant
                forall|n: u64|
                    n < nonce ==> !meets_difficulty_spec(
                        #[trigger] block_hash_text_of(
                            index as nat,
                            previous_hash@,
                            timestamp@,
                            tx@,
                            n as nat,
                        ),
                        self.difficulty as nat,
                    ),
            decreases u64::MAX - nonce,
        {
            let hash = self.calculate_hash(index, previous_hash, timestamp.to_owned(), tx, nonce);
            if meets_difficulty(hash.as_str(), self.difficulty) {
                return Some((nonce, hash));
            }
            if nonce == u64::MAX {
                return None;
            }
            nonce = nonce + 1;
        }
    }

    /// Runs the proof-of-work search and seals the result: the returned
    /// block carries exactly the given fields, the winning nonce, and a
    /// hash that recomputes from them and meets the difficulty. `None`
    /// only if no nonce at all satisfies the difficulty — unreachable in
    /// any feasible run, but the nonce is a machine word, so the search
    /// is exhaustive rather than endless.
    pub fn hash_block(
        &self,
        index: u64,
        previous_hash: String,
        timestamp: String,
        tx: Vec<Transaction>,
    ) -> (r: Option<Block>)
        ensures
            r is Some ==> {
                &&& r.unwrap().index == index
                &&& r.unwrap().previous_hash == previous_hash
                &&& r.unwrap().timestamp == timestamp
                &&& r.unwrap().tx == tx
                &&& r.unwrap().hash@ == block_hash_text_of(
                    index as nat,
                    previous_hash@,
                    timestamp@,
                    tx@,
                    r.unwrap().nonce as nat,
                )
                &&& meets_difficulty_spec(r.unwrap().hash@, self.difficulty as nat)
            },
            r is None ==> forall|n: u64|
                !meets_difficulty_spec(
                    #[trigger] block_hash_text_of(
                        index as nat,
                        previous_hash@,
                        timestamp@,
                        tx@,
                        n as nat,
                    ),
                    self.difficulty as nat,
                ),
    {
        match self.find_nonce(index, previous_hash.as_str(), timestamp.as_str(), tx.as_slice()) {
            Some((nonce, hash)) => Some(
                Block::new(index, previous_hash, timestamp, tx, nonce, hash),
            ),
            None => None,
        }
    }

    pub fn get_chain(&self) -> (r: &Vec<Block>)
        ensures
            r@ == self.chain@,
    {
        &self.chain
    }
}

} // verus!
