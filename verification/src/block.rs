//! A hash-sealed container of transactions. Blocks are immutable once
//! constructed: the mining search creates each one exactly once.

use vstd::prelude::*;
use vstd::string::StringExecFns;
use crate::numfmt::{dec_str_of, u64_to_string};
use crate::transaction::{transactions_text, transactions_text_of, Transaction};

verus! {

/// One sealed block: its position, the previous block's hash (or the
/// genesis sentinel), the timestamp captured when mining started, the
/// ordered batch of transactions, the winning nonce and the sealed hash.
#[derive(Clone, Debug)]
pub struct Block {
    pub index: u64,
    pub previous_hash: String,
    pub timestamp: String,
    pub tx: Vec<Transaction>,
    pub nonce: u64,
    pub hash: String,
}

/// The display text of a block.
pub open spec fn block_display_text_of(b: Block) -> Seq<char> {
    "Block { index: "@ + dec_str_of(b.index as nat) + ", previous_hash: "@ + b.previous_hash@
        + ", timestamp: "@ + b.timestamp@ + ", tx: "@ + transactions_text_of(b.tx@) + ", nonce: "@
        + dec_str_of(b.nonce as nat) + ", hash: "@ + b.hash@ + " }"@
}

impl Block {
    pub fn new(
        index: u64,
        previous_hash: String,
        timestamp: String,
        tx: Vec<Transaction>,
        nonce: u64,
        hash: String,
    ) -> (r: Block)
        ensures
            r.index == index,
            r.previous_hash == previous_hash,
            r.timestamp == timestamp,
            r.tx == tx,
            r.nonce == nonce,
            r.hash == hash,
    {
        Block { index, previous_hash, timestamp, tx, nonce, hash }
    }

    /// Builds the display text of this block.
    pub fn to_string(&self) -> (r: String)
        ensures
            r@ == block_display_text_of(*self),
    {
        let mut s = String::new();
        s.append("Block { index: ");
        let index_text = u64_to_string(self.index);
        s.append(index_text.as_str());
        s.append(", previous_hash: ");
        s.append(self.previous_hash.as_str());
        s.append(", timestamp: ");
        s.append(self.timestamp.as_str());
        s.append(", tx: ");
        let tx_text = transactions_text(self.tx.as_slice());
        s.append(tx_text.as_str());
        s.append(", nonce: ");
        let nonce_text = u64_to_string(self.nonce);
        s.append(nonce_text.as_str());
        s.append(", hash: ");
        s.append(self.hash.as_str());
        s.append(" }");
        proof {
            assert(s@ =~= block_display_text_of(*self));
        }
        s
    }

    pub fn get_previous_hash(&self) -> (r: &String)
        ensures
            r@ == self.previous_hash@,
    {
        &self.previous_hash
    }

    pub fn get_hash(&self) -> (r: &String)
        ensures
            r@ == self.hash@,
    {
        &self.hash
    }
}

} // verus!
