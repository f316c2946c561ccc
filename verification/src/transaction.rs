//! Value-transfer records and their two textual forms: the display text
//! that feeds block digests, and the canonical `sender|receiver|amount`
//! text that is hashed for signing.

use vstd::prelude::*;
use vstd::string::StringExecFns;

verus! {

/// An immutable value-transfer intent. The amount is kept as its decimal
/// text, which is the only way the ledger's logic ever reads it.
#[derive(Clone, Debug)]
pub struct Transaction {
    pub sender: String,
    pub receiver: String,
    pub amount: String,
}

/// A transaction together with a detached signature and the signer's
/// compressed public key, both hex-encoded. Nothing is guaranteed at
/// construction: validity is checked by `verify_signed_transaction`.
#[derive(Clone, Debug)]
pub struct SignedTransaction {
    pub transaction: Transaction,
    pub public_key: String,
    pub signature: String,
}

/// The canonical text whose digest is signed: `sender|receiver|amount`.
/// This exact concatenation is a wire contract shared by signing and
/// verification; changing it breaks previously issued signatures.
pub open spec fn canonical_text_of(t: Transaction) -> Seq<char> {
    t.sender@ + "|"@ + t.receiver@ + "|"@ + t.amount@
}

/// The display text of a transaction, as embedded in a block's digest input.
pub open spec fn display_text_of(t: Transaction) -> Seq<char> {
    "Transaction { sender: "@ + t.sender@ + ", receiver: "@ + t.receiver@ + ", amount: "@
        + t.amount@ + " }"@
}

/// The concatenated display texts of a batch of transactions, insertion
/// order preserved; this order feeds the block digest, so it matters.
pub open spec fn transactions_text_of(s: Seq<Transaction>) -> Seq<char>
    decreases s.len(),
{
    if s.len() == 0 {
        Seq::<char>::empty()
    } else {
        display_text_of(s.first()) + transactions_text_of(s.drop_first())
    }
}

/// Concatenates the display texts of a batch of transactions.
pub fn transactions_text(txs: &[Transaction]) -> (r: String)
    ensures
        r@ == transactions_text_of(txs@),
{
    let mut s = String::new();
    let mut i: usize = 0;
    proof {
        assert(txs@.skip(0) =~= txs@);
    }
    while i < txs.len()
        invariant
            i <= txs@.len(),
            transactions_text_of(txs@) =~= s@ + transactions_text_of(txs@.skip(i as int)),
        decreases txs@.len() - i,
    {
        let text = txs[i].to_string();
        s.append(text.as_str());
        proof {
            assert(txs@.skip(i as int).first() == txs@[i as int]);
            assert(txs@.skip(i as int).drop_first() =~= txs@.skip(i as int + 1));
        }
        i = i + 1;
    }
    proof {
        assert(transactions_text_of(txs@.skip(i as int)) =~= Seq::<char>::empty());
    }
    s
}

impl Transaction {
    pub fn new(sender: String, receiver: String, amount: String) -> (r: Transaction)
        ensures
            r.sender@ == sender@,
            r.receiver@ == receiver@,
            r.amount@ == amount@,
    {
        Transaction { sender, receiver, amount }
    }

    pub fn get_sender(&self) -> (r: &String)
        ensures
            r@ == self.sender@,
    {
        &self.sender
    }

    pub fn get_receiver(&self) -> (r: &String)
        ensures
            r@ == self.receiver@,
    {
        &self.receiver
    }

    pub fn get_amount(&self) -> (r: &String)
        ensures
            r@ == self.amount@,
    {
        &self.amount
    }

    /// Builds the canonical `sender|receiver|amount` text.
    pub fn canonical_text(&self) -> (r: String)
        ensures
            r@ == canonical_text_of(*self),
    {
        let mut s = String::new();
        s.append(self.sender.as_str());
        s.append("|");
        s.append(self.receiver.as_str());
        s.append("|");
        s.append(self.amount.as_str());
        proof {
            assert(s@ =~= canonical_text_of(*self));
        }
        s
    }

    /// Builds the display text of this transaction.
    pub fn to_string(&self) -> (r: String)
        ensures
            r@ == display_text_of(*self),
    {
        let mut s = String::new();
        s.append("Transaction { sender: ");
        s.append(self.sender.as_str());
        s.append(", receiver: ");
        s.append(self.receiver.as_str());
        s.append(", amount: ");
        s.append(self.amount.as_str());
        s.append(" }");
        proof {
            assert(s@ =~= display_text_of(*self));
        }
        s
    }
}

} // verus!
