//! Structural checks on the transaction list of a block.

use crate::collections::{set_contents, H256Set};
use crate::error::{outcome, Error, ErrorView, Outcome};
use crate::types::{Block, H256};
use vstd::prelude::*;

verus! {

/// Rejects a block without transactions.
pub struct EmptyTransactionsVerifier<'a> {
    pub block: &'a Block,
}

impl<'a> EmptyTransactionsVerifier<'a> {
    pub fn new(block: &'a Block) -> (r: Self)
        ensures
            r.block == block,
    {
        EmptyTransactionsVerifier { block }
    }

    /// The outcome of the check.
    pub open spec fn spec_verify(&self) -> Outcome {
        if self.block.transactions@.len() == 0 {
            Err(ErrorView::EmptyTransactions)
        } else {
            Ok(())
        }
    }

    pub fn verify(&self) -> (r: Result<(), Error>)
        ensures
            outcome(r) == self.spec_verify(),
    {
        if self.block.transactions.len() == 0 {
            Err(Error::EmptyTransactions)
        } else {
            Ok(())
        }
    }
}

/// Rejects a block in which a transaction hash occurs twice.
pub struct DuplicateTransactionsVerifier<'a> {
    pub block: &'a Block,
}

impl<'a> DuplicateTransactionsVerifier<'a> {
    pub fn new(block: &'a Block) -> (r: Self)
        ensures
            r.block == block,
    {
        DuplicateTransactionsVerifier { block }
    }

    /// The outcome of the check.
    pub open spec fn spec_verify(&self) -> Outcome {
        if self.block.tx_hashes().no_duplicates() {
            Ok(())
        } else {
            Err(ErrorView::DuplicateTransactions)
        }
    }

    pub fn verify(&self) -> (r: Result<(), Error>)
        ensures
            outcome(r) == self.spec_verify(),
    {
        let mut hashes = H256Set::new();
        let mut i: usize = 0;
        while i < self.block.transactions.len()
            invariant
                i <= self.block.transactions@.len(),
                set_contents(hashes) == self.block.tx_hashes().take(i as int).to_set(),
            decreases self.block.transactions@.len() - i,
        {
            hashes.insert(self.block.transactions[i].hash());
            proof {
                let s = self.block.tx_hashes();
                assert(s.take(i + 1) =~= s.take(i as int).push(s[i as int]));
                s.take(i as int).lemma_push_to_set_commute(s[i as int]);
            }
            i += 1;
        }
        proof {
            let s = self.block.tx_hashes();
            assert(s.take(i as int) =~= s);
            if s.no_duplicates() {
                s.unique_seq_to_set();
            }
            if s.to_set().len() == s.len() {
                s.lemma_no_dup_set_cardinality();
            }
        }
        if hashes.len() == self.block.transactions.len() {
            Ok(())
        } else {
            Err(Error::DuplicateTransactions)
        }
    }
}

/// Compares the merkle root that the caller computed for the block, its
/// `transactions_root`, with the header's commitment.
pub struct MerkleRootVerifier<'a> {
    pub block: &'a Block,
}

impl<'a> MerkleRootVerifier<'a> {
    pub fn new(block: &'a Block) -> (r: Self)
        ensures
            r.block == block,
    {
        MerkleRootVerifier { block }
    }

    /// The outcome of the check.
    pub open spec fn spec_verify(&self) -> Outcome {
        if self.block.header.txs_commit == self.block.transactions_root {
            Ok(())
        } else {
            Err(ErrorView::TransactionsRoot)
        }
    }

    pub fn verify(&self) -> (r: Result<(), Error>)
        ensures
            outcome(r) == self.spec_verify(),
    {
        if self.block.header.txs_commit == self.block.transactions_root {
            Ok(())
        } else {
            Err(Error::TransactionsRoot)
        }
    }
}

/// The merkle check passes exactly when the root that the block carries as
/// computed by the caller is the one the header commits to, and fails with
/// one error only.
pub proof fn law_root_decides(v: MerkleRootVerifier<'_>)
    ensures
        v.spec_verify() is Ok <==> v.block.header.txs_commit == v.block.transactions_root,
        v.spec_verify() is Err ==> v.spec_verify() == Err::<(), ErrorView>(
            ErrorView::TransactionsRoot,
        ),
{
}

} // verus!
