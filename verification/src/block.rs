//! The checks of a block in their fixed order.

use crate::cellbase::CellbaseTransactionsVerifier;
use crate::error::{outcome, Error, ErrorView, Outcome};
use crate::provider::{ChainProvider, HeaderVerifier, PowVerifier, TransactionVerifier};
use crate::structure::{
    DuplicateTransactionsVerifier, EmptyTransactionsVerifier, MerkleRootVerifier,
};
use crate::transactions::TransactionsVerifier;
use crate::types::Block;
use crate::uncles::UnclesVerifier;
use vstd::prelude::*;

verus! {

/// All checks of one block. Each part can also be called on its own.
pub struct BlockVerifier<'a, C, P, V, T> {
    pub empty_transactions: EmptyTransactionsVerifier<'a>,
    pub duplicate_transactions: DuplicateTransactionsVerifier<'a>,
    pub cellbase: CellbaseTransactionsVerifier<'a, C>,
    pub merkle_root: MerkleRootVerifier<'a>,
    pub uncles: UnclesVerifier<'a, C, P, V>,
    pub transactions: TransactionsVerifier<'a, C, T>,
}

impl<'a, C, P, V, T> BlockVerifier<'a, C, P, V, T> where
    C: ChainProvider,
    P: PowVerifier,
    V: HeaderVerifier,
    T: TransactionVerifier,
 {
    /// Every part checks `block` against `chain`.
    pub open spec fn checks(&self, block: &Block, chain: &C) -> bool {
        &&& self.empty_transactions.block == block
        &&& self.duplicate_transactions.block == block
        &&& self.cellbase.block == block
        &&& self.cellbase.chain == chain
        &&& self.merkle_root.block == block
        &&& self.uncles.block == block
        &&& self.uncles.chain == chain
        &&& self.transactions.spec_block() == block
        &&& self.transactions.spec_chain() == chain
    }

    pub fn new(
        block: &'a Block,
        chain: &'a C,
        pow: P,
        header_verifier: &'a V,
        transaction_verifier: &'a T,
    ) -> (r: Self)
        ensures
            r.checks(block, chain),
            r.uncles.pow == pow,
            r.uncles.header_verifier == header_verifier,
            r.transactions.spec_verifier() == transaction_verifier,
    {
        BlockVerifier {
            empty_transactions: EmptyTransactionsVerifier::new(block),
            duplicate_transactions: DuplicateTransactionsVerifier::new(block),
            cellbase: CellbaseTransactionsVerifier::new(block, chain),
            merkle_root: MerkleRootVerifier::new(block),
            uncles: UnclesVerifier::new(block, chain, pow, header_verifier),
            transactions: TransactionsVerifier::new(block, chain, transaction_verifier),
        }
    }

    /// The outcome of the checks on the transaction list as a whole: the
    /// first failure in the order empty, duplicate, cellbase, merkle root.
    pub open spec fn list_outcome(&self) -> Outcome {
        if self.empty_transactions.spec_verify() is Err {
            self.empty_transactions.spec_verify()
        } else if self.duplicate_transactions.spec_verify() is Err {
            self.duplicate_transactions.spec_verify()
        } else if self.cellbase.spec_verify() is Err {
            self.cellbase.spec_verify()
        } else {
            self.merkle_root.spec_verify()
        }
    }

    /// Whether `o` is the outcome of the checks that come before the
    /// transactions are verified one by one: the first failure on the
    /// transaction list, or else the outcome of the uncle rules.
    pub open spec fn admits_structure(&self, o: Outcome) -> bool {
        if self.list_outcome() is Err {
            o == self.list_outcome()
        } else {
            self.uncles.admits(o)
        }
    }

    /// Whether `o` is the outcome of all checks: a failure of the structure,
    /// or else what the transaction rules give.
    pub open spec fn admits(&self, o: Outcome) -> bool {
        ||| o is Err && self.admits_structure(o)
        ||| self.admits_structure(Ok(())) && self.transactions.admits(o)
    }

    /// Runs the checks that come before the transactions are verified one by
    /// one, and stops at the first that fails.
    pub fn verify_structure(&self) -> (r: Result<(), Error>)
        ensures
            self.admits_structure(outcome(r)),
    {
        match self.empty_transactions.verify() {
            Err(e) => {
                return Err(e);
            },
            Ok(_) => {},
        }
        match self.duplicate_transactions.verify() {
            Err(e) => {
                return Err(e);
            },
            Ok(_) => {},
        }
        match self.cellbase.verify() {
            Err(e) => {
                return Err(e);
            },
            Ok(_) => {},
        }
        match self.merkle_root.verify() {
            Err(e) => {
                return Err(e);
            },
            Ok(_) => {},
        }
        self.uncles.verify()
    }

    /// Runs every check in order and stops at the first that fails. Where
    /// the structure holds, the result is that of the transaction rules.
    pub fn verify(&self) -> (r: Result<(), Error>)
        ensures
            self.admits(outcome(r)),
    {
        match self.verify_structure() {
            Err(e) => {
                return Err(e);
            },
            Ok(_) => {},
        }
        self.transactions.verify()
    }
}

/// A block without transactions is rejected as empty, whatever its header,
/// its uncles and the chain hold.
pub proof fn law_empty_block_rejected<C, P, V, T>(v: BlockVerifier<'_, C, P, V, T>) where
    C: ChainProvider,
    P: PowVerifier,
    V: HeaderVerifier,
    T: TransactionVerifier,

    requires
        v.empty_transactions.block.transactions@.len() == 0,
    ensures
        v.list_outcome() == Err::<(), ErrorView>(ErrorView::EmptyTransactions),
        forall|o: Outcome|
            v.admits(o) ==> o == Err::<(), ErrorView>(ErrorView::EmptyTransactions),
{
}

} // verus!
