//! The capabilities that the checks consume: chain state, proof of work, and
//! the rules for a single header and a single transaction.
//!
//! The chain is read-only: what a method of it returns is a function of the
//! chain and the arguments, which the matching `spec_` function names. The
//! rules for proof of work, for a header and for a transaction may answer
//! anything: the checks state their outcome over what the rules answered,
//! as the postcondition of the implementation at hand describes it.

use crate::error::{Error, TransactionError};
use crate::types::{
    BlockNumber, Block, Capacity, CellState, H256, Header, OutPoint, Transaction, U256,
};
use vstd::prelude::*;

verus! {

/// Read-only access to the canonical chain and its consensus parameters.
///
/// The proofs of the checks rest on each method returning the value of its
/// `spec_` function. An implementation written outside verified code is not
/// held to that by anything: it must answer the same question the same way
/// for as long as a check runs.
pub trait ChainProvider {
    /// What `block_header` returns.
    spec fn spec_block_header(&self, hash: H256) -> Option<Header>;

    /// The header with the given hash, if the chain knows it.
    fn block_header(&self, hash: &H256) -> (r: Option<Header>)
        ensures
            r == self.spec_block_header(*hash),
    ;

    /// What `block` returns.
    spec fn spec_block(&self, hash: H256) -> Option<Block>;

    /// The block with the given hash, if the chain knows it.
    fn block(&self, hash: &H256) -> (r: Option<Block>)
        ensures
            r == self.spec_block(*hash),
    ;

    /// What `calculate_difficulty` returns.
    spec fn spec_calculate_difficulty(&self, parent: Header) -> Option<U256>;

    /// The difficulty expected of a child of `parent`.
    fn calculate_difficulty(&self, parent: &Header) -> (r: Option<U256>)
        ensures
            r == self.spec_calculate_difficulty(*parent),
    ;

    /// What `block_reward` returns.
    spec fn spec_block_reward(&self, number: BlockNumber) -> Capacity;

    /// The reward issued by a block at height `number`.
    fn block_reward(&self, number: BlockNumber) -> (r: Capacity)
        ensures
            r == self.spec_block_reward(number),
    ;

    /// What `calculate_transaction_fee` returns.
    spec fn spec_calculate_transaction_fee(&self, tx: Transaction) -> Result<Capacity, Error>;

    /// The fee that `tx` pays, or the reason why it cannot be determined.
    fn calculate_transaction_fee(&self, tx: &Transaction) -> (r: Result<Capacity, Error>)
        ensures
            r == self.spec_calculate_transaction_fee(*tx),
    ;

    /// What `cell_at` returns.
    spec fn spec_cell_at(&self, out_point: OutPoint, parent: H256) -> CellState;

    /// The state of an output as of the block with hash `parent`.
    fn cell_at(&self, out_point: &OutPoint, parent: &H256) -> (r: CellState)
        ensures
            r == self.spec_cell_at(*out_point, *parent),
    ;

    /// What `max_uncles_len` returns.
    spec fn spec_max_uncles_len(&self) -> usize;

    /// The largest number of uncles a block may declare.
    fn max_uncles_len(&self) -> (r: usize)
        ensures
            r == self.spec_max_uncles_len(),
    ;

    /// What `max_uncles_age` returns.
    spec fn spec_max_uncles_age(&self) -> usize;

    /// The largest depth, below the declaring block, at which an uncle may lie.
    fn max_uncles_age(&self) -> (r: usize)
        ensures
            r == self.spec_max_uncles_age(),
    ;
}

/// The proof-of-work rule. Nothing is assumed of what it answers.
pub trait PowVerifier {
    /// Whether `header` carries valid proof of work.
    fn verify(&self, header: &Header) -> bool;
}

/// What header verification asks of the header under test.
pub trait HeaderResolver {
    /// What `header` returns.
    spec fn spec_header(&self) -> Header;

    /// The header under test.
    fn header(&self) -> (r: &Header)
        ensures
            *r == self.spec_header(),
    ;

    /// What `parent` returns.
    spec fn spec_parent(&self) -> Option<Header>;

    /// Its parent, if known.
    fn parent(&self) -> (r: Option<&Header>)
        ensures
            r.is_some() == self.spec_parent().is_some(),
            r.is_some() ==> *r.unwrap() == self.spec_parent().unwrap(),
    ;

    /// What `calculate_difficulty` returns.
    spec fn spec_calculate_difficulty(&self) -> Option<U256>;

    /// The difficulty expected of the header under test.
    fn calculate_difficulty(&self) -> (r: Option<U256>)
        ensures
            r == self.spec_calculate_difficulty(),
    ;
}

/// The rules for a single header: proof of work, difficulty, parent and
/// time. Nothing is assumed of what it answers.
pub trait HeaderVerifier {
    /// Checks the header that `resolver` presents, with `pow` as the
    /// proof-of-work rule.
    fn verify<R: HeaderResolver, P: PowVerifier>(&self, resolver: &R, pow: &P) -> Result<
        (),
        Error,
    >;
}

/// A transaction with the state of the output that each input spends.
#[derive(Clone, Debug, PartialEq, Eq)]
pub struct ResolvedTransaction<'a> {
    pub transaction: &'a Transaction,
    pub input_cells: Vec<CellState>,
}

/// The rules for a single transaction with its inputs resolved: scripts and
/// capacities. Nothing is assumed of what it answers.
pub trait TransactionVerifier {
    /// Checks a resolved transaction.
    fn verify(&self, tx: &ResolvedTransaction<'_>) -> Result<(), TransactionError>;
}

} // verus!
