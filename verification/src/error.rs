//! Reasons for which a block is rejected.

use crate::types::H256;
use vstd::prelude::*;

verus! {

/// A violated cellbase rule.
#[derive(Clone, Copy, Debug, PartialEq, Eq, Structural)]
pub enum CellbaseError {
    InvalidInput,
    InvalidReward,
    InvalidQuantity,
    InvalidPosition,
}

/// A violated uncle rule.
#[derive(Clone, Copy, Debug, PartialEq, Eq, Structural)]
#[allow(inconsistent_fields)]
pub enum UnclesError {
    OverLength { max: usize, actual: usize },
    InvalidDepth { min: u64, max: u64, actual: u64 },
    InvalidHash { expected: H256, actual: H256 },
    Duplicate(H256),
    InvalidInclude(H256),
    InvalidCellbase,
}

/// A failure of the header rules: proof of work, difficulty, parent or time.
#[derive(Clone, Copy, Debug, PartialEq, Eq, Structural)]
pub enum HeaderError {
    Pow,
    Difficulty,
    UnknownParent,
    Timestamp,
    Number,
}

/// A failure of the rules for a single transaction.
#[derive(Clone, Copy, Debug, PartialEq, Eq, Structural)]
pub enum TransactionError {
    NullInput,
    OutOfBound,
    DuplicateInputs,
    Empty,
    InvalidCapacity,
    InvalidScript,
    InvalidSignature,
    DoubleSpent,
    UnknownInput,
}

/// Why a block was rejected.
#[derive(Clone, Debug, PartialEq, Eq)]
pub enum Error {
    EmptyTransactions,
    DuplicateTransactions,
    TransactionsRoot,
    Cellbase(CellbaseError),
    Uncles(UnclesError),
    Header(HeaderError),
    /// Every failing transaction, by its position among the transactions
    /// that are no cellbase, with its error.
    Transaction(Vec<(usize, TransactionError)>),
}

/// Mathematical value of an [`Error`].
pub enum ErrorView {
    EmptyTransactions,
    DuplicateTransactions,
    TransactionsRoot,
    Cellbase(CellbaseError),
    Uncles(UnclesError),
    Header(HeaderError),
    Transaction(Seq<(usize, TransactionError)>),
}

impl View for Error {
    type V = ErrorView;

    open spec fn view(&self) -> ErrorView {
        match *self {
            Error::EmptyTransactions => ErrorView::EmptyTransactions,
            Error::DuplicateTransactions => ErrorView::DuplicateTransactions,
            Error::TransactionsRoot => ErrorView::TransactionsRoot,
            Error::Cellbase(e) => ErrorView::Cellbase(e),
            Error::Uncles(e) => ErrorView::Uncles(e),
            Error::Header(e) => ErrorView::Header(e),
            Error::Transaction(v) => ErrorView::Transaction(v@),
        }
    }
}

/// The outcome of a check, as a mathematical value.
pub type Outcome = Result<(), ErrorView>;

/// Mathematical value of the result of a check.
pub open spec fn outcome(r: Result<(), Error>) -> Outcome {
    match r {
        Ok(_) => Ok(()),
        Err(e) => Err(e@),
    }
}

} // verus!
