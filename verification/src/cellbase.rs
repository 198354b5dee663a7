//! The cellbase rules: at most one cellbase, in first position, with the
//! sentinel input of the block's height, paying out no more than the block
//! reward and the fees of the other transactions.

use crate::error::{outcome, CellbaseError, Error, ErrorView, Outcome};
use crate::provider::ChainProvider;
use crate::types::{cellbase_input, Block, CellOutput, Transaction};
use vstd::prelude::*;

verus! {

/// How many of the first `n` transactions are cellbases.
pub open spec fn cellbase_count(txs: Seq<Transaction>, n: nat) -> nat
    decreases n,
{
    if n == 0 {
        0
    } else {
        cellbase_count(txs, (n - 1) as nat) + if txs[n - 1].spec_is_cellbase() {
            1nat
        } else {
            0nat
        }
    }
}

/// The sum of the capacities of the first `n` outputs.
pub open spec fn capacity_sum(outputs: Seq<CellOutput>, n: nat) -> nat
    decreases n,
{
    if n == 0 {
        0
    } else {
        capacity_sum(outputs, (n - 1) as nat) + outputs[n - 1].capacity as nat
    }
}

/// The sum of the fees of the transactions at positions `1..=n`, or the error
/// of the first of them whose fee cannot be determined.
pub open spec fn fee_sum<C: ChainProvider>(chain: &C, txs: Seq<Transaction>, n: nat) -> Result<
    nat,
    Error,
>
    decreases n,
{
    if n == 0 {
        Ok(0)
    } else {
        match fee_sum(chain, txs, (n - 1) as nat) {
            Err(e) => Err(e),
            Ok(sum) => match chain.spec_calculate_transaction_fee(txs[n as int]) {
                Err(e) => Err(e),
                Ok(fee) => Ok(sum + fee as nat),
            },
        }
    }
}

/// The outcome of the reward rule for a cellbase that pays out `paid`, given
/// the block reward and the fees of the other transactions.
pub open spec fn reward_outcome(paid: nat, block_reward: nat, fees: Result<nat, Error>) -> Outcome {
    match fees {
        Err(e) => Err(e@),
        Ok(fee) => if paid > block_reward + fee {
            Err(ErrorView::Cellbase(CellbaseError::InvalidReward))
        } else {
            Ok(())
        },
    }
}

/// Checks the cellbase of a block against chain state.
pub struct CellbaseTransactionsVerifier<'a, C> {
    pub block: &'a Block,
    pub chain: &'a C,
}

impl<'a, C: ChainProvider> CellbaseTransactionsVerifier<'a, C> {
    pub fn new(block: &'a Block, chain: &'a C) -> (r: Self)
        ensures
            r.block == block,
            r.chain == chain,
    {
        CellbaseTransactionsVerifier { block, chain }
    }

    /// The outcome of the check. A block without a cellbase passes; paying
    /// out less than the reward and the fees passes.
    pub open spec fn spec_verify(&self) -> Outcome {
        let txs = self.block.transactions@;
        let count = cellbase_count(txs, txs.len());
        if count == 0 {
            Ok(())
        } else if count > 1 {
            Err(ErrorView::Cellbase(CellbaseError::InvalidQuantity))
        } else if !txs[0].spec_is_cellbase() {
            Err(ErrorView::Cellbase(CellbaseError::InvalidPosition))
        } else if txs[0].inputs@[0]@ != cellbase_input(self.block.header.number) {
            Err(ErrorView::Cellbase(CellbaseError::InvalidInput))
        } else {
            reward_outcome(
                capacity_sum(txs[0].outputs@, txs[0].outputs@.len()),
                self.chain.spec_block_reward(self.block.header.number) as nat,
                fee_sum(self.chain, txs, (txs.len() - 1) as nat),
            )
        }
    }

    #[verifier::loop_isolation(false)]
    pub fn verify(&self) -> (r: Result<(), Error>)
        ensures
            outcome(r) == self.spec_verify(),
    {
        let txs = &self.block.transactions;
        let mut cellbase_len: usize = 0;
        let mut i: usize = 0;
        while i < txs.len()
            invariant
                i <= txs@.len(),
                cellbase_len <= i,
                cellbase_len == cellbase_count(txs@, i as nat),
            decreases txs@.len() - i,
        {
            if txs[i].is_cellbase() {
                cellbase_len += 1;
            }
            i += 1;
        }
        if cellbase_len == 0 {
            return Ok(());
        }
        if cellbase_len > 1 {
            return Err(Error::Cellbase(CellbaseError::InvalidQuantity));
        }
        if !txs[0].is_cellbase() {
            return Err(Error::Cellbase(CellbaseError::InvalidPosition));
        }
        let cellbase_transaction = &txs[0];
        if !cellbase_transaction.inputs[0].is_cellbase_input(self.block.header.number) {
            return Err(Error::Cellbase(CellbaseError::InvalidInput));
        }
        let block_reward = self.chain.block_reward(self.block.header.number);
        let mut fee: u128 = 0;
        let mut k: usize = 1;
        while k < txs.len()
            invariant
                1 <= k <= txs@.len(),
                fee <= (k - 1) * 0xffff_ffff_ffff_ffff,
                fee_sum(self.chain, txs@, (k - 1) as nat) == Ok::<nat, Error>(fee as nat),
            decreases txs@.len() - k,
        {
            match self.chain.calculate_transaction_fee(&txs[k]) {
                Ok(f) => {
                    fee = fee + f as u128;
                },
                Err(e) => {
                    proof {
                        lemma_fee_sum_fails(self.chain, txs@, k as nat, (txs@.len() - 1) as nat);
                    }
                    return Err(e);
                },
            }
            k += 1;
        }
        let total_reward: u128 = block_reward as u128 + fee;
        let outputs = &cellbase_transaction.outputs;
        let mut output_capacity: u128 = 0;
        let mut j: usize = 0;
        while j < outputs.len()
            invariant
                j <= outputs@.len(),
                output_capacity <= j * 0xffff_ffff_ffff_ffff,
                output_capacity == capacity_sum(outputs@, j as nat),
            decreases outputs@.len() - j,
        {
            output_capacity = output_capacity + outputs[j].capacity as u128;
            j += 1;
        }
        if output_capacity > total_reward {
            Err(Error::Cellbase(CellbaseError::InvalidReward))
        } else {
            Ok(())
        }
    }
}

/// Once the fee of the transaction at position `k` cannot be determined, and
/// those before it can, every longer sum fails with that error.
pub proof fn lemma_fee_sum_fails<C: ChainProvider>(
    chain: &C,
    txs: Seq<Transaction>,
    k: nat,
    n: nat,
)
    requires
        1 <= k <= n,
        fee_sum(chain, txs, (k - 1) as nat) is Ok,
        chain.spec_calculate_transaction_fee(txs[k as int]) is Err,
    ensures
        fee_sum(chain, txs, n) == Err::<nat, Error>(
            chain.spec_calculate_transaction_fee(txs[k as int])->Err_0,
        ),
    decreases n,
{
    if n > k {
        lemma_fee_sum_fails(chain, txs, k, (n - 1) as nat);
    }
}

/// With cellbases at two different positions, at least two are counted.
pub proof fn lemma_two_cellbases(txs: Seq<Transaction>, i: int, j: int, n: nat)
    requires
        0 <= i < j < n <= txs.len(),
        txs[i].spec_is_cellbase(),
        txs[j].spec_is_cellbase(),
    ensures
        cellbase_count(txs, n) >= 2,
    decreases n,
{
    if n - 1 > j {
        lemma_two_cellbases(txs, i, j, (n - 1) as nat);
    } else {
        lemma_one_cellbase(txs, i, j as nat);
    }
}

/// With a cellbase among the first `n` transactions, at least one is counted.
pub proof fn lemma_one_cellbase(txs: Seq<Transaction>, i: int, n: nat)
    requires
        0 <= i < n <= txs.len(),
        txs[i].spec_is_cellbase(),
    ensures
        cellbase_count(txs, n) >= 1,
    decreases n,
{
    if n - 1 > i {
        lemma_one_cellbase(txs, i, (n - 1) as nat);
    }
}

/// A block that holds two cellbases is rejected for their number, wherever
/// they stand.
pub proof fn law_two_cellbases_rejected<C: ChainProvider>(
    v: CellbaseTransactionsVerifier<'_, C>,
    i: int,
    j: int,
)
    requires
        0 <= i < j < v.block.transactions@.len(),
        v.block.transactions@[i].spec_is_cellbase(),
        v.block.transactions@[j].spec_is_cellbase(),
    ensures
        v.spec_verify() == Err::<(), ErrorView>(
            ErrorView::Cellbase(CellbaseError::InvalidQuantity),
        ),
{
    lemma_two_cellbases(v.block.transactions@, i, j, v.block.transactions@.len());
}

/// For a block whose only cellbase stands first with the right input, and
/// whose fees are all known, the block is rejected for its reward exactly
/// when the cellbase pays out more than the block reward and the fees;
/// otherwise it passes.
pub proof fn law_reward_cap<C: ChainProvider>(v: CellbaseTransactionsVerifier<'_, C>)
    requires
        v.block.transactions@.len() > 0,
        cellbase_count(v.block.transactions@, v.block.transactions@.len()) == 1,
        v.block.transactions@[0].spec_is_cellbase(),
        v.block.transactions@[0].inputs@[0]@ == cellbase_input(v.block.header.number),
        fee_sum(v.chain, v.block.transactions@, (v.block.transactions@.len() - 1) as nat) is Ok,
    ensures
        ({
            let txs = v.block.transactions@;
            let paid = capacity_sum(txs[0].outputs@, txs[0].outputs@.len());
            let due = v.chain.spec_block_reward(v.block.header.number) + fee_sum(
                v.chain,
                txs,
                (txs.len() - 1) as nat,
            )->Ok_0;
            v.spec_verify() == if paid > due {
                Err::<(), ErrorView>(ErrorView::Cellbase(CellbaseError::InvalidReward))
            } else {
                Ok::<(), ErrorView>(())
            }
        }),
{
}

} // verus!
