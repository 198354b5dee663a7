//! Resolution and verification of the transactions of a block.
//!
//! An input that spends an output of a transaction of the same block is
//! resolved from the block itself; every other input is resolved by the
//! chain. The cellbase is left to the cellbase rules; every other
//! transaction is verified, and every one that fails is reported, by its
//! position among the transactions that are no cellbase.

use crate::collections::{map_contents, H256Map};
use crate::error::{outcome, Error, ErrorView, Outcome, TransactionError};
use crate::provider::{ChainProvider, ResolvedTransaction, TransactionVerifier};
use crate::types::{Block, CellState, CellStateView, H256, OutPoint, Transaction};
use vstd::prelude::*;

verus! {

/// The index built from the first `n` hashes: each hash maps to the last
/// position at which it stands.
pub open spec fn positions(hashes: Seq<H256>, n: nat) -> Map<H256, usize>
    decreases n,
{
    if n == 0 {
        Map::empty()
    } else {
        positions(hashes, (n - 1) as nat).insert(hashes[n - 1], (n - 1) as usize)
    }
}

/// The position of the transaction with hash `h`, if the block has one.
pub open spec fn position_of(hashes: Seq<H256>, h: H256) -> Option<usize> {
    let index = positions(hashes, hashes.len());
    if index.dom().contains(h) {
        Some(index[h])
    } else {
        None
    }
}

/// The index holds exactly the hashes that occur, and maps each to the last
/// position at which it occurs.
pub proof fn lemma_positions(hashes: Seq<H256>, n: nat, h: H256)
    requires
        n <= hashes.len() <= usize::MAX,
    ensures
        positions(hashes, n).dom().contains(h) <==> hashes.take(n as int).contains(h),
        positions(hashes, n).dom().contains(h) ==> {
            let i = positions(hashes, n)[h];
            &&& i < n
            &&& hashes[i as int] == h
            &&& forall|j: int| i < j < n ==> hashes[j] != h
        },
    decreases n,
{
    if n > 0 {
        lemma_positions(hashes, (n - 1) as nat, h);
        let shorter = hashes.take(n - 1);
        assert(hashes.take(n as int) =~= shorter.push(hashes[n - 1]));
        if hashes[n - 1] == h {
            assert(hashes.take(n as int)[n - 1] == h);
        } else if shorter.contains(h) {
            let j = choose|j: int| 0 <= j < shorter.len() && shorter[j] == h;
            assert(hashes.take(n as int)[j] == h);
        }
    }
}

/// The failures among the first `n` outcomes, in order: each with the
/// position of its outcome.
pub open spec fn failures(outcomes: Seq<Option<TransactionError>>, n: nat) -> Seq<
    (usize, TransactionError),
>
    decreases n,
{
    if n == 0 {
        Seq::empty()
    } else {
        let before = failures(outcomes, (n - 1) as nat);
        match outcomes[n - 1] {
            Some(e) => before.push(((n - 1) as usize, e)),
            None => before,
        }
    }
}

/// The result for a block whose transactions that are no cellbase had the
/// given outcomes: success if none failed, else all failures together.
pub open spec fn failures_outcome(outcomes: Seq<Option<TransactionError>>) -> Outcome {
    let failed = failures(outcomes, outcomes.len());
    if failed.len() == 0 {
        Ok(())
    } else {
        Err(ErrorView::Transaction(failed))
    }
}

/// The failures reported are exactly the failed outcomes, each once, with
/// its position and its error, in the order of the positions.
pub proof fn law_failures_exact(outcomes: Seq<Option<TransactionError>>, n: nat)
    requires
        n <= outcomes.len() <= usize::MAX,
    ensures
        forall|p: (usize, TransactionError)|
            failures(outcomes, n).contains(p) <==> (p.0 < n && outcomes[p.0 as int] == Some(p.1)),
        forall|a: int, b: int|
            0 <= a < b < failures(outcomes, n).len() ==> failures(outcomes, n)[a].0 < failures(
                outcomes,
                n,
            )[b].0,
        forall|a: int| 0 <= a < failures(outcomes, n).len() ==> failures(outcomes, n)[a].0 < n,
        failures(outcomes, n).len() <= n,
    decreases n,
{
    if n > 0 {
        law_failures_exact(outcomes, (n - 1) as nat);
        let before = failures(outcomes, (n - 1) as nat);
        let all = failures(outcomes, n);
        match outcomes[n - 1] {
            Some(e) => {
                let last = ((n - 1) as usize, e);
                assert(all =~= before.push(last));
                assert(all[all.len() - 1] == last);
                assert forall|p: (usize, TransactionError)|
                    all.contains(p) <==> (p.0 < n && outcomes[p.0 as int] == Some(p.1)) by {
                    if before.contains(p) {
                        let k = choose|k: int| 0 <= k < before.len() && before[k] == p;
                        assert(all[k] == p);
                    }
                    if all.contains(p) {
                        let k = choose|k: int| 0 <= k < all.len() && all[k] == p;
                        if k < before.len() {
                            assert(before[k] == p);
                        }
                    }
                }
            },
            None => {},
        }
    }
}

/// Gathers the failures among the outcomes of the transactions that are no
/// cellbase, and fails with all of them if there is any.
pub fn collect_failures(outcomes: &Vec<Option<TransactionError>>) -> (r: Result<(), Error>)
    ensures
        outcome(r) == failures_outcome(outcomes@),
{
    let mut failed: Vec<(usize, TransactionError)> = Vec::new();
    let mut i: usize = 0;
    while i < outcomes.len()
        invariant
            i <= outcomes@.len(),
            failed@ == failures(outcomes@, i as nat),
        decreases outcomes@.len() - i,
    {
        match outcomes[i] {
            Some(e) => {
                failed.push((i, e));
            },
            None => {},
        }
        i += 1;
    }
    if failed.len() == 0 {
        Ok(())
    } else {
        Err(Error::Transaction(failed))
    }
}

/// The positions, among the first `n` transactions, of those that are no
/// cellbase, in block order.
pub open spec fn to_verify(txs: Seq<Transaction>, n: nat) -> Seq<int>
    decreases n,
{
    if n == 0 {
        Seq::empty()
    } else if txs[n - 1].spec_is_cellbase() {
        to_verify(txs, (n - 1) as nat)
    } else {
        to_verify(txs, (n - 1) as nat).push(n - 1)
    }
}

/// What is reported for each answer of the transaction rules: the error of
/// each failure.
pub open spec fn verdicts(answers: Seq<Result<(), TransactionError>>) -> Seq<
    Option<TransactionError>,
> {
    Seq::new(
        answers.len(),
        |k: int|
            match answers[k] {
                Ok(_) => None,
                Err(e) => Some(e),
            },
    )
}

/// The state of the output that `o` refers to, where a transaction of the
/// block has its hash: the output at its index in the last such
/// transaction, or unknown where that transaction has no such output.
pub open spec fn block_cell(block: &Block, o: OutPoint) -> Option<CellStateView> {
    match position_of(block.tx_hashes(), o.hash) {
        Some(i) => {
            let outputs = block.transactions@[i as int].outputs@;
            if o.index < outputs.len() {
                Some(CellStateView::Head(outputs[o.index as int]@))
            } else {
                Some(CellStateView::Unknown)
            }
        },
        None => None,
    }
}

/// Resolves and verifies the transactions of a block.
pub struct TransactionsVerifier<'a, C, T> {
    block: &'a Block,
    output_indexs: H256Map,
    chain: &'a C,
    verifier: &'a T,
}

impl<'a, C, T> TransactionsVerifier<'a, C, T> {
    /// The index holds each transaction hash of the block with its position.
    #[verifier::type_invariant]
    spec fn wf(self) -> bool {
        map_contents(self.output_indexs) == positions(
            self.block.tx_hashes(),
            self.block.transactions@.len(),
        )
    }
}

impl<'a, C: ChainProvider, T: TransactionVerifier> TransactionsVerifier<'a, C, T> {
    /// The block under check.
    pub closed spec fn spec_block(&self) -> &'a Block {
        self.block
    }

    /// The chain that resolves what the block does not hold.
    pub closed spec fn spec_chain(&self) -> &'a C {
        self.chain
    }

    /// The transaction rules.
    pub closed spec fn spec_verifier(&self) -> &'a T {
        self.verifier
    }

    pub fn new(block: &'a Block, chain: &'a C, verifier: &'a T) -> (r: Self)
        ensures
            r.spec_block() == block,
            r.spec_chain() == chain,
            r.spec_verifier() == verifier,
    {
        let mut output_indexs = H256Map::new();
        assert(map_contents(output_indexs) =~= positions(block.tx_hashes(), 0));
        let mut i: usize = 0;
        while i < block.transactions.len()
            invariant
                i <= block.transactions@.len(),
                map_contents(output_indexs) == positions(block.tx_hashes(), i as nat),
            decreases block.transactions@.len() - i,
        {
            output_indexs.insert(block.transactions[i].hash(), i);
            i += 1;
        }
        TransactionsVerifier { block, output_indexs, chain, verifier }
    }

    /// The block under check.
    pub fn block(&self) -> (r: &'a Block)
        ensures
            r == self.spec_block(),
    {
        self.block
    }

    /// The transaction rules.
    pub fn rules(&self) -> (r: &'a T)
        ensures
            r == self.spec_verifier(),
    {
        self.verifier
    }

    /// The positions of the transactions that are no cellbase, in block
    /// order: those that `verify` hands to the transaction rules.
    pub fn positions_to_verify(&self) -> (r: Vec<usize>)
        ensures
            r@.len() == to_verify(
                self.spec_block().transactions@,
                self.spec_block().transactions@.len(),
            ).len(),
            forall|j: int|
                0 <= j < r@.len() ==> r@[j] as int == to_verify(
                    self.spec_block().transactions@,
                    self.spec_block().transactions@.len(),
                )[j],
    {
        let txs = &self.block.transactions;
        let mut found: Vec<usize> = Vec::new();
        let mut k: usize = 0;
        while k < txs.len()
            invariant
                k <= txs@.len(),
                txs == &self.block.transactions,
                found@.len() == to_verify(txs@, k as nat).len(),
                forall|j: int| 0 <= j < found@.len() ==> found@[j] as int == to_verify(
                    txs@,
                    k as nat,
                )[j],
            decreases txs@.len() - k,
        {
            if !txs[k].is_cellbase() {
                found.push(k);
            }
            k += 1;
        }
        found
    }

    /// The state of the output that `o` refers to, as of the block with hash
    /// `parent`: taken from the block itself where one of its transactions
    /// has the hash, whatever the chain holds, and from the chain otherwise.
    pub open spec fn spec_cell_at(&self, o: OutPoint, parent: H256) -> CellStateView {
        match block_cell(self.spec_block(), o) {
            Some(cell) => cell,
            None => self.spec_chain().spec_cell_at(o, parent)@,
        }
    }

    pub fn cell_at(&self, o: &OutPoint, parent: &H256) -> (r: CellState)
        ensures
            r@ == self.spec_cell_at(*o, *parent),
    {
        let count = self.block.transactions.len();
        proof {
            use_type_invariant(self);
            lemma_positions(self.block.tx_hashes(), count as nat, o.hash);
        }
        match self.output_indexs.get(&o.hash) {
            Some(i) => {
                let outputs = &self.block.transactions[i].outputs;
                let index = o.index as usize;
                if index < outputs.len() {
                    CellState::Head(outputs[index].duplicate())
                } else {
                    CellState::Unknown
                }
            },
            None => self.chain.cell_at(o, parent),
        }
    }

    /// Whether `r` is `tx` with each input resolved as of the block with hash
    /// `parent`.
    pub open spec fn resolves(&self, tx: &Transaction, parent: H256, r: ResolvedTransaction) -> bool {
        &&& r.transaction == tx
        &&& r.input_cells@.len() == tx.inputs@.len()
        &&& forall|k: int|
            0 <= k < tx.inputs@.len() ==> (#[trigger] r.input_cells@[k])@ == self.spec_cell_at(
                tx.inputs@[k].previous_output,
                parent,
            )
    }

    /// Resolves every input of `tx` as of the block with hash `parent`.
    pub fn resolve_transaction_at<'b>(&self, tx: &'b Transaction, parent: &H256) -> (r:
        ResolvedTransaction<'b>)
        ensures
            self.resolves(tx, *parent, r),
    {
        let mut input_cells: Vec<CellState> = Vec::new();
        let mut k: usize = 0;
        while k < tx.inputs.len()
            invariant
                k <= tx.inputs@.len(),
                input_cells@.len() == k,
                forall|j: int|
                    0 <= j < k ==> (#[trigger] input_cells@[j])@ == self.spec_cell_at(
                        tx.inputs@[j].previous_output,
                        *parent,
                    ),
            decreases tx.inputs@.len() - k,
        {
            let cell = self.cell_at(&tx.inputs[k].previous_output, parent);
            input_cells.push(cell);
            k += 1;
        }
        ResolvedTransaction { transaction: tx, input_cells }
    }

    /// Whether `answer` is what the transaction rules answered on
    /// `resolved`, and `resolved` is the transaction at `position` with its
    /// inputs resolved as of the block's parent.
    pub open spec fn answer_for(
        &self,
        position: int,
        resolved: ResolvedTransaction,
        answer: Result<(), TransactionError>,
    ) -> bool {
        &&& self.resolves(
            &self.spec_block().transactions@[position],
            self.spec_block().header.parent_hash,
            resolved,
        )
        &&& call_ensures(T::verify, (self.spec_verifier(), &resolved), answer)
    }

    /// Whether `answers` holds what the transaction rules answered on the
    /// transactions among the first `n` that are no cellbase, in block
    /// order, each resolved as `resolved` has it.
    pub open spec fn answered(
        &self,
        n: nat,
        resolved: Seq<ResolvedTransaction>,
        answers: Seq<Result<(), TransactionError>>,
    ) -> bool {
        let targets = to_verify(self.spec_block().transactions@, n);
        &&& resolved.len() == targets.len()
        &&& answers.len() == targets.len()
        &&& forall|j: int|
            0 <= j < targets.len() ==> self.answer_for(
                targets[j],
                #[trigger] resolved[j],
                answers[j],
            )
    }

    /// Whether `o` is the outcome of the check: the result for what the
    /// transaction rules answered on every transaction of the block that is
    /// no cellbase, resolved as of the block's parent.
    pub open spec fn admits(&self, o: Outcome) -> bool {
        exists|resolved: Seq<ResolvedTransaction>, answers: Seq<Result<(), TransactionError>>|
            #[trigger] self.answered(self.spec_block().transactions@.len(), resolved, answers)
                && o == failures_outcome(verdicts(answers))
    }

    /// Resolves each transaction that is no cellbase as of the block's
    /// parent, hands it to the transaction rules, and reports all that
    /// fail, each by its position among those transactions.
    pub fn verify(&self) -> (r: Result<(), Error>)
        ensures
            self.admits(outcome(r)),
    {
        let parent_hash = self.block.header.parent_hash;
        let txs = &self.block.transactions;
        let mut outcomes: Vec<Option<TransactionError>> = Vec::new();
        let ghost mut resolved_all: Seq<ResolvedTransaction> = Seq::empty();
        let ghost mut answers: Seq<Result<(), TransactionError>> = Seq::empty();
        let mut k: usize = 0;
        while k < txs.len()
            invariant
                k <= txs@.len(),
                txs == &self.block.transactions,
                parent_hash == self.block.header.parent_hash,
                self.answered(k as nat, resolved_all, answers),
                outcomes@ == verdicts(answers),
            decreases txs@.len() - k,
        {
            if !txs[k].is_cellbase() {
                let resolved = self.resolve_transaction_at(&txs[k], &parent_hash);
                let answer = self.verifier.verify(&resolved);
                proof {
                    resolved_all = resolved_all.push(resolved);
                    answers = answers.push(answer);
                }
                match answer {
                    Ok(_) => outcomes.push(None),
                    Err(e) => outcomes.push(Some(e)),
                }
                assert(outcomes@ =~= verdicts(answers));
            }
            k += 1;
        }
        collect_failures(&outcomes)
    }
}

/// Where a transaction of the block has the hash of an outpoint, the
/// outpoint resolves from the block alone: the chain and the parent do not
/// matter.
pub proof fn law_block_output_hides_chain<C: ChainProvider, T: TransactionVerifier>(
    v: TransactionsVerifier<'_, C, T>,
    o: OutPoint,
    parent: H256,
    i: int,
)
    requires
        v.spec_block().transactions@.len() <= usize::MAX,
        0 <= i < v.spec_block().transactions@.len(),
        v.spec_block().transactions@[i].hash == o.hash,
    ensures
        block_cell(v.spec_block(), o) is Some,
        v.spec_cell_at(o, parent) == block_cell(v.spec_block(), o)->Some_0,
{
    let hashes = v.spec_block().tx_hashes();
    lemma_positions(hashes, hashes.len(), o.hash);
    assert(hashes.take(hashes.len() as int) =~= hashes);
    assert(hashes[i] == o.hash);
}

/// An input that spends an output of a transaction of the same block, in a
/// block without repeated hashes, resolves to that output, whatever the
/// chain holds.
pub proof fn law_same_block_output<C: ChainProvider, T: TransactionVerifier>(
    v: TransactionsVerifier<'_, C, T>,
    o: OutPoint,
    parent: H256,
    i: int,
)
    requires
        v.spec_block().transactions@.len() <= usize::MAX,
        v.spec_block().tx_hashes().no_duplicates(),
        0 <= i < v.spec_block().transactions@.len(),
        v.spec_block().transactions@[i].hash == o.hash,
        o.index < v.spec_block().transactions@[i].outputs@.len(),
    ensures
        v.spec_cell_at(o, parent) == CellStateView::Head(
            v.spec_block().transactions@[i].outputs@[o.index as int]@,
        ),
{
    let hashes = v.spec_block().tx_hashes();
    lemma_positions(hashes, hashes.len(), o.hash);
    assert(hashes.take(hashes.len() as int) =~= hashes);
    assert(hashes[i] == o.hash);
}

/// Among outcomes that are all successes there is no failure.
pub proof fn lemma_no_failures(outcomes: Seq<Option<TransactionError>>, n: nat)
    requires
        n <= outcomes.len(),
        forall|j: int| 0 <= j < n ==> outcomes[j] is None,
    ensures
        failures(outcomes, n).len() == 0,
    decreases n,
{
    if n > 0 {
        lemma_no_failures(outcomes, (n - 1) as nat);
    }
}

/// Where the transaction rules accept every transaction of the block that is
/// no cellbase, resolved as of the block's parent with the block's own
/// outputs before the chain's, the check passes.
pub proof fn law_all_accepted_passes<C: ChainProvider, T: TransactionVerifier>(
    v: TransactionsVerifier<'_, C, T>,
    o: Outcome,
)
    requires
        v.admits(o),
        forall|position: int, resolved: ResolvedTransaction, answer: Result<(), TransactionError>|
            #[trigger] v.answer_for(position, resolved, answer) ==> answer is Ok,
    ensures
        o == Ok::<(), ErrorView>(()),
{
    let (resolved, answers) = choose|
        resolved: Seq<ResolvedTransaction>,
        answers: Seq<Result<(), TransactionError>>,
    |
        #[trigger] v.answered(v.spec_block().transactions@.len(), resolved, answers) && o
            == failures_outcome(verdicts(answers));
    let targets = to_verify(v.spec_block().transactions@, v.spec_block().transactions@.len());
    assert forall|j: int| 0 <= j < answers.len() implies verdicts(answers)[j] is None by {
        assert(v.answer_for(targets[j], resolved[j], answers[j]));
    }
    lemma_no_failures(verdicts(answers), answers.len());
}

} // verus!
