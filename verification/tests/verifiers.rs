use block_verification::block::BlockVerifier;
use block_verification::cellbase::CellbaseTransactionsVerifier;
use block_verification::error::{CellbaseError, Error, HeaderError, TransactionError, UnclesError};
use block_verification::provider::{
    ChainProvider, HeaderResolver, HeaderVerifier, PowVerifier, ResolvedTransaction,
    TransactionVerifier,
};
use block_verification::structure::{
    DuplicateTransactionsVerifier, EmptyTransactionsVerifier, MerkleRootVerifier,
};
use block_verification::transactions::{collect_failures, TransactionsVerifier};
use block_verification::types::{
    Block, CellInput, CellOutput, CellState, Header, OutPoint, Transaction, UncleBlock, H256, U256,
};
use block_verification::uncles::{HeaderResolverWrapper, UnclesVerifier};

const MAX_AGE: usize = 6;
const MAX_LEN: usize = 2;
const REWARD: u64 = 100;
const FEE: u64 = 10;

fn h(n: u64) -> H256 {
    H256(0, 0, 0, n)
}

/// Hash of the main-chain block at height `n`.
fn main_hash(n: u64) -> H256 {
    H256(0, 0, 1, n)
}

fn difficulty_after(parent: &Header) -> U256 {
    U256(0, 0, 0, parent.number + 1)
}

struct MockChain {
    blocks: Vec<Block>,
    unpriced: Vec<H256>,
    cells: Vec<(OutPoint, CellOutput)>,
}

impl ChainProvider for MockChain {
    fn spec_block_header(&self, hash: H256) -> Option<Header> {
        self.block_header(&hash)
    }
    fn block_header(&self, hash: &H256) -> Option<Header> {
        self.blocks.iter().find(|b| b.header.hash == *hash).map(|b| b.header)
    }
    fn spec_block(&self, hash: H256) -> Option<Block> {
        self.block(&hash)
    }
    fn block(&self, hash: &H256) -> Option<Block> {
        self.blocks.iter().find(|b| b.header.hash == *hash).cloned()
    }
    fn spec_calculate_difficulty(&self, parent: Header) -> Option<U256> {
        self.calculate_difficulty(&parent)
    }
    fn calculate_difficulty(&self, parent: &Header) -> Option<U256> {
        Some(difficulty_after(parent))
    }
    fn spec_block_reward(&self, number: u64) -> u64 {
        self.block_reward(number)
    }
    fn block_reward(&self, _number: u64) -> u64 {
        REWARD
    }
    fn spec_calculate_transaction_fee(&self, tx: Transaction) -> Result<u64, Error> {
        self.calculate_transaction_fee(&tx)
    }
    fn calculate_transaction_fee(&self, tx: &Transaction) -> Result<u64, Error> {
        if self.unpriced.contains(&tx.hash) {
            Err(Error::Transaction(vec![(0, TransactionError::UnknownInput)]))
        } else {
            Ok(FEE)
        }
    }
    fn spec_cell_at(&self, out_point: OutPoint, parent: H256) -> CellState {
        self.cell_at(&out_point, &parent)
    }
    fn cell_at(&self, out_point: &OutPoint, _parent: &H256) -> CellState {
        match self.cells.iter().find(|c| c.0 == *out_point) {
            Some(c) => CellState::Head(c.1.clone()),
            None => CellState::Unknown,
        }
    }
    fn spec_max_uncles_len(&self) -> usize {
        self.max_uncles_len()
    }
    fn max_uncles_len(&self) -> usize {
        MAX_LEN
    }
    fn spec_max_uncles_age(&self) -> usize {
        self.max_uncles_age()
    }
    fn max_uncles_age(&self) -> usize {
        MAX_AGE
    }
}

/// Accepts every header but those with timestamp 666.
#[derive(Clone, Copy, Debug, PartialEq)]
struct MockPow;

impl PowVerifier for MockPow {
    fn verify(&self, header: &Header) -> bool {
        header.timestamp != 666
    }
}

struct MockHeaderVerifier;

impl HeaderVerifier for MockHeaderVerifier {
    fn verify<R: HeaderResolver, P: PowVerifier>(&self, resolver: &R, pow: &P) -> Result<(), Error> {
        if !pow.verify(resolver.header()) {
            return Err(Error::Header(HeaderError::Pow));
        }
        if resolver.parent().is_none() {
            return Err(Error::Header(HeaderError::UnknownParent));
        }
        if resolver.calculate_difficulty() != Some(resolver.header().difficulty) {
            return Err(Error::Header(HeaderError::Difficulty));
        }
        Ok(())
    }
}

/// Rejects a transaction with an unresolved input, and those with a listed hash.
struct MockTxVerifier {
    bad_scripts: Vec<H256>,
}

impl TransactionVerifier for MockTxVerifier {
    fn verify(&self, tx: &ResolvedTransaction<'_>) -> Result<(), TransactionError> {
        if tx.input_cells.iter().any(|c| *c == CellState::Unknown) {
            return Err(TransactionError::UnknownInput);
        }
        if self.bad_scripts.contains(&tx.transaction.hash) {
            return Err(TransactionError::InvalidScript);
        }
        Ok(())
    }
}

fn header(number: u64, hash: H256, parent: H256) -> Header {
    Header {
        hash,
        number,
        parent_hash: parent,
        timestamp: number,
        difficulty: U256(0, 0, 0, number),
        txs_commit: H256::zero(),
        uncles_hash: H256::zero(),
        cellbase_id: H256::zero(),
    }
}

fn output(capacity: u64) -> CellOutput {
    CellOutput { capacity, data: vec![1, 2, 3], lock: h(77) }
}

fn known_cell() -> OutPoint {
    OutPoint { hash: h(900), index: 0 }
}

/// A transaction that spends the one cell the chain knows.
fn tx(hash: H256) -> Transaction {
    Transaction {
        hash,
        inputs: vec![CellInput { previous_output: known_cell(), unlock: vec![] }],
        outputs: vec![output(1)],
    }
}

fn spending(hash: H256, out_point: OutPoint) -> Transaction {
    Transaction {
        hash,
        inputs: vec![CellInput { previous_output: out_point, unlock: vec![] }],
        outputs: vec![output(1)],
    }
}

fn cellbase(hash: H256, number: u64, capacities: &[u64]) -> Transaction {
    Transaction {
        hash,
        inputs: vec![CellInput::new_cellbase_input(number)],
        outputs: capacities.iter().map(|c| output(*c)).collect(),
    }
}

fn block_at(number: u64, hash: H256, parent: H256, txs: Vec<Transaction>) -> Block {
    Block {
        header: header(number, hash, parent),
        transactions: txs,
        uncles: vec![],
        transactions_root: H256::zero(),
        uncles_root: H256::zero(),
    }
}

fn block(txs: Vec<Transaction>) -> Block {
    block_at(1, main_hash(1), main_hash(0), txs)
}

/// A main chain of the heights `0..=height`, each block with one transaction.
fn chain(height: u64) -> MockChain {
    let mut blocks = Vec::new();
    for n in 0..=height {
        let parent = if n == 0 { H256::zero() } else { main_hash(n - 1) };
        blocks.push(block_at(n, main_hash(n), parent, vec![tx(h(5000 + n))]));
    }
    MockChain { blocks, unpriced: vec![], cells: vec![(known_cell(), output(50))] }
}

/// A valid uncle at `number`: a sibling of the main-chain block at that height.
fn uncle(number: u64, tag: u64) -> UncleBlock {
    let mut hd = header(number, H256(0, 7, tag, number), main_hash(number - 1));
    hd.cellbase_id = h(4000 + tag);
    UncleBlock { header: hd, cellbase: cellbase(h(4000 + tag), number, &[REWARD]) }
}

/// A candidate on top of a chain of height `height`, declaring `uncles`.
fn candidate(height: u64, uncles: Vec<UncleBlock>) -> Block {
    let mut b = block_at(
        height + 1,
        main_hash(height + 1),
        main_hash(height),
        vec![cellbase(h(1), height + 1, &[REWARD])],
    );
    b.uncles = uncles;
    b.uncles_root = h(31);
    b.header.uncles_hash = h(31);
    b
}

fn check_uncles(chain: &MockChain, b: &Block) -> Result<(), Error> {
    UnclesVerifier::new(b, chain, MockPow, &MockHeaderVerifier).verify()
}

#[test]
fn empty_block_is_rejected() {
    let b = block(vec![]);
    assert_eq!(EmptyTransactionsVerifier::new(&b).verify(), Err(Error::EmptyTransactions));
}

#[test]
fn non_empty_block_passes_empty_check() {
    let b = block(vec![tx(h(7))]);
    assert_eq!(EmptyTransactionsVerifier::new(&b).verify(), Ok(()));
}

#[test]
fn repeated_hash_is_rejected() {
    let b = block(vec![tx(h(7)), tx(h(8)), tx(h(7))]);
    assert_eq!(DuplicateTransactionsVerifier::new(&b).verify(), Err(Error::DuplicateTransactions));
}

#[test]
fn distinct_hashes_pass() {
    let b = block(vec![tx(h(7)), tx(h(8)), tx(H256(1, 0, 0, 7))]);
    assert_eq!(DuplicateTransactionsVerifier::new(&b).verify(), Ok(()));
    let none = block(vec![]);
    assert_eq!(DuplicateTransactionsVerifier::new(&none).verify(), Ok(()));
}

#[test]
fn matching_root_passes() {
    let mut b = block(vec![tx(h(7)), tx(h(8))]);
    b.transactions_root = h(55);
    b.header.txs_commit = h(55);
    assert_eq!(MerkleRootVerifier::new(&b).verify(), Ok(()));
}

#[test]
fn changed_root_is_rejected() {
    let mut b = block(vec![tx(h(7)), tx(h(8))]);
    b.transactions_root = h(56);
    b.header.txs_commit = h(55);
    assert_eq!(MerkleRootVerifier::new(&b).verify(), Err(Error::TransactionsRoot));
}

#[test]
fn cellbase_input_encodes_height() {
    let input = CellInput::new_cellbase_input(0x0102);
    assert_eq!(input.previous_output, OutPoint { hash: H256(0, 0, 0, 0), index: u32::MAX });
    assert_eq!(input.unlock, vec![2, 1, 0, 0, 0, 0, 0, 0]);
    assert!(input.is_cellbase_input(0x0102));
    assert!(!input.is_cellbase_input(0x0103));
    assert!(OutPoint::null().is_null());
    assert!(!known_cell().is_null());
    assert!(cellbase(h(1), 3, &[1]).is_cellbase());
    assert!(!tx(h(1)).is_cellbase());
}

#[test]
fn two_cellbases_are_rejected_wherever_they_stand() {
    let c = chain(0);
    let first = block(vec![cellbase(h(1), 1, &[1]), cellbase(h(2), 1, &[1]), tx(h(3))]);
    assert_eq!(
        CellbaseTransactionsVerifier::new(&first, &c).verify(),
        Err(Error::Cellbase(CellbaseError::InvalidQuantity))
    );
    let later = block(vec![tx(h(3)), cellbase(h(1), 1, &[1]), tx(h(4)), cellbase(h(2), 1, &[1])]);
    assert_eq!(
        CellbaseTransactionsVerifier::new(&later, &c).verify(),
        Err(Error::Cellbase(CellbaseError::InvalidQuantity))
    );
}

#[test]
fn cellbase_must_stand_first() {
    let c = chain(0);
    let b = block(vec![tx(h(3)), cellbase(h(1), 1, &[1])]);
    assert_eq!(
        CellbaseTransactionsVerifier::new(&b, &c).verify(),
        Err(Error::Cellbase(CellbaseError::InvalidPosition))
    );
}

#[test]
fn cellbase_input_must_match_height() {
    let c = chain(0);
    let b = block(vec![cellbase(h(1), 2, &[1]), tx(h(3))]);
    assert_eq!(
        CellbaseTransactionsVerifier::new(&b, &c).verify(),
        Err(Error::Cellbase(CellbaseError::InvalidInput))
    );
    let mut odd = cellbase(h(1), 1, &[1]);
    odd.inputs[0].unlock.push(0);
    let b = block(vec![odd]);
    assert_eq!(
        CellbaseTransactionsVerifier::new(&b, &c).verify(),
        Err(Error::Cellbase(CellbaseError::InvalidInput))
    );
}

#[test]
fn block_without_cellbase_passes_cellbase_check() {
    let c = chain(0);
    assert_eq!(CellbaseTransactionsVerifier::new(&block(vec![]), &c).verify(), Ok(()));
    assert_eq!(
        CellbaseTransactionsVerifier::new(&block(vec![tx(h(3)), tx(h(4))]), &c).verify(),
        Ok(())
    );
}

#[test]
fn reward_is_capped_by_block_reward_and_fees() {
    let c = chain(0);
    let over = block(vec![cellbase(h(1), 1, &[100, 21]), tx(h(3)), tx(h(4))]);
    assert_eq!(
        CellbaseTransactionsVerifier::new(&over, &c).verify(),
        Err(Error::Cellbase(CellbaseError::InvalidReward))
    );
    let exact = block(vec![cellbase(h(1), 1, &[100, 20]), tx(h(3)), tx(h(4))]);
    assert_eq!(CellbaseTransactionsVerifier::new(&exact, &c).verify(), Ok(()));
    let under = block(vec![cellbase(h(1), 1, &[100, 19]), tx(h(3)), tx(h(4))]);
    assert_eq!(CellbaseTransactionsVerifier::new(&under, &c).verify(), Ok(()));
    let alone = block(vec![cellbase(h(1), 1, &[101])]);
    assert_eq!(
        CellbaseTransactionsVerifier::new(&alone, &c).verify(),
        Err(Error::Cellbase(CellbaseError::InvalidReward))
    );
}

#[test]
fn reward_sum_does_not_wrap() {
    let c = chain(0);
    let b = block(vec![cellbase(h(1), 1, &[u64::MAX, 120]), tx(h(3)), tx(h(4))]);
    assert_eq!(
        CellbaseTransactionsVerifier::new(&b, &c).verify(),
        Err(Error::Cellbase(CellbaseError::InvalidReward))
    );
}

#[test]
fn fee_failure_is_passed_on() {
    let mut c = chain(0);
    c.unpriced = vec![h(4)];
    let b = block(vec![cellbase(h(1), 1, &[1]), tx(h(3)), tx(h(4))]);
    assert_eq!(
        CellbaseTransactionsVerifier::new(&b, &c).verify(),
        Err(Error::Transaction(vec![(0, TransactionError::UnknownInput)]))
    );
}

#[test]
fn uncles_hash_must_match() {
    let c = chain(10);
    let mut b = candidate(10, vec![uncle(10, 1)]);
    b.uncles_root = h(32);
    assert_eq!(
        check_uncles(&c, &b),
        Err(Error::Uncles(UnclesError::InvalidHash { expected: h(31), actual: h(32) }))
    );
}

#[test]
fn no_uncles_pass() {
    let c = chain(10);
    assert_eq!(check_uncles(&c, &candidate(10, vec![])), Ok(()));
}

#[test]
fn too_many_uncles_are_rejected() {
    let c = chain(10);
    let b = candidate(10, vec![uncle(10, 1), uncle(10, 2), uncle(9, 3)]);
    assert_eq!(
        check_uncles(&c, &b),
        Err(Error::Uncles(UnclesError::OverLength { max: 2, actual: 3 }))
    );
}

#[test]
fn uncle_at_depth_zero_is_rejected() {
    let c = chain(10);
    let b = candidate(10, vec![uncle(11, 1)]);
    assert_eq!(
        check_uncles(&c, &b),
        Err(Error::Uncles(UnclesError::InvalidDepth { min: 5, max: 10, actual: 11 }))
    );
    let above = candidate(10, vec![uncle(12, 1)]);
    assert_eq!(
        check_uncles(&c, &above),
        Err(Error::Uncles(UnclesError::InvalidDepth { min: 5, max: 10, actual: 12 }))
    );
}

#[test]
fn uncle_too_deep_is_rejected() {
    let c = chain(10);
    let b = candidate(10, vec![uncle(4, 1)]);
    assert_eq!(
        check_uncles(&c, &b),
        Err(Error::Uncles(UnclesError::InvalidDepth { min: 5, max: 10, actual: 4 }))
    );
    let second = candidate(10, vec![uncle(6, 1), uncle(3, 2)]);
    assert_eq!(
        check_uncles(&c, &second),
        Err(Error::Uncles(UnclesError::InvalidDepth { min: 5, max: 10, actual: 3 }))
    );
}

#[test]
fn depth_bounds_stop_at_height_zero() {
    let c = chain(2);
    let b = candidate(2, vec![uncle(3, 1)]);
    assert_eq!(
        check_uncles(&c, &b),
        Err(Error::Uncles(UnclesError::InvalidDepth { min: 0, max: 2, actual: 3 }))
    );
}

#[test]
fn uncles_at_valid_depth_pass() {
    let c = chain(10);
    assert_eq!(check_uncles(&c, &candidate(10, vec![uncle(10, 1)])), Ok(()));
    assert_eq!(check_uncles(&c, &candidate(10, vec![uncle(5, 1), uncle(10, 2)])), Ok(()));
    let short = chain(2);
    assert_eq!(check_uncles(&short, &candidate(2, vec![uncle(1, 1), uncle(2, 2)])), Ok(()));
}

#[test]
fn repeated_uncle_is_rejected_at_second_occurrence() {
    let c = chain(10);
    let u = uncle(9, 1);
    let b = candidate(10, vec![u.clone(), u.clone()]);
    assert_eq!(check_uncles(&c, &b), Err(Error::Uncles(UnclesError::Duplicate(u.header.hash))));
}

#[test]
fn ancestor_as_uncle_is_rejected() {
    let c = chain(10);
    for n in [5u64, 8, 10] {
        let ancestor = UncleBlock { header: c.blocks[n as usize].header, cellbase: cellbase(H256::zero(), 0, &[]) };
        let b = candidate(10, vec![ancestor]);
        assert_eq!(
            check_uncles(&c, &b),
            Err(Error::Uncles(UnclesError::InvalidInclude(main_hash(n))))
        );
    }
}

#[test]
fn candidate_itself_as_uncle_is_rejected() {
    let c = chain(10);
    let mut own = uncle(10, 1);
    own.header.hash = main_hash(11);
    let b = candidate(10, vec![own]);
    assert_eq!(
        check_uncles(&c, &b),
        Err(Error::Uncles(UnclesError::InvalidInclude(main_hash(11))))
    );
}

#[test]
fn uncle_claimed_in_window_is_rejected() {
    let mut c = chain(10);
    let u = uncle(7, 1);
    c.blocks[8].uncles = vec![uncle(6, 9), u.clone()];
    let b = candidate(10, vec![u.clone()]);
    assert_eq!(check_uncles(&c, &b), Err(Error::Uncles(UnclesError::InvalidInclude(u.header.hash))));
}

#[test]
fn uncle_claimed_below_window_passes() {
    let mut c = chain(10);
    let u = uncle(5, 1);
    c.blocks[4].uncles = vec![u.clone()];
    let b = candidate(10, vec![u.clone()]);
    assert_eq!(check_uncles(&c, &b), Ok(()));
    c.blocks[5].uncles = vec![u.clone()];
    assert_eq!(check_uncles(&c, &b), Err(Error::Uncles(UnclesError::InvalidInclude(u.header.hash))));
}

#[test]
fn uncle_cellbase_commitment_must_match() {
    let c = chain(10);
    let mut u = uncle(9, 1);
    u.cellbase.hash = h(1);
    let b = candidate(10, vec![uncle(10, 2), u.clone()]);
    assert_eq!(check_uncles(&c, &b), Err(Error::Uncles(UnclesError::InvalidCellbase)));
}

#[test]
fn uncle_header_failure_is_passed_on() {
    let c = chain(10);
    let mut no_pow = uncle(9, 1);
    no_pow.header.timestamp = 666;
    assert_eq!(
        check_uncles(&c, &candidate(10, vec![no_pow])),
        Err(Error::Header(HeaderError::Pow))
    );
    let mut easy = uncle(9, 1);
    easy.header.difficulty = U256(0, 0, 0, 1);
    assert_eq!(
        check_uncles(&c, &candidate(10, vec![uncle(10, 2), easy])),
        Err(Error::Header(HeaderError::Difficulty))
    );
    let mut orphan = uncle(9, 1);
    orphan.header.parent_hash = h(123);
    assert_eq!(
        check_uncles(&c, &candidate(10, vec![orphan])),
        Err(Error::Header(HeaderError::UnknownParent))
    );
}

#[test]
fn resolver_looks_up_parent_and_difficulty() {
    let c = chain(10);
    let u = uncle(9, 1);
    let resolver = HeaderResolverWrapper::new(&u.header, &c);
    assert_eq!(*resolver.header(), u.header);
    assert_eq!(resolver.parent(), Some(&c.blocks[8].header));
    assert_eq!(resolver.calculate_difficulty(), Some(U256(0, 0, 0, 9)));
    let mut orphan = u.clone();
    orphan.header.parent_hash = h(123);
    let resolver = HeaderResolverWrapper::new(&orphan.header, &c);
    assert_eq!(resolver.parent(), None);
    assert_eq!(resolver.calculate_difficulty(), None);
}

#[test]
fn window_ends_after_largest_age() {
    let c = chain(10);
    // the window reaches the parent of the sixth ancestor and no further
    let at_edge = UncleBlock { header: c.blocks[4].header, cellbase: cellbase(H256::zero(), 0, &[]) };
    let mut deep = candidate(10, vec![at_edge]);
    deep.uncles[0].header.number = 5;
    assert_eq!(
        check_uncles(&c, &deep),
        Err(Error::Uncles(UnclesError::InvalidInclude(main_hash(4))))
    );
    let below = UncleBlock { header: c.blocks[3].header, cellbase: cellbase(H256::zero(), 0, &[]) };
    let mut deeper = candidate(10, vec![below]);
    deeper.uncles[0].header.number = 5;
    deeper.uncles[0].header.difficulty = U256(0, 0, 0, 3);
    assert_eq!(check_uncles(&c, &deeper), Ok(()));
}

#[test]
fn same_block_output_resolves() {
    let mut c = chain(3);
    c.cells = vec![];
    let t = MockTxVerifier { bad_scripts: vec![] };
    let first = Transaction { hash: h(21), inputs: vec![], outputs: vec![output(5), output(6)] };
    let second = spending(h(22), OutPoint { hash: h(21), index: 1 });
    let b = block(vec![cellbase(h(1), 1, &[1]), first, second]);
    let v = TransactionsVerifier::new(&b, &c, &t);
    assert_eq!(
        v.cell_at(&OutPoint { hash: h(21), index: 1 }, &main_hash(0)),
        CellState::Head(output(6))
    );
    assert_eq!(v.cell_at(&OutPoint { hash: h(21), index: 2 }, &main_hash(0)), CellState::Unknown);
    assert_eq!(v.cell_at(&OutPoint { hash: h(1), index: 0 }, &main_hash(0)), CellState::Head(output(1)));
    assert_eq!(v.cell_at(&known_cell(), &main_hash(0)), CellState::Unknown);
    assert_eq!(v.verify(), Ok(()));
}

#[test]
fn other_outputs_resolve_from_chain() {
    let c = chain(3);
    let t = MockTxVerifier { bad_scripts: vec![] };
    let b = block(vec![cellbase(h(1), 1, &[1]), tx(h(2))]);
    let v = TransactionsVerifier::new(&b, &c, &t);
    assert_eq!(v.cell_at(&known_cell(), &main_hash(0)), CellState::Head(output(50)));
    let resolved = v.resolve_transaction_at(&b.transactions[1], &main_hash(0));
    assert_eq!(resolved.transaction, &b.transactions[1]);
    assert_eq!(resolved.input_cells, vec![CellState::Head(output(50))]);
    assert_eq!(v.verify(), Ok(()));
}

#[test]
fn every_failing_transaction_is_reported() {
    let c = chain(3);
    let t = MockTxVerifier { bad_scripts: vec![h(12), h(15)] };
    let b = block(vec![
        cellbase(h(1), 1, &[1]),
        tx(h(11)),
        tx(h(12)),
        spending(h(13), OutPoint { hash: h(999), index: 0 }),
        tx(h(14)),
        tx(h(15)),
    ]);
    let v = TransactionsVerifier::new(&b, &c, &t);
    assert_eq!(
        v.verify(),
        Err(Error::Transaction(vec![
            (1, TransactionError::InvalidScript),
            (2, TransactionError::UnknownInput),
            (4, TransactionError::InvalidScript),
        ]))
    );
}

#[test]
fn first_transaction_is_verified_unless_cellbase() {
    let c = chain(3);
    let t = MockTxVerifier { bad_scripts: vec![h(11)] };
    let b = block(vec![tx(h(11)), tx(h(12))]);
    assert_eq!(
        TransactionsVerifier::new(&b, &c, &t).verify(),
        Err(Error::Transaction(vec![(0, TransactionError::InvalidScript)]))
    );
    let alone = block(vec![tx(h(11))]);
    assert_eq!(
        TransactionsVerifier::new(&alone, &c, &t).verify(),
        Err(Error::Transaction(vec![(0, TransactionError::InvalidScript)]))
    );
    let first = cellbase(h(11), 1, &[1]);
    assert_eq!(TransactionsVerifier::new(&block(vec![first]), &c, &t).verify(), Ok(()));
    let none = block(vec![]);
    assert_eq!(TransactionsVerifier::new(&none, &c, &t).verify(), Ok(()));
}

#[test]
fn only_cellbases_are_skipped() {
    let c = chain(3);
    let t = MockTxVerifier { bad_scripts: vec![h(11), h(13), h(14)] };
    let b = block(vec![tx(h(11)), cellbase(h(13), 1, &[1]), tx(h(12)), tx(h(14))]);
    let v = TransactionsVerifier::new(&b, &c, &t);
    assert_eq!(v.positions_to_verify(), vec![0, 2, 3]);
    assert_eq!(
        v.verify(),
        Err(Error::Transaction(vec![
            (0, TransactionError::InvalidScript),
            (2, TransactionError::InvalidScript),
        ]))
    );
}

#[test]
fn block_without_cellbase_has_its_first_transaction_verified() {
    let c = chain(10);
    let t = MockTxVerifier { bad_scripts: vec![h(2)] };
    let mut b = candidate(10, vec![]);
    b.transactions = vec![tx(h(2)), tx(h(3))];
    assert_eq!(
        check_block(&c, &b, &t),
        Err(Error::Transaction(vec![(0, TransactionError::InvalidScript)]))
    );
}

#[test]
fn failures_keep_their_positions() {
    assert_eq!(collect_failures(&vec![]), Ok(()));
    assert_eq!(collect_failures(&vec![None, None]), Ok(()));
    assert_eq!(
        collect_failures(&vec![
            Some(TransactionError::Empty),
            None,
            Some(TransactionError::DoubleSpent)
        ]),
        Err(Error::Transaction(vec![
            (0, TransactionError::Empty),
            (2, TransactionError::DoubleSpent)
        ]))
    );
}

fn check_block(c: &MockChain, b: &Block, t: &MockTxVerifier) -> Result<(), Error> {
    BlockVerifier::new(b, c, MockPow, &MockHeaderVerifier, t).verify()
}

#[test]
fn valid_block_passes() {
    let c = chain(10);
    let t = MockTxVerifier { bad_scripts: vec![] };
    let mut b = candidate(10, vec![uncle(10, 1)]);
    b.transactions.push(tx(h(2)));
    assert_eq!(check_block(&c, &b, &t), Ok(()));
    assert_eq!(BlockVerifier::new(&b, &c, MockPow, &MockHeaderVerifier, &t).verify_structure(), Ok(()));
}

#[test]
fn empty_block_fails_before_anything_else() {
    let c = chain(10);
    let t = MockTxVerifier { bad_scripts: vec![] };
    let mut b = candidate(10, vec![uncle(11, 1)]);
    b.transactions = vec![];
    b.header.txs_commit = h(9);
    b.uncles_root = h(8);
    assert_eq!(check_block(&c, &b, &t), Err(Error::EmptyTransactions));
}

#[test]
fn checks_run_in_order() {
    let c = chain(10);
    let t = MockTxVerifier { bad_scripts: vec![h(2)] };
    let mut b = candidate(10, vec![uncle(11, 1)]);
    b.transactions = vec![cellbase(h(1), 11, &[200]), tx(h(2)), tx(h(2))];
    b.header.txs_commit = h(9);
    assert_eq!(check_block(&c, &b, &t), Err(Error::DuplicateTransactions));
    b.transactions = vec![cellbase(h(1), 11, &[200]), tx(h(2))];
    assert_eq!(check_block(&c, &b, &t), Err(Error::Cellbase(CellbaseError::InvalidReward)));
    b.transactions = vec![cellbase(h(1), 11, &[110]), tx(h(2))];
    assert_eq!(check_block(&c, &b, &t), Err(Error::TransactionsRoot));
    b.header.txs_commit = H256::zero();
    assert_eq!(
        check_block(&c, &b, &t),
        Err(Error::Uncles(UnclesError::InvalidDepth { min: 5, max: 10, actual: 11 }))
    );
    b.uncles = vec![uncle(10, 1)];
    assert_eq!(
        check_block(&c, &b, &t),
        Err(Error::Transaction(vec![(0, TransactionError::InvalidScript)]))
    );
}

#[test]
fn list_rules_come_before_inclusion_rules() {
    let c = chain(10);
    let mut bad = uncle(9, 1);
    bad.cellbase.hash = h(1);
    let b = candidate(10, vec![bad.clone(), uncle(3, 2)]);
    let v = UnclesVerifier::new(&b, &c, MockPow, &MockHeaderVerifier);
    assert_eq!(
        v.verify_list(),
        Err(Error::Uncles(UnclesError::InvalidDepth { min: 5, max: 10, actual: 3 }))
    );
    assert_eq!(v.verify(), v.verify_list());
    let fine = candidate(10, vec![bad]);
    let v = UnclesVerifier::new(&fine, &c, MockPow, &MockHeaderVerifier);
    assert_eq!(v.verify_list(), Ok(()));
    assert_eq!(v.verify(), Err(Error::Uncles(UnclesError::InvalidCellbase)));
}

#[test]
fn given_verdicts_decide_eligible_uncles() {
    let c = chain(10);
    let b = candidate(10, vec![uncle(9, 1), uncle(10, 2)]);
    let v = UnclesVerifier::new(&b, &c, MockPow, &MockHeaderVerifier);
    assert_eq!(v.verify_with(vec![Ok(()), Ok(())]), Ok(()));
    assert_eq!(
        v.verify_with(vec![Ok(()), Err(Error::Header(HeaderError::Timestamp))]),
        Err(Error::Header(HeaderError::Timestamp))
    );
    assert_eq!(
        v.verify_with(vec![
            Err(Error::Header(HeaderError::Number)),
            Err(Error::Header(HeaderError::Timestamp))
        ]),
        Err(Error::Header(HeaderError::Number))
    );
    let u = uncle(9, 1);
    let twice = candidate(10, vec![u.clone(), u.clone()]);
    let v = UnclesVerifier::new(&twice, &c, MockPow, &MockHeaderVerifier);
    assert_eq!(
        v.verify_with(vec![Ok(()), Err(Error::Header(HeaderError::Pow))]),
        Err(Error::Uncles(UnclesError::Duplicate(u.header.hash)))
    );
    assert_eq!(
        v.verify_with(vec![Err(Error::Header(HeaderError::Pow)), Ok(())]),
        Err(Error::Header(HeaderError::Pow))
    );
}
