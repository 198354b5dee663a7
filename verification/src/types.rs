//! The block data model: hashes, transactions, headers, uncles and blocks.
//!
//! Every hash stored here is the cached digest of the object that carries it,
//! so the consensus rules read digests and never compute one.

use vstd::prelude::*;

verus! {

/// Value-accounting unit carried by an output.
pub type Capacity = u64;

/// Block height.
pub type BlockNumber = u64;

/// A 256-bit digest, held as four 64-bit limbs, most significant first.
#[derive(Clone, Copy, Debug, PartialEq, Eq, Hash, Structural)]
pub struct H256(pub u64, pub u64, pub u64, pub u64);

impl H256 {
    /// The all-zero digest.
    pub open spec fn spec_zero() -> H256 {
        H256(0, 0, 0, 0)
    }

    /// The all-zero digest.
    pub fn zero() -> (r: H256)
        ensures
            r == Self::spec_zero(),
    {
        H256(0, 0, 0, 0)
    }
}

/// A 256-bit unsigned difficulty target, held as four 64-bit limbs.
#[derive(Clone, Copy, Debug, PartialEq, Eq, Hash, Structural)]
pub struct U256(pub u64, pub u64, pub u64, pub u64);

/// A reference to one output of a transaction.
#[derive(Clone, Copy, Debug, PartialEq, Eq, Hash, Structural)]
pub struct OutPoint {
    /// Hash of the producing transaction.
    pub hash: H256,
    /// Position of the output in the producing transaction.
    pub index: u32,
}

impl OutPoint {
    /// The outpoint that refers to nothing: zero hash, largest index.
    pub open spec fn spec_null() -> OutPoint {
        OutPoint { hash: H256::spec_zero(), index: u32::MAX }
    }

    /// Whether this is the null outpoint.
    pub open spec fn spec_is_null(&self) -> bool {
        *self == Self::spec_null()
    }

    /// The outpoint that refers to nothing.
    pub fn null() -> (r: OutPoint)
        ensures
            r == Self::spec_null(),
    {
        OutPoint { hash: H256::zero(), index: u32::MAX }
    }

    /// Whether this is the null outpoint.
    pub fn is_null(&self) -> (r: bool)
        ensures
            r == self.spec_is_null(),
    {
        self.hash == H256::zero() && self.index == u32::MAX
    }
}

/// One input of a transaction: the outpoint it spends and its unlock bytes.
#[derive(Clone, Debug, PartialEq, Eq)]
pub struct CellInput {
    pub previous_output: OutPoint,
    pub unlock: Vec<u8>,
}

/// Mathematical value of a [`CellInput`].
pub struct CellInputView {
    pub previous_output: OutPoint,
    pub unlock: Seq<u8>,
}

impl View for CellInput {
    type V = CellInputView;

    open spec fn view(&self) -> CellInputView {
        CellInputView { previous_output: self.previous_output, unlock: self.unlock@ }
    }
}

/// The sentinel input of the cellbase of a block at `number`: it spends the
/// null outpoint and unlocks with the height in little-endian bytes.
pub open spec fn cellbase_input(number: BlockNumber) -> CellInputView {
    CellInputView {
        previous_output: OutPoint::spec_null(),
        unlock: vstd::bytes::spec_u64_to_le_bytes(number),
    }
}

/// Whether two byte strings hold the same bytes.
pub fn bytes_equal(a: &Vec<u8>, b: &Vec<u8>) -> (r: bool)
    ensures
        r == (a@ == b@),
{
    if a.len() != b.len() {
        return false;
    }
    let mut i: usize = 0;
    while i < a.len()
        invariant
            a@.len() == b@.len(),
            i <= a@.len(),
            forall|j: int| 0 <= j < i ==> a@[j] == b@[j],
        decreases a@.len() - i,
    {
        if a[i] != b[i] {
            return false;
        }
        i += 1;
    }
    assert(a@ =~= b@);
    true
}

impl CellInput {
    /// Builds the sentinel input of the cellbase at `number`.
    pub fn new_cellbase_input(number: BlockNumber) -> (r: CellInput)
        ensures
            r@ == cellbase_input(number),
    {
        CellInput {
            previous_output: OutPoint::null(),
            unlock: vstd::bytes::u64_to_le_bytes(number),
        }
    }

    /// Whether this input is the cellbase sentinel for `number`.
    pub fn is_cellbase_input(&self, number: BlockNumber) -> (r: bool)
        ensures
            r == (self@ == cellbase_input(number)),
    {
        let sentinel = CellInput::new_cellbase_input(number);
        self.previous_output == sentinel.previous_output && bytes_equal(
            &self.unlock,
            &sentinel.unlock,
        )
    }
}

/// One output of a transaction.
#[derive(Clone, Debug, PartialEq, Eq)]
pub struct CellOutput {
    pub capacity: Capacity,
    pub data: Vec<u8>,
    pub lock: H256,
}

/// Mathematical value of a [`CellOutput`].
pub struct CellOutputView {
    pub capacity: Capacity,
    pub data: Seq<u8>,
    pub lock: H256,
}

impl View for CellOutput {
    type V = CellOutputView;

    open spec fn view(&self) -> CellOutputView {
        CellOutputView { capacity: self.capacity, data: self.data@, lock: self.lock }
    }
}

impl CellOutput {
    /// A copy with the same value.
    pub fn duplicate(&self) -> (r: CellOutput)
        ensures
            r@ == self@,
    {
        let mut data: Vec<u8> = Vec::new();
        let mut i: usize = 0;
        while i < self.data.len()
            invariant
                i <= self.data@.len(),
                data@ == self.data@.subrange(0, i as int),
            decreases self.data@.len() - i,
        {
            data.push(self.data[i]);
            assert(data@ =~= self.data@.subrange(0, i + 1));
            i += 1;
        }
        assert(data@ =~= self.data@);
        CellOutput { capacity: self.capacity, data, lock: self.lock }
    }
}

/// What is known of the output an outpoint refers to.
#[derive(Clone, Debug, PartialEq, Eq)]
pub enum CellState {
    /// The output exists and is unspent.
    Head(CellOutput),
    /// Nothing is known of the outpoint.
    Unknown,
}

/// Mathematical value of a [`CellState`].
pub enum CellStateView {
    Head(CellOutputView),
    Unknown,
}

impl View for CellState {
    type V = CellStateView;

    open spec fn view(&self) -> CellStateView {
        match *self {
            CellState::Head(o) => CellStateView::Head(o@),
            CellState::Unknown => CellStateView::Unknown,
        }
    }
}

/// A transaction together with its cached hash.
#[derive(Clone, Debug, PartialEq, Eq)]
pub struct Transaction {
    pub hash: H256,
    pub inputs: Vec<CellInput>,
    pub outputs: Vec<CellOutput>,
}

impl Transaction {
    /// A cellbase has exactly one input, which spends the null outpoint.
    pub open spec fn spec_is_cellbase(&self) -> bool {
        self.inputs@.len() == 1 && self.inputs@[0].previous_output.spec_is_null()
    }

    /// Whether this transaction is a cellbase.
    pub fn is_cellbase(&self) -> (r: bool)
        ensures
            r == self.spec_is_cellbase(),
    {
        self.inputs.len() == 1 && self.inputs[0].previous_output.is_null()
    }

    /// The cached hash.
    pub fn hash(&self) -> (r: H256)
        ensures
            r == self.hash,
    {
        self.hash
    }
}

/// A block header together with its cached hash.
#[derive(Clone, Copy, Debug, PartialEq, Eq, Structural)]
pub struct Header {
    pub hash: H256,
    pub number: BlockNumber,
    pub parent_hash: H256,
    pub timestamp: u64,
    pub difficulty: U256,
    /// Commitment to the ordered transaction hashes.
    pub txs_commit: H256,
    /// Commitment to the list of uncle headers.
    pub uncles_hash: H256,
    /// Commitment to the block's cellbase transaction.
    pub cellbase_id: H256,
}

/// An uncle: a header and its own cellbase transaction.
#[derive(Clone, Debug, PartialEq, Eq)]
pub struct UncleBlock {
    pub header: Header,
    pub cellbase: Transaction,
}

impl UncleBlock {
    /// Height of the uncle.
    pub fn number(&self) -> (r: BlockNumber)
        ensures
            r == self.header.number,
    {
        self.header.number
    }
}

/// A candidate block. `transactions_root` and `uncles_root` are inputs: the
/// caller computes them from the block's body, as the merkle root of the
/// ordered transaction hashes and as the hash of the list of uncle headers,
/// and nothing here ties them to the body.
#[derive(Clone, Debug, PartialEq, Eq)]
pub struct Block {
    pub header: Header,
    pub transactions: Vec<Transaction>,
    pub uncles: Vec<UncleBlock>,
    pub transactions_root: H256,
    pub uncles_root: H256,
}

impl Block {
    /// The hashes of the transactions, in block order.
    pub open spec fn tx_hashes(&self) -> Seq<H256> {
        Seq::new(self.transactions@.len(), |i: int| self.transactions@[i].hash)
    }

    /// The hashes of the uncle headers, in list order.
    pub open spec fn uncle_hashes(&self) -> Seq<H256> {
        Seq::new(self.uncles@.len(), |i: int| self.uncles@[i].header.hash)
    }

    /// Height of the block.
    pub fn number(&self) -> (r: BlockNumber)
        ensures
            r == self.header.number,
    {
        self.header.number
    }

    /// Hash of the block's header.
    pub fn hash(&self) -> (r: H256)
        ensures
            r == self.header.hash,
    {
        self.header.hash
    }
}

} // verus!
