//! The uncle rules: the uncle list matches its commitment, is short enough,
//! and every uncle is a recent sibling of the chain that has not been claimed
//! before and passes header verification on its own.

use crate::collections::{set_contents, H256Set};
use crate::error::{outcome, Error, ErrorView, Outcome, UnclesError};
use crate::provider::{ChainProvider, HeaderResolver, HeaderVerifier, PowVerifier};
use crate::types::{Block, BlockNumber, H256, Header, U256};
use vstd::prelude::*;

verus! {

/// Presents a header, with its parent looked up in the chain, to header
/// verification.
pub struct HeaderResolverWrapper<'a, C> {
    pub chain: &'a C,
    pub header: &'a Header,
    pub parent: Option<Header>,
}

impl<'a, C: ChainProvider> HeaderResolverWrapper<'a, C> {
    pub fn new(header: &'a Header, chain: &'a C) -> (r: Self)
        ensures
            r.header == header,
            r.chain == chain,
            r.parent == chain.spec_block_header(header.parent_hash),
    {
        let parent = chain.block_header(&header.parent_hash);
        HeaderResolverWrapper { parent, header, chain }
    }
}

impl<'a, C: ChainProvider> HeaderResolver for HeaderResolverWrapper<'a, C> {
    open spec fn spec_header(&self) -> Header {
        *self.header
    }

    fn header(&self) -> (r: &Header) {
        self.header
    }

    open spec fn spec_parent(&self) -> Option<Header> {
        self.parent
    }

    fn parent(&self) -> (r: Option<&Header>) {
        match &self.parent {
            Some(p) => Some(p),
            None => None,
        }
    }

    /// The chain's difficulty for a child of the parent; none without parent.
    open spec fn spec_calculate_difficulty(&self) -> Option<U256> {
        match self.parent {
            Some(p) => self.chain.spec_calculate_difficulty(p),
            None => None,
        }
    }

    fn calculate_difficulty(&self) -> (r: Option<U256>) {
        match &self.parent {
            Some(p) => self.chain.calculate_difficulty(p),
            None => None,
        }
    }
}

/// Whether an uncle at height `uncle_number` lies at a depth from 1 to
/// `max_age` below a block at height `number`.
pub open spec fn depth_in_range(number: BlockNumber, uncle_number: BlockNumber, max_age: usize) -> bool {
    uncle_number < number && number - uncle_number <= max_age
}

/// The error for an uncle at height `actual` outside the window below a
/// block at height `number`. The bounds are the lowest and the highest
/// height allowed, and stop at height 0.
pub open spec fn depth_error(number: BlockNumber, max_age: usize, actual: BlockNumber) -> ErrorView {
    ErrorView::Uncles(
        UnclesError::InvalidDepth {
            min: if number >= max_age {
                (number - max_age) as u64
            } else {
                0
            },
            max: if number >= 1 {
                (number - 1) as u64
            } else {
                0
            },
            actual,
        },
    )
}

/// The hashes claimed by up to `steps` blocks of the chain, walking from the
/// block with hash `from` towards the root: the parent hash of each block
/// visited and the hashes of the uncles it declares. The walk ends where the
/// chain does not know a block.
pub open spec fn claimed<C: ChainProvider>(chain: &C, from: H256, steps: nat) -> Set<H256>
    decreases steps,
{
    if steps == 0 {
        Set::empty()
    } else {
        match chain.spec_block(from) {
            None => Set::empty(),
            Some(b) => b.uncle_hashes().to_set().insert(b.header.parent_hash).union(
                claimed(chain, b.header.parent_hash, (steps - 1) as nat),
            ),
        }
    }
}

/// Checks the uncles that a block declares.
pub struct UnclesVerifier<'a, C, P, V> {
    pub block: &'a Block,
    pub chain: &'a C,
    pub pow: P,
    pub header_verifier: &'a V,
}

impl<'a, C: ChainProvider, P: PowVerifier, V: HeaderVerifier> UnclesVerifier<'a, C, P, V> {
    pub fn new(block: &'a Block, chain: &'a C, pow: P, header_verifier: &'a V) -> (r: Self)
        ensures
            r.block == block,
            r.chain == chain,
            r.pow == pow,
            r.header_verifier == header_verifier,
    {
        UnclesVerifier { block, chain, pow, header_verifier }
    }

    /// The hashes that no uncle of the block may have: the block's own, its
    /// parent's, and what the ancestors within the window claim.
    pub open spec fn excluded(&self) -> Set<H256> {
        claimed(
            self.chain,
            self.block.header.parent_hash,
            self.chain.spec_max_uncles_age() as nat,
        ).insert(self.block.header.hash).insert(self.block.header.parent_hash)
    }

    /// The outcome of the depth rule on the uncles from position `i` on: the
    /// error of the first that lies outside the window.
    pub open spec fn depths_from(&self, i: int) -> Outcome
        decreases self.block.uncles@.len() - i,
    {
        if i < 0 || i >= self.block.uncles@.len() {
            Ok(())
        } else if !depth_in_range(
            self.block.header.number,
            self.block.uncles@[i].header.number,
            self.chain.spec_max_uncles_age(),
        ) {
            Err(
                depth_error(
                    self.block.header.number,
                    self.chain.spec_max_uncles_age(),
                    self.block.uncles@[i].header.number,
                ),
            )
        } else {
            self.depths_from(i + 1)
        }
    }

    /// The outcome, for the uncle at position `i`, of the rules that come
    /// before header verification: it commits to its own cellbase, is new to
    /// the list, and is not excluded.
    pub open spec fn eligibility(&self, i: int) -> Outcome {
        let uncle = self.block.uncles@[i];
        let hash = uncle.header.hash;
        if uncle.header.cellbase_id != uncle.cellbase.hash {
            Err(ErrorView::Uncles(UnclesError::InvalidCellbase))
        } else if self.block.uncle_hashes().take(i).contains(hash) {
            Err(ErrorView::Uncles(UnclesError::Duplicate(hash)))
        } else if self.excluded().contains(hash) {
            Err(ErrorView::Uncles(UnclesError::InvalidInclude(hash)))
        } else {
            Ok(())
        }
    }

    /// The outcome of the inclusion rules on the uncles from position `i` on,
    /// those before it having passed: the first error met in list order.
    /// `verdicts` holds, for each uncle, what header verification answers.
    pub open spec fn uncles_from(&self, i: int, verdicts: Seq<Result<(), Error>>) -> Outcome
        decreases self.block.uncles@.len() - i,
    {
        if i < 0 || i >= self.block.uncles@.len() {
            Ok(())
        } else if self.eligibility(i) is Err {
            self.eligibility(i)
        } else {
            match verdicts[i] {
                Err(e) => Err(e@),
                Ok(_) => self.uncles_from(i + 1, verdicts),
            }
        }
    }

    /// Whether the uncle at position `i` passes every inclusion rule, given
    /// the uncles before it and the answer of header verification.
    pub open spec fn uncle_passes(&self, i: int, verdicts: Seq<Result<(), Error>>) -> bool {
        self.eligibility(i) is Ok && verdicts[i] is Ok
    }

    /// Whether the uncle list matches its commitment, is not empty and not
    /// too long, and every uncle before position `i` lies within the window.
    pub open spec fn reaches_depth_rule(&self, i: int) -> bool {
        &&& self.block.uncles_root == self.block.header.uncles_hash
        &&& 0 < self.block.uncles@.len() <= self.chain.spec_max_uncles_len()
        &&& 0 <= i <= self.block.uncles@.len()
        &&& forall|k: int|
            0 <= k < i ==> depth_in_range(
                self.block.header.number,
                (#[trigger] self.block.uncles@[k]).header.number,
                self.chain.spec_max_uncles_age(),
            )
    }

    /// Whether the list passes the rules on commitment, length and depth,
    /// and every uncle before position `i` passes every inclusion rule.
    pub open spec fn reaches_uncle(&self, i: int, verdicts: Seq<Result<(), Error>>) -> bool {
        &&& self.reaches_depth_rule(self.block.uncles@.len() as int)
        &&& 0 <= i <= self.block.uncles@.len()
        &&& forall|k: int| 0 <= k < i ==> #[trigger] self.uncle_passes(k, verdicts)
    }

    /// The outcome of the rules on the list as a whole: it matches its
    /// commitment, is not too long, and every uncle lies within the window.
    pub open spec fn list_outcome(&self) -> Outcome {
        let block = self.block;
        if block.uncles_root != block.header.uncles_hash {
            Err(
                ErrorView::Uncles(
                    UnclesError::InvalidHash {
                        expected: block.header.uncles_hash,
                        actual: block.uncles_root,
                    },
                ),
            )
        } else if block.uncles@.len() == 0 {
            Ok(())
        } else if block.uncles@.len() > self.chain.spec_max_uncles_len() {
            Err(
                ErrorView::Uncles(
                    UnclesError::OverLength {
                        max: self.chain.spec_max_uncles_len(),
                        actual: block.uncles@.len() as usize,
                    },
                ),
            )
        } else {
            self.depths_from(0)
        }
    }

    /// The outcome of the check, where header verification answers
    /// `verdicts`, one for each uncle.
    pub open spec fn outcome_given(&self, verdicts: Seq<Result<(), Error>>) -> Outcome {
        if self.list_outcome() is Err {
            self.list_outcome()
        } else {
            self.uncles_from(0, verdicts)
        }
    }

    /// The resolver handed to header verification for the uncle at position
    /// `i`: the uncle's header with its own parent looked up in the chain.
    pub open spec fn resolver_for(&self, i: int) -> HeaderResolverWrapper<'a, C> {
        HeaderResolverWrapper {
            chain: self.chain,
            header: &self.block.uncles@[i].header,
            parent: self.chain.spec_block_header(self.block.uncles@[i].header.parent_hash),
        }
    }

    /// Whether `verdict` is what header verification answered for the uncle
    /// at position `i`.
    pub open spec fn verdict_for(&self, i: int, verdict: Result<(), Error>) -> bool {
        call_ensures(
            V::verify::<HeaderResolverWrapper<'a, C>, P>,
            (self.header_verifier, &self.resolver_for(i), &self.pow),
            verdict,
        )
    }

    /// Whether the check hands the uncle at position `i` to header
    /// verification: the list passes as a whole, every uncle before it
    /// passes, and it is eligible.
    pub open spec fn reached(&self, i: int, verdicts: Seq<Result<(), Error>>) -> bool {
        &&& self.list_outcome() is Ok
        &&& 0 <= i < self.block.uncles@.len()
        &&& forall|k: int| 0 <= k < i ==> #[trigger] self.uncle_passes(k, verdicts)
        &&& self.eligibility(i) is Ok
    }

    /// Whether `verdicts` holds, for each uncle that the check hands to
    /// header verification, what header verification answered.
    pub open spec fn answered(&self, verdicts: Seq<Result<(), Error>>) -> bool {
        &&& verdicts.len() == self.block.uncles@.len()
        &&& forall|i: int| #[trigger]
            self.reached(i, verdicts) ==> self.verdict_for(i, verdicts[i])
    }

    /// Whether `o` is the outcome of the check: the outcome for what header
    /// verification answered on each uncle handed to it.
    pub open spec fn admits(&self, o: Outcome) -> bool {
        exists|verdicts: Seq<Result<(), Error>>| #[trigger]
            self.answered(verdicts) && o == self.outcome_given(verdicts)
    }

    /// Whether the uncle at position `i` is eligible and `verdicts` holds at
    /// `i` what header verification answered, which is that it passes.
    pub open spec fn accepted(&self, i: int, verdicts: Seq<Result<(), Error>>) -> bool {
        self.uncle_passes(i, verdicts) && self.verdict_for(i, verdicts[i])
    }

    /// Verdicts that hold what header verification answered up to the
    /// position where the check stopped hold it for every uncle handed
    /// over, and the inclusion rules have the outcome they have from there.
    proof fn lemma_answered(self, i: int, verdicts: Seq<Result<(), Error>>)
        requires
            0 <= i <= self.block.uncles@.len(),
            verdicts.len() == self.block.uncles@.len(),
            forall|k: int| 0 <= k < i ==> #[trigger] self.accepted(k, verdicts),
            i < self.block.uncles@.len() ==> !self.uncle_passes(i, verdicts) && (self.eligibility(
                i,
            ) is Ok ==> self.verdict_for(i, verdicts[i])),
        ensures
            self.answered(verdicts),
            self.uncles_from(0, verdicts) == self.uncles_from(i, verdicts),
    {
        assert forall|j: int| #[trigger] self.reached(j, verdicts) implies self.verdict_for(
            j,
            verdicts[j],
        ) by {
            if j < i {
                assert(self.accepted(j, verdicts));
            } else if j > i {
                assert(self.uncle_passes(i, verdicts));
            }
        }
        assert forall|k: int| 0 <= k < i implies #[trigger] self.uncle_passes(k, verdicts) by {
            assert(self.accepted(k, verdicts));
        }
        lemma_uncles_prefix(self, i, verdicts);
    }

    /// Collects the hashes that no uncle of the block may have.
    fn excluded_hashes(&self) -> (r: H256Set)
        ensures
            set_contents(r) == self.excluded(),
    {
        let max_uncles_age = self.chain.max_uncles_age();
        let mut excluded = H256Set::new();
        excluded.insert(self.block.hash());
        let mut block_hash = self.block.header.parent_hash;
        excluded.insert(block_hash);
        let mut step: usize = 0;
        let mut known = true;
        while step < max_uncles_age && known
            invariant
                step <= max_uncles_age,
                max_uncles_age == self.chain.spec_max_uncles_age(),
                set_contents(excluded).union(
                    if known {
                        claimed(self.chain, block_hash, (max_uncles_age - step) as nat)
                    } else {
                        Set::empty()
                    },
                ) =~= self.excluded(),
            decreases max_uncles_age - step,
        {
            match self.chain.block(&block_hash) {
                Some(block) => {
                    excluded.insert(block.header.parent_hash);
                    let ghost before = set_contents(excluded);
                    let mut u: usize = 0;
                    while u < block.uncles.len()
                        invariant
                            u <= block.uncles@.len(),
                            set_contents(excluded) =~= before.union(
                                block.uncle_hashes().take(u as int).to_set(),
                            ),
                        decreases block.uncles@.len() - u,
                    {
                        excluded.insert(block.uncles[u].header.hash);
                        proof {
                            let s = block.uncle_hashes();
                            assert(s.take(u + 1) =~= s.take(u as int).push(s[u as int]));
                            s.take(u as int).lemma_push_to_set_commute(s[u as int]);
                        }
                        u += 1;
                    }
                    proof {
                        let s = block.uncle_hashes();
                        assert(s.take(u as int) =~= s);
                    }
                    block_hash = block.header.parent_hash;
                },
                None => {
                    known = false;
                },
            }
            step += 1;
        }
        assert(set_contents(excluded) =~= self.excluded());
        excluded
    }

    /// Checks the list as a whole: commitment, length and depths.
    #[verifier::loop_isolation(false)]
    pub fn verify_list(&self) -> (r: Result<(), Error>)
        ensures
            outcome(r) == self.list_outcome(),
    {
        let actual_uncles_hash = self.block.uncles_root;
        if actual_uncles_hash != self.block.header.uncles_hash {
            return Err(
                Error::Uncles(
                    UnclesError::InvalidHash {
                        expected: self.block.header.uncles_hash,
                        actual: actual_uncles_hash,
                    },
                ),
            );
        }
        let uncles = &self.block.uncles;
        if uncles.len() == 0 {
            return Ok(());
        }
        let uncles_len = uncles.len();
        let max_uncles_len = self.chain.max_uncles_len();
        if uncles_len > max_uncles_len {
            return Err(
                Error::Uncles(UnclesError::OverLength { max: max_uncles_len, actual: uncles_len }),
            );
        }
        let max_uncles_age = self.chain.max_uncles_age();
        let number = self.block.number();
        let mut d: usize = 0;
        while d < uncles.len()
            invariant
                d <= uncles@.len(),
                self.depths_from(0) == self.depths_from(d as int),
            decreases uncles@.len() - d,
        {
            let uncle_number = uncles[d].number();
            let depth: u64 = if number >= uncle_number {
                number - uncle_number
            } else {
                0
            };
            if depth > max_uncles_age as u64 || depth < 1 {
                return Err(
                    Error::Uncles(
                        UnclesError::InvalidDepth {
                            min: if number >= max_uncles_age as u64 {
                                number - max_uncles_age as u64
                            } else {
                                0
                            },
                            max: if number >= 1 {
                                number - 1
                            } else {
                                0
                            },
                            actual: uncle_number,
                        },
                    ),
                );
            }
            d += 1;
        }
        Ok(())
    }

    /// Checks the uncle at position `i` against the uncles included so far
    /// and the excluded hashes.
    fn verify_eligible(&self, i: usize, included: &H256Set, excluded: &H256Set) -> (r: Result<
        (),
        Error,
    >)
        requires
            i < self.block.uncles@.len(),
            set_contents(*included) == self.block.uncle_hashes().take(i as int).to_set(),
            set_contents(*excluded) == self.excluded(),
        ensures
            outcome(r) == self.eligibility(i as int),
    {
        let uncle = &self.block.uncles[i];
        if uncle.header.cellbase_id != uncle.cellbase.hash {
            return Err(Error::Uncles(UnclesError::InvalidCellbase));
        }
        let uncle_hash = uncle.header.hash;
        if included.contains(&uncle_hash) {
            return Err(Error::Uncles(UnclesError::Duplicate(uncle_hash)));
        }
        if excluded.contains(&uncle_hash) {
            return Err(Error::Uncles(UnclesError::InvalidInclude(uncle_hash)));
        }
        Ok(())
    }

    /// Adds the hash of the uncle at position `i` to the uncles included.
    fn note_uncle(&self, i: usize, included: &mut H256Set)
        requires
            i < self.block.uncles@.len(),
            set_contents(*old(included)) == self.block.uncle_hashes().take(i as int).to_set(),
        ensures
            set_contents(*final(included)) == self.block.uncle_hashes().take(i + 1).to_set(),
    {
        included.insert(self.block.uncles[i].header.hash);
        proof {
            let s = self.block.uncle_hashes();
            assert(s.take(i + 1) =~= s.take(i as int).push(s[i as int]));
            s.take(i as int).lemma_push_to_set_commute(s[i as int]);
        }
    }

    /// Checks the uncles in list order. Each uncle that is eligible is
    /// handed to header verification, with a resolver for its own parent;
    /// the first failure of any rule is the result.
    #[verifier::loop_isolation(false)]
    pub fn verify(&self) -> (r: Result<(), Error>)
        ensures
            self.admits(outcome(r)),
    {
        let ghost mut verdicts = Seq::new(
            self.block.uncles@.len(),
            |k: int| Ok::<(), Error>(()),
        );
        match self.verify_list() {
            Err(e) => {
                proof {
                    assert(self.answered(verdicts));
                    assert(outcome(Err(e)) == self.outcome_given(verdicts));
                }
                return Err(e);
            },
            Ok(_) => {},
        }
        let uncles = &self.block.uncles;
        let excluded = self.excluded_hashes();
        let mut included = H256Set::new();
        let mut i: usize = 0;
        while i < uncles.len()
            invariant
                i <= uncles@.len(),
                verdicts.len() == uncles@.len(),
                set_contents(included) =~= self.block.uncle_hashes().take(i as int).to_set(),
                forall|k: int| 0 <= k < i ==> #[trigger] self.accepted(k, verdicts),
            decreases uncles@.len() - i,
        {
            match self.verify_eligible(i, &included, &excluded) {
                Err(e) => {
                    proof {
                        self.lemma_answered(i as int, verdicts);
                        assert(outcome(Err(e)) == self.outcome_given(verdicts));
                    }
                    return Err(e);
                },
                Ok(_) => {},
            }
            let resolver = HeaderResolverWrapper::new(&uncles[i].header, self.chain);
            assert(resolver == self.resolver_for(i as int));
            let answer = self.header_verifier.verify(&resolver, &self.pow);
            proof {
                let before = verdicts;
                verdicts = before.update(i as int, answer);
                assert forall|k: int| 0 <= k < i implies #[trigger] self.accepted(k, verdicts) by {
                    assert(self.accepted(k, before));
                }
            }
            match answer {
                Err(e) => {
                    proof {
                        self.lemma_answered(i as int, verdicts);
                        assert(outcome(Err(e)) == self.outcome_given(verdicts));
                    }
                    return Err(e);
                },
                Ok(_) => {},
            }
            self.note_uncle(i, &mut included);
            i += 1;
        }
        proof {
            self.lemma_answered(i as int, verdicts);
            assert(outcome(Ok(())) == self.outcome_given(verdicts));
        }
        Ok(())
    }

    /// Checks the uncles in list order, with `verdicts` as the answers of
    /// header verification, one for each uncle.
    #[verifier::loop_isolation(false)]
    pub fn verify_with(&self, verdicts: Vec<Result<(), Error>>) -> (r: Result<(), Error>)
        requires
            verdicts@.len() == self.block.uncles@.len(),
        ensures
            outcome(r) == self.outcome_given(verdicts@),
    {
        match self.verify_list() {
            Err(e) => {
                return Err(e);
            },
            Ok(_) => {},
        }
        let mut rest = verdicts;
        let uncles = &self.block.uncles;
        let excluded = self.excluded_hashes();
        let mut included = H256Set::new();
        let mut i: usize = 0;
        while i < uncles.len()
            invariant
                i <= uncles@.len(),
                rest@ == verdicts@,
                set_contents(included) =~= self.block.uncle_hashes().take(i as int).to_set(),
                forall|k: int| 0 <= k < i ==> #[trigger] self.uncle_passes(k, verdicts@),
            decreases uncles@.len() - i,
        {
            proof {
                lemma_uncles_prefix(*self, i as int, verdicts@);
            }
            match self.verify_eligible(i, &included, &excluded) {
                Err(e) => {
                    return Err(e);
                },
                Ok(_) => {},
            }
            if rest[i].is_err() {
                return rest.remove(i);
            }
            self.note_uncle(i, &mut included);
            i += 1;
        }
        proof {
            lemma_uncles_prefix(*self, i as int, verdicts@);
        }
        Ok(())
    }
}

/// The hash reached from `from` by following parent links `k` times, if the
/// chain knows every block on the way.
pub open spec fn ancestor_hash<C: ChainProvider>(chain: &C, from: H256, k: nat) -> Option<H256>
    decreases k,
{
    if k == 0 {
        Some(from)
    } else {
        match chain.spec_block(from) {
            None => None,
            Some(b) => ancestor_hash(chain, b.header.parent_hash, (k - 1) as nat),
        }
    }
}

/// A walk of `steps` blocks claims the hash reached after each of its steps.
pub proof fn lemma_claimed_ancestor<C: ChainProvider>(chain: &C, from: H256, steps: nat, k: nat)
    requires
        1 <= k <= steps,
        ancestor_hash(chain, from, k) is Some,
    ensures
        claimed(chain, from, steps).contains(ancestor_hash(chain, from, k)->Some_0),
    decreases k,
{
    let b = chain.spec_block(from)->Some_0;
    if k > 1 {
        lemma_claimed_ancestor(chain, b.header.parent_hash, (steps - 1) as nat, (k - 1) as nat);
    } else {
        assert(ancestor_hash(chain, b.header.parent_hash, 0) == Some(b.header.parent_hash));
    }
}

/// While every uncle so far lies within the window, the depth rule has the
/// outcome it has on the rest of the list.
pub proof fn lemma_depths_prefix<C: ChainProvider, P: PowVerifier, V: HeaderVerifier>(
    v: UnclesVerifier<'_, C, P, V>,
    i: int,
)
    requires
        v.reaches_depth_rule(i),
    ensures
        v.depths_from(0) == v.depths_from(i),
    decreases i,
{
    if i > 0 {
        lemma_depths_prefix(v, i - 1);
        assert(depth_in_range(
            v.block.header.number,
            v.block.uncles@[i - 1].header.number,
            v.chain.spec_max_uncles_age(),
        ));
    }
}

/// While every uncle so far passes, the inclusion rules have the outcome
/// they have on the rest of the list.
pub proof fn lemma_uncles_prefix<C: ChainProvider, P: PowVerifier, V: HeaderVerifier>(
    v: UnclesVerifier<'_, C, P, V>,
    i: int,
    verdicts: Seq<Result<(), Error>>,
)
    requires
        0 <= i <= v.block.uncles@.len(),
        forall|k: int| 0 <= k < i ==> #[trigger] v.uncle_passes(k, verdicts),
    ensures
        v.uncles_from(0, verdicts) == v.uncles_from(i, verdicts),
    decreases i,
{
    if i > 0 {
        lemma_uncles_prefix(v, i - 1, verdicts);
        assert(v.uncle_passes(i - 1, verdicts));
    }
}

/// The first uncle that lies outside the window, at the height of the block
/// or above it or more than the largest age below it, has the block rejected
/// for its depth, whatever header verification answers.
pub proof fn law_depth_out_of_range<C: ChainProvider, P: PowVerifier, V: HeaderVerifier>(
    v: UnclesVerifier<'_, C, P, V>,
    i: int,
    verdicts: Seq<Result<(), Error>>,
)
    requires
        v.reaches_depth_rule(i),
        i < v.block.uncles@.len(),
        !depth_in_range(
            v.block.header.number,
            v.block.uncles@[i].header.number,
            v.chain.spec_max_uncles_age(),
        ),
    ensures
        v.outcome_given(verdicts) == Err::<(), ErrorView>(
            depth_error(
                v.block.header.number,
                v.chain.spec_max_uncles_age(),
                v.block.uncles@[i].header.number,
            ),
        ),
{
    lemma_depths_prefix(v, i);
}

/// A list of uncles that matches its commitment and is not too long, whose
/// uncles all lie within the window, are eligible and pass header
/// verification, passes.
pub proof fn law_valid_uncles_pass<C: ChainProvider, P: PowVerifier, V: HeaderVerifier>(
    v: UnclesVerifier<'_, C, P, V>,
    verdicts: Seq<Result<(), Error>>,
)
    requires
        v.reaches_uncle(v.block.uncles@.len() as int, verdicts),
    ensures
        v.outcome_given(verdicts) == Ok::<(), ErrorView>(()),
{
    let n = v.block.uncles@.len() as int;
    lemma_depths_prefix(v, n);
    lemma_uncles_prefix(v, n, verdicts);
}

/// An uncle whose hash an earlier uncle of the list has, those before it
/// having passed, has the block rejected as holding a duplicate.
pub proof fn law_repeated_uncle<C: ChainProvider, P: PowVerifier, V: HeaderVerifier>(
    v: UnclesVerifier<'_, C, P, V>,
    i: int,
    j: int,
    verdicts: Seq<Result<(), Error>>,
)
    requires
        v.reaches_uncle(j, verdicts),
        0 <= i < j < v.block.uncles@.len(),
        v.block.uncles@[i].header.hash == v.block.uncles@[j].header.hash,
        v.block.uncles@[j].header.cellbase_id == v.block.uncles@[j].cellbase.hash,
    ensures
        v.outcome_given(verdicts) == Err::<(), ErrorView>(
            ErrorView::Uncles(UnclesError::Duplicate(v.block.uncles@[j].header.hash)),
        ),
{
    let n = v.block.uncles@.len() as int;
    lemma_depths_prefix(v, n);
    lemma_uncles_prefix(v, j, verdicts);
    assert(v.block.uncle_hashes().take(j)[i] == v.block.uncles@[j].header.hash);
}

/// An uncle that is new to the list and whose hash is excluded, those before
/// it having passed, has the block rejected for including it.
pub proof fn law_excluded_uncle<C: ChainProvider, P: PowVerifier, V: HeaderVerifier>(
    v: UnclesVerifier<'_, C, P, V>,
    j: int,
    verdicts: Seq<Result<(), Error>>,
)
    requires
        v.reaches_uncle(j, verdicts),
        j < v.block.uncles@.len(),
        v.block.uncles@[j].header.cellbase_id == v.block.uncles@[j].cellbase.hash,
        !v.block.uncle_hashes().take(j).contains(v.block.uncles@[j].header.hash),
        v.excluded().contains(v.block.uncles@[j].header.hash),
    ensures
        v.outcome_given(verdicts) == Err::<(), ErrorView>(
            ErrorView::Uncles(UnclesError::InvalidInclude(v.block.uncles@[j].header.hash)),
        ),
{
    let n = v.block.uncles@.len() as int;
    lemma_depths_prefix(v, n);
    lemma_uncles_prefix(v, j, verdicts);
}

/// The block's own hash, its parent's, and the hash of every ancestor that
/// the chain reaches from the parent in at most the largest age of steps are
/// excluded.
pub proof fn law_ancestors_excluded<C: ChainProvider, P: PowVerifier, V: HeaderVerifier>(
    v: UnclesVerifier<'_, C, P, V>,
    k: nat,
)
    requires
        k <= v.chain.spec_max_uncles_age(),
        ancestor_hash(v.chain, v.block.header.parent_hash, k) is Some,
    ensures
        v.excluded().contains(v.block.header.hash),
        v.excluded().contains(ancestor_hash(v.chain, v.block.header.parent_hash, k)->Some_0),
{
    if k >= 1 {
        lemma_claimed_ancestor(
            v.chain,
            v.block.header.parent_hash,
            v.chain.spec_max_uncles_age() as nat,
            k,
        );
    }
}

} // verus!
