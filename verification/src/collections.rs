//! Hash-keyed collections backed by `fnv`'s hasher.
//!
//! Verus does not look inside these collections: each operation below states
//! what the underlying std collection does to its contents.

use crate::types::H256;
use vstd::prelude::*;

verus! {

/// A set of digests, stored in an `fnv::FnvHashSet`.
#[verifier::external_body]
pub struct H256Set {
    inner: fnv::FnvHashSet<(u64, u64, u64, u64)>,
}

/// The digests that a set holds.
pub uninterp spec fn set_contents(s: H256Set) -> Set<H256>;

/// A map from digests to positions, stored in an `fnv::FnvHashMap`.
#[verifier::external_body]
pub struct H256Map {
    inner: fnv::FnvHashMap<(u64, u64, u64, u64), usize>,
}

/// The entries that a map holds.
pub uninterp spec fn map_contents(m: H256Map) -> Map<H256, usize>;

impl H256Set {
    /// `FnvHashSet::default`: a set that holds nothing.
    #[verifier::external_body]
    pub(crate) fn new() -> (r: H256Set)
        ensures
            set_contents(r) == Set::<H256>::empty(),
    {
        H256Set { inner: fnv::FnvHashSet::default() }
    }

    /// `HashSet::insert`: afterwards the set holds `h` besides what it held,
    /// and the result tells whether `h` was new.
    #[verifier::external_body]
    pub(crate) fn insert(&mut self, h: H256) -> (r: bool)
        ensures
            set_contents(*final(self)) == set_contents(*old(self)).insert(h),
            r == !set_contents(*old(self)).contains(h),
    {
        self.inner.insert((h.0, h.1, h.2, h.3))
    }

    /// `HashSet::contains`: whether the set holds `h`.
    #[verifier::external_body]
    pub(crate) fn contains(&self, h: &H256) -> (r: bool)
        ensures
            r == set_contents(*self).contains(*h),
    {
        self.inner.contains(&(h.0, h.1, h.2, h.3))
    }

    /// `HashSet::len`: the number of digests held.
    #[verifier::external_body]
    pub(crate) fn len(&self) -> (r: usize)
        ensures
            r == set_contents(*self).len(),
    {
        self.inner.len()
    }
}

impl H256Map {
    /// `FnvHashMap::default`: a map that holds nothing.
    #[verifier::external_body]
    pub(crate) fn new() -> (r: H256Map)
        ensures
            map_contents(r).dom() == Set::<H256>::empty(),
    {
        H256Map { inner: fnv::FnvHashMap::default() }
    }

    /// `HashMap::insert`: afterwards `h` maps to `position`, and every other
    /// entry is as it was.
    #[verifier::external_body]
    pub(crate) fn insert(&mut self, h: H256, position: usize)
        ensures
            map_contents(*final(self)) == map_contents(*old(self)).insert(h, position),
    {
        self.inner.insert((h.0, h.1, h.2, h.3), position);
    }

    /// `HashMap::get`: the position that `h` maps to, if it has an entry.
    #[verifier::external_body]
    pub(crate) fn get(&self, h: &H256) -> (r: Option<usize>)
        ensures
            r == (if map_contents(*self).dom().contains(*h) {
                Some(map_contents(*self)[*h])
            } else {
                None
            }),
    {
        self.inner.get(&(h.0, h.1, h.2, h.3)).copied()
    }
}

} // verus!
