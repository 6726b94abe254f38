//! A hash set keyed through the SHA-256 accumulator: each value is hashed by
//! a fresh `SvmSHA256Hasher`. Buckets, collisions, resizing and iteration
//! order are hashbrown's. The set's contents are modelled as a `Set<K>`.
use vstd::prelude::*;

use crate::accumulator::SvmBuildHasher;
use crate::key::KeyModel;

verus! {

/// The hashbrown table, held opaque.
#[verifier::external_body]
#[verifier::reject_recursive_types(K)]
struct SetTable<K> {
    inner: hashbrown::HashSet<K, SvmBuildHasher>,
}

/// A hash set whose values are hashed by `SvmSHA256Hasher`, over a hashbrown
/// table.
#[verifier::reject_recursive_types(K)]
pub struct HashSet<K> {
    table: SetTable<K>,
    contents: Ghost<Set<K>>,
}

impl<K> View for HashSet<K> {
    type V = Set<K>;

    /// The values the set holds.
    closed spec fn view(&self) -> Set<K> {
        self.contents@
    }
}

impl<K> HashSet<K> {
    /// An empty set; it allocates on the first insertion.
    pub fn new() -> (r: HashSet<K>)
        ensures
            (r@ == Set::<K>::empty()),
    {
        HashSet::with_capacity(0)
    }

    /// Relies on `hashbrown::HashSet::with_capacity_and_hasher`: an empty set
    /// with room for `capacity` values, hashing through fresh accumulators.
    #[verifier::external_body]
    pub fn with_capacity(capacity: usize) -> (r: HashSet<K>)
        ensures
            (r@ == Set::<K>::empty()),
    {
        HashSet {
            table: SetTable {
                inner: hashbrown::HashSet::with_capacity_and_hasher(
                    capacity,
                    SvmBuildHasher::default(),
                ),
            },
            contents: Ghost(Set::empty()),
        }
    }
}

impl<K: KeyModel> HashSet<K> {
    /// Relies on `hashbrown::HashSet::insert`: adds `value`, reporting whether
    /// it was absent.
    #[verifier::external_body]
    pub fn insert(&mut self, value: K) -> (r: bool)
        ensures
            final(self)@ == old(self)@.insert(value),
            r == !old(self)@.contains(value),
    {
        self.table.inner.insert(value)
    }

    /// Relies on `hashbrown::HashSet::contains`: whether `value` is present.
    #[verifier::external_body]
    pub fn contains(&self, value: &K) -> (r: bool)
        ensures
            r == self@.contains(*value),
    {
        self.table.inner.contains(value)
    }
}

impl<K: KeyModel> FromIterator<K> for HashSet<K> {
    /// Relies on hashbrown's `FromIterator` for its set: the values are
    /// inserted in turn.
    #[verifier::external_body]
    fn from_iter<T: IntoIterator<Item = K>>(iter: T) -> (r: HashSet<K>) {
        HashSet {
            table: SetTable { inner: hashbrown::HashSet::from_iter(iter) },
            contents: Ghost(Set::empty()),
        }
    }
}

impl<K: KeyModel, const N: usize> From<[K; N]> for HashSet<K> {
    /// Relies on hashbrown's `FromIterator` for its set, which inserts the
    /// values in turn.
    #[verifier::external_body]
    fn from(values: [K; N]) -> (r: HashSet<K>)
        ensures
            r@ == values@.to_set(),
    {
        HashSet {
            table: SetTable { inner: hashbrown::HashSet::from_iter(values) },
            contents: Ghost(values@.to_set()),
        }
    }
}

} // verus!
