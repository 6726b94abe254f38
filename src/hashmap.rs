//! A hash map keyed through the SHA-256 accumulator: each key is hashed by a
//! fresh `SvmSHA256Hasher`. Buckets, collisions, resizing and iteration order
//! are hashbrown's. The map's contents are modelled as a `Map<K, V>`.
use vstd::prelude::*;

use crate::accumulator::SvmBuildHasher;
use crate::key::KeyModel;

verus! {

/// The hashbrown table, held opaque.
#[verifier::external_body]
#[verifier::reject_recursive_types(K)]
#[verifier::reject_recursive_types(V)]
struct MapTable<K, V> {
    inner: hashbrown::HashMap<K, V, SvmBuildHasher>,
}

/// The map that inserting `entries` in order into an empty map gives: a
/// later entry replaces an earlier one with an equal key.
pub open spec fn map_of_entries<K, V>(entries: Seq<(K, V)>) -> Map<K, V>
    decreases entries.len(),
{
    if entries.len() == 0 {
        Map::empty()
    } else {
        map_of_entries(entries.drop_last()).insert(entries.last().0, entries.last().1)
    }
}

/// A hash map whose keys are hashed by `SvmSHA256Hasher`, over a hashbrown
/// table.
#[verifier::reject_recursive_types(K)]
#[verifier::reject_recursive_types(V)]
pub struct HashMap<K, V> {
    table: MapTable<K, V>,
    contents: Ghost<Map<K, V>>,
}

impl<K, V> View for HashMap<K, V> {
    type V = Map<K, V>;

    /// The entries the map holds.
    closed spec fn view(&self) -> Map<K, V> {
        self.contents@
    }
}

impl<K, V> HashMap<K, V> {
    /// An empty map; it allocates on the first insertion.
    pub fn new() -> (r: HashMap<K, V>)
        ensures
            (r@ == Map::<K, V>::empty()),
    {
        HashMap::with_capacity(0)
    }

    /// Relies on `hashbrown::HashMap::with_capacity_and_hasher`: an empty map
    /// with room for `capacity` entries, hashing through fresh accumulators.
    #[verifier::external_body]
    pub fn with_capacity(capacity: usize) -> (r: HashMap<K, V>)
        ensures
            (r@ == Map::<K, V>::empty()),
    {
        HashMap {
            table: MapTable {
                inner: hashbrown::HashMap::with_capacity_and_hasher(
                    capacity,
                    SvmBuildHasher::default(),
                ),
            },
            contents: Ghost(Map::empty()),
        }
    }
}

impl<K: KeyModel, V> HashMap<K, V> {
    /// Relies on `hashbrown::HashMap::insert`: maps `k` to `v`, handing back
    /// the value that `k` had.
    #[verifier::external_body]
    pub fn insert(&mut self, k: K, v: V) -> (r: Option<V>)
        ensures
            final(self)@ == old(self)@.insert(k, v),
            r == (if old(self)@.contains_key(k) {
                Some(old(self)@[k])
            } else {
                None
            }),
    {
        self.table.inner.insert(k, v)
    }

    /// Relies on `hashbrown::HashMap::get`: the value of `k`, if any.
    #[verifier::external_body]
    pub fn get(&self, k: &K) -> (r: Option<&V>)
        ensures
            r == (if self@.contains_key(*k) {
                Some(&self@[*k])
            } else {
                None
            }),
    {
        self.table.inner.get(k)
    }
}

impl<K: KeyModel, V> FromIterator<(K, V)> for HashMap<K, V> {
    /// Relies on hashbrown's `FromIterator` for its map: the entries are
    /// inserted in turn, a later one replacing an earlier one with an equal
    /// key.
    #[verifier::external_body]
    fn from_iter<T: IntoIterator<Item = (K, V)>>(iter: T) -> (r: HashMap<K, V>) {
        HashMap {
            table: MapTable { inner: hashbrown::HashMap::from_iter(iter) },
            contents: Ghost(Map::empty()),
        }
    }
}

impl<K: KeyModel, V, const N: usize> From<[(K, V); N]> for HashMap<K, V> {
    /// Relies on hashbrown's `FromIterator` for its map, which inserts the
    /// entries in turn.
    #[verifier::external_body]
    fn from(entries: [(K, V); N]) -> (r: HashMap<K, V>)
        ensures
            r@ == map_of_entries(entries@),
    {
        HashMap {
            table: MapTable { inner: hashbrown::HashMap::from_iter(entries) },
            contents: Ghost(map_of_entries(entries@)),
        }
    }
}

} // verus!
