//! Decisions and encodings of the diagnostics program that exercises the
//! accumulator and the containers under metering: which routine an
//! instruction selects, how its payload splits into records, and how measured
//! costs are computed and reported.
use vstd::bytes::{spec_u64_to_le_bytes, u64_to_le_bytes};
use vstd::prelude::*;

use crate::hashmap::{map_of_entries, HashMap};
use crate::hashset::HashSet;

verus! {

/// The failure that the program's self-tests report.
#[derive(Debug, Clone, Copy, PartialEq, Eq, Structural)]
pub enum Error {
    /// A container lookup disagreed with what was inserted.
    Fail,
}

impl Error {
    /// The custom error code under which the host reports this error.
    pub fn code(&self) -> (r: u32)
        ensures
            r == 0,
    {
        match self {
            Error::Fail => 0,
        }
    }
}

/// The routine that an instruction selects by its first byte.
#[derive(Debug, Clone, Copy, PartialEq, Eq, Structural)]
pub enum Command {
    /// Build maps three ways and check their lookups.
    TestHashMap,
    /// Build sets three ways and check their membership.
    TestHashSet,
    /// Meter hashing one byte string with the baseline and the accumulator.
    CompareHash,
    /// Meter set lookups under both hashers.
    CompareHashSet,
    /// Meter map lookups under both hashers.
    CompareHashMap,
    /// All three comparisons, record by record.
    CompareAll,
}

/// The command that `tag` selects, if any.
pub open spec fn command_of(tag: u8) -> Option<Command> {
    if tag == 0 {
        Some(Command::TestHashMap)
    } else if tag == 1 {
        Some(Command::TestHashSet)
    } else if tag == 2 {
        Some(Command::CompareHash)
    } else if tag == 3 {
        Some(Command::CompareHashSet)
    } else if tag == 4 {
        Some(Command::CompareHashMap)
    } else if tag == 5 {
        Some(Command::CompareAll)
    } else {
        None
    }
}

impl Command {
    /// Decodes an instruction's first byte; `None` for an unknown tag.
    pub fn from_tag(tag: u8) -> (r: Option<Command>)
        ensures
            r == command_of(tag),
    {
        match tag {
            0 => Some(Command::TestHashMap),
            1 => Some(Command::TestHashSet),
            2 => Some(Command::CompareHash),
            3 => Some(Command::CompareHashSet),
            4 => Some(Command::CompareHashMap),
            5 => Some(Command::CompareAll),
            _ => None,
        }
    }
}

/// Whether `s` is a run of records, each a length byte `n`, with `n >= 1`,
/// followed by `n` further bytes.
pub open spec fn well_framed(s: Seq<u8>) -> bool
    decreases s.len(),
{
    if s.len() == 0 {
        true
    } else {
        &&& 1 <= s[0]
        &&& s[0] + 1 <= s.len()
        &&& well_framed(s.subrange(s[0] + 1, s.len() as int))
    }
}

/// The payloads of the records of `s`: of a record with length byte `n` at
/// offset `o`, the bytes at offsets `o + 1` up to, not including, `o + n`.
pub open spec fn record_payloads(s: Seq<u8>) -> Seq<Seq<u8>>
    decreases s.len(),
{
    if s.len() == 0 || s[0] < 1 || s[0] + 1 > s.len() {
        Seq::empty()
    } else {
        seq![s.subrange(1, s[0] as int)] + record_payloads(s.subrange(s[0] + 1, s.len() as int))
    }
}

/// Whether `data` is a run of length-prefixed records that `into_slices`
/// accepts.
pub fn is_well_framed(data: &[u8]) -> (r: bool)
    ensures
        r == well_framed(data@),
{
    let n = data.len();
    let mut pos: usize = 0;
    assert(data@.subrange(0, n as int) =~= data@);
    while pos < n
        invariant
            n == data@.len(),
            pos <= n,
            well_framed(data@) == well_framed(data@.subrange(pos as int, n as int)),
        decreases n - pos,
    {
        let ghost rest = data@.subrange(pos as int, n as int);
        let len = data[pos] as usize;
        assert(rest[0] == data@[pos as int]);
        if len < 1 || len > n - pos - 1 {
            return false;
        }
        assert(rest.subrange(len + 1, rest.len() as int) =~= data@.subrange(
            pos + len + 1,
            n as int,
        ));
        pos = pos + 1 + len;
    }
    assert(data@.subrange(n as int, n as int) =~= Seq::<u8>::empty());
    true
}

/// Splits a run of length-prefixed records into their payloads, each given
/// twice, as a key and as its value.
pub fn into_slices(data: &[u8]) -> (r: Vec<(&[u8], &[u8])>)
    requires
        well_framed(data@),
    ensures
        r@.len() == record_payloads(data@).len(),
        forall|i: int|
            0 <= i < r@.len() ==> r@[i].0@ == record_payloads(data@)[i] && r@[i].1@
                == record_payloads(data@)[i],
{
    let mut result: Vec<(&[u8], &[u8])> = Vec::new();
    let mut pos: usize = 0;
    let n = data.len();
    let ghost done: Seq<Seq<u8>> = Seq::empty();
    assert(data@.subrange(0, n as int) =~= data@);
    while pos < n
        invariant
            n == data@.len(),
            pos <= n,
            well_framed(data@.subrange(pos as int, n as int)),
            record_payloads(data@) == done + record_payloads(data@.subrange(pos as int, n as int)),
            result@.len() == done.len(),
            forall|i: int|
                0 <= i < result@.len() ==> result@[i].0@ == done[i] && result@[i].1@ == done[i],
        decreases n - pos,
    {
        let ghost rest = data@.subrange(pos as int, n as int);
        let len = data[pos] as usize;
        let payload = &data[pos + 1..pos + len];
        proof {
            assert(rest[0] == data@[pos as int]);
            assert(rest.subrange(1, len as int) =~= payload@);
            assert(rest.subrange(len + 1, rest.len() as int) =~= data@.subrange(
                pos + len + 1,
                n as int,
            ));
            assert(done + record_payloads(rest) =~= done.push(payload@) + record_payloads(
                data@.subrange(pos + len + 1, n as int),
            ));
            done = done.push(payload@);
        }
        result.push((payload, payload));
        pos = pos + 1 + len;
    }
    assert(data@.subrange(n as int, n as int) =~= Seq::<u8>::empty());
    assert(done + Seq::<Seq<u8>>::empty() =~= done);
    result
}

/// Compute units that a metered operation used: the meter read `before` it
/// and `after` it, and each reading of the meter itself costs `probe_cost`.
/// The arithmetic wraps modulo 2^64, as unchecked `u64` arithmetic does.
pub fn units_used(before: u64, after: u64, probe_cost: u64) -> (r: u64)
    ensures
        r as int == (before as int - (after as int + probe_cost as int)) % 0x1_0000_0000_0000_0000,
{
    let spent = after.wrapping_add(probe_cost);
    assert(spent as int == (after as int + probe_cost as int) % 0x1_0000_0000_0000_0000);
    before.wrapping_sub(spent)
}

/// Appends the costs of one comparison to the program's return data: the
/// baseline hasher's, then the accumulator's, each as eight little-endian
/// bytes.
pub fn push_cost_pair(out: &mut Vec<u8>, baseline: u64, custom: u64)
    ensures
        final(out)@ == old(out)@ + spec_u64_to_le_bytes(baseline) + spec_u64_to_le_bytes(custom),
{
    let mut first = u64_to_le_bytes(baseline);
    let mut second = u64_to_le_bytes(custom);
    out.append(&mut first);
    out.append(&mut second);
}

/// The 32-byte key at position `index` of `data`.
pub fn key_at(data: &[u8], index: usize) -> (r: [u8; 32])
    requires
        32 * index + 32 <= data@.len(),
    ensures
        r@ == data@.subrange(32 * index, 32 * index + 32),
{
    let n = data.len();
    assert(32 * index + 32 <= n);
    let start = 32 * index;
    let mut key = [0u8; 32];
    let mut j: usize = 0;
    while j < 32
        invariant
            start == 32 * index,
            start + 32 <= data@.len(),
            j <= 32,
            forall|m: int| 0 <= m < j ==> key@[m] == data@[start + m],
        decreases 32 - j,
    {
        key[j] = data[start + j];
        j = j + 1;
    }
    assert(key@ =~= data@.subrange(start as int, start + 32));
    key
}

/// Whether two keys hold the same bytes.
pub fn same_key(a: &[u8; 32], b: &[u8; 32]) -> (r: bool)
    ensures
        r == (a@ == b@),
{
    let mut j: usize = 0;
    while j < 32
        invariant
            j <= 32,
            forall|m: int| 0 <= m < j ==> a@[m] == b@[m],
        decreases 32 - j,
    {
        if a[j] != b[j] {
            return false;
        }
        j = j + 1;
    }
    assert(a@ =~= b@);
    true
}

/// Whether a map lookup found `expected`.
pub fn lookup_matches(found: Option<&[u8; 32]>, expected: &[u8; 32]) -> (r: bool)
    ensures
        r == (found is Some && found->0@ == expected@),
{
    match found {
        Some(value) => same_key(value, expected),
        None => false,
    }
}

/// The 32-byte key at position `i` of `data`.
pub open spec fn key_of(data: Seq<u8>, i: int) -> Seq<u8> {
    data.subrange(32 * i, 32 * i + 32)
}

/// Whether the map self-test passes on `data`: key `i` is mapped to key
/// `3 - i`, so the lookups all succeed exactly when equal keys are given
/// equal values.
pub open spec fn map_test_passes(data: Seq<u8>) -> bool {
    forall|i: int, j: int|
        0 <= i < 4 && 0 <= j < 4 && #[trigger] key_of(data, i) == #[trigger] key_of(data, j)
            ==> key_of(data, 3 - i) == key_of(data, 3 - j)
}

/// The map that the map self-test builds, three times over.
spec fn reversed_map(k: [[u8; 32]; 4]) -> Map<[u8; 32], [u8; 32]> {
    Map::empty().insert(k[0], k[3]).insert(k[1], k[2]).insert(k[2], k[1]).insert(k[3], k[0])
}

/// Whether a map gives back, for each of four keys, the value paired with it.
spec fn holds_pairs(m: Map<[u8; 32], [u8; 32]>, keys: [[u8; 32]; 4], values: [[u8; 32]; 4]) -> bool {
    forall|i: int| 0 <= i < 4 ==> m.contains_key(keys[i]) && m[keys[i]] == values[i]
}

proof fn lemma_reversed_map(k: [[u8; 32]; 4], data: Seq<u8>)
    requires
        data.len() >= 128,
        forall|i: int| 0 <= i < 4 ==> k[i]@ == #[trigger] key_of(data, i),
    ensures
        holds_pairs(reversed_map(k), k, [k[3], k[2], k[1], k[0]]) == map_test_passes(data),
{
    let m = reversed_map(k);
    let v = [k[3], k[2], k[1], k[0]];
    assert forall|i: int, j: int| 0 <= i < 4 && 0 <= j < 4 implies (k[i] == k[j] <==> #[trigger] key_of(
        data,
        i,
    ) == #[trigger] key_of(data, j)) by {
        if key_of(data, i) == key_of(data, j) {
            assert(k[i]@ == k[j]@);
            assert(k[i] == k[j]);
        }
    }
    assert(v[0] == k[3] && v[1] == k[2] && v[2] == k[1] && v[3] == k[0]);
    if holds_pairs(m, k, v) {
        assert forall|i: int, j: int|
            0 <= i < 4 && 0 <= j < 4 && #[trigger] key_of(data, i) == #[trigger] key_of(
                data,
                j,
            ) implies key_of(
            data,
            3 - i,
        ) == key_of(data, 3 - j) by {
            assert(m[k[i]] == v[i]);
            assert(m[k[j]] == v[j]);
            assert(v[i] == k[3 - i]);
            assert(v[j] == k[3 - j]);
        }
    }
    if map_test_passes(data) {
        assert forall|i: int, j: int| 0 <= i < 4 && 0 <= j < 4 && #[trigger] k[i] == #[trigger] k[j] implies k[3 - i]
            == k[3 - j] by {
            assert(key_of(data, i) == key_of(data, j));
            assert(key_of(data, 3 - i) == key_of(data, 3 - j));
        }
        assert(k[0] == k[1] ==> k[3] == k[2]);
        assert(k[0] == k[2] ==> k[3] == k[1]);
        assert(k[1] == k[3] ==> k[2] == k[0]);
        assert(k[2] == k[3] ==> k[1] == k[0]);
        assert(m[k[3]] == k[0]);
        assert(m[k[2]] == k[1]);
        assert(m[k[1]] == k[2]);
        assert(m[k[0]] == k[3]);
        assert(holds_pairs(m, k, v));
    }
}

/// Whether a map gives back, for each of the four keys, the value paired
/// with it.
fn map_holds(
    m: &HashMap<[u8; 32], [u8; 32]>,
    keys: &[[u8; 32]; 4],
    values: &[[u8; 32]; 4],
) -> (r: bool)
    ensures
        r == holds_pairs(m@, *keys, *values),
{
    let r = lookup_matches(m.get(&keys[0]), &values[0])
        && lookup_matches(m.get(&keys[1]), &values[1])
        && lookup_matches(m.get(&keys[2]), &values[2])
        && lookup_matches(m.get(&keys[3]), &values[3]);
    proof {
        if r {
            assert forall|i: int| 0 <= i < 4 implies m@.contains_key(keys[i]) && m@[keys[i]]
                == values[i] by {
                assert(m@[keys[i]]@ == values[i]@);
            }
        } else if holds_pairs(m@, *keys, *values) {
            assert(m@[keys[0]] == values[0]);
            assert(m@[keys[1]] == values[1]);
            assert(m@[keys[2]] == values[2]);
            assert(m@[keys[3]] == values[3]);
        }
    }
    r
}

/// Whether a set holds each of the four keys.
fn set_holds(s: &HashSet<[u8; 32]>, keys: &[[u8; 32]; 4]) -> (r: bool)
    ensures
        r == (s@.contains(keys[0]) && s@.contains(keys[1]) && s@.contains(keys[2]) && s@.contains(
            keys[3],
        )),
{
    s.contains(&keys[0]) && s.contains(&keys[1]) && s.contains(&keys[2]) && s.contains(&keys[3])
}

/// Self-test of the map: the first four 32-byte keys of `data` are mapped
/// to the same keys in reverse order, built from an array, inserted into an
/// empty map and inserted into a pre-sized map; each map must give back every
/// value. It fails, with `Error::Fail`, exactly when two equal keys are given
/// different values.
pub fn test_hash_map(data: &[u8]) -> (r: Result<(), Error>)
    requires
        data@.len() >= 128,
    ensures
        r == (if map_test_passes(data@) {
            Ok(())
        } else {
            Err(Error::Fail)
        }),
{
    let k1 = key_at(data, 0);
    let k2 = key_at(data, 1);
    let k3 = key_at(data, 2);
    let k4 = key_at(data, 3);
    let keys = [k1, k2, k3, k4];
    let values = [k4, k3, k2, k1];
    proof {
        lemma_reversed_map(keys, data@);
        assert(values == [keys[3], keys[2], keys[1], keys[0]]);
    }

    let entries = [(k1, k4), (k2, k3), (k3, k2), (k4, k1)];
    let map = HashMap::from(entries);
    proof {
        assert(entries@ =~= seq![(k1, k4), (k2, k3), (k3, k2), (k4, k1)]);
        reveal_with_fuel(map_of_entries, 5);
        assert(map_of_entries(entries@) == reversed_map(keys));
    }
    if !map_holds(&map, &keys, &values) {
        return Err(Error::Fail);
    }

    let mut map = HashMap::new();
    map.insert(k1, k4);
    map.insert(k2, k3);
    map.insert(k3, k2);
    map.insert(k4, k1);
    assert(map@ == reversed_map(keys));
    if !map_holds(&map, &keys, &values) {
        return Err(Error::Fail);
    }

    let mut map = HashMap::with_capacity(4);
    map.insert(k1, k4);
    map.insert(k2, k3);
    map.insert(k3, k2);
    map.insert(k4, k1);
    assert(map@ == reversed_map(keys));
    if !map_holds(&map, &keys, &values) {
        return Err(Error::Fail);
    }
    Ok(())
}

/// Self-test of the set: the first four 32-byte keys of `data` are put in a
/// set built from an array, inserted into an empty set and inserted into a
/// pre-sized set; each set must contain every key, so it always succeeds.
pub fn test_hash_set(data: &[u8]) -> (r: Result<(), Error>)
    requires
        data@.len() >= 128,
    ensures
        r == Ok::<(), Error>(()),
{
    let k1 = key_at(data, 0);
    let k2 = key_at(data, 1);
    let k3 = key_at(data, 2);
    let k4 = key_at(data, 3);
    let keys = [k1, k2, k3, k4];

    let values = [k1, k2, k3, k4];
    let set = HashSet::from(values);
    proof {
        assert(values@ =~= seq![k1, k2, k3, k4]);
        assert(values@.contains(k1) && values@[0] == k1);
        assert(values@[1] == k2 && values@[2] == k3 && values@[3] == k4);
    }
    if !set_holds(&set, &keys) {
        return Err(Error::Fail);
    }

    let mut set = HashSet::new();
    set.insert(k1);
    set.insert(k2);
    set.insert(k3);
    set.insert(k4);
    if !set_holds(&set, &keys) {
        return Err(Error::Fail);
    }

    let mut set = HashSet::with_capacity(4);
    set.insert(k1);
    set.insert(k2);
    set.insert(k3);
    set.insert(k4);
    if !set_holds(&set, &keys) {
        return Err(Error::Fail);
    }
    Ok(())
}

} // verus!
