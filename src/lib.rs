//! An incremental SHA-256 hash accumulator for hash-based containers running
//! under a metered execution environment, the containers built on it, and
//! the logic of a diagnostics program that exercises both.
mod accumulator;
mod digest;
mod harness;
mod hashmap;
mod hashset;
mod key;
mod laws;
mod sealed;

pub use accumulator::{
    absorb_step, chain_digest, le_value, summary, SvmBuildHasher, SvmSHA256Hasher,
};
pub use digest::{digest, sha256, DIGEST_BYTES};
pub use harness::{
    command_of, into_slices, is_well_framed, key_at, key_of, lookup_matches, map_test_passes,
    push_cost_pair, record_payloads, same_key, test_hash_map, test_hash_set, units_used,
    well_framed, Command, Error,
};
pub use hashmap::{map_of_entries, HashMap};
pub use hashset::HashSet;
pub use key::KeyModel;
pub use laws::{lemma_chain_step, lemma_chaining, lemma_first_call_elision};
