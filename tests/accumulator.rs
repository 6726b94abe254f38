use core::hash::{Hash, Hasher};

use sha2::{Digest, Sha256};
use svm_hasher::{digest, SvmSHA256Hasher};

fn sha256(bytes: &[u8]) -> [u8; 32] {
    let mut out = [0u8; 32];
    out.copy_from_slice(&Sha256::digest(bytes));
    out
}

fn summary(d: &[u8; 32]) -> u64 {
    u64::from_le_bytes(d[..8].try_into().unwrap())
}

fn absorb_all(chunks: &[&[u8]]) -> u64 {
    let mut h = SvmSHA256Hasher::default();
    for chunk in chunks {
        h.write(chunk);
    }
    h.finish()
}

#[test]
fn digest_of_abc_is_the_standard_vector() {
    let d = digest(&[], b"abc");
    assert_eq!(
        d[..],
        [
            0xba, 0x78, 0x16, 0xbf, 0x8f, 0x01, 0xcf, 0xea, 0x41, 0x41, 0x40, 0xde, 0x5d, 0xae,
            0x22, 0x23, 0xb0, 0x03, 0x61, 0xa3, 0x96, 0x17, 0x7a, 0x9c, 0xb4, 0x10, 0xff, 0x61,
            0xf2, 0x00, 0x15, 0xad
        ][..]
    );
}

#[test]
fn digest_hashes_the_concatenation() {
    assert_eq!(digest(b"ab", b"c"), digest(&[], b"abc"));
    assert_eq!(digest(b"abc", &[]), sha256(b"abc"));
}

#[test]
fn first_call_is_plain_sha256() {
    let mut h = SvmSHA256Hasher::default();
    h.write(b"abc");
    assert_eq!(h.finish(), 0xeacf018fbf1678ba);
    assert_eq!(h.finish(), summary(&sha256(b"abc")));
}

#[test]
fn first_call_on_empty_input() {
    let mut h = SvmSHA256Hasher::default();
    h.write(&[]);
    assert_eq!(h.finish(), 0x141cfc9842c4b0e3);
}

#[test]
fn second_call_chains_on_the_first_digest() {
    let mut h = SvmSHA256Hasher::default();
    h.write(b"abc");
    h.write(b"def");
    let mut chained = sha256(b"abc").to_vec();
    chained.extend_from_slice(b"def");
    assert_eq!(h.finish(), summary(&sha256(&chained)));
    assert_eq!(h.finish(), 0x75de7fb7164bc4d9);
    assert_ne!(h.finish(), summary(&sha256(b"abcdef")));
    assert_eq!(summary(&sha256(b"abcdef")), 0x406d3af5c77ef5be);
}

#[test]
fn three_calls_chain_in_order() {
    let mut expected = sha256(b"x");
    for part in [&b"yy"[..], &b"zzz"[..]] {
        let mut input = expected.to_vec();
        input.extend_from_slice(part);
        expected = sha256(&input);
    }
    assert_eq!(absorb_all(&[b"x", b"yy", b"zzz"]), summary(&expected));
    assert_ne!(absorb_all(&[b"x", b"yy", b"zzz"]), absorb_all(&[b"zzz", b"yy", b"x"]));
}

#[test]
fn same_chunks_give_the_same_summary() {
    let chunks: [&[u8]; 3] = [b"hello", b" ", b"world"];
    assert_eq!(absorb_all(&chunks), absorb_all(&chunks));
    let mut a = SvmSHA256Hasher::default();
    let mut b = SvmSHA256Hasher::default();
    a.write(b"key");
    b.write(b"key");
    assert_eq!(a.finish(), b.finish());
}

#[test]
fn a_different_split_chains_differently() {
    assert_ne!(absorb_all(&[b"a", b"b"]), absorb_all(&[b"ab"]));
}

#[test]
fn distinct_inputs_give_distinct_summaries() {
    let mut seen = std::collections::HashSet::new();
    for i in 0u32..2000 {
        let bytes = i.to_le_bytes();
        assert!(seen.insert(absorb_all(&[&bytes])));
    }
    assert_ne!(absorb_all(&[b"a"]), absorb_all(&[b"b"]));
}

#[test]
fn finish_reads_without_changing_state() {
    let mut h = SvmSHA256Hasher::default();
    h.write(b"state");
    let first = h.finish();
    assert_eq!(h.finish(), first);
    h.write(b"more");
    assert_ne!(h.finish(), first);
}

#[test]
fn trait_finish_before_any_write_is_zero() {
    let h = SvmSHA256Hasher::default();
    assert_eq!(Hasher::finish(&h), 0);
}

#[test]
fn trait_write_and_finish_agree_with_inherent_ones() {
    let mut a = SvmSHA256Hasher::default();
    let mut b = SvmSHA256Hasher::default();
    Hasher::write(&mut a, b"abc");
    b.write(b"abc");
    assert_eq!(Hasher::finish(&a), b.finish());
    assert_eq!(Hasher::finish(&a), 0xeacf018fbf1678ba);
}

#[test]
fn hashing_a_slice_writes_its_length_then_its_bytes() {
    let data: &[u8] = b"abc";
    let mut h = SvmSHA256Hasher::default();
    data.hash(&mut h);
    let mut expected = SvmSHA256Hasher::default();
    expected.write(&3usize.to_ne_bytes());
    expected.write(b"abc");
    assert_eq!(Hasher::finish(&h), expected.finish());
}
