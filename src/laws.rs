//! Laws of the accumulator, stated over the digest chain that `write` and
//! `finish` are specified by.
use vstd::prelude::*;

use crate::accumulator::chain_digest;
use crate::digest::sha256;

verus! {

/// First-call elision: a single absorption of `s` retains exactly the SHA-256
/// digest of `s`, with nothing prepended.
pub proof fn lemma_first_call_elision(s: Seq<u8>)
    ensures
        chain_digest(seq![s]) == Some(sha256(s)),
{
    assert(seq![s].drop_last() =~= Seq::<Seq<u8>>::empty());
    assert(chain_digest(Seq::<Seq<u8>>::empty()) is None);
    assert(seq![s].last() == s);
}

/// Chaining: absorbing `s1` and then `s2` retains the SHA-256 digest of the
/// digest of `s1` followed by `s2`.
pub proof fn lemma_chaining(s1: Seq<u8>, s2: Seq<u8>)
    ensures
        chain_digest(seq![s1, s2]) == Some(sha256(sha256(s1) + s2)),
{
    assert(seq![s1, s2].drop_last() =~= seq![s1]);
    assert(seq![s1, s2].last() == s2);
    lemma_first_call_elision(s1);
}

/// Each absorption after the first hashes the previously retained digest
/// followed by the new bytes.
pub proof fn lemma_chain_step(chunks: Seq<Seq<u8>>, s: Seq<u8>)
    requires
        chunks.len() > 0,
    ensures
        chain_digest(chunks.push(s)) == Some(sha256(chain_digest(chunks)->Some_0 + s)),
{
    assert(chunks.push(s).drop_last() =~= chunks);
}

} // verus!
