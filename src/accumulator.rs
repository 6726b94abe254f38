//! The hash accumulator: absorbs byte strings one call at a time, chaining
//! each call onto the digest of all earlier ones, and narrows the retained
//! digest to a 64-bit summary.
use core::hash::{BuildHasherDefault, Hasher};
use vstd::prelude::*;

use crate::digest::{digest, sha256, DIGEST_BYTES};

verus! {

/// The digest that absorbing `bytes` produces, given the digest retained so
/// far (`None` before the first absorption, when nothing is prepended).
pub open spec fn absorb_step(prior: Option<Seq<u8>>, bytes: Seq<u8>) -> Seq<u8> {
    match prior {
        Option::None => sha256(bytes),
        Option::Some(d) => sha256(d + bytes),
    }
}

/// The digest retained after absorbing `chunks`, in order, into a fresh
/// accumulator; `None` when nothing has been absorbed.
pub open spec fn chain_digest(chunks: Seq<Seq<u8>>) -> Option<Seq<u8>>
    decreases chunks.len(),
{
    if chunks.len() == 0 {
        None
    } else {
        Some(absorb_step(chain_digest(chunks.drop_last()), chunks.last()))
    }
}

/// The unsigned value of `bytes` read in little-endian order.
pub open spec fn le_value(bytes: Seq<u8>) -> nat
    decreases bytes.len(),
{
    if bytes.len() == 0 {
        0
    } else {
        bytes[0] as nat + 256 * le_value(bytes.drop_first())
    }
}

/// The 64-bit summary of a digest: its first eight bytes, little-endian.
pub open spec fn summary(d: Seq<u8>) -> int {
    le_value(d.take(8)) as int
}

/// `256` raised to the power `n`.
pub open spec fn pow256(n: nat) -> nat
    decreases n,
{
    if n == 0 {
        1
    } else {
        256 * pow256((n - 1) as nat)
    }
}

proof fn lemma_pow256_monotone(a: nat, b: nat)
    requires
        a <= b,
    ensures
        pow256(a) <= pow256(b),
    decreases b,
{
    if a < b {
        lemma_pow256_monotone(a, (b - 1) as nat);
    }
}

/// Reads the first eight bytes of a digest as a little-endian `u64`.
fn summary_of(d: &[u8; DIGEST_BYTES]) -> (r: u64)
    ensures
        r as int == summary(d@),
{
    let mut acc: u64 = 0;
    let mut i: usize = 8;
    assert(d@.take(8).subrange(8, 8) =~= Seq::<u8>::empty());
    while i > 0
        invariant
            i <= 8,
            d@.len() == 32,
            acc as nat == le_value(d@.take(8).subrange(i as int, 8)),
            (acc as nat) < pow256((8 - i) as nat),
        decreases i,
    {
        let byte = d[i - 1];
        let ghost p = pow256((8 - i) as nat);
        proof {
            lemma_pow256_monotone((9 - i) as nat, 8);
            assert(pow256(8) == 18446744073709551616nat) by {
                reveal_with_fuel(pow256, 9);
            }
            assert(pow256((9 - i) as nat) == 256 * p);
            assert((acc as nat) * 256 + (byte as nat) < 256 * p) by (nonlinear_arith)
                requires
                    (acc as nat) < p,
                    (byte as nat) < 256,
            ;
            let s = d@.take(8).subrange(i - 1, 8);
            assert(s.drop_first() =~= d@.take(8).subrange(i as int, 8));
        }
        acc = acc * 256 + byte as u64;
        i = i - 1;
    }
    assert(d@.take(8).subrange(0, 8) =~= d@.take(8));
    acc
}

/// The incremental SHA-256 accumulator.
///
/// It starts empty. Each call of `write` hashes the retained digest (none
/// before the first call) followed by the new bytes, and retains the result;
/// `finish` reads the first eight bytes of the retained digest as a
/// little-endian `u64`.
pub struct SvmSHA256Hasher {
    state: Option<[u8; DIGEST_BYTES]>,
    absorbed: Ghost<Seq<Seq<u8>>>,
}

/// A factory of fresh accumulators, for hash-based containers.
pub type SvmBuildHasher = BuildHasherDefault<SvmSHA256Hasher>;

impl SvmSHA256Hasher {
    /// The byte strings absorbed so far, one per call of `write`, in order.
    pub closed spec fn absorbed(&self) -> Seq<Seq<u8>> {
        self.absorbed@
    }

    /// The retained digest; `None` until the first absorption.
    pub closed spec fn retained(&self) -> Option<Seq<u8>> {
        match self.state {
            Option::Some(d) => Some(d@),
            Option::None => None,
        }
    }

    #[verifier::type_invariant]
    closed spec fn inv(&self) -> bool {
        self.retained() == chain_digest(self.absorbed())
    }

    /// Absorbs `bytes`: the new retained digest is the SHA-256 digest of the
    /// previous one (left out on the first call) followed by `bytes`.
    pub fn write(&mut self, bytes: &[u8])
        ensures
            final(self).absorbed() == old(self).absorbed().push(bytes@),
            final(self).retained() == Some(absorb_step(old(self).retained(), bytes@)),
            final(self).retained() == chain_digest(final(self).absorbed()),
    {
        proof {
            use_type_invariant(&*self);
        }
        let next = match &self.state {
            Option::Some(prior) => digest(prior.as_slice(), bytes),
            Option::None => {
                let none: [u8; 0] = [];
                let d = digest(none.as_slice(), bytes);
                assert(none@ + bytes@ =~= bytes@);
                d
            },
        };
        let ghost absorbed = self.absorbed@.push(bytes@);
        assert(absorbed.drop_last() =~= self.absorbed@);
        *self = SvmSHA256Hasher { state: Some(next), absorbed: Ghost(absorbed) };
    }

    /// The 64-bit summary of the retained digest: its first eight bytes read
    /// little-endian. At least one call of `write` must have come first.
    pub fn finish(&self) -> (r: u64)
        requires
            self.absorbed().len() > 0,
        ensures
            r as int == summary(chain_digest(self.absorbed())->Some_0),
    {
        proof {
            use_type_invariant(self);
        }
        match &self.state {
            Option::Some(d) => summary_of(d),
            Option::None => 0,
        }
    }
}

impl Default for SvmSHA256Hasher {
    /// A fresh accumulator with nothing absorbed.
    fn default() -> (r: Self)
        ensures
            r.absorbed() == Seq::<Seq<u8>>::empty(),
            r.retained() == Option::<Seq<u8>>::None,
    {
        SvmSHA256Hasher { state: None, absorbed: Ghost(Seq::empty()) }
    }
}

impl Hasher for SvmSHA256Hasher {
    fn write(&mut self, bytes: &[u8])
        ensures
            final(self).absorbed() == old(self).absorbed().push(bytes@),
            final(self).retained() == Some(absorb_step(old(self).retained(), bytes@)),
    {
        SvmSHA256Hasher::write(self, bytes)
    }

    /// Containers call this only after at least one `write`; before any, no
    /// digest exists and `0` is reported.
    fn finish(&self) -> (r: u64)
        ensures
            self.absorbed().len() > 0 ==> r as int == summary(
                chain_digest(self.absorbed())->Some_0,
            ),
            self.absorbed().len() == 0 ==> r == 0,
    {
        proof {
            use_type_invariant(self);
        }
        if self.state.is_some() {
            SvmSHA256Hasher::finish(self)
        } else {
            0
        }
    }
}

} // verus!
