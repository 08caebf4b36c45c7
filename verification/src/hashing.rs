//! The seed digest: a sequential Rescue Prime Optimized hash over a seed and
//! the account's code and storage commitments.
//!
//! The hash itself is computed by an outside implementation; its output is
//! named by the uninterpreted function [`rpo_digest_of`], and everything this
//! crate states about a digest is a function of that name.

use vstd::prelude::*;
use vstd::std_specs::bits::u64_trailing_zeros;
use crate::field::{Word, is_felt, wf_word};
use miden_crypto::Felt;
use miden_crypto::field::PrimeField64;
use miden_crypto::hash::rpo::Rpo256;

verus! {

/// A four-element hash digest, each element a canonical field element.
#[derive(Debug, Clone, Copy, PartialEq, Eq)]
pub struct Digest(pub [u64; 4]);

impl View for Digest {
    type V = Seq<u64>;

    open spec fn view(&self) -> Seq<u64> {
        self.0@
    }
}

impl Digest {
    /// Whether every element is a canonical field element.
    pub open spec fn wf(self) -> bool {
        wf_word(self@)
    }
}

/// The digest the Rescue Prime Optimized hash assigns to a sequence of field
/// elements. The hash is a pure function of the input elements; its value is
/// left uninterpreted here.
pub uninterp spec fn rpo_digest_of(input: Seq<u64>) -> Seq<u64>;

/// Relies on `miden_crypto::hash::rpo::Rpo256::hash_elements`: a deterministic
/// hash from a sequence of field elements to a four-element digest, each
/// output element again a canonical field element.
#[verifier::external_body]
fn rpo_hash_elements(input: &Vec<u64>) -> (r: [u64; 4])
    requires
        wf_word(input@),
    ensures
        r@ == rpo_digest_of(input@),
        forall|i: int| 0 <= i < 4 ==> is_felt(#[trigger] r@[i]),
{
    let felts: Vec<Felt> = input.iter().map(|v| Felt::new(*v)).collect();
    let digest = Rpo256::hash_elements(&felts);
    let e = digest.as_elements();
    [
        e[0].as_canonical_u64(),
        e[1].as_canonical_u64(),
        e[2].as_canonical_u64(),
        e[3].as_canonical_u64(),
    ]
}

/// The 16-element hash input: seed, code commitment and storage commitment,
/// padded with four zero (additive identity) elements.
pub open spec fn digest_input(seed: Seq<u64>, code: Seq<u64>, storage: Seq<u64>) -> Seq<u64> {
    seed + code + storage + seq![0u64, 0u64, 0u64, 0u64]
}

/// The seed digest of an account: the hash of [`digest_input`].
pub open spec fn spec_seed_digest(seed: Seq<u64>, code: Seq<u64>, storage: Seq<u64>) -> Seq<u64> {
    rpo_digest_of(digest_input(seed, code, storage))
}

/// Returns the digest of two hashing permutations over the seed, code
/// commitment, storage commitment and padding.
pub fn compute_digest(seed: Word, code_commitment: Digest, storage_commitment: Digest) -> (r:
    Digest)
    requires
        wf_word(seed@),
        code_commitment.wf(),
        storage_commitment.wf(),
    ensures
        r@ == spec_seed_digest(seed@, code_commitment@, storage_commitment@),
        r.wf(),
{
    let mut elements: Vec<u64> = Vec::new();
    let mut i: usize = 0;
    while i < 4
        invariant
            0 <= i <= 4,
            elements@ == seed@.take(i as int),
        decreases 4 - i,
    {
        elements.push(seed[i]);
        i = i + 1;
    }
    let mut i: usize = 0;
    while i < 4
        invariant
            0 <= i <= 4,
            elements@ == seed@ + code_commitment@.take(i as int),
        decreases 4 - i,
    {
        elements.push(code_commitment.0[i]);
        i = i + 1;
    }
    let mut i: usize = 0;
    while i < 4
        invariant
            0 <= i <= 4,
            elements@ == seed@ + code_commitment@ + storage_commitment@.take(i as int),
        decreases 4 - i,
    {
        elements.push(storage_commitment.0[i]);
        i = i + 1;
    }
    let mut i: usize = 0;
    while i < 4
        invariant
            0 <= i <= 4,
            elements@ == seed@ + code_commitment@ + storage_commitment@ + seq![
                0u64,
                0u64,
                0u64,
                0u64,
            ].take(i as int),
        decreases 4 - i,
    {
        elements.push(0);
        i = i + 1;
    }
    proof {
        assert(elements@ =~= digest_input(seed@, code_commitment@, storage_commitment@));
    }
    Digest(rpo_hash_elements(&elements))
}

/// Given a digest, returns its proof-of-work: the number of trailing zero
/// bits in its last element.
pub fn digest_pow(digest: Digest) -> (r: u32)
    ensures
        r == u64_trailing_zeros(digest@[3]),
        r <= 64,
{
    proof {
        vstd::std_specs::bits::axiom_u64_trailing_zeros(digest.0[3]);
    }
    digest.0[3].trailing_zeros()
}

} // verus!
