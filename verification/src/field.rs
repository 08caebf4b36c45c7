//! The integer domain of field elements.
//!
//! Every value flowing through identifier derivation is an element of the
//! 64-bit Goldilocks prime field, represented here by its canonical integer
//! in `[0, FIELD_MODULUS)`. This module also provides the bit-counting
//! machinery the identifier invariants are stated with.

use vstd::prelude::*;
use vstd::arithmetic::power2::{pow2, lemma_pow2_adds, lemma2_to64};

verus! {

/// Order of the Goldilocks prime field: `2^64 - 2^32 + 1`.
pub const FIELD_MODULUS: u64 = 0xFFFF_FFFF_0000_0001;

/// A word of four field elements, each held as its canonical integer.
pub type Word = [u64; 4];

/// Whether `value` is the canonical integer of a field element.
pub open spec fn is_felt(value: u64) -> bool {
    value < FIELD_MODULUS
}

/// Whether every element of `w` is a canonical field element.
pub open spec fn wf_word(w: Seq<u64>) -> bool {
    forall|i: int| 0 <= i < w.len() ==> is_felt(#[trigger] w[i])
}

/// Number of one-bits in `x` (its Hamming weight).
pub open spec fn count_ones(x: u64) -> nat
    decreases x,
{
    if x == 0 {
        0
    } else {
        ((x % 2) + count_ones(x / 2)) as nat
    }
}

/// The Hamming weight of a value below `2^k` is at most `k`.
pub proof fn lemma_count_ones_bound(x: u64, k: nat)
    requires
        x < pow2(k),
    ensures
        count_ones(x) <= k,
    decreases k,
{
    if k == 0 {
        lemma2_to64();
    } else {
        lemma_pow2_adds((k - 1) as nat, 1);
        lemma2_to64();
        assert(x < pow2((k - 1) as nat) * 2);
        assert(x / 2 < pow2((k - 1) as nat));
        lemma_count_ones_bound(x / 2, (k - 1) as nat);
    }
}

/// Counts the one-bits of `x`.
pub fn ones_count(x: u64) -> (r: u32)
    ensures
        r == count_ones(x),
        r <= 64,
{
    proof {
        lemma2_to64();
        vstd::arithmetic::power2::lemma2_to64_rest();
        lemma_count_ones_bound(x, 64);
    }
    let mut v: u64 = x;
    let mut c: u32 = 0;
    while v != 0
        invariant
            c + count_ones(v) == count_ones(x),
            count_ones(x) <= 64,
        decreases v,
    {
        c = c + (v % 2) as u32;
        v = v / 2;
    }
    c
}

} // verus!
