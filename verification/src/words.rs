//! The windowed accumulation: a byte window is read as consecutive
//! little-endian 64-bit words, and each word is added to the accumulator
//! with wraparound (modulo 2^64) addition.

use vstd::prelude::*;
use vstd::arithmetic::div_mod::{
    lemma_add_mod_noop, lemma_mod_sub_multiples_vanish, lemma_small_mod,
};
use vstd::bytes::{spec_u64_from_le_bytes, u64_from_le_bytes};
use vstd::slice::slice_subrange;

verus! {

/// One more than `u64::MAX`: the modulus of wraparound 64-bit addition.
pub const WORD_MODULUS: u128 = 0x1_0000_0000_0000_0000;

/// The `i`-th little-endian 64-bit word of a byte sequence.
pub open spec fn le_word(bytes: Seq<u8>, i: int) -> u64 {
    spec_u64_from_le_bytes(bytes.subrange(8 * i, 8 * i + 8))
}

/// The exact (unbounded) sum of the first `n` little-endian 64-bit words
/// of a byte sequence.
pub open spec fn words_sum(bytes: Seq<u8>, n: int) -> nat
    decreases n,
{
    if n <= 0 {
        0
    } else {
        (words_sum(bytes, n - 1) + le_word(bytes, n - 1)) as nat
    }
}

/// Adds the `n` leading little-endian 64-bit words of `window` to `acc`
/// with wraparound addition.
pub fn add_words(acc: u64, window: &[u8], n: usize) -> (r: u64)
    requires
        8 * n <= window@.len(),
        window@.len() <= usize::MAX,
    ensures
        r as int == (acc + words_sum(window@, n as int)) % (WORD_MODULUS as int),
{
    let mut h = acc;
    let mut i: usize = 0;
    proof {
        lemma_small_mod(acc as nat, WORD_MODULUS as nat);
    }
    while i < n
        invariant
            i <= n,
            8 * n <= window@.len() <= usize::MAX,
            h as int == (acc + words_sum(window@, i as int)) % (WORD_MODULUS as int),
        decreases n - i,
    {
        let word_bytes = slice_subrange(window, 8 * i, 8 * i + 8);
        let w = u64_from_le_bytes(word_bytes);
        proof {
            let m: int = WORD_MODULUS as int;
            let a: int = acc + words_sum(window@, i as int);
            let s: int = h + w;
            assert(w == le_word(window@, i as int));
            assert(words_sum(window@, i as int + 1) == words_sum(window@, i as int) + w);
            lemma_small_mod(w as nat, WORD_MODULUS as nat);
            lemma_add_mod_noop(a, w as int, m);
            if s > u64::MAX {
                lemma_mod_sub_multiples_vanish(s, m);
                lemma_small_mod((s - m) as nat, WORD_MODULUS as nat);
            } else {
                lemma_small_mod(s as nat, WORD_MODULUS as nat);
            }
        }
        h = h.wrapping_add(w);
        i += 1;
    }
    h
}

} // verus!
