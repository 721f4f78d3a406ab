//! Putting flag words together.

use vstd::prelude::*;

verus! {

/// `word` with `bits` set where `on` holds, and unchanged where it does not.
pub open spec fn with_bits(word: i32, on: bool, bits: i32) -> i32 {
    if on {
        word | bits
    } else {
        word
    }
}

/// Sets `bits` in `word` where `on` holds.
pub fn set_bits(word: i32, on: bool, bits: i32) -> (r: i32)
    ensures
        r == with_bits(word, on, bits),
{
    if on {
        word | bits
    } else {
        word
    }
}

/// Setting bits keeps every bit that was set, sets every bit asked for, and
/// sets no other.
pub proof fn lemma_with_bits(word: i32, on: bool, bits: i32, probe: i32)
    ensures
        with_bits(word, on, bits) & word == word,
        on ==> with_bits(word, on, bits) & bits == bits,
        word & probe == 0 && bits & probe == 0 ==> with_bits(word, on, bits) & probe == 0,
        with_bits(0, on, bits) == (if on {
            bits
        } else {
            0
        }),
{
    assert((word | bits) & word == word) by (bit_vector);
    assert(word & word == word) by (bit_vector);
    assert((word | bits) & bits == bits) by (bit_vector);
    assert(word & probe == 0 && bits & probe == 0 ==> (word | bits) & probe == 0) by (bit_vector);
    assert(0i32 | bits == bits) by (bit_vector);
}

} // verus!
