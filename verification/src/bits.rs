//! Single bits of a 32-bit register word.

use vstd::prelude::*;

verus! {

/// Whether bit `i` of `word` is one. Bit 0 is the least significant.
pub open spec fn bit_set(word: u32, i: u32) -> bool {
    word & (1u32 << i) != 0
}

/// Tests bit `i` of `word`.
pub fn test_bit(word: u32, i: u32) -> (r: bool)
    requires
        i < 32,
    ensures
        r == bit_set(word, i),
{
    word & (1u32 << i) != 0
}

/// `word` with bit `i` set.
pub open spec fn with_bit(word: u32, i: u32) -> u32 {
    word | (1u32 << i)
}

/// `word` with bit `i` cleared.
pub open spec fn without_bit(word: u32, i: u32) -> u32 {
    word & !(1u32 << i)
}

/// Setting bit `i` sets that bit and leaves every other bit as it was.
pub proof fn lemma_with_bit(word: u32, i: u32, j: u32)
    requires
        i < 32,
        j < 32,
    ensures
        bit_set(with_bit(word, i), j) == (j == i || bit_set(word, j)),
{
    assert(((word | (1u32 << i)) & (1u32 << j) != 0) == (j == i || word & (1u32 << j) != 0))
        by (bit_vector)
        requires
            i < 32,
            j < 32,
    ;
}

/// Clearing bit `i` clears that bit and leaves every other bit as it was.
pub proof fn lemma_without_bit(word: u32, i: u32, j: u32)
    requires
        i < 32,
        j < 32,
    ensures
        bit_set(without_bit(word, i), j) == (j != i && bit_set(word, j)),
{
    assert(((word & !(1u32 << i)) & (1u32 << j) != 0) == (j != i && word & (1u32 << j) != 0))
        by (bit_vector)
        requires
            i < 32,
            j < 32,
    ;
}

/// A word is non-zero exactly when one of its 32 bits is set.
pub proof fn lemma_nonzero_iff_some_bit(word: u32)
    ensures
        word != 0 <==> exists|i: u32| i < 32 && #[trigger] bit_set(word, i),
{
    if word != 0 {
        assert(word >> 0u32 == word) by (bit_vector);
        lemma_lowest_set(word, 0);
    }
    if exists|i: u32| i < 32 && #[trigger] bit_set(word, i) {
        let i = choose|i: u32| i < 32 && #[trigger] bit_set(word, i);
        assert(word & (1u32 << i) != 0 ==> word != 0) by (bit_vector);
    }
}

/// The least index at or above `from` whose bit is set in `word`, or 32
/// where there is none.
spec fn lowest_set(word: u32, from: u32) -> u32
    decreases 32 - from,
{
    if from >= 32 {
        32
    } else if bit_set(word, from) {
        from
    } else {
        lowest_set(word, (from + 1) as u32)
    }
}

/// A word with a bit set at or above `from` has a lowest such bit.
proof fn lemma_lowest_set(word: u32, from: u32)
    requires
        from < 32,
        word >> from != 0,
    ensures
        from <= lowest_set(word, from) < 32,
        bit_set(word, lowest_set(word, from)),
    decreases 32 - from,
{
    if !bit_set(word, from) {
        let next: u32 = (from + 1) as u32;
        assert(next < 32 && word >> next != 0) by (bit_vector)
            requires
                from < 32,
                next == from + 1,
                word >> from != 0,
                word & (1u32 << from) == 0,
        ;
        lemma_lowest_set(word, next);
    }
}

} // verus!
