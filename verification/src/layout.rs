//! Where an element lies in the buffer: elements of `num_bits` bits each
//! follow one another without padding through a sequence of 32-bit words, so
//! element `index` starts at bit `index * num_bits`.

use vstd::prelude::*;
use crate::packed_element::valid_width;

verus! {

/// The number of bits in one word of the buffer.
pub const WORD_BITS: usize = 32;

/// The word in which element `index` starts.
pub open spec fn word_index(num_bits: int, index: int) -> int {
    index * num_bits / 32
}

/// The bit of that word at which element `index` starts.
pub open spec fn bit_offset(num_bits: int, index: int) -> int {
    index * num_bits % 32
}

/// The fewest words that hold `count` elements: `count * num_bits / 32`,
/// rounded up.
pub open spec fn words_needed(num_bits: int, count: int) -> int {
    (count * num_bits + 31) / 32
}

/// The number of whole elements for which `words` words have room:
/// `words * 32 / num_bits`, rounded down.
pub open spec fn slots_in(num_bits: int, words: int) -> int {
    words * 32 / num_bits
}

/// The number of elements that an array of `words` words can hold: the whole
/// elements that the words have room for, and no more than `usize::MAX`, the
/// most that an array counts.
pub open spec fn element_capacity(num_bits: int, words: int) -> int {
    if slots_in(num_bits, words) <= usize::MAX {
        slots_in(num_bits, words)
    } else {
        usize::MAX as int
    }
}

/// Where element `index` starts is at or after bit `index` and no later than
/// bit `32 * index`; the element after it starts `num_bits` bits on.
pub proof fn lemma_bit_position_bounds(num_bits: int, index: int)
    by (nonlinear_arith)
    requires
        valid_width(num_bits),
        0 <= index,
    ensures
        0 <= index * num_bits <= 32 * index,
        index <= index * num_bits,
        (index + 1) * num_bits == index * num_bits + num_bits,
{
}

/// Two different elements share no bit: bit `b` of element `j` lies before the
/// first bit of element `i` or after its last.
pub proof fn lemma_slots_disjoint(num_bits: int, i: int, j: int, b: int)
    by (nonlinear_arith)
    requires
        valid_width(num_bits),
        0 <= i,
        0 <= j,
        i != j,
        0 <= b < num_bits,
    ensures
        j * num_bits + b < i * num_bits || i * num_bits + num_bits <= j * num_bits + b,
{
}

/// Room for `count` elements is room for every element before `count`, whole.
pub proof fn lemma_words_needed_covers(num_bits: int, count: int, index: int)
    requires
        valid_width(num_bits),
        0 <= index < count,
    ensures
        (index + 1) * num_bits <= 32 * words_needed(num_bits, count),
{
    assert((index + 1) * num_bits <= count * num_bits) by (nonlinear_arith)
        requires
            index + 1 <= count,
            0 < num_bits,
    ;
}

/// A buffer of no fewer words than `count` elements need has room for at least
/// `count` elements. So an array made with room for `count` elements, whose
/// buffer the allocator may make larger than asked but not smaller, reports a
/// capacity of `count` or more.
pub proof fn lemma_slots_cover_request(num_bits: int, count: int, words: int)
    requires
        valid_width(num_bits),
        0 <= count,
        words_needed(num_bits, count) <= words,
    ensures
        count <= slots_in(num_bits, words),
        count <= usize::MAX ==> count <= element_capacity(num_bits, words),
{
    let bits = count * num_bits;
    assert(bits <= 32 * words);
    assert(count <= (words * 32) / num_bits) by (nonlinear_arith)
        requires
            count * num_bits <= words * 32,
            0 < num_bits,
            0 <= count,
    ;
}

/// One more element takes one more word exactly when the words of the
/// elements before it do not hold the whole of it, and never takes two.
pub proof fn lemma_words_needed_step(num_bits: int, count: int)
    requires
        valid_width(num_bits),
        0 <= count,
    ensures
        words_needed(num_bits, count + 1) == if (count + 1) * num_bits <= 32 * words_needed(
            num_bits,
            count,
        ) {
            words_needed(num_bits, count)
        } else {
            words_needed(num_bits, count) + 1
        },
{
    lemma_bit_position_bounds(num_bits, count);
}

/// Finds element `index`: the word in which it starts and the bit of that word
/// at which it starts. The product is taken in 128 bits, where it cannot
/// overflow.
pub fn locate(num_bits: usize, index: usize) -> (place: (usize, usize))
    requires
        valid_width(num_bits as int),
    ensures
        place.0 == word_index(num_bits as int, index as int),
        place.1 == bit_offset(num_bits as int, index as int),
        place.0 <= index,
        place.1 < 32,
{
    proof {
        lemma_bit_position_bounds(num_bits as int, index as int);
    }
    let position: u128 = (index as u128) * (num_bits as u128);
    ((position / 32) as usize, (position % 32) as usize)
}

/// The fewest words that hold `count` elements of `num_bits` bits:
/// `count * num_bits / 32`, rounded up. The product is taken in 128 bits,
/// where it cannot overflow.
pub fn words_for(num_bits: usize, count: usize) -> (words: usize)
    requires
        valid_width(num_bits as int),
    ensures
        words == words_needed(num_bits as int, count as int),
        words <= count,
{
    proof {
        lemma_bit_position_bounds(num_bits as int, count as int);
    }
    let bits: u128 = (count as u128) * (num_bits as u128);
    ((bits + 31) / 32) as usize
}

/// The number of elements of `num_bits` bits that an array of `words` words
/// can hold: `words * 32 / num_bits`, rounded down, or `usize::MAX` where
/// that is larger. The product is taken in 128 bits, where it cannot
/// overflow.
pub fn slots_for(num_bits: usize, words: usize) -> (slots: usize)
    requires
        valid_width(num_bits as int),
    ensures
        slots == element_capacity(num_bits as int, words as int),
{
    let bits: u128 = (words as u128) * 32;
    let slots: u128 = bits / (num_bits as u128);
    if slots > usize::MAX as u128 {
        usize::MAX
    } else {
        slots as usize
    }
}

} // verus!
