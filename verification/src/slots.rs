//! The buffer as a row of slots: slot `index` is the `num_bits` bits that start
//! at bit `index * num_bits` of the words laid end to end, lowest bit first.
//! Bits past the last word read as zero.

use vstd::prelude::*;
use crate::bits::{
    bit, extract, lemma_equal_by_bits, lemma_extract_bit, lemma_extract_fits,
    lemma_extract_zero, lemma_fitting_value_bit, lemma_or_bit, lemma_or_high_bit,
    lemma_or_low_bit, lemma_replace_high_bit, lemma_replace_low_bit, low_mask, replace_high,
    replace_low,
};
use crate::layout::{bit_offset, lemma_bit_position_bounds, lemma_slots_disjoint, word_index};
use crate::packed_element::valid_width;

verus! {

/// Word `i` of the buffer, or zero where the buffer has no such word.
pub open spec fn word_at(words: Seq<u32>, i: int) -> u32 {
    if 0 <= i < words.len() {
        words[i]
    } else {
        0
    }
}

/// Bit `k` of the buffer, counted from bit 0 of word 0.
pub open spec fn buffer_bit(words: Seq<u32>, k: int) -> bool {
    0 <= k && bit(word_at(words, k / 32), (k % 32) as u32)
}

/// Whether the buffer holds every bit of slot `index`.
pub open spec fn slot_in_buffer(words: Seq<u32>, num_bits: int, index: int) -> bool {
    0 <= index && (index + 1) * num_bits <= 32 * words.len()
}

/// The value in slot `index`.
pub open spec fn read_slot(words: Seq<u32>, num_bits: int, index: int) -> u32 {
    let w = word_index(num_bits, index);
    extract(
        word_at(words, w),
        word_at(words, w + 1),
        bit_offset(num_bits, index) as u32,
        num_bits as u32,
    )
}

/// The buffer after slot `index` is cleared and `value` put in its place.
pub open spec fn written(words: Seq<u32>, num_bits: int, index: int, value: u32) -> Seq<u32> {
    let w = word_index(num_bits, index);
    let off = bit_offset(num_bits, index);
    let low = words.update(w, replace_low(words[w], value, off as u32, num_bits as u32));
    if off + num_bits <= 32 {
        low
    } else {
        low.update(
            w + 1,
            replace_high(words[w + 1], value, (32 - off) as u32, num_bits as u32),
        )
    }
}

/// The buffer after `value` is or-ed into slot `index`.
pub open spec fn merged(words: Seq<u32>, num_bits: int, index: int, value: u32) -> Seq<u32> {
    let w = word_index(num_bits, index);
    let off = bit_offset(num_bits, index);
    let low = words.update(w, words[w] | (value << (off as u32)));
    if off + num_bits <= 32 {
        low
    } else {
        low.update(w + 1, words[w + 1] | (value >> ((32 - off) as u32)))
    }
}

/// A slot that the buffer holds starts in one of its words and, where it goes
/// on into the next, the buffer has that word too.
pub proof fn lemma_slot_words(words: Seq<u32>, num_bits: int, index: int)
    requires
        valid_width(num_bits),
        slot_in_buffer(words, num_bits, index),
    ensures
        0 <= word_index(num_bits, index) < words.len(),
        0 <= bit_offset(num_bits, index) < 32,
        bit_offset(num_bits, index) + num_bits > 32 ==> word_index(num_bits, index) + 1
            < words.len(),
{
    lemma_bit_position_bounds(num_bits, index);
}

/// Bit `b` of a slot's value is bit `index * num_bits + b` of the buffer, for
/// the `num_bits` bits of the slot, and is clear above them.
pub proof fn lemma_read_slot_bit(words: Seq<u32>, num_bits: int, index: int, b: u32)
    requires
        valid_width(num_bits),
        0 <= index,
        b < 32,
    ensures
        bit(read_slot(words, num_bits, index), b) == (b < num_bits && buffer_bit(
            words,
            index * num_bits + b,
        )),
{
    lemma_bit_position_bounds(num_bits, index);
    let w = word_index(num_bits, index);
    let off = bit_offset(num_bits, index);
    lemma_extract_bit(
        word_at(words, w),
        word_at(words, w + 1),
        off as u32,
        num_bits as u32,
        b,
    );
    let k = index * num_bits + b;
    if off + b < 32 {
        assert(k / 32 == w && k % 32 == off + b);
    } else {
        assert(k / 32 == w + 1 && k % 32 == off + b - 32);
    }
}

/// Writing a slot gives each of its bits the bit of `value` and leaves every
/// other bit of the buffer as it was.
pub proof fn lemma_written_bit(words: Seq<u32>, num_bits: int, index: int, value: u32, k: int)
    requires
        valid_width(num_bits),
        slot_in_buffer(words, num_bits, index),
        value <= low_mask(num_bits as u32),
        0 <= k,
    ensures
        written(words, num_bits, index, value).len() == words.len(),
        buffer_bit(written(words, num_bits, index, value), k) == if index * num_bits <= k < index
            * num_bits + num_bits {
            bit(value, (k - index * num_bits) as u32)
        } else {
            buffer_bit(words, k)
        },
{
    lemma_slot_words(words, num_bits, index);
    let w = word_index(num_bits, index);
    let off = bit_offset(num_bits, index);
    let after = written(words, num_bits, index, value);
    let kb = (k % 32) as u32;
    if k / 32 == w {
        lemma_replace_low_bit(words[w], value, off as u32, num_bits as u32, kb);
        assert(after[w] == replace_low(words[w], value, off as u32, num_bits as u32));
    } else if k / 32 == w + 1 && off + num_bits > 32 {
        lemma_replace_high_bit(words[w + 1], value, (32 - off) as u32, num_bits as u32, kb);
        assert(after[w + 1] == replace_high(
            words[w + 1],
            value,
            (32 - off) as u32,
            num_bits as u32,
        ));
    } else {
        assert(word_at(after, k / 32) == word_at(words, k / 32));
    }
}

/// Or-ing a value into a slot sets those of its bits that are set in `value`
/// and leaves every other bit of the buffer as it was.
pub proof fn lemma_merged_bit(words: Seq<u32>, num_bits: int, index: int, value: u32, k: int)
    requires
        valid_width(num_bits),
        slot_in_buffer(words, num_bits, index),
        value <= low_mask(num_bits as u32),
        0 <= k,
    ensures
        merged(words, num_bits, index, value).len() == words.len(),
        buffer_bit(merged(words, num_bits, index, value), k) == (buffer_bit(words, k) || (index
            * num_bits <= k < index * num_bits + num_bits && bit(
            value,
            (k - index * num_bits) as u32,
        ))),
{
    lemma_slot_words(words, num_bits, index);
    let w = word_index(num_bits, index);
    let off = bit_offset(num_bits, index);
    let after = merged(words, num_bits, index, value);
    let kb = (k % 32) as u32;
    if k / 32 == w {
        lemma_or_low_bit(words[w], value, off as u32, kb);
        assert(after[w] == words[w] | (value << (off as u32)));
        if off <= kb && kb - off >= num_bits {
            lemma_fitting_value_bit(value, num_bits as u32, (kb - off) as u32);
        }
    } else if k / 32 == w + 1 && off + num_bits > 32 {
        lemma_or_high_bit(words[w + 1], value, (32 - off) as u32, kb);
        assert(after[w + 1] == words[w + 1] | (value >> ((32 - off) as u32)));
        if num_bits <= kb + (32 - off) < 32 {
            lemma_fitting_value_bit(value, num_bits as u32, (kb + (32 - off)) as u32);
        }
    } else {
        assert(word_at(after, k / 32) == word_at(words, k / 32));
    }
}

/// A slot never holds more than the mask of its width.
pub proof fn lemma_read_slot_fits(words: Seq<u32>, num_bits: int, index: int)
    requires
        valid_width(num_bits),
        0 <= index,
    ensures
        read_slot(words, num_bits, index) <= low_mask(num_bits as u32),
{
    lemma_bit_position_bounds(num_bits, index);
    let w = word_index(num_bits, index);
    lemma_extract_fits(
        word_at(words, w),
        word_at(words, w + 1),
        bit_offset(num_bits, index) as u32,
        num_bits as u32,
    );
}

/// Every slot past the end of the buffer holds zero.
pub proof fn lemma_read_slot_past_end(words: Seq<u32>, num_bits: int, index: int)
    requires
        valid_width(num_bits),
        0 <= index,
        32 * words.len() <= index * num_bits,
    ensures
        read_slot(words, num_bits, index) == 0,
{
    lemma_extract_zero(bit_offset(num_bits, index) as u32, num_bits as u32);
}

/// A zero word added at the end of the buffer changes no slot.
pub proof fn lemma_read_slot_extended(words: Seq<u32>, num_bits: int, index: int)
    ensures
        read_slot(words.push(0), num_bits, index) == read_slot(words, num_bits, index),
{
    let w = word_index(num_bits, index);
    assert(word_at(words.push(0), w) == word_at(words, w));
    assert(word_at(words.push(0), w + 1) == word_at(words, w + 1));
}

/// After a slot is written it holds the value, and every other slot holds what
/// it held.
pub proof fn lemma_read_slot_written(
    words: Seq<u32>,
    num_bits: int,
    index: int,
    value: u32,
    other: int,
)
    requires
        valid_width(num_bits),
        slot_in_buffer(words, num_bits, index),
        value <= low_mask(num_bits as u32),
        0 <= other,
    ensures
        read_slot(written(words, num_bits, index, value), num_bits, other) == if other == index {
            value
        } else {
            read_slot(words, num_bits, other)
        },
{
    let after = written(words, num_bits, index, value);
    let expected = if other == index {
        value
    } else {
        read_slot(words, num_bits, other)
    };
    assert forall|b: u32| b < 32 implies bit(read_slot(after, num_bits, other), b) == bit(
        expected,
        b,
    ) by {
        lemma_read_slot_bit(after, num_bits, other, b);
        lemma_read_slot_bit(words, num_bits, other, b);
        lemma_bit_position_bounds(num_bits, other);
        if b < num_bits {
            lemma_written_bit(words, num_bits, index, value, other * num_bits + b);
            if other != index {
                lemma_slots_disjoint(num_bits, index, other, b as int);
            }
        } else if other == index {
            lemma_fitting_value_bit(value, num_bits as u32, b);
        }
    }
    lemma_equal_by_bits(read_slot(after, num_bits, other), expected);
}

/// After a value is or-ed into a slot it holds what it held or-ed with the
/// value, and every other slot holds what it held.
pub proof fn lemma_read_slot_merged(
    words: Seq<u32>,
    num_bits: int,
    index: int,
    value: u32,
    other: int,
)
    requires
        valid_width(num_bits),
        slot_in_buffer(words, num_bits, index),
        value <= low_mask(num_bits as u32),
        0 <= other,
    ensures
        read_slot(merged(words, num_bits, index, value), num_bits, other) == if other == index {
            read_slot(words, num_bits, index) | value
        } else {
            read_slot(words, num_bits, other)
        },
{
    let after = merged(words, num_bits, index, value);
    let before = read_slot(words, num_bits, other);
    let expected = if other == index {
        before | value
    } else {
        before
    };
    assert forall|b: u32| b < 32 implies bit(read_slot(after, num_bits, other), b) == bit(
        expected,
        b,
    ) by {
        lemma_read_slot_bit(after, num_bits, other, b);
        lemma_read_slot_bit(words, num_bits, other, b);
        lemma_bit_position_bounds(num_bits, other);
        lemma_or_bit(before, value, b);
        if b < num_bits {
            lemma_merged_bit(words, num_bits, index, value, other * num_bits + b);
            if other != index {
                lemma_slots_disjoint(num_bits, index, other, b as int);
            }
        } else {
            lemma_fitting_value_bit(value, num_bits as u32, b);
        }
    }
    lemma_equal_by_bits(read_slot(after, num_bits, other), expected);
}

} // verus!
