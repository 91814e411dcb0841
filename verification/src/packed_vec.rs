//! The packed array: unsigned integers of a fixed width of 1 to 32 bits, kept
//! one after another, without padding, in a growable buffer of 32-bit words.

use core::marker::PhantomData;
use vstd::pervasive::runtime_assert;
use vstd::prelude::*;
use vstd::std_specs::iter::IteratorSpec;
use crate::bits::{
    lemma_mask_is_max_value, lemma_or_zero, lemma_read_across_words, lemma_read_within_word,
};
use crate::error::PackedVecError;
use crate::iter::PackedVecIterator;
use crate::layout::{
    bit_offset, element_capacity, lemma_bit_position_bounds, lemma_slots_cover_request,
    lemma_words_needed_covers, locate, slots_for, word_index, words_for, words_needed,
    WORD_BITS,
};
use crate::packed_element::PackedElement;
use crate::slots::{
    lemma_read_slot_extended, lemma_read_slot_fits, lemma_read_slot_merged,
    lemma_read_slot_past_end, lemma_read_slot_written, lemma_slot_words, merged, read_slot,
    word_at, written,
};

verus! {

/// `Vec::capacity` on the word buffer: the number of words that it can hold
/// without reallocating. The allocator decides the number; all that is
/// claimed of it is what std promises of every vector, that it is not less
/// than the vector's length.
#[verifier::external_body]
fn words_capacity(words: &Vec<u32>) -> (capacity: usize)
    ensures
        capacity >= words@.len(),
{
    words.capacity()
}

/// A growable array of `T::NUM_BITS`-bit unsigned integers.
///
/// Element `i` takes bits `i * NUM_BITS` to `(i + 1) * NUM_BITS - 1` of the
/// buffer, and the buffer has exactly as many words as the elements need.
/// Behind the last element the last word may have room for more: the slots
/// there are the slack, which `get_unchecked` and `set_unchecked` reach.
///
/// The words are held in a `Vec`, and memory is the allocator's to give: a
/// buffer that cannot be had ends the program, as it does for any `Vec`.
pub struct PackedVec<T: PackedElement> {
    buf: Vec<u32>,
    len: usize,
    phantom: PhantomData<T>,
}

impl<T: PackedElement> View for PackedVec<T> {
    type V = Seq<u32>;

    /// The elements, in order.
    open spec fn view(&self) -> Seq<u32> {
        Seq::new(self.spec_len() as nat, |i: int| self.slot(i))
    }
}

impl<T: PackedElement> PackedVec<T> {
    #[verifier::type_invariant]
    spec fn well_formed(&self) -> bool {
        self.buf@.len() == words_needed(T::spec_num_bits(), self.len as int)
    }

    /// The number of elements.
    pub closed spec fn spec_len(&self) -> usize {
        self.len
    }

    /// The value in slot `index`: element `index` where `index < len`, and
    /// beyond that whatever the bits there hold, zero past the end of the
    /// buffer.
    pub closed spec fn slot(&self, index: int) -> u32 {
        read_slot(self.buf@, T::spec_num_bits(), index)
    }

    /// The number of words in the buffer.
    pub open spec fn word_count(&self) -> int {
        words_needed(T::spec_num_bits(), self.spec_len() as int)
    }

    /// Whether the buffer holds all of slot `index`, so that it can be read
    /// and written whether or not it is an element: the word in which the
    /// slot starts is in the buffer and, where the slot goes on into the next
    /// word, that word is too.
    pub open spec fn holds_slot(&self, index: int) -> bool {
        let word = word_index(T::spec_num_bits(), index);
        &&& 0 <= index
        &&& word < self.word_count()
        &&& bit_offset(T::spec_num_bits(), index) + T::spec_num_bits() > 32 ==> word + 1
            < self.word_count()
    }

    /// Whether every slot behind the last element holds zero. It does in an
    /// array on which `set_unchecked` has written no slot of the slack.
    pub open spec fn slack_is_zero(&self) -> bool {
        forall|j: int| self.spec_len() <= j ==> self.slot(j) == 0
    }

    /// Whether `after` is this array after `push(value)`: one element longer,
    /// with `value` or-ed into the slot behind the last element and every
    /// other slot as it was.
    pub open spec fn pushed(&self, value: u32, after: &Self) -> bool {
        &&& after.spec_len() == self.spec_len() + 1
        &&& forall|j: int|
            0 <= j ==> #[trigger] after.slot(j) == if j == self.spec_len() {
                self.slot(j) | value
            } else {
                self.slot(j)
            }
    }

    /// Whether `after` is this array after `value` was put in slot `index`:
    /// of the same length, with `value` in that slot and every other slot as
    /// it was.
    pub open spec fn rewritten(&self, index: int, value: u32, after: &Self) -> bool {
        &&& after.spec_len() == self.spec_len()
        &&& forall|j: int|
            0 <= j ==> #[trigger] after.slot(j) == if j == index {
                value
            } else {
                self.slot(j)
            }
    }

    /// The buffer holds a slot exactly when it holds the last bit of it, and
    /// it holds every element.
    pub proof fn lemma_holds_slot(&self, index: int)
        ensures
            self.holds_slot(index) <==> 0 <= index && (index + 1) * T::spec_num_bits() <= 32
                * self.word_count(),
            0 <= index < self.spec_len() ==> self.holds_slot(index),
    {
        T::width_is_valid();
        if 0 <= index {
            lemma_bit_position_bounds(T::spec_num_bits(), index);
            if index < self.spec_len() {
                lemma_words_needed_covers(T::spec_num_bits(), self.spec_len() as int, index);
            }
        }
    }

    /// No slot holds more than `T::MAX`, whether it is an element or not.
    pub proof fn lemma_slot_fits(&self, index: int)
        requires
            0 <= index,
        ensures
            self.slot(index) <= T::spec_max(),
            index < self.spec_len() ==> self@[index] <= T::spec_max(),
    {
        T::width_is_valid();
        lemma_mask_is_max_value(T::spec_num_bits() as u32);
        lemma_read_slot_fits(self.buf@, T::spec_num_bits(), index);
    }

    /// What `push` does to the elements: the array ends in what the slot
    /// behind the last element held, or-ed with `value`. With the slack at
    /// zero that is `value`, and the slack stays at zero.
    pub proof fn lemma_pushed_elements(&self, value: u32, after: &Self)
        requires
            self.pushed(value, after),
        ensures
            after@ == self@.push(self.slot(self.spec_len() as int) | value),
            self.slack_is_zero() ==> after@ == self@.push(value) && after.slack_is_zero(),
    {
        let last = self.spec_len() as int;
        assert(after.slot(last) == self.slot(last) | value);
        assert(after@ =~= self@.push(self.slot(last) | value));
        if self.slack_is_zero() {
            lemma_or_zero(value);
            assert(self.slot(last) == 0);
            assert forall|j: int| after.spec_len() <= j implies after.slot(j) == 0 by {
                assert(self.slot(j) == 0);
            }
        }
    }

    /// What writing a slot does to the elements: an element is replaced and
    /// the others stay; a write to the slack changes no element. A write to an
    /// element leaves the slack as it was.
    pub proof fn lemma_rewritten_elements(&self, index: int, value: u32, after: &Self)
        requires
            0 <= index,
            self.rewritten(index, value, after),
        ensures
            after@ == if index < self.spec_len() {
                self@.update(index, value)
            } else {
                self@
            },
            index < self.spec_len() && self.slack_is_zero() ==> after.slack_is_zero(),
    {
        if index < self.spec_len() {
            assert(after@ =~= self@.update(index, value));
            if self.slack_is_zero() {
                assert forall|j: int| after.spec_len() <= j implies after.slot(j) == 0 by {
                    assert(self.slot(j) == 0);
                }
            }
        } else {
            assert(after@ =~= self@);
        }
    }

    /// An empty array, with no word in its buffer.
    pub fn new() -> (packed: PackedVec<T>)
        ensures
            packed.len() == 0,
            packed@ == Seq::<u32>::empty(),
            packed.slack_is_zero(),
    {
        let packed = PackedVec { buf: Vec::new(), len: 0, phantom: PhantomData };
        proof {
            T::width_is_valid();
            assert forall|j: int| 0 <= j implies packed.slot(j) == 0 by {
                lemma_bit_position_bounds(T::spec_num_bits(), j);
                lemma_read_slot_past_end(packed.buf@, T::spec_num_bits(), j);
            }
        }
        packed
    }

    /// An empty array whose buffer is made with room for `capacity` elements:
    /// the allocator is asked for `words_for(NUM_BITS, capacity)` words, that
    /// is `capacity * NUM_BITS / 32`, rounded up.
    pub fn with_capacity(capacity: usize) -> (packed: PackedVec<T>)
        ensures
            packed.len() == 0,
            packed@ == Seq::<u32>::empty(),
            packed.slack_is_zero(),
    {
        proof {
            T::width_is_valid();
        }
        let words = words_for(T::NUM_BITS, capacity);
        let packed = PackedVec { buf: Vec::with_capacity(words), len: 0, phantom: PhantomData };
        proof {
            assert forall|j: int| 0 <= j implies packed.slot(j) == 0 by {
                lemma_bit_position_bounds(T::spec_num_bits(), j);
                lemma_read_slot_past_end(packed.buf@, T::spec_num_bits(), j);
            }
        }
        packed
    }

    /// The number of words in the buffer.
    pub fn buf_len(&self) -> (words: usize)
        ensures
            words == self.word_count(),
    {
        proof {
            use_type_invariant(self);
        }
        self.buf.len()
    }

    /// The number of words that the buffer can hold without reallocating, as
    /// the allocator reports it: never less than the number of words in it.
    pub fn buf_capacity(&self) -> (words: usize)
        ensures
            words >= self.word_count(),
    {
        proof {
            use_type_invariant(self);
        }
        words_capacity(&self.buf)
    }

    /// The number of elements that the array can hold without reallocating:
    /// `words * 32 / NUM_BITS`, rounded down, where `words` is the capacity
    /// of the buffer. The allocator decides that number; it is never less
    /// than the number of words in use, so the capacity is never less than
    /// the length.
    pub fn capacity(&self) -> (capacity: usize)
        ensures
            capacity >= self.len(),
            exists|words: int|
                self.word_count() <= words <= usize::MAX && capacity == #[trigger] element_capacity(
                    T::spec_num_bits(),
                    words,
                ),
    {
        proof {
            T::width_is_valid();
        }
        let words = self.buf_capacity();
        proof {
            lemma_slots_cover_request(T::spec_num_bits(), self.len as int, words as int);
        }
        slots_for(T::NUM_BITS, words)
    }

    /// An iterator over the elements, from element 0 on. The array stays
    /// borrowed while the iterator lives.
    pub fn iter(&self) -> (iter: PackedVecIterator<'_, T>)
        ensures
            iter.elements() == self@,
            iter.cursor() == 0,
            IteratorSpec::remaining(&iter) == self@,
            IteratorSpec::decrease(&iter) is Some,
            IteratorSpec::initial_value_relation(&iter, &iter),
    {
        self.into_iter()
    }

    /// The number of elements.
    #[verifier::when_used_as_spec(spec_len)]
    pub fn len(&self) -> (len: usize)
        ensures
            len == self.spec_len(),
    {
        self.len
    }

    /// Element `index`, or `None` where the array has no such element.
    pub fn get(&self, index: usize) -> (element: Option<u32>)
        ensures
            element == if index < self.len() {
                Some(self@[index as int])
            } else {
                None
            },
            element matches Some(value) ==> value <= T::spec_max(),
    {
        if index >= self.len {
            return None;
        }
        proof {
            self.lemma_holds_slot(index as int);
        }
        Some(self.get_unchecked(index))
    }

    /// The value in slot `index`, without asking whether `index < len`. For
    /// an element that is the element. For a slot of the slack it is what the
    /// bits there hold: zero, unless `set_unchecked` wrote them.
    ///
    /// The buffer must hold the slot. In compiled code a slot that it does
    /// not hold is caught by the bounds check of the buffer.
    pub fn get_unchecked(&self, index: usize) -> (value: u32)
        requires
            self.holds_slot(index as int),
        ensures
            value == self.slot(index as int),
            value <= T::spec_max(),
    {
        proof {
            T::width_is_valid();
            use_type_invariant(self);
            self.lemma_holds_slot(index as int);
            lemma_slot_words(self.buf@, T::spec_num_bits(), index as int);
            lemma_mask_is_max_value(T::spec_num_bits() as u32);
            lemma_read_slot_fits(self.buf@, T::spec_num_bits(), index as int);
        }
        let (buf_index, start_bit) = locate(T::NUM_BITS, index);
        let available_bits = WORD_BITS - start_bit;

        if available_bits >= T::NUM_BITS {
            proof {
                lemma_read_within_word(
                    self.buf@[buf_index as int],
                    word_at(self.buf@, buf_index + 1),
                    start_bit as u32,
                    T::spec_num_bits() as u32,
                );
            }
            (self.buf[buf_index] >> start_bit) & T::MAX
        } else {
            // The value spans two words.
            proof {
                assert(buf_index + 1 < self.buf.len());
                lemma_read_across_words(
                    self.buf@[buf_index as int],
                    self.buf@[buf_index + 1],
                    start_bit as u32,
                    T::spec_num_bits() as u32,
                );
            }
            let lo = self.buf[buf_index] >> start_bit;
            let hi = self.buf[buf_index + 1] << available_bits;

            lo ^ ((lo ^ hi) & (T::MAX >> available_bits << available_bits))
        }
    }

    /// Appends `value`: its bits are or-ed into the slot behind the last
    /// element, in a zero word added to the buffer where the slot needs one.
    /// With the slack at zero the array then ends in `value`; a slot of the
    /// slack that `set_unchecked` wrote keeps its set bits.
    ///
    /// `value` must not exceed `T::MAX`. In compiled code a larger one stops
    /// the program before anything is changed.
    pub fn push(&mut self, value: u32)
        requires
            value <= T::spec_max(),
            old(self).len() < usize::MAX,
        ensures
            old(self).pushed(value, final(self)),
            final(self)@ == old(self)@.push(old(self).slot(old(self).len() as int) | value),
            old(self).slack_is_zero() ==> final(self)@ == old(self)@.push(value)
                && final(self).slack_is_zero(),
    {
        proof {
            T::width_is_valid();
        }
        runtime_assert(value <= T::MAX);
        proof {
            use_type_invariant(&*self);
            lemma_mask_is_max_value(T::spec_num_bits() as u32);
        }
        // The buffer may gain its word before the length gains the element,
        // so the array is taken apart here and put together again below.
        let mut taken = PackedVec::new();
        core::mem::swap(self, &mut taken);
        let PackedVec { mut buf, len, phantom } = taken;
        let ghost before = buf@;
        proof {
            lemma_bit_position_bounds(T::spec_num_bits(), len as int);
        }

        let (buf_index, start_bit) = locate(T::NUM_BITS, len);
        let available_bits = WORD_BITS - start_bit;

        if available_bits >= T::NUM_BITS {
            if buf_index == buf.len() {
                buf.push(0);
            }
            let ghost extended = buf@;
            buf[buf_index] |= value << start_bit;
            assert(buf@ == merged(extended, T::spec_num_bits(), len as int, value));
        } else {
            // The value spans two words.
            buf.push(0);
            let ghost extended = buf@;
            buf[buf_index] |= value << start_bit;
            buf[buf_index + 1] |= value >> available_bits;
            assert(buf@ == merged(extended, T::spec_num_bits(), len as int, value));
        }

        proof {
            let extended = if buf@.len() == before.len() {
                before
            } else {
                before.push(0)
            };
            assert forall|j: int| 0 <= j implies read_slot(buf@, T::spec_num_bits(), j) == if j
                == len {
                read_slot(before, T::spec_num_bits(), j) | value
            } else {
                read_slot(before, T::spec_num_bits(), j)
            } by {
                lemma_read_slot_merged(extended, T::spec_num_bits(), len as int, value, j);
                lemma_read_slot_extended(before, T::spec_num_bits(), j);
            }
        }
        *self = PackedVec { buf, len: len + 1, phantom };
        proof {
            old(self).lemma_pushed_elements(value, self);
        }
    }

    /// Appends `value` as `push` does, or refuses a value that exceeds
    /// `T::MAX` and leaves the array as it was.
    pub fn try_push(&mut self, value: u32) -> (result: Result<(), PackedVecError>)
        requires
            old(self).len() < usize::MAX,
        ensures
            result == if value <= T::spec_max() {
                Ok::<(), PackedVecError>(())
            } else {
                Err::<(), PackedVecError>(PackedVecError::ValueOutOfRange)
            },
            result is Err ==> *final(self) == *old(self),
            result is Ok ==> old(self).pushed(value, final(self)),
            result is Ok ==> final(self)@ == old(self)@.push(
                old(self).slot(old(self).len() as int) | value,
            ),
            result is Ok && old(self).slack_is_zero() ==> final(self)@ == old(self)@.push(value)
                && final(self).slack_is_zero(),
    {
        proof {
            T::width_is_valid();
        }
        if value > T::MAX {
            return Err(PackedVecError::ValueOutOfRange);
        }
        self.push(value);
        Ok(())
    }

    /// Puts `value` in the place of element `index`. No other element and no
    /// slot of the slack changes.
    ///
    /// `index` must be below `len` and `value` must not exceed `T::MAX`. In
    /// compiled code anything else stops the program before anything is
    /// changed.
    pub fn set(&mut self, index: usize, value: u32)
        requires
            index < old(self).len(),
            value <= T::spec_max(),
        ensures
            old(self).rewritten(index as int, value, final(self)),
            final(self)@ == old(self)@.update(index as int, value),
            old(self).slack_is_zero() ==> final(self).slack_is_zero(),
    {
        runtime_assert(index < self.len);
        proof {
            self.lemma_holds_slot(index as int);
        }
        self.set_unchecked(index, value);
        proof {
            old(self).lemma_rewritten_elements(index as int, value, self);
        }
    }

    /// Puts `value` in the place of element `index` as `set` does, or refuses
    /// and leaves the array as it was: first an index that is not below
    /// `len`, then a value that exceeds `T::MAX`.
    pub fn try_set(&mut self, index: usize, value: u32) -> (result: Result<(), PackedVecError>)
        ensures
            result == if index >= old(self).len() {
                Err::<(), PackedVecError>(PackedVecError::IndexOutOfBounds)
            } else if value > T::spec_max() {
                Err::<(), PackedVecError>(PackedVecError::ValueOutOfRange)
            } else {
                Ok::<(), PackedVecError>(())
            },
            result is Err ==> *final(self) == *old(self),
            result is Ok ==> old(self).rewritten(index as int, value, final(self)),
            result is Ok ==> final(self)@ == old(self)@.update(index as int, value),
            result is Ok && old(self).slack_is_zero() ==> final(self).slack_is_zero(),
    {
        proof {
            T::width_is_valid();
        }
        if index >= self.len {
            return Err(PackedVecError::IndexOutOfBounds);
        }
        if value > T::MAX {
            return Err(PackedVecError::ValueOutOfRange);
        }
        self.set(index, value);
        Ok(())
    }

    /// Puts `value` in slot `index`, without asking whether `index < len`: an
    /// element is replaced, a slot of the slack is written. No other slot
    /// changes.
    ///
    /// The buffer must hold the slot, and `value` must not exceed `T::MAX`.
    /// In compiled code a slot that the buffer does not hold is caught by the
    /// bounds check of the buffer, and a larger value stops the program
    /// before anything is changed.
    pub fn set_unchecked(&mut self, index: usize, value: u32)
        requires
            old(self).holds_slot(index as int),
            value <= T::spec_max(),
        ensures
            old(self).rewritten(index as int, value, final(self)),
            final(self)@ == if index < old(self).len() {
                old(self)@.update(index as int, value)
            } else {
                old(self)@
            },
    {
        proof {
            T::width_is_valid();
        }
        runtime_assert(value <= T::MAX);
        proof {
            use_type_invariant(&*self);
            self.lemma_holds_slot(index as int);
            lemma_slot_words(self.buf@, T::spec_num_bits(), index as int);
            lemma_mask_is_max_value(T::spec_num_bits() as u32);
        }
        let ghost before = self.buf@;
        let (buf_index, start_bit) = locate(T::NUM_BITS, index);
        let available_bits = WORD_BITS - start_bit;

        if available_bits >= T::NUM_BITS {
            self.buf[buf_index] = (self.buf[buf_index] & !(T::MAX << start_bit)) | (value
                << start_bit);
        } else {
            // The value spans two words.
            assert(buf_index + 1 < self.buf.len());
            self.buf[buf_index] = (self.buf[buf_index] & !(T::MAX << start_bit)) | (value
                << start_bit);
            self.buf[buf_index + 1] = (self.buf[buf_index + 1] & !(T::MAX >> available_bits))
                | (value >> available_bits);
        }

        proof {
            assert(self.buf@ == written(before, T::spec_num_bits(), index as int, value));
            assert forall|j: int| 0 <= j implies #[trigger] self.slot(j) == if j == index {
                value
            } else {
                old(self).slot(j)
            } by {
                lemma_read_slot_written(before, T::spec_num_bits(), index as int, value, j);
            }
            old(self).lemma_rewritten_elements(index as int, value, self);
        }
    }
}

} // verus!
