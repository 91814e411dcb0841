//! Single words: which bits a shift, a mask or a merge of two words keeps.
//!
//! Everything here speaks of one or two 32-bit words and of bit numbers below
//! 32, so that each fact is settled by the bit-vector solver.

use vstd::prelude::*;
use vstd::arithmetic::power2::pow2;
use vstd::bits::lemma_u64_shl_is_mul;
use crate::packed_element::max_value;

verus! {

/// Whether bit `b` of `w` is set.
pub open spec fn bit(w: u32, b: u32) -> bool {
    (w >> b) & 1 == 1
}

/// The word whose lowest `n` bits are set and no others.
pub open spec fn low_mask(n: u32) -> u32 {
    0xffff_ffffu32 >> ((32 - n) as u32)
}

/// The `n` bits that start at bit `off` of `lo` and go on, where `lo` ends,
/// at bit 0 of `hi`.
pub open spec fn extract(lo: u32, hi: u32, off: u32, n: u32) -> u32 {
    ((((lo as u64) | ((hi as u64) << 32)) >> off) & (low_mask(n) as u64)) as u32
}

/// `w` with the bits of an element that starts at bit `off` replaced by those
/// bits of `v` that fall inside this word.
pub open spec fn replace_low(w: u32, v: u32, off: u32, n: u32) -> u32 {
    (w & !(low_mask(n) << off)) | (v << off)
}

/// `w` with its lowest bits replaced by the bits of `v` from bit `avail` on:
/// the part of an element that did not fit in the word before.
pub open spec fn replace_high(w: u32, v: u32, avail: u32, n: u32) -> u32 {
    (w & !(low_mask(n) >> avail)) | (v >> avail)
}

/// Whether `x` and `y` agree in each of their 32 bits.
pub open spec fn same_bits(x: u32, y: u32) -> bool {
    &&& bit(x, 0) == bit(y, 0)
    &&& bit(x, 1) == bit(y, 1)
    &&& bit(x, 2) == bit(y, 2)
    &&& bit(x, 3) == bit(y, 3)
    &&& bit(x, 4) == bit(y, 4)
    &&& bit(x, 5) == bit(y, 5)
    &&& bit(x, 6) == bit(y, 6)
    &&& bit(x, 7) == bit(y, 7)
    &&& bit(x, 8) == bit(y, 8)
    &&& bit(x, 9) == bit(y, 9)
    &&& bit(x, 10) == bit(y, 10)
    &&& bit(x, 11) == bit(y, 11)
    &&& bit(x, 12) == bit(y, 12)
    &&& bit(x, 13) == bit(y, 13)
    &&& bit(x, 14) == bit(y, 14)
    &&& bit(x, 15) == bit(y, 15)
    &&& bit(x, 16) == bit(y, 16)
    &&& bit(x, 17) == bit(y, 17)
    &&& bit(x, 18) == bit(y, 18)
    &&& bit(x, 19) == bit(y, 19)
    &&& bit(x, 20) == bit(y, 20)
    &&& bit(x, 21) == bit(y, 21)
    &&& bit(x, 22) == bit(y, 22)
    &&& bit(x, 23) == bit(y, 23)
    &&& bit(x, 24) == bit(y, 24)
    &&& bit(x, 25) == bit(y, 25)
    &&& bit(x, 26) == bit(y, 26)
    &&& bit(x, 27) == bit(y, 27)
    &&& bit(x, 28) == bit(y, 28)
    &&& bit(x, 29) == bit(y, 29)
    &&& bit(x, 30) == bit(y, 30)
    &&& bit(x, 31) == bit(y, 31)
}

/// Two words that agree in each of their 32 bits are the same word.
pub proof fn lemma_same_bits_equal(x: u32, y: u32)
    by (bit_vector)
    requires
        same_bits(x, y),
    ensures
        x == y,
{
}

/// Two words that agree in every bit are the same word.
pub proof fn lemma_equal_by_bits(x: u32, y: u32)
    requires
        forall|b: u32| b < 32 ==> bit(x, b) == bit(y, b),
    ensures
        x == y,
{
    assert(same_bits(x, y));
    lemma_same_bits_equal(x, y);
}

/// A bit of `x | y` is set where it is set in `x` or in `y`.
pub proof fn lemma_or_bit(x: u32, y: u32, b: u32)
    by (bit_vector)
    requires
        b < 32,
    ensures
        bit(x | y, b) == (bit(x, b) || bit(y, b)),
{
}

/// Or-ing with zero changes nothing.
pub proof fn lemma_or_zero(x: u32)
    by (bit_vector)
    ensures
        0u32 | x == x,
        x | 0u32 == x,
{
}

/// A value that does not exceed the mask of `n` bits has no bit set from bit
/// `n` on.
pub proof fn lemma_fitting_value_bit(v: u32, n: u32, b: u32)
    by (bit_vector)
    requires
        1 <= n <= 32,
        v <= low_mask(n),
        n <= b < 32,
    ensures
        !bit(v, b),
{
}

/// The mask of `n` bits is `2^n - 1`.
pub proof fn lemma_mask_is_max_value(n: u32)
    requires
        1 <= n <= 32,
    ensures
        low_mask(n) == max_value(n as nat),
{
    let shifted = 1u64 << (n as u64);
    assert(low_mask(n) as u64 == (shifted - 1) as u64 && shifted <= 0x1_0000_0000) by (bit_vector)
        requires
            1 <= n <= 32,
            shifted == 1u64 << (n as u64),
    ;
    vstd::arithmetic::power2::lemma2_to64();
    vstd::arithmetic::power2::lemma_pow2_strictly_increases(n as nat, 33);
    vstd::arithmetic::power2::lemma_pow2_adds(32, 1);
    assert(pow2(33) == 0x2_0000_0000);
    lemma_u64_shl_is_mul(1, n as u64);
}

/// Bit `b` of what `extract` reads is bit `off + b` of the two words taken as
/// one, for the `n` bits that it reads, and is clear above them.
pub proof fn lemma_extract_bit(lo: u32, hi: u32, off: u32, n: u32, b: u32)
    by (bit_vector)
    requires
        off < 32,
        1 <= n <= 32,
        b < 32,
    ensures
        bit(extract(lo, hi, off, n), b) == (b < n && if off + b < 32 {
            bit(lo, (off + b) as u32)
        } else {
            bit(hi, (off + b - 32) as u32)
        }),
{
}

/// Two zero words hold zero wherever one reads.
pub proof fn lemma_extract_zero(off: u32, n: u32)
    by (bit_vector)
    requires
        off < 32,
        1 <= n <= 32,
    ensures
        extract(0, 0, off, n) == 0,
{
}

/// What `extract` reads does not exceed the mask of `n` bits.
pub proof fn lemma_extract_fits(lo: u32, hi: u32, off: u32, n: u32)
    by (bit_vector)
    requires
        off < 32,
        1 <= n <= 32,
    ensures
        extract(lo, hi, off, n) <= low_mask(n),
{
}

/// An element that ends in the word it starts in is read by a shift and a
/// mask of that word alone.
pub proof fn lemma_read_within_word(lo: u32, hi: u32, off: u32, n: u32)
    by (bit_vector)
    requires
        off < 32,
        1 <= n <= 32,
        off + n <= 32,
    ensures
        (lo >> off) & low_mask(n) == extract(lo, hi, off, n),
{
}

/// An element that goes on into the next word is read by merging the top of
/// the first word with the bottom of the second: below bit `32 - off` the
/// bits of the first, from there up to bit `n` the bits of the second.
pub proof fn lemma_read_across_words(lo: u32, hi: u32, off: u32, n: u32)
    by (bit_vector)
    requires
        off < 32,
        1 <= n <= 32,
        off + n > 32,
    ensures
        ({
            let avail = (32 - off) as u32;
            let low = lo >> off;
            let high = hi << avail;
            low ^ ((low ^ high) & (low_mask(n) >> avail << avail))
        }) == extract(lo, hi, off, n),
{
}

/// `replace_low` puts bit `b - off` of `v` at each bit `b` of the element
/// that lies in the word and keeps every other bit.
pub proof fn lemma_replace_low_bit(w: u32, v: u32, off: u32, n: u32, b: u32)
    by (bit_vector)
    requires
        off < 32,
        1 <= n <= 32,
        v <= low_mask(n),
        b < 32,
    ensures
        bit(replace_low(w, v, off, n), b) == if off <= b && b < off + n {
            bit(v, (b - off) as u32)
        } else {
            bit(w, b)
        },
{
}

/// `replace_high` puts bit `b + avail` of `v` at each bit `b` below
/// `n - avail` and keeps every other bit.
pub proof fn lemma_replace_high_bit(w: u32, v: u32, avail: u32, n: u32, b: u32)
    by (bit_vector)
    requires
        1 <= n <= 32,
        0 < avail < n,
        v <= low_mask(n),
        b < 32,
    ensures
        bit(replace_high(w, v, avail, n), b) == if b + avail < n {
            bit(v, (b + avail) as u32)
        } else {
            bit(w, b)
        },
{
}

/// Or-ing `v << off` into a word sets bit `b` where bit `b - off` of `v` is
/// set and keeps every bit that was set.
pub proof fn lemma_or_low_bit(w: u32, v: u32, off: u32, b: u32)
    by (bit_vector)
    requires
        off < 32,
        b < 32,
    ensures
        bit(w | (v << off), b) == (bit(w, b) || (off <= b && bit(v, (b - off) as u32))),
{
}

/// Or-ing `v >> avail` into a word sets bit `b` where bit `b + avail` of `v`
/// is set and keeps every bit that was set.
pub proof fn lemma_or_high_bit(w: u32, v: u32, avail: u32, b: u32)
    by (bit_vector)
    requires
        0 < avail < 32,
        b < 32,
    ensures
        bit(w | (v >> avail), b) == (bit(w, b) || (b + avail < 32 && bit(v, (b + avail) as u32))),
{
}

} // verus!
