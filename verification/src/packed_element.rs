//! Element widths: how many bits one stored value takes, and the largest
//! value that fits in them.

use vstd::prelude::*;
use vstd::arithmetic::power2::{lemma2_to64, pow2};

verus! {

/// Whether `num_bits` is a width that an element can have.
pub open spec fn valid_width(num_bits: int) -> bool {
    1 <= num_bits <= 32
}

/// The largest value that fits in `num_bits` bits: `2^num_bits - 1`.
pub open spec fn max_value(num_bits: nat) -> nat {
    (pow2(num_bits) - 1) as nat
}

/// The width of the elements of a packed array.
///
/// `NUM_BITS` is the number of bits that each element takes and `MAX` the
/// largest value that fits in them. Contracts speak of the two through
/// `spec_num_bits` and `spec_max`. An implementation proves, in
/// `width_is_valid`, that the constants are what these say, that the width
/// lies between 1 and 32, and that the largest value is `2^NUM_BITS - 1`.
pub trait PackedElement {
    const NUM_BITS: usize;

    const MAX: u32;

    /// The value of `NUM_BITS`.
    spec fn spec_num_bits() -> int;

    /// The value of `MAX`.
    spec fn spec_max() -> u32;

    proof fn width_is_valid()
        ensures
            Self::NUM_BITS == Self::spec_num_bits(),
            Self::MAX == Self::spec_max(),
            valid_width(Self::spec_num_bits()),
            Self::spec_max() == max_value(Self::spec_num_bits() as nat),
    ;
}

/// A 1-bit element: values from 0 to 1.
pub struct U1;

impl PackedElement for U1 {
    const NUM_BITS: usize = 1;

    const MAX: u32 = 1;

    open spec fn spec_num_bits() -> int {
        1
    }

    open spec fn spec_max() -> u32 {
        1
    }

    proof fn width_is_valid() {
        lemma2_to64();
    }
}

/// A 2-bit element: values from 0 to 3.
pub struct U2;

impl PackedElement for U2 {
    const NUM_BITS: usize = 2;

    const MAX: u32 = 3;

    open spec fn spec_num_bits() -> int {
        2
    }

    open spec fn spec_max() -> u32 {
        3
    }

    proof fn width_is_valid() {
        lemma2_to64();
    }
}

/// A 3-bit element: values from 0 to 7.
pub struct U3;

impl PackedElement for U3 {
    const NUM_BITS: usize = 3;

    const MAX: u32 = 7;

    open spec fn spec_num_bits() -> int {
        3
    }

    open spec fn spec_max() -> u32 {
        7
    }

    proof fn width_is_valid() {
        lemma2_to64();
    }
}

/// A 4-bit element: values from 0 to 15.
pub struct U4;

impl PackedElement for U4 {
    const NUM_BITS: usize = 4;

    const MAX: u32 = 15;

    open spec fn spec_num_bits() -> int {
        4
    }

    open spec fn spec_max() -> u32 {
        15
    }

    proof fn width_is_valid() {
        lemma2_to64();
    }
}

/// A 5-bit element: values from 0 to 31.
pub struct U5;

impl PackedElement for U5 {
    const NUM_BITS: usize = 5;

    const MAX: u32 = 31;

    open spec fn spec_num_bits() -> int {
        5
    }

    open spec fn spec_max() -> u32 {
        31
    }

    proof fn width_is_valid() {
        lemma2_to64();
    }
}

/// A 6-bit element: values from 0 to 63.
pub struct U6;

impl PackedElement for U6 {
    const NUM_BITS: usize = 6;

    const MAX: u32 = 63;

    open spec fn spec_num_bits() -> int {
        6
    }

    open spec fn spec_max() -> u32 {
        63
    }

    proof fn width_is_valid() {
        lemma2_to64();
    }
}

/// A 7-bit element: values from 0 to 127.
pub struct U7;

impl PackedElement for U7 {
    const NUM_BITS: usize = 7;

    const MAX: u32 = 127;

    open spec fn spec_num_bits() -> int {
        7
    }

    open spec fn spec_max() -> u32 {
        127
    }

    proof fn width_is_valid() {
        lemma2_to64();
    }
}

/// An 8-bit element: values from 0 to 255.
pub struct U8;

impl PackedElement for U8 {
    const NUM_BITS: usize = 8;

    const MAX: u32 = 255;

    open spec fn spec_num_bits() -> int {
        8
    }

    open spec fn spec_max() -> u32 {
        255
    }

    proof fn width_is_valid() {
        lemma2_to64();
    }
}

/// A 9-bit element: values from 0 to 511.
pub struct U9;

impl PackedElement for U9 {
    const NUM_BITS: usize = 9;

    const MAX: u32 = 511;

    open spec fn spec_num_bits() -> int {
        9
    }

    open spec fn spec_max() -> u32 {
        511
    }

    proof fn width_is_valid() {
        lemma2_to64();
    }
}

/// A 10-bit element: values from 0 to 1023.
pub struct U10;

impl PackedElement for U10 {
    const NUM_BITS: usize = 10;

    const MAX: u32 = 1023;

    open spec fn spec_num_bits() -> int {
        10
    }

    open spec fn spec_max() -> u32 {
        1023
    }

    proof fn width_is_valid() {
        lemma2_to64();
    }
}

/// An 11-bit element: values from 0 to 2047.
pub struct U11;

impl PackedElement for U11 {
    const NUM_BITS: usize = 11;

    const MAX: u32 = 2047;

    open spec fn spec_num_bits() -> int {
        11
    }

    open spec fn spec_max() -> u32 {
        2047
    }

    proof fn width_is_valid() {
        lemma2_to64();
    }
}

/// A 12-bit element: values from 0 to 4095.
pub struct U12;

impl PackedElement for U12 {
    const NUM_BITS: usize = 12;

    const MAX: u32 = 4095;

    open spec fn spec_num_bits() -> int {
        12
    }

    open spec fn spec_max() -> u32 {
        4095
    }

    proof fn width_is_valid() {
        lemma2_to64();
    }
}

/// A 13-bit element: values from 0 to 8191.
pub struct U13;

impl PackedElement for U13 {
    const NUM_BITS: usize = 13;

    const MAX: u32 = 8191;

    open spec fn spec_num_bits() -> int {
        13
    }

    open spec fn spec_max() -> u32 {
        8191
    }

    proof fn width_is_valid() {
        lemma2_to64();
    }
}

/// A 14-bit element: values from 0 to 16383.
pub struct U14;

impl PackedElement for U14 {
    const NUM_BITS: usize = 14;

    const MAX: u32 = 16383;

    open spec fn spec_num_bits() -> int {
        14
    }

    open spec fn spec_max() -> u32 {
        16383
    }

    proof fn width_is_valid() {
        lemma2_to64();
    }
}

/// A 15-bit element: values from 0 to 32767.
pub struct U15;

impl PackedElement for U15 {
    const NUM_BITS: usize = 15;

    const MAX: u32 = 32767;

    open spec fn spec_num_bits() -> int {
        15
    }

    open spec fn spec_max() -> u32 {
        32767
    }

    proof fn width_is_valid() {
        lemma2_to64();
    }
}

/// A 16-bit element: values from 0 to 65535.
pub struct U16;

impl PackedElement for U16 {
    const NUM_BITS: usize = 16;

    const MAX: u32 = 65535;

    open spec fn spec_num_bits() -> int {
        16
    }

    open spec fn spec_max() -> u32 {
        65535
    }

    proof fn width_is_valid() {
        lemma2_to64();
    }
}

/// A 17-bit element: values from 0 to 131071.
pub struct U17;

impl PackedElement for U17 {
    const NUM_BITS: usize = 17;

    const MAX: u32 = 131071;

    open spec fn spec_num_bits() -> int {
        17
    }

    open spec fn spec_max() -> u32 {
        131071
    }

    proof fn width_is_valid() {
        lemma2_to64();
    }
}

/// An 18-bit element: values from 0 to 262143.
pub struct U18;

impl PackedElement for U18 {
    const NUM_BITS: usize = 18;

    const MAX: u32 = 262143;

    open spec fn spec_num_bits() -> int {
        18
    }

    open spec fn spec_max() -> u32 {
        262143
    }

    proof fn width_is_valid() {
        lemma2_to64();
    }
}

/// A 19-bit element: values from 0 to 524287.
pub struct U19;

impl PackedElement for U19 {
    const NUM_BITS: usize = 19;

    const MAX: u32 = 524287;

    open spec fn spec_num_bits() -> int {
        19
    }

    open spec fn spec_max() -> u32 {
        524287
    }

    proof fn width_is_valid() {
        lemma2_to64();
    }
}

/// A 20-bit element: values from 0 to 1048575.
pub struct U20;

impl PackedElement for U20 {
    const NUM_BITS: usize = 20;

    const MAX: u32 = 1048575;

    open spec fn spec_num_bits() -> int {
        20
    }

    open spec fn spec_max() -> u32 {
        1048575
    }

    proof fn width_is_valid() {
        lemma2_to64();
    }
}

/// A 21-bit element: values from 0 to 2097151.
pub struct U21;

impl PackedElement for U21 {
    const NUM_BITS: usize = 21;

    const MAX: u32 = 2097151;

    open spec fn spec_num_bits() -> int {
        21
    }

    open spec fn spec_max() -> u32 {
        2097151
    }

    proof fn width_is_valid() {
        lemma2_to64();
    }
}

/// A 22-bit element: values from 0 to 4194303.
pub struct U22;

impl PackedElement for U22 {
    const NUM_BITS: usize = 22;

    const MAX: u32 = 4194303;

    open spec fn spec_num_bits() -> int {
        22
    }

    open spec fn spec_max() -> u32 {
        4194303
    }

    proof fn width_is_valid() {
        lemma2_to64();
    }
}

/// A 23-bit element: values from 0 to 8388607.
pub struct U23;

impl PackedElement for U23 {
    const NUM_BITS: usize = 23;

    const MAX: u32 = 8388607;

    open spec fn spec_num_bits() -> int {
        23
    }

    open spec fn spec_max() -> u32 {
        8388607
    }

    proof fn width_is_valid() {
        lemma2_to64();
    }
}

/// A 24-bit element: values from 0 to 16777215.
pub struct U24;

impl PackedElement for U24 {
    const NUM_BITS: usize = 24;

    const MAX: u32 = 16777215;

    open spec fn spec_num_bits() -> int {
        24
    }

    open spec fn spec_max() -> u32 {
        16777215
    }

    proof fn width_is_valid() {
        lemma2_to64();
    }
}

/// A 25-bit element: values from 0 to 33554431.
pub struct U25;

impl PackedElement for U25 {
    const NUM_BITS: usize = 25;

    const MAX: u32 = 33554431;

    open spec fn spec_num_bits() -> int {
        25
    }

    open spec fn spec_max() -> u32 {
        33554431
    }

    proof fn width_is_valid() {
        lemma2_to64();
    }
}

/// A 26-bit element: values from 0 to 67108863.
pub struct U26;

impl PackedElement for U26 {
    const NUM_BITS: usize = 26;

    const MAX: u32 = 67108863;

    open spec fn spec_num_bits() -> int {
        26
    }

    open spec fn spec_max() -> u32 {
        67108863
    }

    proof fn width_is_valid() {
        lemma2_to64();
    }
}

/// A 27-bit element: values from 0 to 134217727.
pub struct U27;

impl PackedElement for U27 {
    const NUM_BITS: usize = 27;

    const MAX: u32 = 134217727;

    open spec fn spec_num_bits() -> int {
        27
    }

    open spec fn spec_max() -> u32 {
        134217727
    }

    proof fn width_is_valid() {
        lemma2_to64();
    }
}

/// A 28-bit element: values from 0 to 268435455.
pub struct U28;

impl PackedElement for U28 {
    const NUM_BITS: usize = 28;

    const MAX: u32 = 268435455;

    open spec fn spec_num_bits() -> int {
        28
    }

    open spec fn spec_max() -> u32 {
        268435455
    }

    proof fn width_is_valid() {
        lemma2_to64();
    }
}

/// A 29-bit element: values from 0 to 536870911.
pub struct U29;

impl PackedElement for U29 {
    const NUM_BITS: usize = 29;

    const MAX: u32 = 536870911;

    open spec fn spec_num_bits() -> int {
        29
    }

    open spec fn spec_max() -> u32 {
        536870911
    }

    proof fn width_is_valid() {
        lemma2_to64();
    }
}

/// A 30-bit element: values from 0 to 1073741823.
pub struct U30;

impl PackedElement for U30 {
    const NUM_BITS: usize = 30;

    const MAX: u32 = 1073741823;

    open spec fn spec_num_bits() -> int {
        30
    }

    open spec fn spec_max() -> u32 {
        1073741823
    }

    proof fn width_is_valid() {
        lemma2_to64();
    }
}

/// A 31-bit element: values from 0 to 2147483647.
pub struct U31;

impl PackedElement for U31 {
    const NUM_BITS: usize = 31;

    const MAX: u32 = 2147483647;

    open spec fn spec_num_bits() -> int {
        31
    }

    open spec fn spec_max() -> u32 {
        2147483647
    }

    proof fn width_is_valid() {
        lemma2_to64();
    }
}

/// A 32-bit element: values from 0 to 4294967295.
pub struct U32;

impl PackedElement for U32 {
    const NUM_BITS: usize = 32;

    const MAX: u32 = 4294967295;

    open spec fn spec_num_bits() -> int {
        32
    }

    open spec fn spec_max() -> u32 {
        4294967295
    }

    proof fn width_is_valid() {
        lemma2_to64();
    }
}

} // verus!
