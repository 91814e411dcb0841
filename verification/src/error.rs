//! What the checked operations of the packed array report when they refuse.

use vstd::prelude::*;

verus! {

/// Why `try_push` or `try_set` left the array as it was.
#[derive(Clone, Copy, Debug, PartialEq, Eq, Structural)]
pub enum PackedVecError {
    /// The value is larger than the largest that the element width holds.
    ValueOutOfRange,
    /// The index is not below the number of elements.
    IndexOutOfBounds,
}

} // verus!
