//! A dense array of small unsigned integers.
//!
//! A `PackedVec<T>` holds integers of `T::NUM_BITS` bits each, from 1 to 32,
//! one after another in a buffer of 32-bit words, with no padding between
//! them: an element may start in one word and end in the next. It is used
//! like a vector of `u32`: `push`, `get`, `set`, `len`, `iter`.
//!
//! The width is given by a type that implements `PackedElement`; `U1` to
//! `U32` are at hand.
//!
//! ```text
//! let mut v = PackedVec::<U9>::new();
//! v.push(507);
//! v.push(511);
//! v.set(0, 100);
//! assert_eq!(v.get(0), Some(100));
//! assert_eq!(v.get(1), Some(511));
//! assert_eq!(v.get(2), None);
//! ```
//!
//! The contracts speak of the elements as a `Seq<u32>`, the view of the
//! array, and of the slots of the buffer through `PackedVec::slot`. The
//! module `laws` states what holds over a run of calls.

mod bits;
pub mod error;
pub mod iter;
pub mod laws;
pub mod layout;
pub mod packed_element;
pub mod packed_vec;
mod slots;

pub use crate::error::PackedVecError;
pub use crate::iter::{PackedVecIntoIterator, PackedVecIterator};
pub use crate::packed_element::{
    max_value, valid_width, PackedElement, U1, U2, U3, U4, U5, U6, U7, U8, U9, U10, U11,
    U12, U13, U14, U15, U16, U17, U18, U19, U20, U21, U22, U23, U24, U25, U26, U27, U28,
    U29, U30, U31, U32,
};
pub use crate::packed_vec::PackedVec;
