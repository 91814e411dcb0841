//! Iteration over a packed array, by reference and by value. Both iterators
//! hand out the elements in order, from element 0 on, and then `None` for
//! good.

use vstd::prelude::*;
use vstd::std_specs::iter::{IteratorSpec, IteratorSpecImpl};
use crate::packed_element::PackedElement;
use crate::packed_vec::PackedVec;

verus! {

/// An iterator over the elements of a packed array that it borrows.
pub struct PackedVecIterator<'a, T: PackedElement> {
    vec: &'a PackedVec<T>,
    index: usize,
}

/// An iterator over the elements of a packed array that it owns.
pub struct PackedVecIntoIterator<T: PackedElement> {
    vec: PackedVec<T>,
    index: usize,
}

impl<'a, T: PackedElement> PackedVecIterator<'a, T> {
    #[verifier::type_invariant]
    spec fn well_formed(&self) -> bool {
        self.index <= self.vec.len()
    }

    /// The elements of the array, those handed out and those to come.
    pub closed spec fn elements(&self) -> Seq<u32> {
        self.vec@
    }

    /// The number of elements handed out so far.
    pub closed spec fn cursor(&self) -> int {
        self.index as int
    }
}

impl<T: PackedElement> PackedVecIntoIterator<T> {
    #[verifier::type_invariant]
    spec fn well_formed(&self) -> bool {
        self.index <= self.vec.len()
    }

    /// The elements of the array, those handed out and those to come.
    pub closed spec fn elements(&self) -> Seq<u32> {
        self.vec@
    }

    /// The number of elements handed out so far.
    pub closed spec fn cursor(&self) -> int {
        self.index as int
    }
}

impl<'a, T: PackedElement> Iterator for PackedVecIterator<'a, T> {
    type Item = u32;

    /// The element at the cursor, which then moves on by one; `None`, with
    /// the cursor where it is, once it has reached the end.
    fn next(&mut self) -> (item: Option<u32>)
        ensures
            final(self).elements() == old(self).elements(),
            item == if old(self).cursor() < old(self).elements().len() {
                Some(old(self).elements()[old(self).cursor()])
            } else {
                None
            },
            final(self).cursor() == if item is Some {
                old(self).cursor() + 1
            } else {
                old(self).cursor()
            },
    {
        proof {
            use_type_invariant(&*self);
        }
        let result = self.vec.get(self.index);
        if result.is_some() {
            self.index += 1;
        }
        result
    }
}

impl<'a, T: PackedElement> IteratorSpecImpl for PackedVecIterator<'a, T> {
    open spec fn obeys_prophetic_iter_laws(&self) -> bool {
        true
    }

    open spec fn remaining(&self) -> Seq<u32> {
        self.elements().skip(self.cursor())
    }

    open spec fn will_return_none(&self) -> bool {
        true
    }

    open spec fn decrease(&self) -> Option<nat> {
        Some((self.elements().len() - self.cursor()) as nat)
    }

    open spec fn initial_value_relation(&self, init: &Self) -> bool {
        self.elements() == init.elements()
    }

    open spec fn peek(&self, index: int) -> Option<u32> {
        if 0 <= index < self.elements().len() - self.cursor() {
            Some(self.elements()[self.cursor() + index])
        } else {
            None
        }
    }
}

impl<T: PackedElement> Iterator for PackedVecIntoIterator<T> {
    type Item = u32;

    /// The element at the cursor, which then moves on by one; `None`, with
    /// the cursor where it is, once it has reached the end.
    fn next(&mut self) -> (item: Option<u32>)
        ensures
            final(self).elements() == old(self).elements(),
            item == if old(self).cursor() < old(self).elements().len() {
                Some(old(self).elements()[old(self).cursor()])
            } else {
                None
            },
            final(self).cursor() == if item is Some {
                old(self).cursor() + 1
            } else {
                old(self).cursor()
            },
    {
        proof {
            use_type_invariant(&*self);
        }
        let result = self.vec.get(self.index);
        if result.is_some() {
            self.index += 1;
        }
        result
    }
}

impl<T: PackedElement> IteratorSpecImpl for PackedVecIntoIterator<T> {
    open spec fn obeys_prophetic_iter_laws(&self) -> bool {
        true
    }

    open spec fn remaining(&self) -> Seq<u32> {
        self.elements().skip(self.cursor())
    }

    open spec fn will_return_none(&self) -> bool {
        true
    }

    open spec fn decrease(&self) -> Option<nat> {
        Some((self.elements().len() - self.cursor()) as nat)
    }

    open spec fn initial_value_relation(&self, init: &Self) -> bool {
        self.elements() == init.elements()
    }

    open spec fn peek(&self, index: int) -> Option<u32> {
        if 0 <= index < self.elements().len() - self.cursor() {
            Some(self.elements()[self.cursor() + index])
        } else {
            None
        }
    }
}

impl<T: PackedElement> IntoIterator for PackedVec<T> {
    type Item = u32;

    type IntoIter = PackedVecIntoIterator<T>;

    /// An iterator that owns the array and starts at element 0.
    fn into_iter(self) -> (iter: PackedVecIntoIterator<T>)
        ensures
            iter.elements() == self@,
            iter.cursor() == 0,
            IteratorSpec::remaining(&iter) == self@,
            IteratorSpec::decrease(&iter) is Some,
            IteratorSpec::initial_value_relation(&iter, &iter),
    {
        PackedVecIntoIterator { vec: self, index: 0 }
    }
}

impl<'a, T: PackedElement> IntoIterator for &'a PackedVec<T> {
    type Item = u32;

    type IntoIter = PackedVecIterator<'a, T>;

    /// An iterator that borrows the array and starts at element 0.
    fn into_iter(self) -> (iter: PackedVecIterator<'a, T>)
        ensures
            iter.elements() == self@,
            iter.cursor() == 0,
            IteratorSpec::remaining(&iter) == self@,
            IteratorSpec::decrease(&iter) is Some,
            IteratorSpec::initial_value_relation(&iter, &iter),
    {
        PackedVecIterator { vec: self, index: 0 }
    }
}

} // verus!
