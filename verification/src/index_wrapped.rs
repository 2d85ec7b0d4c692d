//! Indexing from either end: a negative index counts from the back.

use vstd::prelude::*;

verus! {

/// The position that `index` stands for in a sequence of `len` elements:
/// itself if it is not negative, else `len` elements further on, so that -1
/// is the last element.
pub open spec fn wrapped(index: int, len: int) -> int {
    if index < 0 {
        index + len
    } else {
        index
    }
}

/// Whether `index` stands for a position in a sequence of `len` elements.
pub open spec fn in_range(index: int, len: int) -> bool {
    0 <= wrapped(index, len) < len
}

/// Collections that can be read at an index counted from either end.
pub trait IndexWrapped {
    type Output;

    /// What the collection holds, in order.
    spec fn elements(&self) -> Seq<Self::Output>;

    /// The element at `index`, counted from the back where `index` is
    /// negative.
    fn index_wrapped(&self, index: i128) -> (element: &Self::Output)
        requires
            in_range(index as int, self.elements().len() as int),
        ensures
            *element == self.elements()[wrapped(index as int, self.elements().len() as int)],
    ;
}

/// Collections that can be written at an index counted from either end.
pub trait IndexWrappedMut: IndexWrapped {
    /// The place of the element at `index`, counted from the back where
    /// `index` is negative. What is written there is what the collection
    /// holds at that position afterwards; nothing else changes.
    fn index_wrapped_mut(&mut self, index: i128) -> (element: &mut Self::Output)
        requires
            in_range(index as int, old(self).elements().len() as int),
        ensures
            *element == old(self).elements()[wrapped(
                index as int,
                old(self).elements().len() as int,
            )],
            final(self).elements() == old(self).elements().update(
                wrapped(index as int, old(self).elements().len() as int),
                *final(element),
            ),
    ;
}

impl<T> IndexWrapped for Vec<T> {
    type Output = T;

    open spec fn elements(&self) -> Seq<T> {
        self@
    }

    fn index_wrapped(&self, index: i128) -> (element: &T) {
        let len = self.len();
        let position: usize = if index < 0 {
            (index + len as i128) as usize
        } else {
            index as usize
        };
        &self[position]
    }
}

impl<T> IndexWrappedMut for Vec<T> {
    fn index_wrapped_mut(&mut self, index: i128) -> (element: &mut T) {
        let len = self.len();
        let position: usize = if index < 0 {
            (index + len as i128) as usize
        } else {
            index as usize
        };
        &mut self[position]
    }
}

impl<T, const N: usize> IndexWrapped for [T; N] {
    type Output = T;

    open spec fn elements(&self) -> Seq<T> {
        self@
    }

    fn index_wrapped(&self, index: i128) -> (element: &T) {
        broadcast use vstd::array::array_len_matches_n;

        let position: usize = if index < 0 {
            (index + N as i128) as usize
        } else {
            index as usize
        };
        &self[position]
    }
}

impl<T, const N: usize> IndexWrappedMut for [T; N] {
    fn index_wrapped_mut(&mut self, index: i128) -> (element: &mut T) {
        broadcast use vstd::array::array_len_matches_n;

        let position: usize = if index < 0 {
            (index + N as i128) as usize
        } else {
            index as usize
        };
        &mut self[position]
    }
}

} // verus!
