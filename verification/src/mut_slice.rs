//! Non-empty mutable slices.

use vstd::prelude::*;

use core::slice::IterMut;

use crate::size::Size;
use crate::slice::{cloned_items, EmptySlice, NonEmptySlice};

verus! {

/// Represents non-empty mutable slices: unique borrows of one or more items.
///
/// The items can be changed through the borrow, their number can not.
#[derive(Debug, PartialEq, Eq, PartialOrd, Ord, Hash)]
pub struct NonEmptyMutSlice<'a, T> {
    /// The borrowed items.
    pub inner: &'a mut [T],
}

/// Represents non-empty mutable bytes, [`NonEmptyMutSlice<u8>`].
pub type NonEmptyMutBytes<'a> = NonEmptyMutSlice<'a, u8>;

impl<'a, T> View for NonEmptyMutSlice<'a, T> {
    type V = Seq<T>;

    open spec fn view(&self) -> Seq<T> {
        self.inner@
    }
}

impl<'a, T> NonEmptySlice<'a, T> {
    /// Constructs [`NonEmptyMutSlice<T>`] from the mutable slice, provided it is non-empty.
    ///
    /// Returns [`EmptySlice`] exactly when the slice is empty.
    pub fn try_new_mut(slice: &'a mut [T]) -> (result: Result<NonEmptyMutSlice<'a, T>, EmptySlice>)
        ensures
            result is Err <==> old(slice)@.len() == 0,
            result is Err ==> final(slice)@ == old(slice)@,
            result matches Ok(non_empty) ==> non_empty.inv() && non_empty@ == old(slice)@
                && final(non_empty.inner)@ == final(slice)@,
    {
        Self::try_from_mut_slice(slice)
    }

    /// Similar to [`try_new_mut`](Self::try_new_mut), but the error is discarded.
    pub fn new_mut(slice: &'a mut [T]) -> (option: Option<NonEmptyMutSlice<'a, T>>)
        ensures
            option is None <==> old(slice)@.len() == 0,
            option is None ==> final(slice)@ == old(slice)@,
            option matches Some(non_empty) ==> non_empty.inv() && non_empty@ == old(slice)@
                && final(non_empty.inner)@ == final(slice)@,
    {
        Self::from_mut_slice(slice)
    }

    /// Constructs [`NonEmptyMutSlice<T>`] from the mutable slice that the caller knows
    /// to be non-empty.
    pub fn new_unchecked_mut(slice: &'a mut [T]) -> (non_empty: NonEmptyMutSlice<'a, T>)
        requires
            old(slice)@.len() >= 1,
        ensures
            non_empty.inv(),
            non_empty@ == old(slice)@,
            final(non_empty.inner)@ == final(slice)@,
    {
        Self::from_mut_slice_unchecked(slice)
    }

    /// Constructs [`NonEmptyMutSlice<T>`] from the mutable slice, provided it is non-empty.
    ///
    /// Returns [`EmptySlice`] exactly when the slice is empty.
    pub fn try_from_mut_slice(slice: &'a mut [T]) -> (result: Result<
        NonEmptyMutSlice<'a, T>,
        EmptySlice,
    >)
        ensures
            result is Err <==> old(slice)@.len() == 0,
            result is Err ==> final(slice)@ == old(slice)@,
            result matches Ok(non_empty) ==> non_empty.inv() && non_empty@ == old(slice)@
                && final(non_empty.inner)@ == final(slice)@,
    {
        if slice.is_empty() {
            return Err(EmptySlice);
        }
        Ok(Self::from_mut_slice_unchecked(slice))
    }

    /// Similar to [`try_from_mut_slice`](Self::try_from_mut_slice), but the error is discarded.
    pub fn from_mut_slice(slice: &'a mut [T]) -> (option: Option<NonEmptyMutSlice<'a, T>>)
        ensures
            option is None <==> old(slice)@.len() == 0,
            option is None ==> final(slice)@ == old(slice)@,
            option matches Some(non_empty) ==> non_empty.inv() && non_empty@ == old(slice)@
                && final(non_empty.inner)@ == final(slice)@,
    {
        if slice.is_empty() {
            return None;
        }
        Some(Self::from_mut_slice_unchecked(slice))
    }

    /// Constructs [`NonEmptyMutSlice<T>`] from the mutable slice that the caller knows
    /// to be non-empty.
    pub fn from_mut_slice_unchecked(slice: &'a mut [T]) -> (non_empty: NonEmptyMutSlice<'a, T>)
        requires
            old(slice)@.len() >= 1,
        ensures
            non_empty.inv(),
            non_empty@ == old(slice)@,
            final(non_empty.inner)@ == final(slice)@,
    {
        NonEmptyMutSlice { inner: slice }
    }
}

impl<'a, T> NonEmptyMutSlice<'a, T> {
    /// The invariant of non-empty slices: there is at least one item.
    pub open spec fn inv(&self) -> bool {
        self@.len() >= 1
    }

    /// Returns the shared non-empty view of the items.
    pub fn as_non_empty_slice(&self) -> (non_empty: NonEmptySlice<'_, T>)
        requires
            self.inv(),
        ensures
            non_empty.inv(),
            non_empty@ == self@,
    {
        NonEmptySlice::from_slice_unchecked(&*self.inner)
    }

    /// Returns the contained slice.
    pub fn as_slice(&self) -> (slice: &[T])
        ensures
            slice@ == self@,
    {
        &*self.inner
    }

    /// Returns the contained mutable slice.
    pub fn as_mut_slice(&mut self) -> (slice: &mut [T])
        ensures
            slice@ == old(self)@,
            final(self)@ == final(slice)@,
            final(final(self).inner)@ == final(old(self).inner)@,
    {
        &mut *self.inner
    }

    /// Returns the contained mutable slice for the whole time of the borrow.
    pub fn into_mut_slice(self) -> (slice: &'a mut [T])
        ensures
            slice@ == old(self.inner)@,
            final(slice)@ == final(self.inner)@,
    {
        self.inner
    }

    /// Checks if the slice is empty. Always returns `false`.
    pub fn is_empty(&self) -> (empty: bool)
        requires
            self.inv(),
        ensures
            !empty,
    {
        false
    }

    /// Returns the length of the slice as [`Size`].
    pub fn len(&self) -> (len: Size)
        requires
            self.inv(),
        ensures
            len@ == self@.len(),
    {
        Size::new_unchecked(self.inner.len())
    }

    /// Returns the first mutable item of the mutable slice.
    pub fn first_mut(&mut self) -> (first: &mut T)
        requires
            old(self).inv(),
        ensures
            *first == old(self)@.first(),
            final(self)@ == old(self)@.update(0, *final(first)),
            final(final(self).inner)@ == final(old(self).inner)@,
    {
        &mut self.inner[0]
    }

    /// Returns the last mutable item of the mutable slice.
    pub fn last_mut(&mut self) -> (last: &mut T)
        requires
            old(self).inv(),
        ensures
            *last == old(self)@.last(),
            final(self)@ == old(self)@.update(old(self)@.len() - 1, *final(last)),
            final(final(self).inner)@ == final(old(self).inner)@,
    {
        let index = self.inner.len() - 1;
        &mut self.inner[index]
    }

    /// Returns the first mutable item and all the rest of the items in the mutable slice.
    pub fn split_first_mut(&mut self) -> (parts: (&mut T, &mut [T]))
        requires
            old(self).inv(),
        ensures
            *parts.0 == old(self)@.first(),
            parts.1@ == old(self)@.drop_first(),
            final(self)@ == seq![*final(parts.0)] + final(parts.1)@,
            final(final(self).inner)@ == final(old(self).inner)@,
    {
        let (head, rest) = self.inner.split_at_mut(1);
        assert(forall|value: T| #[trigger] head@.update(0, value) =~= seq![value]);
        let first = &mut head[0];
        (first, rest)
    }

    /// Returns the last mutable item and all the rest of the items in the mutable slice.
    pub fn split_last_mut(&mut self) -> (parts: (&mut T, &mut [T]))
        requires
            old(self).inv(),
        ensures
            *parts.0 == old(self)@.last(),
            parts.1@ == old(self)@.drop_last(),
            final(self)@ == final(parts.1)@ + seq![*final(parts.0)],
            final(final(self).inner)@ == final(old(self).inner)@,
    {
        let index = self.inner.len() - 1;
        let (rest, tail) = self.inner.split_at_mut(index);
        assert(forall|value: T| #[trigger] tail@.update(0, value) =~= seq![value]);
        let last = &mut tail[0];
        (last, rest)
    }

    /// Splits the mutable slice into two at the given non-zero index.
    ///
    /// The index has to be non-zero in order to guarantee non-emptiness of the left slice.
    pub fn split_at_mut(&mut self, index: Size) -> (parts: (NonEmptyMutSlice<'_, T>, &mut [T]))
        requires
            old(self).inv(),
            index@ <= old(self)@.len(),
        ensures
            parts.0.inv(),
            parts.0@ == old(self)@.subrange(0, index@ as int),
            parts.1@ == old(self)@.subrange(index@ as int, old(self)@.len() as int),
            final(self)@ == final(parts.0.inner)@ + final(parts.1)@,
            final(final(self).inner)@ == final(old(self).inner)@,
    {
        let (left, right) = self.inner.split_at_mut(index.get());
        (NonEmptyMutSlice { inner: left }, right)
    }

    /// Splits the mutable slice into two at the given non-zero index that the caller knows
    /// to be in bounds.
    pub fn split_at_mut_unchecked(&mut self, index: Size) -> (parts: (
        NonEmptyMutSlice<'_, T>,
        &mut [T],
    ))
        requires
            old(self).inv(),
            index@ <= old(self)@.len(),
        ensures
            parts.0.inv(),
            parts.0@ == old(self)@.subrange(0, index@ as int),
            parts.1@ == old(self)@.subrange(index@ as int, old(self)@.len() as int),
            final(self)@ == final(parts.0.inner)@ + final(parts.1)@,
            final(final(self).inner)@ == final(old(self).inner)@,
    {
        self.split_at_mut(index)
    }

    /// Splits the mutable slice into two at the given non-zero index,
    /// returning `None` if out of bounds.
    ///
    /// The index has to be non-zero in order to guarantee non-emptiness of the left slice.
    pub fn split_at_mut_checked(&mut self, index: Size) -> (parts: Option<
        (NonEmptyMutSlice<'_, T>, &mut [T]),
    >)
        requires
            old(self).inv(),
        ensures
            parts is Some <==> index@ <= old(self)@.len(),
            parts is None ==> final(self)@ == old(self)@,
            parts matches Some((left, right)) ==> left.inv() && left@ == old(self)@.subrange(
                0,
                index@ as int,
            ) && right@ == old(self)@.subrange(index@ as int, old(self)@.len() as int)
                && final(self)@ == final(left.inner)@ + final(right)@,
            final(final(self).inner)@ == final(old(self).inner)@,
    {
        if index.get() > self.inner.len() {
            return None;
        }
        let (left, right) = self.inner.split_at_mut(index.get());
        Some((NonEmptyMutSlice { inner: left }, right))
    }

    /// Reverses the slice in place.
    pub fn reverse(&mut self)
        requires
            old(self).inv(),
        ensures
            final(self).inv(),
            final(self)@ == old(self)@.reverse(),
            final(final(self).inner)@ == final(old(self).inner)@,
    {
        let len = self.inner.len();
        let half = len / 2;
        let mut index: usize = 0;
        while index < half
            invariant
                len == old(self)@.len(),
                self.inner@.len() == len,
                half == len / 2,
                index <= half,
                forall|i: int|
                    0 <= i < index ==> #[trigger] self.inner@[i] == old(self)@[len - 1 - i],
                forall|i: int|
                    len - index <= i < len ==> #[trigger] self.inner@[i] == old(self)@[len - 1 - i],
                forall|i: int|
                    index <= i < len - index ==> #[trigger] self.inner@[i] == old(self)@[i],
                final(self.inner)@ == final(old(self).inner)@,
            decreases half - index,
        {
            self.inner.swap(index, len - 1 - index);
            index = index + 1;
        }
        assert(self.inner@ =~= old(self)@.reverse());
    }

    /// Returns regular by-mutable-reference iterator over the mutable slice.
    ///
    /// Whatever is written through the iterator, the slice keeps its length.
    pub fn iter_mut(&mut self) -> (iter: IterMut<'_, T>)
        requires
            old(self).inv(),
        ensures
            final(self).inv(),
            final(self)@.len() == old(self)@.len(),
            final(final(self).inner)@ == final(old(self).inner)@,
    {
        self.inner.iter_mut()
    }

    /// Returns the first mutable `N` items of the mutable slice as an array.
    ///
    /// If there are less than `N` items, `None` is returned.
    pub fn first_chunk_mut<const N: usize>(&mut self) -> (chunk: Option<&mut [T; N]>)
        ensures
            chunk is Some <==> N <= old(self)@.len(),
            chunk is None ==> final(self)@ == old(self)@,
            chunk is Some ==> chunk.unwrap()@ == old(self)@.subrange(0, N as int) && final(self)@
                == final(chunk.unwrap())@ + old(self)@.subrange(N as int, old(self)@.len() as int),
            final(final(self).inner)@ == final(old(self).inner)@,
    {
        self.inner.first_chunk_mut::<N>()
    }

    /// Returns the first mutable `N` items of the mutable slice as an array
    /// and all the rest of the items.
    ///
    /// If there are less than `N` items, `None` is returned.
    pub fn split_first_chunk_mut<const N: usize>(&mut self) -> (parts: Option<
        (&mut [T; N], &mut [T]),
    >)
        ensures
            parts is Some <==> N <= old(self)@.len(),
            parts is None ==> final(self)@ == old(self)@,
            parts is Some ==> parts.unwrap().0@ == old(self)@.subrange(0, N as int)
                && parts.unwrap().1@ == old(self)@.subrange(N as int, old(self)@.len() as int)
                && final(self)@ == final(parts.unwrap().0)@ + final(parts.unwrap().1)@,
            final(final(self).inner)@ == final(old(self).inner)@,
    {
        if N > self.inner.len() {
            return None;
        }
        let (head, rest) = self.inner.split_at_mut(N);
        assert(head@.subrange(N as int, head@.len() as int) =~= Seq::<T>::empty());
        match head.first_chunk_mut::<N>() {
            Some(array) => Some((array, rest)),
            None => None,
        }
    }

    /// Returns the last mutable `N` items of the mutable slice as an array.
    ///
    /// If there are less than `N` items, `None` is returned.
    pub fn last_chunk_mut<const N: usize>(&mut self) -> (chunk: Option<&mut [T; N]>)
        ensures
            chunk is Some <==> N <= old(self)@.len(),
            chunk is None ==> final(self)@ == old(self)@,
            chunk is Some ==> chunk.unwrap()@ == old(self)@.subrange(
                old(self)@.len() - N,
                old(self)@.len() as int,
            ) && final(self)@ == old(self)@.subrange(0, old(self)@.len() - N)
                + final(chunk.unwrap())@,
            final(final(self).inner)@ == final(old(self).inner)@,
    {
        let len = self.inner.len();
        if N > len {
            return None;
        }
        let (rest, tail) = self.inner.split_at_mut(len - N);
        assert(tail@.subrange(N as int, tail@.len() as int) =~= Seq::<T>::empty());
        tail.first_chunk_mut::<N>()
    }

    /// Returns all the rest of the items and the last mutable `N` items of the mutable slice
    /// as an array.
    ///
    /// If there are less than `N` items, `None` is returned.
    pub fn split_last_chunk_mut<const N: usize>(&mut self) -> (parts: Option<
        (&mut [T], &mut [T; N]),
    >)
        ensures
            parts is Some <==> N <= old(self)@.len(),
            parts is None ==> final(self)@ == old(self)@,
            parts is Some ==> parts.unwrap().0@ == old(self)@.subrange(0, old(self)@.len() - N)
                && parts.unwrap().1@ == old(self)@.subrange(
                old(self)@.len() - N,
                old(self)@.len() as int,
            ) && final(self)@ == final(parts.unwrap().0)@ + final(parts.unwrap().1)@,
            final(final(self).inner)@ == final(old(self).inner)@,
    {
        let len = self.inner.len();
        if N > len {
            return None;
        }
        let (rest, tail) = self.inner.split_at_mut(len - N);
        assert(tail@.subrange(N as int, tail@.len() as int) =~= Seq::<T>::empty());
        match tail.first_chunk_mut::<N>() {
            Some(array) => Some((rest, array)),
            None => None,
        }
    }

    /// Reinterprets the mutable slice as a mutable array of `N` items.
    ///
    /// If the length is not equal to `N`, `None` is returned.
    pub fn as_mut_array<const N: usize>(&mut self) -> (array: Option<&mut [T; N]>)
        ensures
            array is Some <==> old(self)@.len() == N,
            array is None ==> final(self)@ == old(self)@,
            array is Some ==> array.unwrap()@ == old(self)@
                && final(self)@ == final(array.unwrap())@,
            final(final(self).inner)@ == final(old(self).inner)@,
    {
        if self.inner.len() == N {
            assert(self.inner@.subrange(N as int, self.inner@.len() as int) =~= Seq::<T>::empty());
            assert(self.inner@.subrange(0, N as int) =~= self.inner@);
            self.inner.first_chunk_mut::<N>()
        } else {
            None
        }
    }

    /// Splits the slice into mutable chunks of `N` items, starting at the beginning of
    /// the slice, returning the remainder as another mutable slice.
    pub fn as_chunks_mut<const N: usize>(&mut self) -> (parts: (&mut [[T; N]], &mut [T]))
        requires
            N != 0,
        ensures
            parts.0@.len() == (old(self)@.len() as int) / (N as int),
            forall|i: int|
                0 <= i < parts.0@.len() ==> (#[trigger] parts.0@[i])@ == old(self)@.subrange(
                    i * N,
                    i * N + N,
                ),
            parts.1@ == old(self)@.subrange(
                old(self)@.len() - (old(self)@.len() as int) % (N as int),
                old(self)@.len() as int,
            ),
            final(self)@ == final(parts.0)@.map_values(|array: [T; N]| array@).flatten()
                + final(parts.1)@,
            final(final(self).inner)@ == final(old(self).inner)@,
    {
        self.inner.as_chunks_mut::<N>()
    }

    /// Splits the slice into mutable chunks of `N` items, given that there is no remainder.
    pub fn as_chunks_unchecked_mut<const N: usize>(&mut self) -> (chunks: &mut [[T; N]])
        requires
            N != 0,
            (old(self)@.len() as int) % (N as int) == 0,
        ensures
            chunks@.len() == (old(self)@.len() as int) / (N as int),
            forall|i: int|
                0 <= i < chunks@.len() ==> (#[trigger] chunks@[i])@ == old(self)@.subrange(
                    i * N,
                    i * N + N,
                ),
            final(self)@ == final(chunks)@.map_values(|array: [T; N]| array@).flatten(),
            final(final(self).inner)@ == final(old(self).inner)@,
    {
        let (chunks, rest) = self.inner.as_chunks_mut::<N>();
        assert(rest@ =~= Seq::<T>::empty());
        chunks
    }

    /// Splits the slice into mutable chunks of `N` items, starting at the end of the slice,
    /// returning the remainder as another mutable slice.
    pub fn as_rchunks_mut<const N: usize>(&mut self) -> (parts: (&mut [T], &mut [[T; N]]))
        requires
            N != 0,
        ensures
            parts.0@ == old(self)@.subrange(0, (old(self)@.len() as int) % (N as int)),
            parts.1@.len() == (old(self)@.len() as int) / (N as int),
            forall|i: int|
                0 <= i < parts.1@.len() ==> (#[trigger] parts.1@[i])@ == old(self)@.subrange(
                    (old(self)@.len() as int) % (N as int) + i * N,
                    (old(self)@.len() as int) % (N as int) + i * N + N,
                ),
            final(self)@ == final(parts.0)@ + final(parts.1)@.map_values(
                |array: [T; N]| array@,
            ).flatten(),
            final(final(self).inner)@ == final(old(self).inner)@,
    {
        self.inner.as_rchunks_mut::<N>()
    }

    /// Swaps two items in the slice.
    pub fn swap(&mut self, first: usize, other: usize)
        requires
            old(self).inv(),
            first < old(self)@.len(),
            other < old(self)@.len(),
        ensures
            final(self).inv(),
            final(self)@ == old(self)@.update(first as int, old(self)@[other as int]).update(
                other as int,
                old(self)@[first as int],
            ),
            final(final(self).inner)@ == final(old(self).inner)@,
    {
        self.inner.swap(first, other);
    }
}

impl<'a, T: Clone> NonEmptyMutSlice<'a, T> {
    /// Clones all items from another non-empty slice into this one.
    ///
    /// The two slices have to be of the same length.
    pub fn clone_from_non_empty_slice(&mut self, other: NonEmptySlice<'_, T>)
        requires
            old(self).inv(),
            other.inv(),
            old(self)@.len() == other@.len(),
        ensures
            final(self).inv(),
            cloned_items(other@, final(self)@),
            final(final(self).inner)@ == final(old(self).inner)@,
    {
        let source = other.as_slice();
        let mut index: usize = 0;
        while index < source.len()
            invariant
                index <= source@.len(),
                source@ == other@,
                self.inner@.len() == source@.len(),
                forall|i: int|
                    0 <= i < index ==> cloned::<T>(source@[i], #[trigger] self.inner@[i]),
                final(self.inner)@ == final(old(self).inner)@,
            decreases source@.len() - index,
        {
            self.inner[index] = source[index].clone();
            index = index + 1;
        }
    }
}

} // verus!
