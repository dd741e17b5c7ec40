//! Non-empty slices.

use vstd::prelude::*;
use vstd::slice::slice_subrange;
use vstd::std_specs::convert::{FromSpecImpl, TryFromSpecImpl};
use vstd::std_specs::iter::IteratorSpec;
use vstd::std_specs::slice::spec_slice_iter;

use core::slice::Iter;

use crate::size::Size;

verus! {

/// The error message used when the slice is empty.
pub const EMPTY_SLICE: &'static str = "the slice is empty";

/// Represents errors returned when received slices are empty.
#[derive(Debug, Clone, Copy, PartialEq, Eq, Structural)]
pub struct EmptySlice;

impl EmptySlice {
    /// Returns the message of this error.
    pub fn message(&self) -> (message: &'static str)
        ensures
            message@ == EMPTY_SLICE@,
    {
        EMPTY_SLICE
    }
}

/// States that `copy` holds as many items as `source`, each one a clone of the item
/// of `source` at its index.
///
/// For items whose clones are equal to them this says that the two sequences are equal.
pub open spec fn cloned_items<T: Clone>(source: Seq<T>, copy: Seq<T>) -> bool {
    &&& copy.len() == source.len()
    &&& forall|i: int| 0 <= i < source.len() ==> cloned::<T>(source[i], #[trigger] copy[i])
}

/// Represents non-empty slices: borrowed views of one or more items.
///
/// The view borrows its items and copies none of them; it is itself freely copied.
#[derive(Debug, PartialEq, Eq, PartialOrd, Ord, Hash)]
pub struct NonEmptySlice<'a, T> {
    inner: &'a [T],
}

/// Represents non-empty bytes, [`NonEmptySlice<u8>`].
pub type NonEmptyBytes<'a> = NonEmptySlice<'a, u8>;

impl<'a, T> View for NonEmptySlice<'a, T> {
    type V = Seq<T>;

    closed spec fn view(&self) -> Seq<T> {
        self.inner@
    }
}

impl<'a, T> Clone for NonEmptySlice<'a, T> {
    fn clone(&self) -> (copy: Self)
        ensures
            copy == *self,
    {
        Self { inner: self.inner }
    }
}

impl<'a, T> Copy for NonEmptySlice<'a, T> {

}

impl<'a, T> IntoIterator for NonEmptySlice<'a, T> {
    type Item = &'a T;

    type IntoIter = Iter<'a, T>;

    fn into_iter(self) -> (iter: Self::IntoIter)
        ensures
            iter == spec_slice_iter(self.spec_as_slice()),
    {
        self.inner.iter()
    }
}

impl<'a, T> NonEmptySlice<'a, T> {
    /// The invariant of non-empty slices: there is at least one item.
    pub open spec fn inv(&self) -> bool {
        self@.len() >= 1
    }

    /// The slice that this view borrows.
    pub closed spec fn spec_as_slice(&self) -> &'a [T] {
        self.inner
    }

    /// Constructs [`Self`] from the slice, provided it is non-empty.
    ///
    /// Returns [`EmptySlice`] exactly when the slice is empty.
    pub fn try_new(slice: &'a [T]) -> (result: Result<Self, EmptySlice>)
        ensures
            result is Err <==> slice@.len() == 0,
            result matches Ok(non_empty) ==> non_empty.inv() && non_empty@ == slice@
                && non_empty.spec_as_slice() == slice,
    {
        Self::try_from_slice(slice)
    }

    /// Similar to [`try_new`](Self::try_new), but the error is discarded.
    pub fn new(slice: &'a [T]) -> (option: Option<Self>)
        ensures
            option is None <==> slice@.len() == 0,
            option matches Some(non_empty) ==> non_empty.inv() && non_empty@ == slice@
                && non_empty.spec_as_slice() == slice,
    {
        Self::from_slice(slice)
    }

    /// Constructs [`Self`] from the slice that the caller knows to be non-empty.
    pub fn new_unchecked(slice: &'a [T]) -> (non_empty: Self)
        requires
            slice@.len() >= 1,
        ensures
            non_empty.inv(),
            non_empty@ == slice@,
            non_empty.spec_as_slice() == slice,
    {
        Self::from_slice_unchecked(slice)
    }

    /// Constructs [`Self`] from the slice, provided it is non-empty.
    ///
    /// Returns [`EmptySlice`] exactly when the slice is empty.
    pub fn try_from_slice(slice: &'a [T]) -> (result: Result<Self, EmptySlice>)
        ensures
            result is Err <==> slice@.len() == 0,
            result matches Ok(non_empty) ==> non_empty.inv() && non_empty@ == slice@
                && non_empty.spec_as_slice() == slice,
    {
        if slice.is_empty() {
            return Err(EmptySlice);
        }
        Ok(Self::from_slice_unchecked(slice))
    }

    /// Similar to [`try_from_slice`](Self::try_from_slice), but the error is discarded.
    pub fn from_slice(slice: &'a [T]) -> (option: Option<Self>)
        ensures
            option is None <==> slice@.len() == 0,
            option matches Some(non_empty) ==> non_empty.inv() && non_empty@ == slice@
                && non_empty.spec_as_slice() == slice,
    {
        if slice.is_empty() {
            return None;
        }
        Some(Self::from_slice_unchecked(slice))
    }

    /// Constructs [`Self`] from the slice that the caller knows to be non-empty.
    pub fn from_slice_unchecked(slice: &'a [T]) -> (non_empty: Self)
        requires
            slice@.len() >= 1,
        ensures
            non_empty.inv(),
            non_empty@ == slice@,
            non_empty.spec_as_slice() == slice,
    {
        Self { inner: slice }
    }

    /// Returns the contained slice.
    #[verifier::when_used_as_spec(spec_as_slice)]
    pub fn as_slice(&self) -> (slice: &'a [T])
        ensures
            slice == self.spec_as_slice(),
            slice@ == self@,
    {
        self.inner
    }

    /// Checks if the slice is empty. Always returns `false`.
    pub fn is_empty(&self) -> (empty: bool)
        requires
            self.inv(),
        ensures
            !empty,
    {
        false
    }

    /// Returns the length of the slice as [`Size`].
    pub fn len(&self) -> (len: Size)
        requires
            self.inv(),
        ensures
            len@ == self@.len(),
    {
        Size::new_unchecked(self.inner.len())
    }

    /// Returns regular by-reference iterator over the slice.
    pub fn iter(&self) -> (iter: Iter<'a, T>)
        ensures
            iter == spec_slice_iter(self.spec_as_slice()),
            IteratorSpec::decrease(&iter) is Some,
            IteratorSpec::initial_value_relation(&iter, &iter),
    {
        self.inner.iter()
    }

    /// Returns the first item of the slice.
    pub fn first(&self) -> (first: &'a T)
        requires
            self.inv(),
        ensures
            *first == self@.first(),
    {
        &self.inner[0]
    }

    /// Returns the last item of the slice.
    pub fn last(&self) -> (last: &'a T)
        requires
            self.inv(),
        ensures
            *last == self@.last(),
    {
        &self.inner[self.inner.len() - 1]
    }

    /// Returns the first and all the rest of the items in the slice.
    pub fn split_first(&self) -> (parts: (&'a T, &'a [T]))
        requires
            self.inv(),
        ensures
            *parts.0 == self@.first(),
            parts.1@ == self@.drop_first(),
    {
        let rest = slice_subrange(self.inner, 1, self.inner.len());
        (&self.inner[0], rest)
    }

    /// Returns the last and all the rest of the items in the slice.
    pub fn split_last(&self) -> (parts: (&'a T, &'a [T]))
        requires
            self.inv(),
        ensures
            *parts.0 == self@.last(),
            parts.1@ == self@.drop_last(),
    {
        let last = self.inner.len() - 1;
        let rest = slice_subrange(self.inner, 0, last);
        (&self.inner[last], rest)
    }

    /// Returns the first `N` items of the slice as an array.
    ///
    /// If there are less than `N` items, `None` is returned.
    pub fn first_chunk<const N: usize>(&self) -> (chunk: Option<&'a [T; N]>)
        ensures
            chunk is Some <==> N <= self@.len(),
            chunk matches Some(array) ==> array@ == self@.subrange(0, N as int),
    {
        self.inner.first_chunk::<N>()
    }

    /// Returns the first `N` items of the slice as an array and all the rest of the items.
    ///
    /// If there are less than `N` items, `None` is returned.
    pub fn split_first_chunk<const N: usize>(&self) -> (parts: Option<(&'a [T; N], &'a [T])>)
        ensures
            parts is Some <==> N <= self@.len(),
            parts matches Some((array, rest)) ==> array@ == self@.subrange(0, N as int) && rest@
                == self@.subrange(N as int, self@.len() as int),
    {
        match self.inner.first_chunk::<N>() {
            Some(array) => Some((array, slice_subrange(self.inner, N, self.inner.len()))),
            None => None,
        }
    }

    /// Returns the last `N` items of the slice as an array.
    ///
    /// If there are less than `N` items, `None` is returned.
    pub fn last_chunk<const N: usize>(&self) -> (chunk: Option<&'a [T; N]>)
        ensures
            chunk is Some <==> N <= self@.len(),
            chunk matches Some(array) ==> array@ == self@.subrange(
                self@.len() - N,
                self@.len() as int,
            ),
    {
        let len = self.inner.len();
        if N > len {
            return None;
        }
        slice_subrange(self.inner, len - N, len).first_chunk::<N>()
    }

    /// Returns all the rest of the items and the last `N` items of the slice as an array.
    ///
    /// If there are less than `N` items, `None` is returned.
    pub fn split_last_chunk<const N: usize>(&self) -> (parts: Option<(&'a [T], &'a [T; N])>)
        ensures
            parts is Some <==> N <= self@.len(),
            parts matches Some((rest, array)) ==> rest@ == self@.subrange(0, self@.len() - N)
                && array@ == self@.subrange(self@.len() - N, self@.len() as int),
    {
        let len = self.inner.len();
        if N > len {
            return None;
        }
        let rest = slice_subrange(self.inner, 0, len - N);
        match slice_subrange(self.inner, len - N, len).first_chunk::<N>() {
            Some(array) => Some((rest, array)),
            None => None,
        }
    }

    /// Reinterprets the slice as an array of `N` items.
    ///
    /// If the length is not equal to `N`, `None` is returned.
    pub fn as_array<const N: usize>(&self) -> (array: Option<&'a [T; N]>)
        ensures
            array is Some <==> self@.len() == N,
            array matches Some(items) ==> items@ == self@,
    {
        if self.inner.len() == N {
            self.inner.first_chunk::<N>()
        } else {
            None
        }
    }

    /// Splits the slice into chunks of `N` items, starting at the beginning of the slice,
    /// returning the remainder as another slice.
    pub fn as_chunks<const N: usize>(&self) -> (parts: (&'a [[T; N]], &'a [T]))
        requires
            N != 0,
        ensures
            parts.0@.len() == (self@.len() as int) / (N as int),
            forall|i: int|
                0 <= i < parts.0@.len() ==> (#[trigger] parts.0@[i])@ == self@.subrange(
                    i * N,
                    i * N + N,
                ),
            parts.1@ == self@.subrange(
                self@.len() - (self@.len() as int) % (N as int),
                self@.len() as int,
            ),
    {
        self.inner.as_chunks::<N>()
    }

    /// Splits the slice into chunks of `N` items, given that there is no remainder.
    pub fn as_chunks_unchecked<const N: usize>(&self) -> (chunks: &'a [[T; N]])
        requires
            N != 0,
            (self@.len() as int) % (N as int) == 0,
        ensures
            chunks@.len() == (self@.len() as int) / (N as int),
            forall|i: int|
                0 <= i < chunks@.len() ==> (#[trigger] chunks@[i])@ == self@.subrange(
                    i * N,
                    i * N + N,
                ),
    {
        self.inner.as_chunks::<N>().0
    }

    /// Splits the slice into chunks of `N` items, starting at the end of the slice,
    /// returning the remainder as another slice.
    pub fn as_rchunks<const N: usize>(&self) -> (parts: (&'a [T], &'a [[T; N]]))
        requires
            N != 0,
        ensures
            parts.0@ == self@.subrange(0, (self@.len() as int) % (N as int)),
            parts.1@.len() == (self@.len() as int) / (N as int),
            forall|i: int|
                0 <= i < parts.1@.len() ==> (#[trigger] parts.1@[i])@ == self@.subrange(
                    (self@.len() as int) % (N as int) + i * N,
                    (self@.len() as int) % (N as int) + i * N + N,
                ),
    {
        self.inner.as_rchunks::<N>()
    }

    /// Splits the slice into two at the given non-zero index.
    ///
    /// The index has to be non-zero in order to guarantee non-emptiness of the left slice.
    pub fn split_at(&self, index: Size) -> (parts: (Self, &'a [T]))
        requires
            self.inv(),
            index@ <= self@.len(),
        ensures
            parts.0.inv(),
            parts.0@ == self@.subrange(0, index@ as int),
            parts.1@ == self@.subrange(index@ as int, self@.len() as int),
    {
        let (left, right) = self.inner.split_at(index.get());
        (Self::from_slice_unchecked(left), right)
    }

    /// Splits the slice into two at the given non-zero index that the caller knows to be
    /// in bounds.
    pub fn split_at_unchecked(&self, index: Size) -> (parts: (Self, &'a [T]))
        requires
            self.inv(),
            index@ <= self@.len(),
        ensures
            parts.0.inv(),
            parts.0@ == self@.subrange(0, index@ as int),
            parts.1@ == self@.subrange(index@ as int, self@.len() as int),
    {
        self.split_at(index)
    }

    /// Splits the slice into two at the given non-zero index, returning `None` if out of bounds.
    ///
    /// The index has to be non-zero in order to guarantee non-emptiness of the left slice.
    pub fn split_at_checked(&self, index: Size) -> (parts: Option<(Self, &'a [T])>)
        requires
            self.inv(),
        ensures
            parts is Some <==> index@ <= self@.len(),
            parts matches Some((left, right)) ==> left.inv() && left@ == self@.subrange(
                0,
                index@ as int,
            ) && right@ == self@.subrange(index@ as int, self@.len() as int),
    {
        if index.get() > self.inner.len() {
            return None;
        }
        let (left, right) = self.inner.split_at(index.get());
        Some((Self::from_slice_unchecked(left), right))
    }
}

impl<'a, T> TryFrom<&'a [T]> for NonEmptySlice<'a, T> {
    type Error = EmptySlice;

    fn try_from(slice: &'a [T]) -> (result: Result<Self, Self::Error>) {
        if slice.is_empty() {
            Err(EmptySlice)
        } else {
            Ok(NonEmptySlice { inner: slice })
        }
    }
}

impl<'a, T> TryFromSpecImpl<&'a [T]> for NonEmptySlice<'a, T> {
    open spec fn obeys_try_from_spec() -> bool {
        true
    }

    closed spec fn try_from_spec(slice: &'a [T]) -> Result<Self, Self::Error> {
        if slice@.len() == 0 {
            Err(EmptySlice)
        } else {
            Ok(NonEmptySlice { inner: slice })
        }
    }
}

impl<'a, T> From<NonEmptySlice<'a, T>> for &'a [T] {
    fn from(non_empty: NonEmptySlice<'a, T>) -> (slice: Self) {
        non_empty.as_slice()
    }
}

impl<'a, T> FromSpecImpl<NonEmptySlice<'a, T>> for &'a [T] {
    open spec fn obeys_from_spec() -> bool {
        true
    }

    open spec fn from_spec(non_empty: NonEmptySlice<'a, T>) -> Self {
        non_empty.spec_as_slice()
    }
}

} // verus!
