//! Non-empty boxed slices.

use vstd::layout::size_of;
use vstd::prelude::*;
use vstd::std_specs::convert::{FromSpecImpl, TryFromSpecImpl};
use vstd::std_specs::vec::into_iter_elts;

use core::mem::MaybeUninit;

use std::vec::IntoIter;

use crate::mut_slice::NonEmptyMutSlice;
use crate::size::Size;
use crate::slice::{cloned_items, NonEmptySlice};
use crate::trusted::{box_new_uninit_slice, vec_into_boxed_slice};
use crate::vec::{EmptyVec, NonEmptyVec};

verus! {

/// The error message used when the boxed slice is empty.
pub const EMPTY_BOXED: &'static str = "the boxed slice is empty";

/// Similar to [`EmptyVec<T>`], but contains the empty boxed slice provided.
#[derive(Debug)]
pub struct EmptyBoxedSlice<T> {
    boxed: Box<[T]>,
}

/// Represents empty boxed bytes, [`EmptyBoxedSlice<u8>`].
pub type EmptyBoxedBytes = EmptyBoxedSlice<u8>;

impl<T> View for EmptyBoxedSlice<T> {
    type V = Seq<T>;

    closed spec fn view(&self) -> Seq<T> {
        self.boxed@
    }
}

impl<T> EmptyBoxedSlice<T> {
    /// The invariant of this error: the boxed slice that it holds is empty.
    pub open spec fn inv(&self) -> bool {
        self@.len() == 0
    }

    /// The boxed slice that this error holds.
    pub closed spec fn spec_get(self) -> Box<[T]> {
        self.boxed
    }

    /// Constructs [`Self`] around the empty boxed slice.
    pub(crate) fn new(boxed: Box<[T]>) -> (empty: Self)
        requires
            boxed@.len() == 0,
        ensures
            empty.inv(),
            empty.spec_get() == boxed,
            empty@ == boxed@,
    {
        Self { boxed }
    }

    /// Returns the contained empty boxed slice: the very boxed slice that was rejected.
    #[verifier::when_used_as_spec(spec_get)]
    pub fn get(self) -> (boxed: Box<[T]>)
        ensures
            boxed == self.spec_get(),
            boxed@ == self@,
    {
        self.boxed
    }

    /// Constructs [`Self`] from [`EmptyVec<T>`].
    pub fn from_empty_vec(empty: EmptyVec<T>) -> (boxed: Self)
        requires
            empty.inv(),
        ensures
            boxed.inv(),
            boxed@ == empty@,
    {
        Self::new(vec_into_boxed_slice(empty.get()))
    }

    /// Converts [`Self`] into [`EmptyVec<T>`].
    pub fn into_empty_vec(self) -> (empty: EmptyVec<T>)
        requires
            self.inv(),
        ensures
            empty.inv(),
            empty@ == self@,
    {
        EmptyVec::from_empty_boxed_slice(self)
    }

    /// Returns the debug form of this error, which shows what it holds as the empty list
    /// whatever the type of the items.
    pub fn to_debug_string(&self) -> (debug: String)
        ensures
            debug@ == "EmptyBoxedSlice { boxed: [] }"@,
    {
        "EmptyBoxedSlice { boxed: [] }".to_string()
    }

    /// Returns the message of this error.
    pub fn message(&self) -> (message: &'static str)
        ensures
            message@ == EMPTY_BOXED@,
    {
        EMPTY_BOXED
    }
}

impl<T> EmptyVec<T> {
    /// Constructs [`Self`] from [`EmptyBoxedSlice<T>`].
    pub fn from_empty_boxed_slice(empty: EmptyBoxedSlice<T>) -> (vec: Self)
        requires
            empty.inv(),
        ensures
            vec.inv(),
            vec@ == empty@,
    {
        Self::new(empty.get().into_vec())
    }

    /// Converts [`Self`] into [`EmptyBoxedSlice<T>`].
    pub fn into_empty_boxed_slice(self) -> (boxed: EmptyBoxedSlice<T>)
        requires
            self.inv(),
        ensures
            boxed.inv(),
            boxed@ == self@,
    {
        EmptyBoxedSlice::from_empty_vec(self)
    }
}

/// Represents non-empty boxed slices: owned, of fixed length, with one or more items.
#[derive(Debug, PartialEq, Eq, PartialOrd, Ord, Hash)]
pub struct NonEmptyBoxedSlice<T> {
    inner: Box<[T]>,
}

/// Represents non-empty boxed bytes, [`NonEmptyBoxedSlice<u8>`].
pub type NonEmptyBoxedBytes = NonEmptyBoxedSlice<u8>;

/// Represents non-empty boxed slices of possibly uninitialized values,
/// [`NonEmptyBoxedSlice<MaybeUninit<T>>`].
pub type NonEmptyMaybeUninitBoxedSlice<T> = NonEmptyBoxedSlice<MaybeUninit<T>>;

impl<T> View for NonEmptyBoxedSlice<T> {
    type V = Seq<T>;

    closed spec fn view(&self) -> Seq<T> {
        self.inner@
    }
}

impl<'a, T> NonEmptySlice<'a, T> {
    /// Constructs [`NonEmptyBoxedSlice<T>`] from the boxed slice, provided it is non-empty.
    ///
    /// Returns [`EmptyBoxedSlice<T>`], which holds the boxed slice provided, exactly when
    /// it is empty.
    pub fn from_boxed_slice(boxed: Box<[T]>) -> (result: Result<
        NonEmptyBoxedSlice<T>,
        EmptyBoxedSlice<T>,
    >)
        ensures
            result is Err <==> boxed@.len() == 0,
            result matches Ok(non_empty) ==> non_empty.inv() && non_empty.spec_into_boxed_slice()
                == boxed && non_empty@ == boxed@,
            result matches Err(empty) ==> empty.inv() && empty.spec_get() == boxed && empty@
                == boxed@,
    {
        if boxed.is_empty() {
            return Err(EmptyBoxedSlice::new(boxed));
        }
        Ok(Self::from_boxed_slice_unchecked(boxed))
    }

    /// Constructs [`NonEmptyBoxedSlice<T>`] from the boxed slice that the caller knows
    /// to be non-empty.
    pub fn from_boxed_slice_unchecked(boxed: Box<[T]>) -> (non_empty: NonEmptyBoxedSlice<T>)
        requires
            boxed@.len() >= 1,
        ensures
            non_empty.inv(),
            non_empty.spec_into_boxed_slice() == boxed,
            non_empty@ == boxed@,
    {
        NonEmptyBoxedSlice { inner: boxed }
    }

    /// Constructs uninitialized [`NonEmptyMaybeUninitBoxedSlice<T>`] of given non-zero length.
    ///
    /// The items have to take no more than `isize::MAX` bytes.
    pub fn new_uninit(len: Size) -> (boxed: NonEmptyMaybeUninitBoxedSlice<T>)
        requires
            len@ * size_of::<MaybeUninit<T>>() <= isize::MAX,
        ensures
            boxed.inv(),
            boxed@.len() == len@,
    {
        NonEmptyBoxedSlice { inner: box_new_uninit_slice(len.get()) }
    }

    /// Constructs [`NonEmptyBoxedSlice<T>`] from [`NonEmptyVec<T>`].
    pub fn from_non_empty_vec(non_empty: NonEmptyVec<T>) -> (boxed: NonEmptyBoxedSlice<T>)
        requires
            non_empty.inv(),
        ensures
            boxed.inv(),
            boxed@ == non_empty@,
    {
        Self::from_boxed_slice_unchecked(vec_into_boxed_slice(non_empty.into_vec()))
    }
}

impl<T> NonEmptyBoxedSlice<T> {
    /// The invariant of non-empty boxed slices: there is at least one item.
    pub open spec fn inv(&self) -> bool {
        self@.len() >= 1
    }

    /// The boxed slice that holds the items.
    pub closed spec fn spec_into_boxed_slice(self) -> Box<[T]> {
        self.inner
    }

    /// Converts [`Self`] into the boxed slice: the very boxed slice that was wrapped.
    #[verifier::when_used_as_spec(spec_into_boxed_slice)]
    pub fn into_boxed_slice(self) -> (boxed: Box<[T]>)
        ensures
            boxed == self.spec_into_boxed_slice(),
            boxed@ == self@,
    {
        self.inner
    }

    /// Converts [`Self`] into [`NonEmptyVec<T>`].
    pub fn into_non_empty_vec(self) -> (non_empty: NonEmptyVec<T>)
        requires
            self.inv(),
        ensures
            non_empty.inv(),
            non_empty@ == self@,
    {
        NonEmptyVec::from_non_empty_boxed_slice(self)
    }

    /// Converts [`Self`] into the vector of its items.
    pub fn into_vec(self) -> (vec: Vec<T>)
        ensures
            vec@ == self@,
    {
        self.into_boxed_slice().into_vec()
    }

    /// Returns the contained slice as [`NonEmptySlice<T>`].
    pub fn as_non_empty_slice(&self) -> (non_empty: NonEmptySlice<'_, T>)
        requires
            self.inv(),
        ensures
            non_empty.inv(),
            non_empty@ == self@,
    {
        NonEmptySlice::from_slice_unchecked(&*self.inner)
    }

    /// Returns the contained slice as [`NonEmptyMutSlice<T>`].
    pub fn as_non_empty_mut_slice(&mut self) -> (non_empty: NonEmptyMutSlice<'_, T>)
        requires
            old(self).inv(),
        ensures
            non_empty.inv(),
            non_empty@ == old(self)@,
            final(self)@ == final(non_empty.inner)@,
    {
        NonEmptySlice::from_mut_slice_unchecked(&mut *self.inner)
    }

    /// Returns the contained slice.
    pub fn as_slice(&self) -> (slice: &[T])
        ensures
            slice@ == self@,
    {
        &*self.inner
    }

    /// Returns the contained mutable slice.
    pub fn as_mut_slice(&mut self) -> (slice: &mut [T])
        ensures
            slice@ == old(self)@,
            final(self)@ == final(slice)@,
    {
        &mut *self.inner
    }

    /// Checks if the boxed slice is empty. Always returns `false`.
    pub fn is_empty(&self) -> (empty: bool)
        requires
            self.inv(),
        ensures
            !empty,
    {
        false
    }

    /// Returns the length of the boxed slice as [`Size`].
    pub fn len(&self) -> (len: Size)
        requires
            self.inv(),
        ensures
            len@ == self@.len(),
    {
        Size::new_unchecked(self.inner.len())
    }
}

impl<T: Clone> NonEmptyBoxedSlice<T> {
    /// Constructs [`Self`] from [`NonEmptySlice<T>`] via cloning.
    pub fn from_non_empty_slice(non_empty: NonEmptySlice<'_, T>) -> (boxed: Self)
        requires
            non_empty.inv(),
        ensures
            boxed.inv(),
            cloned_items(non_empty@, boxed@),
    {
        non_empty.to_non_empty_vec().into_non_empty_boxed_slice()
    }

    /// Replaces the items of the boxed slice with clones of the items of the source.
    ///
    /// Where the two have the same length the items are cloned into place; otherwise
    /// the boxed slice is replaced by a clone of the source.
    pub fn clone_from(&mut self, source: &Self)
        requires
            old(self).inv(),
            source.inv(),
        ensures
            final(self).inv(),
            cloned_items(source@, final(self)@),
    {
        if self.len().get() == source.len().get() {
            let mut target = self.as_non_empty_mut_slice();
            target.clone_from_non_empty_slice(source.as_non_empty_slice());
        } else {
            *self = source.clone();
        }
    }
}

impl<T: Clone> Clone for NonEmptyBoxedSlice<T> {
    fn clone(&self) -> (copy: Self)
        ensures
            self.inv() ==> copy.inv(),
            cloned_items(self@, copy@),
    {
        let slice = self.as_slice();
        let mut vec = Vec::with_capacity(slice.len());
        vec.extend_from_slice(slice);
        Self { inner: vec_into_boxed_slice(vec) }
    }
}

impl<T> IntoIterator for NonEmptyBoxedSlice<T> {
    type Item = T;

    type IntoIter = IntoIter<T>;

    fn into_iter(self) -> (iter: Self::IntoIter)
        ensures
            into_iter_elts(iter) == self@,
    {
        self.into_vec().into_iter()
    }
}

impl<T> NonEmptyVec<T> {
    /// Constructs [`Self`] from [`NonEmptyBoxedSlice<T>`].
    pub fn from_non_empty_boxed_slice(non_empty: NonEmptyBoxedSlice<T>) -> (owned: Self)
        requires
            non_empty.inv(),
        ensures
            owned.inv(),
            owned@ == non_empty@,
    {
        Self::new_unchecked(non_empty.into_boxed_slice().into_vec())
    }

    /// Converts [`Self`] into [`NonEmptyBoxedSlice<T>`].
    pub fn into_non_empty_boxed_slice(self) -> (boxed: NonEmptyBoxedSlice<T>)
        requires
            self.inv(),
        ensures
            boxed.inv(),
            boxed@ == self@,
    {
        NonEmptySlice::from_non_empty_vec(self)
    }

    /// Converts [`Self`] into the boxed slice.
    pub fn into_boxed_slice(self) -> (boxed: Box<[T]>)
        requires
            self.inv(),
        ensures
            boxed@ == self@,
    {
        self.into_non_empty_boxed_slice().into_boxed_slice()
    }
}

impl<T> TryFrom<Box<[T]>> for NonEmptyBoxedSlice<T> {
    type Error = EmptyBoxedSlice<T>;

    fn try_from(boxed: Box<[T]>) -> (result: Result<Self, Self::Error>) {
        if boxed.is_empty() {
            Err(EmptyBoxedSlice { boxed })
        } else {
            Ok(NonEmptyBoxedSlice { inner: boxed })
        }
    }
}

impl<T> TryFromSpecImpl<Box<[T]>> for NonEmptyBoxedSlice<T> {
    open spec fn obeys_try_from_spec() -> bool {
        true
    }

    closed spec fn try_from_spec(boxed: Box<[T]>) -> Result<Self, Self::Error> {
        if boxed@.len() == 0 {
            Err(EmptyBoxedSlice { boxed })
        } else {
            Ok(NonEmptyBoxedSlice { inner: boxed })
        }
    }
}

impl<T> From<NonEmptyBoxedSlice<T>> for Box<[T]> {
    fn from(non_empty: NonEmptyBoxedSlice<T>) -> (boxed: Self) {
        non_empty.into_boxed_slice()
    }
}

impl<T> FromSpecImpl<NonEmptyBoxedSlice<T>> for Box<[T]> {
    open spec fn obeys_from_spec() -> bool {
        true
    }

    open spec fn from_spec(non_empty: NonEmptyBoxedSlice<T>) -> Self {
        non_empty.spec_into_boxed_slice()
    }
}

} // verus!
