//! Non-empty owned slices.

use vstd::prelude::*;

use crate::slice::{cloned_items, NonEmptySlice};

verus! {

/// The error message used when the owned slice is empty.
pub const EMPTY_OWNED: &'static str = "the owned slice is empty";

/// Similar to [`Empty`](crate::empty::Empty), but holds the empty slice provided.
#[derive(Debug)]
pub struct EmptyOwned<T> {
    slice: Vec<T>,
}

impl<T> View for EmptyOwned<T> {
    type V = Seq<T>;

    closed spec fn view(&self) -> Seq<T> {
        self.slice@
    }
}

impl<T> EmptyOwned<T> {
    /// The invariant of this error: the slice that it holds is empty.
    pub open spec fn inv(&self) -> bool {
        self@.len() == 0
    }

    /// The vector that this error holds.
    pub closed spec fn spec_get(self) -> Vec<T> {
        self.slice
    }

    /// Constructs [`Self`] around the empty slice.
    pub(crate) fn new(slice: Vec<T>) -> (empty: Self)
        requires
            slice@.len() == 0,
        ensures
            empty.inv(),
            empty.spec_get() == slice,
            empty@ == slice@,
    {
        Self { slice }
    }

    /// Returns the contained empty slice: the very vector that was rejected.
    #[verifier::when_used_as_spec(spec_get)]
    pub fn get(self) -> (slice: Vec<T>)
        ensures
            slice == self.spec_get(),
            slice@ == self@,
    {
        self.slice
    }

    /// Returns the debug form of this error, which shows what it holds as the empty list
    /// whatever the type of the items.
    pub fn to_debug_string(&self) -> (debug: String)
        ensures
            debug@ == "EmptyOwned { slice: [] }"@,
    {
        "EmptyOwned { slice: [] }".to_string()
    }

    /// Returns the message of this error.
    pub fn message(&self) -> (message: &'static str)
        ensures
            message@ == EMPTY_OWNED@,
    {
        EMPTY_OWNED
    }
}

/// Represents non-empty owned slices: vectors that are read and never changed.
#[derive(Debug, PartialEq, Eq, PartialOrd, Ord, Hash)]
pub struct OwnedSlice<T> {
    inner: Vec<T>,
}

/// Represents non-empty owned bytes, [`OwnedSlice<u8>`].
pub type OwnedBytes = OwnedSlice<u8>;

impl<T> View for OwnedSlice<T> {
    type V = Seq<T>;

    closed spec fn view(&self) -> Seq<T> {
        self.inner@
    }
}

impl<T: Clone> Clone for OwnedSlice<T> {
    fn clone(&self) -> (copy: Self)
        ensures
            self.inv() ==> copy.inv(),
            cloned_items(self@, copy@),
    {
        Self { inner: self.inner.clone() }
    }
}

impl<T> OwnedSlice<T> {
    /// The invariant of non-empty owned slices: there is at least one item.
    pub open spec fn inv(&self) -> bool {
        self@.len() >= 1
    }

    /// Constructs [`Self`], provided that the vector is non-empty.
    ///
    /// Returns [`EmptyOwned<T>`], which holds the vector provided, exactly when it is empty.
    pub fn new(slice: Vec<T>) -> (result: Result<Self, EmptyOwned<T>>)
        ensures
            result is Err <==> slice@.len() == 0,
            result matches Ok(non_empty) ==> non_empty.inv() && non_empty.spec_get() == slice
                && non_empty@ == slice@,
            result matches Err(empty) ==> empty.inv() && empty.spec_get() == slice && empty@
                == slice@,
    {
        if slice.is_empty() {
            return Err(EmptyOwned::new(slice));
        }
        Ok(Self::new_unchecked(slice))
    }

    /// Constructs [`Self`] from the vector that the caller knows to be non-empty.
    pub fn new_unchecked(inner: Vec<T>) -> (non_empty: Self)
        requires
            inner@.len() >= 1,
        ensures
            non_empty.inv(),
            non_empty.spec_get() == inner,
            non_empty@ == inner@,
    {
        Self { inner }
    }

    /// Returns the contained slice as [`NonEmptySlice<T>`].
    pub fn as_slice(&self) -> (non_empty: NonEmptySlice<'_, T>)
        requires
            self.inv(),
        ensures
            non_empty.inv(),
            non_empty@ == self@,
    {
        NonEmptySlice::from_slice_unchecked(self.inner.as_slice())
    }

    /// The vector that holds the items.
    pub closed spec fn spec_get(self) -> Vec<T> {
        self.inner
    }

    /// Returns the contained vector behind immutable reference.
    pub fn as_owned(&self) -> (owned: &Vec<T>)
        ensures
            *owned == self.spec_get(),
            owned@ == self@,
    {
        &self.inner
    }

    /// Returns the contained vector: the very vector that was wrapped.
    #[verifier::when_used_as_spec(spec_get)]
    pub fn get(self) -> (owned: Vec<T>)
        ensures
            owned == self.spec_get(),
            owned@ == self@,
    {
        self.inner
    }
}

impl<T: Clone> OwnedSlice<T> {
    /// Constructs [`Self`] from [`NonEmptySlice<T>`] via cloning.
    pub fn from_slice(slice: NonEmptySlice<'_, T>) -> (owned: Self)
        requires
            slice.inv(),
        ensures
            owned.inv(),
            cloned_items(slice@, owned@),
    {
        Self::new_unchecked(slice.to_vec())
    }
}

} // verus!
