//! Non-empty clone-on-write slices.

use vstd::pervasive::unreached;
use vstd::prelude::*;
use vstd::std_specs::cmp::{PartialEqSpec, PartialEqSpecImpl};
use vstd::std_specs::convert::FromSpecImpl;

use core::hash::{Hash, Hasher};

use std::borrow::Cow;

use crate::boxed::NonEmptyBoxedSlice;
use crate::slice::{cloned_items, NonEmptySlice};
use crate::vec::NonEmptyVec;

verus! {

/// The items of the plain clone-on-write slice, whether borrowed or owned.
pub open spec fn cow_items<'a, T: Clone>(cow: Cow<'a, [T]>) -> Seq<T> {
    match cow {
        Cow::Borrowed(borrowed) => borrowed@,
        Cow::Owned(owned) => owned@,
    }
}

/// Represents non-empty clone-on-write slices: either borrowed as [`NonEmptySlice<T>`]
/// or owned as [`NonEmptyVec<T>`].
///
/// The items are read through either, and are cloned into an owned vector only when
/// they are first to be changed.
#[derive(Debug)]
pub enum NonEmptyCowSlice<'a, T> {
    /// The borrowed items.
    Borrowed(NonEmptySlice<'a, T>),
    /// The owned items.
    Owned(NonEmptyVec<T>),
}

impl<'a, T> View for NonEmptyCowSlice<'a, T> {
    type V = Seq<T>;

    open spec fn view(&self) -> Seq<T> {
        match self {
            Self::Borrowed(borrowed) => borrowed@,
            Self::Owned(owned) => owned@,
        }
    }
}

impl<'a, T> NonEmptyCowSlice<'a, T> {
    /// The invariant of non-empty clone-on-write slices: there is at least one item,
    /// whether borrowed or owned.
    pub open spec fn inv(&self) -> bool {
        self@.len() >= 1
    }

    /// Constructs [`Self`] that borrows the items of the non-empty slice.
    pub fn from_non_empty_slice(non_empty: NonEmptySlice<'a, T>) -> (cow: Self)
        requires
            non_empty.inv(),
        ensures
            cow.inv(),
            cow == Self::Borrowed(non_empty),
    {
        Self::Borrowed(non_empty)
    }

    /// Constructs [`Self`] that owns the non-empty vector.
    pub fn from_non_empty_vec(non_empty: NonEmptyVec<T>) -> (cow: Self)
        requires
            non_empty.inv(),
        ensures
            cow.inv(),
            cow == Self::Owned(non_empty),
    {
        Self::Owned(non_empty)
    }

    /// Constructs [`Self`] that borrows the items of the non-empty vector.
    pub fn from_non_empty_vec_ref(non_empty: &'a NonEmptyVec<T>) -> (cow: Self)
        requires
            non_empty.inv(),
        ensures
            cow.inv(),
            cow is Borrowed,
            cow@ == non_empty@,
    {
        Self::Borrowed(non_empty.as_non_empty_slice())
    }

    /// Constructs [`Self`] that borrows the items of the slice, provided it is non-empty.
    pub fn from_slice(slice: &'a [T]) -> (option: Option<Self>)
        ensures
            option is None <==> slice@.len() == 0,
            option matches Some(cow) ==> cow.inv() && cow is Borrowed && cow@ == slice@,
    {
        match NonEmptySlice::from_slice(slice) {
            Some(non_empty) => Some(Self::Borrowed(non_empty)),
            None => None,
        }
    }

    /// Checks whether the items are borrowed.
    pub fn is_borrowed(&self) -> (borrowed: bool)
        ensures
            borrowed <==> self is Borrowed,
    {
        match self {
            Self::Borrowed(_) => true,
            Self::Owned(_) => false,
        }
    }

    /// Checks whether the items are owned.
    pub fn is_owned(&self) -> (owned: bool)
        ensures
            owned <==> self is Owned,
    {
        !self.is_borrowed()
    }

    /// Returns the items as slice, whether they are borrowed or owned.
    pub fn as_slice(&self) -> (slice: &[T])
        ensures
            slice@ == self@,
    {
        match self {
            Self::Borrowed(borrowed) => borrowed.as_slice(),
            Self::Owned(owned) => owned.as_slice(),
        }
    }

    /// Returns the items as [`NonEmptySlice<T>`], whether they are borrowed or owned.
    ///
    /// Reading the items never changes which of the two they are.
    pub fn as_non_empty_slice(&self) -> (non_empty: NonEmptySlice<'_, T>)
        requires
            self.inv(),
        ensures
            non_empty.inv(),
            non_empty@ == self@,
    {
        match self {
            Self::Borrowed(borrowed) => *borrowed,
            Self::Owned(owned) => owned.as_non_empty_slice(),
        }
    }
}

impl<'a, T: Clone> NonEmptyCowSlice<'a, T> {
    /// Constructs [`Self`] from the plain clone-on-write slice, provided it is non-empty.
    ///
    /// What was borrowed stays borrowed, and what was owned stays owned.
    pub fn from_cow(cow: Cow<'a, [T]>) -> (option: Option<Self>)
        ensures
            option is None <==> cow_items(cow).len() == 0,
            option matches Some(non_empty) ==> non_empty.inv() && non_empty@ == cow_items(cow) && (
            non_empty is Borrowed <==> cow is Borrowed),
    {
        match cow {
            Cow::Borrowed(slice) => Self::from_slice(slice),
            Cow::Owned(vector) => match NonEmptyVec::new(vector) {
                Ok(non_empty) => Some(Self::Owned(non_empty)),
                Err(_) => None,
            },
        }
    }

    /// Constructs [`Self`] from the plain clone-on-write slice that the caller knows
    /// to be non-empty.
    pub fn from_cow_unchecked(cow: Cow<'a, [T]>) -> (non_empty: Self)
        requires
            cow_items(cow).len() >= 1,
        ensures
            non_empty.inv(),
            non_empty@ == cow_items(cow),
            non_empty is Borrowed <==> cow is Borrowed,
    {
        match cow {
            Cow::Borrowed(slice) => Self::Borrowed(NonEmptySlice::from_slice_unchecked(slice)),
            Cow::Owned(vector) => Self::Owned(NonEmptyVec::new_unchecked(vector)),
        }
    }

    /// Converts [`Self`] into the plain clone-on-write slice.
    pub fn into_cow(self) -> (cow: Cow<'a, [T]>)
        ensures
            cow_items(cow) == self@,
            cow is Borrowed <==> self is Borrowed,
    {
        match self {
            Self::Borrowed(borrowed) => Cow::Borrowed(borrowed.as_slice()),
            Self::Owned(owned) => Cow::Owned(owned.into_vec()),
        }
    }

    /// Returns the owned items mutably, cloning the borrowed items first if they are
    /// not owned yet.
    ///
    /// Afterwards the items are owned. Items that were owned are the ones returned;
    /// items that were borrowed are cloned, and the ones borrowed stay as they are.
    pub fn to_mut(&mut self) -> (owned: &mut NonEmptyVec<T>)
        requires
            old(self).inv(),
        ensures
            owned.inv(),
            *old(self) matches Self::Owned(before) ==> *owned == before,
            *old(self) is Borrowed ==> cloned_items(old(self)@, owned@),
            *final(self) == Self::Owned(*final(owned)),
    {
        match self {
            Self::Owned(owned) => owned,
            Self::Borrowed(borrowed) => {
                let cloned = borrowed.to_non_empty_vec();
                *self = Self::Owned(cloned);
                match self {
                    Self::Owned(owned) => owned,
                    Self::Borrowed(_) => unreached(),
                }
            },
        }
    }

    /// Returns the owned items, cloning the borrowed items if they are not owned.
    pub fn into_owned(self) -> (owned: NonEmptyVec<T>)
        requires
            self.inv(),
        ensures
            owned.inv(),
            self matches Self::Owned(before) ==> owned == before,
            cloned_items(self@, owned@),
    {
        match self {
            Self::Borrowed(borrowed) => borrowed.to_non_empty_vec(),
            Self::Owned(owned) => owned,
        }
    }

    /// Returns the items as [`NonEmptyBoxedSlice<T>`], cloning the borrowed items if they
    /// are not owned.
    pub fn into_non_empty_boxed_slice(self) -> (boxed: NonEmptyBoxedSlice<T>)
        requires
            self.inv(),
        ensures
            boxed.inv(),
            self is Owned ==> boxed@ == self@,
            cloned_items(self@, boxed@),
    {
        self.into_owned().into_non_empty_boxed_slice()
    }
}

impl<'a, T: Clone> Clone for NonEmptyCowSlice<'a, T> {
    fn clone(&self) -> (copy: Self)
        ensures
            self.inv() ==> copy.inv(),
            self matches Self::Borrowed(borrowed) ==> copy == Self::Borrowed(*borrowed),
            self is Owned ==> copy is Owned,
            cloned_items(self@, copy@),
    {
        match self {
            Self::Borrowed(borrowed) => Self::Borrowed(*borrowed),
            Self::Owned(owned) => Self::Owned(owned.clone()),
        }
    }
}

impl<'a, T: PartialEq> PartialEq for NonEmptyCowSlice<'a, T> {
    fn eq(&self, other: &Self) -> (equal: bool) {
        let left = self.as_slice();
        let right = other.as_slice();
        if left.len() != right.len() {
            return false;
        }
        let mut index: usize = 0;
        while index < left.len()
            invariant
                left@ == self@,
                right@ == other@,
                left@.len() == right@.len(),
                index <= left@.len(),
                T::obeys_eq_spec() ==> forall|i: int|
                    0 <= i < index ==> (#[trigger] left@[i]).eq_spec(&right@[i]),
            decreases left@.len() - index,
        {
            if !(left[index] == right[index]) {
                return false;
            }
            index = index + 1;
        }
        true
    }
}

impl<'a, T: PartialEq> PartialEqSpecImpl for NonEmptyCowSlice<'a, T> {
    open spec fn obeys_eq_spec() -> bool {
        T::obeys_eq_spec()
    }

    open spec fn eq_spec(&self, other: &Self) -> bool {
        &&& self@.len() == other@.len()
        &&& forall|i: int| 0 <= i < self@.len() ==> (#[trigger] self@[i]).eq_spec(&other@[i])
    }
}

impl<'a, T: Eq> Eq for NonEmptyCowSlice<'a, T> {

}

impl<'a, T: Hash> Hash for NonEmptyCowSlice<'a, T> {
    fn hash<H: Hasher>(&self, state: &mut H) {
        self.as_slice().hash(state);
    }
}

impl<'a, T> From<NonEmptySlice<'a, T>> for NonEmptyCowSlice<'a, T> {
    fn from(non_empty: NonEmptySlice<'a, T>) -> (cow: Self) {
        Self::Borrowed(non_empty)
    }
}

impl<'a, T> FromSpecImpl<NonEmptySlice<'a, T>> for NonEmptyCowSlice<'a, T> {
    open spec fn obeys_from_spec() -> bool {
        true
    }

    open spec fn from_spec(non_empty: NonEmptySlice<'a, T>) -> Self {
        Self::Borrowed(non_empty)
    }
}

impl<'a, T> From<NonEmptyVec<T>> for NonEmptyCowSlice<'a, T> {
    fn from(non_empty: NonEmptyVec<T>) -> (cow: Self) {
        Self::Owned(non_empty)
    }
}

impl<'a, T> FromSpecImpl<NonEmptyVec<T>> for NonEmptyCowSlice<'a, T> {
    open spec fn obeys_from_spec() -> bool {
        true
    }

    open spec fn from_spec(non_empty: NonEmptyVec<T>) -> Self {
        Self::Owned(non_empty)
    }
}

} // verus!
