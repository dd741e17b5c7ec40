//! Non-empty vectors.

use vstd::layout::size_of;
use vstd::prelude::*;
use vstd::std_specs::cmp::PartialEqSpec;
use vstd::std_specs::convert::{FromSpecImpl, TryFromSpecImpl};
use vstd::std_specs::iter::IteratorSpec;
use vstd::std_specs::slice::spec_slice_iter;
use vstd::std_specs::vec::into_iter_elts;

use core::mem::MaybeUninit;
use core::ops::Range;
use core::slice::{Iter, IterMut};

use std::collections::TryReserveError;
use std::vec::IntoIter;

use crate::mut_slice::NonEmptyMutSlice;
use crate::size::Size;
use crate::slice::{cloned_items, NonEmptySlice};
use crate::trusted::{
    vec_capacity, vec_leak, vec_reserve_exact, vec_shrink_to, vec_shrink_to_fit,
    vec_spare_capacity_mut, vec_try_reserve_exact,
};

verus! {

/// The error message used when the vector is empty.
pub const EMPTY_VEC: &'static str = "the vector is empty";

/// Similar to [`EmptySlice`](crate::slice::EmptySlice), but holds the empty vector provided.
#[derive(Debug)]
pub struct EmptyVec<T> {
    vec: Vec<T>,
}

impl<T> View for EmptyVec<T> {
    type V = Seq<T>;

    closed spec fn view(&self) -> Seq<T> {
        self.vec@
    }
}

impl<T> EmptyVec<T> {
    /// The invariant of this error: the vector that it holds is empty.
    pub open spec fn inv(&self) -> bool {
        self@.len() == 0
    }

    /// The vector that this error holds.
    pub closed spec fn spec_get(self) -> Vec<T> {
        self.vec
    }

    /// Constructs [`Self`] around the empty vector.
    pub(crate) fn new(vec: Vec<T>) -> (empty: Self)
        requires
            vec@.len() == 0,
        ensures
            empty.inv(),
            empty.spec_get() == vec,
            empty@ == vec@,
    {
        Self { vec }
    }

    /// Returns the contained empty vector: the very vector that was rejected.
    #[verifier::when_used_as_spec(spec_get)]
    pub fn get(self) -> (vec: Vec<T>)
        ensures
            vec == self.spec_get(),
            vec@ == self@,
    {
        self.vec
    }

    /// Returns the debug form of this error, which shows what it holds as the empty list
    /// whatever the type of the items.
    pub fn to_debug_string(&self) -> (debug: String)
        ensures
            debug@ == "EmptyVec { vec: [] }"@,
    {
        "EmptyVec { vec: [] }".to_string()
    }

    /// Returns the message of this error.
    pub fn message(&self) -> (message: &'static str)
        ensures
            message@ == EMPTY_VEC@,
    {
        EMPTY_VEC
    }
}

/// The items without their consecutive repetitions: from the front, an item stays unless
/// it is equal to the item that was kept before it.
pub open spec fn deduped<T: PartialEq>(items: Seq<T>) -> Seq<T>
    decreases items.len(),
{
    if items.len() <= 1 {
        items
    } else {
        let kept = deduped(items.drop_last());
        if items.last().eq_spec(&kept.last()) {
            kept
        } else {
            kept.push(items.last())
        }
    }
}

/// What is left of non-empty items without their consecutive repetitions is non-empty,
/// no longer than the items, and starts with the first of them.
pub proof fn lemma_deduped<T: PartialEq>(items: Seq<T>)
    requires
        items.len() >= 1,
    ensures
        1 <= deduped(items).len() <= items.len(),
        deduped(items).first() == items.first(),
    decreases items.len(),
{
    if items.len() > 1 {
        lemma_deduped(items.drop_last());
    }
}

/// States that the function may give `answer` when it is shown `current` and `kept`,
/// in this order.
pub open spec fn may_answer<T, F: FnMut(&mut T, &mut T) -> bool>(
    function: F,
    current: T,
    kept: T,
    answer: bool,
) -> bool {
    exists|first: &mut T, second: &mut T|
        *first == current && *second == kept && #[trigger] call_ensures(
            function,
            (first, second),
            answer,
        )
}

/// States that `left` is what the function leaves of `items`: the first item stays, and
/// from the front each further item stays where the function, shown this item and the
/// item that was kept before it, answered `false`, and goes where it answered `true`.
pub open spec fn is_deduped_by<T, F: FnMut(&mut T, &mut T) -> bool>(
    function: F,
    items: Seq<T>,
    left: Seq<T>,
) -> bool
    decreases items.len(),
{
    if items.len() <= 1 {
        left == items
    } else {
        ||| {
            &&& left.len() >= 1
            &&& may_answer(function, items.last(), left.last(), true)
            &&& is_deduped_by(function, items.drop_last(), left)
        }
        ||| {
            &&& left.len() >= 2
            &&& left.last() == items.last()
            &&& may_answer(function, items.last(), left[left.len() - 2], false)
            &&& is_deduped_by(function, items.drop_last(), left.drop_last())
        }
    }
}

/// What the function leaves of the items with one more item behind them is what it left
/// of the items, and behind that the further item unless the function answered `true`.
pub proof fn lemma_deduped_by_step<T, F: FnMut(&mut T, &mut T) -> bool>(
    function: F,
    items: Seq<T>,
    before: Seq<T>,
    answer: bool,
)
    ensures
        items.len() >= 2 && before.len() >= 1 && is_deduped_by(function, items.drop_last(), before)
            && may_answer(function, items.last(), before.last(), answer) ==> is_deduped_by(
            function,
            items,
            if answer {
                before
            } else {
                before.push(items.last())
            },
        ),
{
    if !answer {
        assert(before.push(items.last()).drop_last() =~= before);
    }
}

/// States that the function may give `key` when it is shown `item`.
pub open spec fn may_give_key<T, K, F: FnMut(&mut T) -> K>(function: F, item: T, key: K) -> bool {
    exists|shown: &mut T| *shown == item && #[trigger] call_ensures(function, (shown,), key)
}

/// States that the keys that the function may give for `current` and for `kept` may
/// compare equal, where `answer` is `true`, or unequal, where it is `false`.
pub open spec fn may_answer_by_key<T, K: PartialEq, F: FnMut(&mut T) -> K>(
    function: F,
    current: T,
    kept: T,
    answer: bool,
) -> bool {
    exists|first: K, second: K|
        #![trigger may_give_key(function, current, first), may_give_key(function, kept, second)]
        may_give_key(function, current, first) && may_give_key(function, kept, second) && answer
            == first.eq_spec(&second)
}

/// States that `left` is what the keys leave of `items`: the first item stays, and from
/// the front each further item stays unless its key is equal to the key of the item that
/// was kept before it.
pub open spec fn is_deduped_by_key<T, K: PartialEq, F: FnMut(&mut T) -> K>(
    function: F,
    items: Seq<T>,
    left: Seq<T>,
) -> bool
    decreases items.len(),
{
    if items.len() <= 1 {
        left == items
    } else {
        ||| {
            &&& left.len() >= 1
            &&& may_answer_by_key(function, items.last(), left.last(), true)
            &&& is_deduped_by_key(function, items.drop_last(), left)
        }
        ||| {
            &&& left.len() >= 2
            &&& left.last() == items.last()
            &&& may_answer_by_key(function, items.last(), left[left.len() - 2], false)
            &&& is_deduped_by_key(function, items.drop_last(), left.drop_last())
        }
    }
}

/// What the keys leave of the items with one more item behind them is what they left
/// of the items, and behind that the further item unless its key is equal to the key of
/// the last item left.
pub proof fn lemma_deduped_by_key_step<T, K: PartialEq, F: FnMut(&mut T) -> K>(
    function: F,
    items: Seq<T>,
    before: Seq<T>,
    answer: bool,
)
    ensures
        items.len() >= 2 && before.len() >= 1 && is_deduped_by_key(
            function,
            items.drop_last(),
            before,
        ) && may_answer_by_key(function, items.last(), before.last(), answer)
            ==> is_deduped_by_key(
            function,
            items,
            if answer {
                before
            } else {
                before.push(items.last())
            },
        ),
{
    if !answer {
        assert(before.push(items.last()).drop_last() =~= before);
    }
}

/// Represents non-empty vectors.
#[derive(Debug, PartialEq, Eq, PartialOrd, Ord, Hash)]
pub struct NonEmptyVec<T> {
    inner: Vec<T>,
}

/// Represents non-empty byte vectors, [`NonEmptyVec<u8>`].
pub type NonEmptyByteVec = NonEmptyVec<u8>;

/// Represents empty byte vectors, [`EmptyVec<u8>`].
pub type EmptyByteVec = EmptyVec<u8>;

impl<T> View for NonEmptyVec<T> {
    type V = Seq<T>;

    closed spec fn view(&self) -> Seq<T> {
        self.inner@
    }
}

impl<T: Clone> Clone for NonEmptyVec<T> {
    fn clone(&self) -> (copy: Self)
        ensures
            self.inv() ==> copy.inv(),
            cloned_items(self@, copy@),
    {
        Self { inner: self.inner.clone() }
    }
}

impl<T: Clone> NonEmptyVec<T> {
    /// Replaces the items of the vector with clones of the items of the source.
    pub fn clone_from(&mut self, source: &Self)
        requires
            source.inv(),
        ensures
            final(self).inv(),
            cloned_items(source@, final(self)@),
    {
        self.inner = source.inner.clone();
    }

    /// Constructs [`Self`] from [`NonEmptySlice<T>`] via cloning.
    pub fn from_non_empty_slice(non_empty: NonEmptySlice<'_, T>) -> (owned: Self)
        requires
            non_empty.inv(),
        ensures
            owned.inv(),
            cloned_items(non_empty@, owned@),
    {
        Self::new_unchecked(non_empty.to_vec())
    }

    /// Resizes the vector in-place so that its length is equal to the provided [`Size`].
    ///
    /// If `new` is greater than the length, the vector is extended by the difference,
    /// with each additional slot filled with `value` that is repeatedly cloned.
    /// Otherwise, the vector is simply truncated.
    pub fn resize(&mut self, new: Size, value: T)
        requires
            old(self).inv(),
        ensures
            final(self).inv(),
            final(self)@.len() == new@,
            new@ <= old(self)@.len() ==> final(self)@ == old(self)@.subrange(0, new@ as int),
            new@ > old(self)@.len() ==> {
                &&& final(self)@.subrange(0, old(self)@.len() as int) == old(self)@
                &&& forall|i: int|
                    old(self)@.len() <= i < new@ ==> cloned::<T>(value, #[trigger] final(self)@[i])
            },
    {
        self.inner.resize(new.get(), value);
    }

    /// Extends the vector by cloning all items from the provided slice, in their order.
    pub fn extend_from(&mut self, slice: &[T])
        requires
            old(self).inv(),
        ensures
            final(self).inv(),
            final(self)@.len() == old(self)@.len() + slice@.len(),
            final(self)@.subrange(0, old(self)@.len() as int) == old(self)@,
            cloned_items(
                slice@,
                final(self)@.subrange(old(self)@.len() as int, final(self)@.len() as int),
            ),
    {
        self.inner.extend_from_slice(slice);
    }

    /// Given the range within the vector, clones the items in that range
    /// and appends them to the end of the vector.
    pub fn extend_from_within(&mut self, range: Range<usize>)
        requires
            old(self).inv(),
            range.start <= range.end <= old(self)@.len(),
        ensures
            final(self).inv(),
            final(self)@.len() == old(self)@.len() + (range.end - range.start),
            final(self)@.subrange(0, old(self)@.len() as int) == old(self)@,
            cloned_items(
                old(self)@.subrange(range.start as int, range.end as int),
                final(self)@.subrange(old(self)@.len() as int, final(self)@.len() as int),
            ),
    {
        let mut index = range.start;
        while index < range.end
            invariant
                range.start <= index <= range.end <= old(self)@.len(),
                self.inner@.len() == old(self)@.len() + (index - range.start),
                self.inner@.subrange(0, old(self)@.len() as int) == old(self)@,
                forall|k: int|
                    0 <= k < index - range.start ==> cloned::<T>(
                        old(self)@[range.start + k],
                        #[trigger] self.inner@[old(self)@.len() + k],
                    ),
            decreases range.end - index,
        {
            assert(self.inner@[index as int] == self.inner@.subrange(
                0,
                old(self)@.len() as int,
            )[index as int]);
            let item = self.inner[index].clone();
            self.inner.push(item);
            index = index + 1;
        }
        proof {
            let source = old(self)@.subrange(range.start as int, range.end as int);
            let copy = self.inner@.subrange(old(self)@.len() as int, self.inner@.len() as int);
            assert forall|k: int| 0 <= k < source.len() implies cloned::<T>(
                source[k],
                #[trigger] copy[k],
            ) by {
                assert(copy[k] == self.inner@[old(self)@.len() + k]);
            }
        }
    }

    /// Constructs [`Self`] by repeating the provided value supplied number of times.
    pub fn repeat(value: T, count: Size) -> (non_empty: Self)
        ensures
            non_empty.inv(),
            non_empty@.len() == count@,
            forall|i: int| 0 <= i < count@ ==> cloned::<T>(value, #[trigger] non_empty@[i]),
    {
        let vec = vec![value; count.get()];
        Self::new_unchecked(vec)
    }
}

impl<'a, T: Clone> NonEmptySlice<'a, T> {
    /// Constructs the vector from the slice via cloning.
    pub fn to_vec(&self) -> (vec: Vec<T>)
        ensures
            cloned_items(self@, vec@),
    {
        let slice = self.as_slice();
        let mut vec = Vec::with_capacity(slice.len());
        vec.extend_from_slice(slice);
        vec
    }

    /// Constructs [`NonEmptyVec<T>`] from the non-empty slice via cloning.
    pub fn to_non_empty_vec(&self) -> (owned: NonEmptyVec<T>)
        requires
            self.inv(),
        ensures
            owned.inv(),
            cloned_items(self@, owned@),
    {
        NonEmptyVec::from_non_empty_slice(*self)
    }
}

impl<T> NonEmptyVec<T> {
    /// The invariant of non-empty vectors: there is at least one item.
    pub open spec fn inv(&self) -> bool {
        self@.len() >= 1
    }

    /// The vector that holds the items.
    pub closed spec fn spec_as_vec(&self) -> &Vec<T> {
        &self.inner
    }

    /// Constructs [`Self`], provided that the vector is non-empty.
    ///
    /// Returns [`EmptyVec<T>`], which holds the vector provided, exactly when it is empty.
    pub fn new(vector: Vec<T>) -> (result: Result<Self, EmptyVec<T>>)
        ensures
            result is Err <==> vector@.len() == 0,
            result matches Ok(non_empty) ==> non_empty.inv() && non_empty.spec_as_vec() == vector
                && non_empty@ == vector@,
            result matches Err(empty) ==> empty.inv() && empty.spec_get() == vector && empty@
                == vector@,
    {
        if vector.is_empty() {
            return Err(EmptyVec::new(vector));
        }
        Ok(Self::new_unchecked(vector))
    }

    /// Constructs [`Self`] from the vector that the caller knows to be non-empty.
    pub fn new_unchecked(inner: Vec<T>) -> (non_empty: Self)
        requires
            inner@.len() >= 1,
        ensures
            non_empty.inv(),
            non_empty.spec_as_vec() == inner,
            non_empty@ == inner@,
    {
        Self { inner }
    }

    /// Returns the contained slice as [`NonEmptySlice<T>`].
    pub fn as_non_empty_slice(&self) -> (non_empty: NonEmptySlice<'_, T>)
        requires
            self.inv(),
        ensures
            non_empty.inv(),
            non_empty@ == self@,
    {
        NonEmptySlice::from_slice_unchecked(self.inner.as_slice())
    }

    /// Returns the contained slice as [`NonEmptyMutSlice<T>`].
    ///
    /// Whatever is written through the mutable slice, the vector keeps its length.
    pub fn as_non_empty_mut_slice(&mut self) -> (non_empty: NonEmptyMutSlice<'_, T>)
        requires
            old(self).inv(),
        ensures
            non_empty.inv(),
            non_empty@ == old(self)@,
            final(self)@ == final(non_empty.inner)@,
    {
        NonEmptySlice::from_mut_slice_unchecked(self.inner.as_mut_slice())
    }

    /// Extracts the slice containing the entire vector.
    pub fn as_slice(&self) -> (slice: &[T])
        ensures
            slice@ == self@,
    {
        self.inner.as_slice()
    }

    /// Extracts the mutable slice containing the entire vector.
    pub fn as_mut_slice(&mut self) -> (slice: &mut [T])
        ensures
            slice@ == old(self)@,
            final(self)@ == final(slice)@,
    {
        self.inner.as_mut_slice()
    }

    /// Returns the contained vector behind immutable reference.
    #[verifier::when_used_as_spec(spec_as_vec)]
    pub fn as_vec(&self) -> (vec: &Vec<T>)
        ensures
            vec == self.spec_as_vec(),
            vec@ == self@,
    {
        &self.inner
    }

    /// Returns the contained vector behind mutable reference.
    ///
    /// The non-empty vector is whatever the caller leaves behind the reference: it is for
    /// the caller to leave at least one item there.
    pub fn as_mut_vec(&mut self) -> (vec: &mut Vec<T>)
        ensures
            vec@ == old(self)@,
            final(self)@ == final(vec)@,
    {
        &mut self.inner
    }

    /// Returns the contained vector: the very vector that was wrapped, items and all.
    pub fn into_vec(self) -> (vec: Vec<T>)
        ensures
            vec == self.spec_as_vec(),
            vec@ == self@,
    {
        self.inner
    }

    /// Checks if the vector is empty. Always returns `false`.
    pub fn is_empty(&self) -> (empty: bool)
        requires
            self.inv(),
        ensures
            !empty,
    {
        false
    }

    /// Returns the length of the vector as [`Size`].
    pub fn len(&self) -> (len: Size)
        requires
            self.inv(),
        ensures
            len@ == self@.len(),
    {
        Size::new_unchecked(self.inner.len())
    }

    /// Returns the capacity of the vector as [`Size`].
    ///
    /// The capacity is whatever the allocator gave, and never below the length.
    pub fn capacity(&self) -> (capacity: Size)
        requires
            self.inv(),
        ensures
            capacity@ >= self@.len(),
    {
        Size::new_unchecked(vec_capacity(&self.inner))
    }

    /// Appends the given value to the end of the vector.
    pub fn push(&mut self, value: T)
        requires
            old(self).inv(),
        ensures
            final(self).inv(),
            final(self)@ == old(self)@.push(value),
    {
        self.inner.push(value);
    }

    /// Reserves capacity for at least `additional` more values to be inserted into the vector.
    pub fn reserve(&mut self, additional: Size)
        requires
            old(self).inv(),
        ensures
            final(self).inv(),
            final(self)@ == old(self)@,
    {
        self.inner.reserve(additional.get());
    }

    /// Reserves the minimum capacity for exactly `additional` more values to be inserted
    /// into the vector.
    ///
    /// The items to make room for have to be no more than `usize::MAX`, and their room
    /// no more than `isize::MAX` bytes.
    pub fn reserve_exact(&mut self, additional: Size)
        requires
            old(self).inv(),
            old(self)@.len() + additional@ <= usize::MAX,
            (old(self)@.len() + additional@) * size_of::<T>() <= isize::MAX,
        ensures
            final(self).inv(),
            final(self)@ == old(self)@,
    {
        vec_reserve_exact(&mut self.inner, additional.get());
    }

    /// Tries to reserve capacity for at least `additional` more values to be inserted
    /// into the vector.
    ///
    /// Whether the allocator succeeds or not, the items stay as they are.
    pub fn try_reserve(&mut self, additional: Size) -> (result: Result<(), TryReserveError>)
        requires
            old(self).inv(),
        ensures
            final(self).inv(),
            final(self)@ == old(self)@,
    {
        self.inner.try_reserve(additional.get())
    }

    /// Tries to reserve the minimum capacity for exactly `additional` more values
    /// to be inserted into the vector.
    ///
    /// Whether the allocator succeeds or not, the items stay as they are. It fails where
    /// the items to make room for are more than `usize::MAX`, or their room more than
    /// `isize::MAX` bytes; otherwise the allocator decides.
    pub fn try_reserve_exact(&mut self, additional: usize) -> (result: Result<(), TryReserveError>)
        requires
            old(self).inv(),
        ensures
            final(self).inv(),
            final(self)@ == old(self)@,
            old(self)@.len() + additional > usize::MAX ==> result is Err,
            (old(self)@.len() + additional) * size_of::<T>() > isize::MAX ==> result is Err,
    {
        vec_try_reserve_exact(&mut self.inner, additional)
    }

    /// Shrinks the capacity of the vector as much as possible.
    pub fn shrink_to_fit(&mut self)
        requires
            old(self).inv(),
        ensures
            final(self).inv(),
            final(self)@ == old(self)@,
    {
        vec_shrink_to_fit(&mut self.inner);
    }

    /// Shrinks the capacity of the vector to the specified amount.
    pub fn shrink_to(&mut self, capacity: Size)
        requires
            old(self).inv(),
        ensures
            final(self).inv(),
            final(self)@ == old(self)@,
    {
        vec_shrink_to(&mut self.inner, capacity.get());
    }

    /// Shortens the vector, keeping the first `len` items and dropping the rest.
    ///
    /// The length given is non-zero, so at least the first item stays.
    pub fn truncate(&mut self, len: Size)
        requires
            old(self).inv(),
        ensures
            final(self).inv(),
            len@ <= old(self)@.len() ==> final(self)@ == old(self)@.subrange(0, len@ as int),
            len@ > old(self)@.len() ==> final(self)@ == old(self)@,
    {
        self.inner.truncate(len.get());
    }

    /// Moves all the items out of `other` into `self`, leaving `other` empty.
    pub fn append(&mut self, other: &mut Vec<T>)
        requires
            old(self).inv(),
        ensures
            final(self).inv(),
            final(self)@ == old(self)@ + old(other)@,
            final(other)@ == Seq::<T>::empty(),
    {
        self.inner.append(other);
    }

    /// Inserts the given value at the specified index, shifting all items after it to the right.
    pub fn insert(&mut self, index: usize, value: T)
        requires
            old(self).inv(),
            index <= old(self)@.len(),
        ensures
            final(self).inv(),
            final(self)@ == old(self)@.insert(index as int, value),
    {
        self.inner.insert(index, value);
    }

    /// Checks whether the vector is almost empty, meaning it only contains one value.
    pub fn next_empty(&self) -> (almost: bool)
        requires
            self.inv(),
        ensures
            almost <==> self@.len() == 1,
    {
        self.len().get() == Size::min().get()
    }

    /// The negated version of [`next_empty`](Self::next_empty).
    pub fn next_non_empty(&self) -> (remains: bool)
        requires
            self.inv(),
        ensures
            remains <==> self@.len() > 1,
    {
        !self.next_empty()
    }

    /// Peeks at the last item of the vector mutably.
    pub fn peek_mut(&mut self) -> (peek: PeekMut<'_, T>)
        requires
            old(self).inv(),
        ensures
            peek.inv(),
            peek.non_empty@ == old(self)@,
            final(peek.non_empty)@ == final(self)@,
    {
        PeekMut::new(self)
    }

    /// Removes the last item from the vector and returns it,
    /// or `None` if the vector would become empty.
    pub fn pop(&mut self) -> (value: Option<T>)
        requires
            old(self).inv(),
        ensures
            final(self).inv(),
            old(self)@.len() == 1 ==> value is None && final(self)@ == old(self)@,
            old(self)@.len() > 1 ==> value == Some(old(self)@.last())
                && final(self)@ == old(self)@.drop_last(),
    {
        if self.next_non_empty() {
            self.inner.pop()
        } else {
            None
        }
    }

    /// Removes the last item from the vector if the predicate returns `true`,
    /// or `None` if `false` is returned or if the vector would become empty.
    ///
    /// The predicate is asked only where the vector would remain non-empty. It is shown
    /// the last item and may change it, whether or not the item is then removed.
    pub fn pop_if<P: FnOnce(&mut T) -> bool>(&mut self, predicate: P) -> (value: Option<T>)
        requires
            old(self).inv(),
            forall|last: &mut T| call_requires(predicate, (last,)),
        ensures
            final(self).inv(),
            old(self)@.len() == 1 ==> value is None && final(self)@ == old(self)@,
            old(self)@.len() > 1 ==> exists|last: &mut T, remove: bool|
                {
                    &&& #[trigger] call_ensures(predicate, (last,), remove)
                    &&& *last == old(self)@.last()
                    &&& remove ==> value == Some(*final(last))
                        && final(self)@ == old(self)@.drop_last()
                    &&& !remove ==> value is None && final(self)@ == old(self)@.drop_last().push(
                        *final(last),
                    )
                },
    {
        if self.next_non_empty() {
            let index = self.inner.len() - 1;
            let remove = predicate(&mut self.inner[index]);
            assert(self.inner@.drop_last() =~= old(self)@.drop_last());
            assert(self.inner@ =~= old(self)@.drop_last().push(self.inner@.last()));
            if remove {
                self.inner.pop()
            } else {
                None
            }
        } else {
            None
        }
    }

    /// Removes and returns the item at the given index within the vector,
    /// shifting all items after it to the left.
    ///
    /// Returns `None` if the vector would become empty.
    pub fn remove(&mut self, index: usize) -> (value: Option<T>)
        requires
            old(self).inv(),
            old(self)@.len() > 1 ==> index < old(self)@.len(),
        ensures
            final(self).inv(),
            old(self)@.len() == 1 ==> value is None && final(self)@ == old(self)@,
            old(self)@.len() > 1 ==> value == Some(old(self)@[index as int]) && final(self)@
                == old(self)@.remove(index as int),
    {
        if self.next_non_empty() {
            Some(self.inner.remove(index))
        } else {
            None
        }
    }

    /// Removes and returns the item at the given index within the vector,
    /// replacing it with the last item of the vector.
    ///
    /// Returns `None` if the vector would become empty.
    pub fn swap_remove(&mut self, index: usize) -> (value: Option<T>)
        requires
            old(self).inv(),
            old(self)@.len() > 1 ==> index < old(self)@.len(),
        ensures
            final(self).inv(),
            old(self)@.len() == 1 ==> value is None && final(self)@ == old(self)@,
            old(self)@.len() > 1 ==> value == Some(old(self)@[index as int]) && final(self)@
                == old(self)@.update(index as int, old(self)@.last()).drop_last(),
    {
        if self.next_non_empty() {
            Some(self.inner.swap_remove(index))
        } else {
            None
        }
    }

    /// Splits the vector into two at the given non-zero index.
    ///
    /// The index has to be non-zero to guarantee the vector would remain non-empty;
    /// the tail that is returned may be empty.
    pub fn split_off(&mut self, at: Size) -> (tail: Vec<T>)
        requires
            old(self).inv(),
            at@ <= old(self)@.len(),
        ensures
            final(self).inv(),
            final(self)@ == old(self)@.subrange(0, at@ as int),
            tail@ == old(self)@.subrange(at@ as int, old(self)@.len() as int),
    {
        self.inner.split_off(at.get())
    }

    /// Resizes the vector in-place so that its length is equal to `new`.
    ///
    /// If `new` is greater than the length, the vector is extended by the difference,
    /// with each additional slot filled by the result of calling the provided function.
    /// Otherwise, the vector is simply truncated.
    pub fn resize_with<F: FnMut() -> T>(&mut self, new: Size, function: F)
        requires
            old(self).inv(),
            call_requires(function, ()),
        ensures
            final(self).inv(),
            final(self)@.len() == new@,
            new@ <= old(self)@.len() ==> final(self)@ == old(self)@.subrange(0, new@ as int),
            new@ > old(self)@.len() ==> final(self)@.subrange(0, old(self)@.len() as int)
                == old(self)@,
            forall|i: int|
                old(self)@.len() <= i < new@ ==> call_ensures(
                    function,
                    (),
                    #[trigger] final(self)@[i],
                ),
    {
        let mut callee = function;
        let target = new.get();
        if target <= self.inner.len() {
            self.inner.truncate(target);
        } else {
            while self.inner.len() < target
                invariant
                    old(self)@.len() <= self.inner@.len() <= target,
                    self.inner@.subrange(0, old(self)@.len() as int) == old(self)@,
                    callee == function,
                    call_requires(callee, ()),
                    forall|i: int|
                        old(self)@.len() <= i < self.inner@.len() ==> call_ensures(
                            function,
                            (),
                            #[trigger] self.inner@[i],
                        ),
                decreases target - self.inner@.len(),
            {
                let ghost before = self.inner@;
                let value = callee();
                self.inner.push(value);
                assert(self.inner@.subrange(0, old(self)@.len() as int) =~= before.subrange(
                    0,
                    old(self)@.len() as int,
                ));
            }
        }
    }

    /// Removes consecutive duplicated items in the vector, as determined by `==`.
    ///
    /// At least the first item stays. Where `==` is what its specification says, what stays
    /// is [`deduped`].
    pub fn dedup(&mut self) where T: PartialEq
        requires
            old(self).inv(),
        ensures
            final(self).inv(),
            final(self)@.len() <= old(self)@.len(),
            final(self)@.first() == old(self)@.first(),
            T::obeys_eq_spec() ==> final(self)@ == deduped(old(self)@),
    {
        let len = self.inner.len();
        let mut kept: usize = 1;
        let mut next: usize = 1;
        assert(self.inner@.subrange(0, 1) =~= deduped(old(self)@.subrange(0, 1)));
        while next < len
            invariant
                len == old(self)@.len(),
                self.inner@.len() == len,
                1 <= kept <= next <= len,
                self.inner@[0] == old(self)@[0],
                self.inner@.subrange(next as int, len as int) == old(self)@.subrange(
                    next as int,
                    len as int,
                ),
                T::obeys_eq_spec() ==> self.inner@.subrange(0, kept as int) == deduped(
                    old(self)@.subrange(0, next as int),
                ),
            decreases len - next,
        {
            let ghost before = self.inner@;
            let ghost read = old(self)@.subrange(0, next as int);
            let ghost grown = old(self)@.subrange(0, next + 1);
            proof {
                assert(before[next as int] == before.subrange(next as int, len as int)[0]);
                assert(grown.drop_last() =~= read);
                assert(grown.last() == old(self)@[next as int]);
                lemma_deduped(read);
                if T::obeys_eq_spec() {
                    assert(before.subrange(0, kept as int).last() == before[kept - 1]);
                }
            }
            let same = self.inner[next] == self.inner[kept - 1];
            if !same {
                self.inner.swap(kept, next);
                proof {
                    if T::obeys_eq_spec() {
                        assert(self.inner@.subrange(0, kept + 1) =~= before.subrange(
                            0,
                            kept as int,
                        ).push(before[next as int]));
                    }
                    assert(self.inner@.subrange(next + 1, len as int) =~= before.subrange(
                        next as int,
                        len as int,
                    ).subrange(1, len - next));
                    assert(old(self)@.subrange(next + 1, len as int) =~= old(self)@.subrange(
                        next as int,
                        len as int,
                    ).subrange(1, len - next));
                }
                kept = kept + 1;
            } else {
                proof {
                    assert(self.inner@.subrange(next + 1, len as int) =~= before.subrange(
                        next as int,
                        len as int,
                    ).subrange(1, len - next));
                    assert(old(self)@.subrange(next + 1, len as int) =~= old(self)@.subrange(
                        next as int,
                        len as int,
                    ).subrange(1, len - next));
                }
            }
            next = next + 1;
        }
        assert(old(self)@.subrange(0, len as int) =~= old(self)@);
        self.inner.truncate(kept);
    }

    /// Removes consecutive duplicated items in the vector, as determined by the supplied
    /// function, which may change the items that it is shown.
    ///
    /// From the front, the function is shown each item behind the first and the item
    /// that was kept before it, in this order; the item goes where the function answers
    /// `true`. At least the first item stays, and no item is added. Where the function
    /// changes nothing of what it is shown, what stays is stated by [`is_deduped_by`].
    pub fn dedup_by<F: FnMut(&mut T, &mut T) -> bool>(&mut self, function: F)
        requires
            old(self).inv(),
            forall|current: &mut T, kept: &mut T| call_requires(function, (current, kept)),
        ensures
            final(self).inv(),
            final(self)@.len() <= old(self)@.len(),
            (forall|current: &mut T, kept: &mut T, answer: bool|
                #[trigger] call_ensures(function, (current, kept), answer) ==> *final(current)
                    == *current && *final(kept) == *kept) ==> is_deduped_by(
                function,
                old(self)@,
                final(self)@,
            ),
    {
        let mut callee = function;
        let len = self.inner.len();
        let mut kept: usize = 1;
        let mut next: usize = 1;
        let ghost pure: bool = (forall|current: &mut T, kept: &mut T, answer: bool|
                #[trigger] call_ensures(function, (current, kept), answer) ==> *final(current)
                    == *current && *final(kept) == *kept);
        assert(self.inner@.subrange(0, 1) =~= old(self)@.subrange(0, 1));
        while next < len
            invariant
                callee == function,
                forall|current: &mut T, kept: &mut T| call_requires(callee, (current, kept)),
                pure == (forall|current: &mut T, kept: &mut T, answer: bool|
                #[trigger] call_ensures(function, (current, kept), answer) ==> *final(current)
                    == *current && *final(kept) == *kept),
                len == old(self)@.len(),
                self.inner@.len() == len,
                1 <= kept <= next <= len,
                pure ==> self.inner@.subrange(next as int, len as int) == old(self)@.subrange(
                    next as int,
                    len as int,
                ),
                pure ==> is_deduped_by(
                    function,
                    old(self)@.subrange(0, next as int),
                    self.inner@.subrange(0, kept as int),
                ),
            decreases len - next,
        {
            let ghost before = self.inner@;
            let (head, tail) = self.inner.as_mut_slice().split_at_mut(next);
            let same = callee(&mut tail[0], &mut head[kept - 1]);
            assert(pure ==> self.inner@ =~= before);
            assert(before[next as int] == before.subrange(next as int, len as int)[0]);
            assert(pure ==> may_answer(function, before[next as int], before[kept - 1], same));
            if !same {
                self.inner.swap(kept, next);
                kept = kept + 1;
            }
            next = next + 1;
            proof {
                let read = old(self)@.subrange(0, next - 1);
                let grown = old(self)@.subrange(0, next as int);
                let left = before.subrange(0, if same { kept as int } else { kept - 1 });
                assert(grown.drop_last() =~= read);
                assert(pure ==> grown.last() == before[next - 1]);
                assert(left.last() == before[left.len() - 1]);
                assert(pure ==> is_deduped_by(function, grown.drop_last(), left));
                assert(grown.len() >= 2 && left.len() >= 1);
                assert(pure ==> may_answer(function, grown.last(), left.last(), same));
                lemma_deduped_by_step(function, grown, left, same);
                if same {
                    assert(pure ==> self.inner@.subrange(0, kept as int) =~= left);
                } else {
                    assert(pure ==> self.inner@.subrange(0, kept as int) =~= left.push(
                        grown.last(),
                    ));
                }
                assert(pure ==> self.inner@.subrange(next as int, len as int)
                    =~= before.subrange(next - 1, len as int).subrange(1, len - next + 1));
                assert(old(self)@.subrange(next as int, len as int) =~= old(self)@.subrange(
                    next - 1,
                    len as int,
                ).subrange(1, len - next + 1));
            }
        }
        assert(old(self)@.subrange(0, len as int) =~= old(self)@);
        self.inner.truncate(kept);
    }

    /// Removes consecutive duplicated items in the vector, as determined by the keys returned
    /// from the provided function, which may change the items that it is shown.
    ///
    /// From the front, the function is asked for the key of each item behind the first
    /// and then for the key of the item that was kept before it; the item goes where the
    /// two keys are equal. At least the first item stays, and no item is added. Where the
    /// function changes nothing of what it is shown and `==` on the keys is what its
    /// specification says, what stays is stated by [`is_deduped_by_key`].
    pub fn dedup_by_key<F: FnMut(&mut T) -> K, K: PartialEq>(&mut self, function: F)
        requires
            old(self).inv(),
            forall|item: &mut T| call_requires(function, (item,)),
        ensures
            final(self).inv(),
            final(self)@.len() <= old(self)@.len(),
            K::obeys_eq_spec() && (forall|item: &mut T, key: K|
                #[trigger] call_ensures(function, (item,), key) ==> *final(item) == *item)
                ==> is_deduped_by_key(
                function,
                old(self)@,
                final(self)@,
            ),
    {
        let mut callee = function;
        let len = self.inner.len();
        let mut kept: usize = 1;
        let mut next: usize = 1;
        let ghost pure: bool = K::obeys_eq_spec() && (forall|item: &mut T, key: K|
                #[trigger] call_ensures(function, (item,), key) ==> *final(item) == *item);
        assert(self.inner@.subrange(0, 1) =~= old(self)@.subrange(0, 1));
        while next < len
            invariant
                callee == function,
                forall|item: &mut T| call_requires(callee, (item,)),
                pure == (K::obeys_eq_spec() && (forall|item: &mut T, key: K|
                #[trigger] call_ensures(function, (item,), key) ==> *final(item) == *item)),
                len == old(self)@.len(),
                self.inner@.len() == len,
                1 <= kept <= next <= len,
                pure ==> self.inner@.subrange(next as int, len as int) == old(self)@.subrange(
                    next as int,
                    len as int,
                ),
                pure ==> is_deduped_by_key(
                    function,
                    old(self)@.subrange(0, next as int),
                    self.inner@.subrange(0, kept as int),
                ),
            decreases len - next,
        {
            let ghost before = self.inner@;
            let first = callee(&mut self.inner[next]);
            assert(pure ==> self.inner@ =~= before);
            assert(before[next as int] == before.subrange(next as int, len as int)[0]);
            assert(pure ==> may_give_key(function, before[next as int], first));
            let second = callee(&mut self.inner[kept - 1]);
            assert(pure ==> self.inner@ =~= before);
            assert(pure ==> may_give_key(function, before[kept - 1], second));
            let same = first == second;
            assert(pure ==> may_answer_by_key(
                function,
                before[next as int],
                before[kept - 1],
                same,
            ));
            if !same {
                self.inner.swap(kept, next);
                kept = kept + 1;
            }
            next = next + 1;
            proof {
                let read = old(self)@.subrange(0, next - 1);
                let grown = old(self)@.subrange(0, next as int);
                let left = before.subrange(0, if same { kept as int } else { kept - 1 });
                assert(grown.drop_last() =~= read);
                assert(pure ==> grown.last() == before[next - 1]);
                assert(left.last() == before[left.len() - 1]);
                assert(pure ==> is_deduped_by_key(function, grown.drop_last(), left));
                assert(grown.len() >= 2 && left.len() >= 1);
                assert(pure ==> may_answer_by_key(function, grown.last(), left.last(), same));
                lemma_deduped_by_key_step(function, grown, left, same);
                if same {
                    assert(pure ==> self.inner@.subrange(0, kept as int) =~= left);
                } else {
                    assert(pure ==> self.inner@.subrange(0, kept as int) =~= left.push(
                        grown.last(),
                    ));
                }
                assert(pure ==> self.inner@.subrange(next as int, len as int)
                    =~= before.subrange(next - 1, len as int).subrange(1, len - next + 1));
                assert(old(self)@.subrange(next as int, len as int) =~= old(self)@.subrange(
                    next - 1,
                    len as int,
                ).subrange(1, len - next + 1));
            }
        }
        assert(old(self)@.subrange(0, len as int) =~= old(self)@);
        self.inner.truncate(kept);
    }

    /// Consumes and leaks the vector, returning the mutable slice of its contents.
    pub fn leak<'a>(self) -> (slice: &'a mut [T])
        ensures
            slice@ == self@,
    {
        vec_leak(self.inner)
    }

    /// Similar to [`leak`](Self::leak), but yields [`NonEmptyMutSlice<T>`].
    pub fn leak_non_empty<'a>(self) -> (non_empty: NonEmptyMutSlice<'a, T>)
        requires
            self.inv(),
        ensures
            non_empty.inv(),
            non_empty@ == self@,
    {
        NonEmptySlice::from_mut_slice_unchecked(self.leak())
    }

    /// Returns the spare capacity of the vector as mutable slice of possibly
    /// uninitialized values.
    pub fn spare_capacity_mut(&mut self) -> (spare: &mut [MaybeUninit<T>])
        requires
            old(self).inv(),
        ensures
            final(self).inv(),
            final(self)@ == old(self)@,
    {
        vec_spare_capacity_mut(&mut self.inner)
    }

    /// Constructs [`Self`] containing the single value provided.
    pub fn single(value: T) -> (non_empty: Self)
        ensures
            non_empty.inv(),
            non_empty@ == seq![value],
    {
        let mut vec = Vec::new();
        vec.push(value);
        Self::new_unchecked(vec)
    }

    /// Constructs [`Self`] with the specified capacity, pushing the value provided.
    pub fn with_capacity_and_value(capacity: Size, value: T) -> (non_empty: Self)
        ensures
            non_empty.inv(),
            non_empty@ == seq![value],
    {
        let mut vec = Vec::with_capacity(capacity.get());
        vec.push(value);
        Self::new_unchecked(vec)
    }

    /// Constructs [`Self`] from the first item of a non-empty iteration and the items
    /// that follow it.
    pub fn from_non_empty_iter(item: T, rest: Vec<T>) -> (non_empty: Self)
        ensures
            non_empty.inv(),
            non_empty@ == seq![item] + rest@,
    {
        let mut rest = rest;
        let mut output = Self::single(item);
        output.append(&mut rest);
        output
    }

    /// Extends the vector with the items provided, in their order.
    pub fn extend(&mut self, items: Vec<T>)
        requires
            old(self).inv(),
        ensures
            final(self).inv(),
            final(self)@ == old(self)@ + items@,
    {
        let mut items = items;
        self.inner.append(&mut items);
    }

    /// Returns regular by-mutable-reference iterator over the vector.
    ///
    /// Whatever is written through the iterator, the vector keeps its length.
    pub fn iter_mut(&mut self) -> (iter: IterMut<'_, T>)
        requires
            old(self).inv(),
        ensures
            final(self).inv(),
            final(self)@.len() == old(self)@.len(),
    {
        self.inner.as_mut_slice().iter_mut()
    }

    /// Returns regular by-reference iterator over the vector.
    pub fn iter(&self) -> (iter: Iter<'_, T>)
        ensures
            exists|slice: &[T]| #[trigger] slice@ == self@ && iter == spec_slice_iter(slice),
            IteratorSpec::decrease(&iter) is Some,
            IteratorSpec::initial_value_relation(&iter, &iter),
    {
        self.inner.as_slice().iter()
    }
}

impl<T> IntoIterator for NonEmptyVec<T> {
    type Item = T;

    type IntoIter = IntoIter<T>;

    fn into_iter(self) -> (iter: Self::IntoIter)
        ensures
            into_iter_elts(iter) == self@,
    {
        self.inner.into_iter()
    }
}

/// Peeks into the last item of the vector mutably.
pub struct PeekMut<'a, T> {
    /// The vector whose last item is peeked at.
    pub non_empty: &'a mut NonEmptyVec<T>,
}

impl<'a, T> PeekMut<'a, T> {
    /// The invariant of the peek: the vector is non-empty, so that there is a last item.
    pub open spec fn inv(&self) -> bool {
        self.non_empty.inv()
    }

    /// Constructs [`Self`].
    pub fn new(non_empty: &'a mut NonEmptyVec<T>) -> (peek: Self)
        requires
            old(non_empty).inv(),
        ensures
            peek.inv(),
            peek.non_empty@ == old(non_empty)@,
            final(peek.non_empty)@ == final(non_empty)@,
    {
        Self { non_empty }
    }

    /// Returns the last item of the vector.
    pub fn get(&self) -> (last: &T)
        requires
            self.inv(),
        ensures
            *last == old(self.non_empty)@.last(),
    {
        let index = self.non_empty.inner.len() - 1;
        &self.non_empty.inner[index]
    }

    /// Returns the last item of the vector mutably.
    pub fn get_mut(&mut self) -> (last: &mut T)
        requires
            old(self).inv(),
        ensures
            *last == old(self).non_empty@.last(),
            final(self).non_empty@ == old(self).non_empty@.update(
                old(self).non_empty@.len() - 1,
                *final(last),
            ),
            final(final(self).non_empty)@ == final(old(self).non_empty)@,
    {
        let index = self.non_empty.inner.len() - 1;
        &mut self.non_empty.inner[index]
    }

    /// Removes the last item from the vector and returns it,
    /// or `None` if the vector would become empty.
    pub fn pop(self) -> (value: Option<T>)
        requires
            self.inv(),
        ensures
            final(self.non_empty).inv(),
            old(self.non_empty)@.len() == 1 ==> value is None
                && final(self.non_empty)@ == old(self.non_empty)@,
            old(self.non_empty)@.len() > 1 ==> value == Some(old(self.non_empty)@.last())
                && final(self.non_empty)@ == old(self.non_empty)@.drop_last(),
    {
        self.non_empty.pop()
    }
}

impl<T> TryFrom<Vec<T>> for NonEmptyVec<T> {
    type Error = EmptyVec<T>;

    fn try_from(value: Vec<T>) -> (result: Result<Self, Self::Error>) {
        if value.is_empty() {
            Err(EmptyVec { vec: value })
        } else {
            Ok(NonEmptyVec { inner: value })
        }
    }
}

impl<T> TryFromSpecImpl<Vec<T>> for NonEmptyVec<T> {
    open spec fn obeys_try_from_spec() -> bool {
        true
    }

    closed spec fn try_from_spec(value: Vec<T>) -> Result<Self, Self::Error> {
        if value@.len() == 0 {
            Err(EmptyVec { vec: value })
        } else {
            Ok(NonEmptyVec { inner: value })
        }
    }
}

impl<T> From<NonEmptyVec<T>> for Vec<T> {
    fn from(non_empty: NonEmptyVec<T>) -> (vec: Self) {
        non_empty.into_vec()
    }
}

impl<T> FromSpecImpl<NonEmptyVec<T>> for Vec<T> {
    open spec fn obeys_from_spec() -> bool {
        true
    }

    open spec fn from_spec(non_empty: NonEmptyVec<T>) -> Self {
        *non_empty.spec_as_vec()
    }
}

} // verus!
