//! Various non-empty iterations over non-empty mutable slices.
//!
//! Each adapter is made from a non-empty mutable slice and hands out, through `into_vec`,
//! non-empty mutable slices of it that do not overlap. What is written to them is written
//! to the slice that they were made from.

use vstd::prelude::*;

use crate::iter::{
    chunk_at, chunks_of, exact_chunk_at, exact_chunks_of, exact_rchunk_at, exact_rchunks_of,
    is_chunking_by, is_cut, is_run, joins, rchunk_at, rchunks_of,
};
use crate::mut_slice::NonEmptyMutSlice;
use crate::size::Size;

verus! {

/// The items that each of the mutable slices holds.
pub open spec fn mut_views<'a, T>(slices: Seq<NonEmptyMutSlice<'a, T>>) -> Seq<Seq<T>> {
    Seq::new(slices.len(), |index: int| slices[index]@)
}

/// States that each of the mutable slices is non-empty.
pub open spec fn all_mut_non_empty<'a, T>(slices: Seq<NonEmptyMutSlice<'a, T>>) -> bool {
    forall|index: int| 0 <= index < slices.len() ==> (#[trigger] slices[index]).inv()
}

/// Represents non-empty iterations over non-empty slices in (non-overlapping) mutable chunks,
/// starting at the beginning of the non-empty slice.
pub struct ChunksMut<'a, T> {
    /// The slice that is cut into chunks.
    pub slice: NonEmptyMutSlice<'a, T>,
    /// The size of the chunks.
    pub size: Size,
}

impl<'a, T> ChunksMut<'a, T> {
    /// The invariant of the iteration: the slice is non-empty, and so is each chunk.
    pub open spec fn inv(&self) -> bool {
        self.slice.inv() && self.size@ >= 1
    }

    /// Constructs [`Self`].
    pub fn new(slice: NonEmptyMutSlice<'a, T>, size: Size) -> (chunks: Self)
        requires
            slice.inv(),
        ensures
            chunks.inv(),
            chunks.slice@ == slice@,
            chunks.size == size,
            final(chunks.slice.inner)@ == final(slice.inner)@,
    {
        let _ = size.get();
        Self { slice, size }
    }

    /// Returns the mutable chunks, in their order from the front.
    ///
    /// What is written to the chunks is written to the slice: in the end the slice holds
    /// what the chunks hold, one behind the other.
    pub fn into_vec(self) -> (chunks: Vec<NonEmptyMutSlice<'a, T>>)
        requires
            self.inv(),
        ensures
            all_mut_non_empty(chunks@),
            mut_views(chunks@) == chunks_of(old(self.slice.inner)@, self.size@ as nat),
            final(self.slice.inner)@ == Seq::new(
                chunks@.len(),
                |i: int| final(chunks@[i].inner)@,
            ).flatten(),
    {
        let size = self.size.get();
        let ghost items = self.slice.inner@;
        let ghost len = items.len();
        let mut rest: &'a mut [T] = self.slice.inner;
        let mut chunks: Vec<NonEmptyMutSlice<'a, T>> = Vec::new();
        assert(chunks@.len() * size == 0) by (nonlinear_arith)
            requires
                chunks@.len() == 0,
        ;
        assert(Seq::new(chunks@.len(), |i: int| final(chunks@[i].inner)@) =~= Seq::<
            Seq<T>,
        >::empty());
        while rest.len() > 0
            invariant
                size >= 1,
                size == self.size@,
                len == items.len(),
                len >= 1,
                rest@.len() <= len,
                rest@ == items.subrange(len - rest@.len(), len as int),
                rest@.len() > 0 ==> len - rest@.len() == chunks@.len() * size,
                rest@.len() == 0 ==> (chunks@.len() - 1) * size < len <= chunks@.len() * size,
                forall|i: int|
                    0 <= i < chunks@.len() ==> (#[trigger] chunks@[i]).inv() && chunks@[i]@
                        == chunk_at(items, size as nat, i),
                final(old(self.slice.inner))@ == Seq::new(
                    chunks@.len(),
                    |i: int| final(chunks@[i].inner)@,
                ).flatten() + final(rest)@,
            decreases rest@.len(),
        {
            let left = rest.len();
            let take = if left < size {
                left
            } else {
                size
            };
            let (head, tail) = rest.split_at_mut(take);
            let chunk = NonEmptyMutSlice { inner: head };
            proof {
                let count = chunks@.len() as int;
                assert((count + 1) * size == count * size + size) by (nonlinear_arith);
                assert(chunk@ =~= chunk_at(items, size as nat, count));
                let before = Seq::new(chunks@.len(), |i: int| final(chunks@[i].inner)@);
                let after = Seq::new(
                    chunks@.push(chunk).len(),
                    |i: int| final(chunks@.push(chunk)[i].inner)@,
                );
                assert(after =~= before.push(final(chunk.inner)@));
                before.lemma_flatten_push(final(chunk.inner)@);
            }
            chunks.push(chunk);
            rest = tail;
        }
        proof {
            let count = chunks@.len() as int;
            let size = size as int;
            let len = len as int;
            assert(count == (len + size - 1) / size) by (nonlinear_arith)
                requires
                    size >= 1,
                    len >= 1,
                    (count - 1) * size < len <= count * size,
            ;
            assert(mut_views(chunks@) =~= chunks_of(items, self.size@ as nat));
        }
        chunks
    }
}

/// Represents non-empty iterations over non-empty slices in (non-overlapping) mutable chunks,
/// starting at the end of the non-empty slice.
pub struct RChunksMut<'a, T> {
    /// The slice that is cut into chunks.
    pub slice: NonEmptyMutSlice<'a, T>,
    /// The size of the chunks.
    pub size: Size,
}

impl<'a, T> RChunksMut<'a, T> {
    /// The invariant of the iteration: the slice is non-empty, and so is each chunk.
    pub open spec fn inv(&self) -> bool {
        self.slice.inv() && self.size@ >= 1
    }

    /// Constructs [`Self`].
    pub fn new(slice: NonEmptyMutSlice<'a, T>, size: Size) -> (chunks: Self)
        requires
            slice.inv(),
        ensures
            chunks.inv(),
            chunks.slice@ == slice@,
            chunks.size == size,
            final(chunks.slice.inner)@ == final(slice.inner)@,
    {
        let _ = size.get();
        Self { slice, size }
    }

    /// Returns the mutable chunks, in their order from the back.
    ///
    /// What is written to the chunks is written to the slice: in the end the slice holds
    /// what the chunks hold, one before the other.
    pub fn into_vec(self) -> (chunks: Vec<NonEmptyMutSlice<'a, T>>)
        requires
            self.inv(),
        ensures
            all_mut_non_empty(chunks@),
            mut_views(chunks@) == rchunks_of(old(self.slice.inner)@, self.size@ as nat),
            final(self.slice.inner)@ == Seq::new(
                chunks@.len(),
                |i: int| final(chunks@[i].inner)@,
            ).reverse().flatten(),
    {
        let size = self.size.get();
        let ghost items = self.slice.inner@;
        let ghost len = items.len();
        let mut rest: &'a mut [T] = self.slice.inner;
        let mut chunks: Vec<NonEmptyMutSlice<'a, T>> = Vec::new();
        assert(chunks@.len() * size == 0) by (nonlinear_arith)
            requires
                chunks@.len() == 0,
        ;
        assert(Seq::new(chunks@.len(), |i: int| final(chunks@[i].inner)@).reverse() =~= Seq::<
            Seq<T>,
        >::empty());
        while rest.len() > 0
            invariant
                size >= 1,
                size == self.size@,
                len == items.len(),
                len >= 1,
                rest@.len() <= len,
                rest@ == items.subrange(0, rest@.len() as int),
                rest@.len() > 0 ==> rest@.len() == len - chunks@.len() * size,
                rest@.len() == 0 ==> (chunks@.len() - 1) * size < len <= chunks@.len() * size,
                forall|i: int|
                    0 <= i < chunks@.len() ==> (#[trigger] chunks@[i]).inv() && chunks@[i]@
                        == rchunk_at(items, size as nat, i),
                final(old(self.slice.inner))@ == final(rest)@ + Seq::new(
                    chunks@.len(),
                    |i: int| final(chunks@[i].inner)@,
                ).reverse().flatten(),
            decreases rest@.len(),
        {
            let left = rest.len();
            let take = if left < size {
                left
            } else {
                size
            };
            let (head, tail) = rest.split_at_mut(left - take);
            let chunk = NonEmptyMutSlice { inner: tail };
            proof {
                let count = chunks@.len() as int;
                assert((count + 1) * size == count * size + size) by (nonlinear_arith);
                assert(chunk@ =~= rchunk_at(items, size as nat, count));
                let before = Seq::new(chunks@.len(), |i: int| final(chunks@[i].inner)@);
                let after = Seq::new(
                    chunks@.push(chunk).len(),
                    |i: int| final(chunks@.push(chunk)[i].inner)@,
                );
                let first = seq![final(chunk.inner)@];
                assert(after.reverse() =~= first + before.reverse());
                vstd::seq_lib::lemma_flatten_concat(first, before.reverse());
                first.lemma_flatten_one_element();
                assert(final(old(self.slice.inner))@ =~= final(head)@ + after.reverse().flatten());
            }
            chunks.push(chunk);
            rest = head;
        }
        proof {
            let count = chunks@.len() as int;
            let size = size as int;
            let len = len as int;
            assert(count == (len + size - 1) / size) by (nonlinear_arith)
                requires
                    size >= 1,
                    len >= 1,
                    (count - 1) * size < len <= count * size,
            ;
            assert(final(old(self.slice.inner))@ =~= Seq::new(
                chunks@.len(),
                |i: int| final(chunks@[i].inner)@,
            ).reverse().flatten());
            assert(mut_views(chunks@) =~= rchunks_of(items, self.size@ as nat));
        }
        chunks
    }
}

/// Represents non-empty iterations over non-empty slices in (non-overlapping) mutable chunks,
/// starting at the beginning of the non-empty slice.
///
/// When the length of the non-empty slice is not divisible by the chunk size,
/// the last chunk will be omitted.
pub struct ChunksExactMut<'a, T> {
    /// The slice that is cut into chunks.
    pub slice: NonEmptyMutSlice<'a, T>,
    /// The size of the chunks.
    pub size: Size,
}

impl<'a, T> ChunksExactMut<'a, T> {
    /// The invariant of the iteration: the slice is non-empty, and so is each chunk.
    pub open spec fn inv(&self) -> bool {
        self.slice.inv() && self.size@ >= 1
    }

    /// Constructs [`Self`].
    pub fn new(slice: NonEmptyMutSlice<'a, T>, size: Size) -> (chunks: Self)
        requires
            slice.inv(),
        ensures
            chunks.inv(),
            chunks.slice@ == slice@,
            chunks.size == size,
            final(chunks.slice.inner)@ == final(slice.inner)@,
    {
        let _ = size.get();
        Self { slice, size }
    }

    /// Returns the mutable chunks, in their order from the front. Items that are left over
    /// behind the last whole chunk are in none of them.
    ///
    /// What is written to the chunks is written to the slice: in the end the slice holds
    /// what the chunks hold, one behind the other, and then the items left over, unchanged.
    pub fn into_vec(self) -> (chunks: Vec<NonEmptyMutSlice<'a, T>>)
        requires
            self.inv(),
        ensures
            all_mut_non_empty(chunks@),
            mut_views(chunks@) == exact_chunks_of(old(self.slice.inner)@, self.size@ as nat),
            final(self.slice.inner)@ == Seq::new(
                chunks@.len(),
                |i: int| final(chunks@[i].inner)@,
            ).flatten() + old(self.slice.inner)@.subrange(
                chunks@.len() * self.size@,
                old(self.slice.inner)@.len() as int,
            ),
    {
        let size = self.size.get();
        let ghost items = self.slice.inner@;
        let ghost len = items.len();
        let mut rest: &'a mut [T] = self.slice.inner;
        let mut chunks: Vec<NonEmptyMutSlice<'a, T>> = Vec::new();
        assert(chunks@.len() * size == 0) by (nonlinear_arith)
            requires
                chunks@.len() == 0,
        ;
        assert(Seq::new(chunks@.len(), |i: int| final(chunks@[i].inner)@) =~= Seq::<
            Seq<T>,
        >::empty());
        while rest.len() >= size
            invariant
                size >= 1,
                size == self.size@,
                len == items.len(),
                rest@.len() <= len,
                rest@ == items.subrange(len - rest@.len(), len as int),
                len - rest@.len() == chunks@.len() * size,
                forall|i: int|
                    0 <= i < chunks@.len() ==> (#[trigger] chunks@[i]).inv() && chunks@[i]@
                        == exact_chunk_at(items, size as nat, i),
                final(old(self.slice.inner))@ == Seq::new(
                    chunks@.len(),
                    |i: int| final(chunks@[i].inner)@,
                ).flatten() + final(rest)@,
            decreases rest@.len(),
        {
            let (head, tail) = rest.split_at_mut(size);
            let chunk = NonEmptyMutSlice { inner: head };
            proof {
                let count = chunks@.len() as int;
                assert((count + 1) * size == count * size + size) by (nonlinear_arith);
                assert(chunk@ =~= exact_chunk_at(items, size as nat, count));
                let before = Seq::new(chunks@.len(), |i: int| final(chunks@[i].inner)@);
                let after = Seq::new(
                    chunks@.push(chunk).len(),
                    |i: int| final(chunks@.push(chunk)[i].inner)@,
                );
                assert(after =~= before.push(final(chunk.inner)@));
                before.lemma_flatten_push(final(chunk.inner)@);
            }
            chunks.push(chunk);
            rest = tail;
        }
        proof {
            let count = chunks@.len() as int;
            let size = size as int;
            let len = len as int;
            assert(count == len / size) by (nonlinear_arith)
                requires
                    size >= 1,
                    count * size <= len < count * size + size,
            ;
            assert(mut_views(chunks@) =~= exact_chunks_of(items, self.size@ as nat));
        }
        chunks
    }
}

/// Represents non-empty iterations over non-empty slices in (non-overlapping) mutable chunks,
/// starting at the end of the non-empty slice.
///
/// When the length of the non-empty slice is not divisible by the chunk size,
/// the last chunk will be omitted.
pub struct RChunksExactMut<'a, T> {
    /// The slice that is cut into chunks.
    pub slice: NonEmptyMutSlice<'a, T>,
    /// The size of the chunks.
    pub size: Size,
}

impl<'a, T> RChunksExactMut<'a, T> {
    /// The invariant of the iteration: the slice is non-empty, and so is each chunk.
    pub open spec fn inv(&self) -> bool {
        self.slice.inv() && self.size@ >= 1
    }

    /// Constructs [`Self`].
    pub fn new(slice: NonEmptyMutSlice<'a, T>, size: Size) -> (chunks: Self)
        requires
            slice.inv(),
        ensures
            chunks.inv(),
            chunks.slice@ == slice@,
            chunks.size == size,
            final(chunks.slice.inner)@ == final(slice.inner)@,
    {
        let _ = size.get();
        Self { slice, size }
    }

    /// Returns the mutable chunks, in their order from the back. Items that are left over
    /// before the last whole chunk are in none of them.
    ///
    /// What is written to the chunks is written to the slice: in the end the slice holds
    /// the items left over, unchanged, and then what the chunks hold, one before the other.
    pub fn into_vec(self) -> (chunks: Vec<NonEmptyMutSlice<'a, T>>)
        requires
            self.inv(),
        ensures
            all_mut_non_empty(chunks@),
            mut_views(chunks@) == exact_rchunks_of(old(self.slice.inner)@, self.size@ as nat),
            final(self.slice.inner)@ == old(self.slice.inner)@.subrange(
                0,
                old(self.slice.inner)@.len() - chunks@.len() * self.size@,
            ) + Seq::new(chunks@.len(), |i: int| final(chunks@[i].inner)@).reverse().flatten(),
    {
        let size = self.size.get();
        let ghost items = self.slice.inner@;
        let ghost len = items.len();
        let mut rest: &'a mut [T] = self.slice.inner;
        let mut chunks: Vec<NonEmptyMutSlice<'a, T>> = Vec::new();
        assert(chunks@.len() * size == 0) by (nonlinear_arith)
            requires
                chunks@.len() == 0,
        ;
        assert(Seq::new(chunks@.len(), |i: int| final(chunks@[i].inner)@).reverse() =~= Seq::<
            Seq<T>,
        >::empty());
        while rest.len() >= size
            invariant
                size >= 1,
                size == self.size@,
                len == items.len(),
                rest@.len() <= len,
                rest@ == items.subrange(0, rest@.len() as int),
                rest@.len() == len - chunks@.len() * size,
                forall|i: int|
                    0 <= i < chunks@.len() ==> (#[trigger] chunks@[i]).inv() && chunks@[i]@
                        == exact_rchunk_at(items, size as nat, i),
                final(old(self.slice.inner))@ == final(rest)@ + Seq::new(
                    chunks@.len(),
                    |i: int| final(chunks@[i].inner)@,
                ).reverse().flatten(),
            decreases rest@.len(),
        {
            let left = rest.len();
            let (head, tail) = rest.split_at_mut(left - size);
            let chunk = NonEmptyMutSlice { inner: tail };
            proof {
                let count = chunks@.len() as int;
                assert((count + 1) * size == count * size + size) by (nonlinear_arith);
                assert(chunk@ =~= exact_rchunk_at(items, size as nat, count));
                let before = Seq::new(chunks@.len(), |i: int| final(chunks@[i].inner)@);
                let after = Seq::new(
                    chunks@.push(chunk).len(),
                    |i: int| final(chunks@.push(chunk)[i].inner)@,
                );
                let first = seq![final(chunk.inner)@];
                assert(after.reverse() =~= first + before.reverse());
                vstd::seq_lib::lemma_flatten_concat(first, before.reverse());
                first.lemma_flatten_one_element();
                assert(final(old(self.slice.inner))@ =~= final(head)@ + after.reverse().flatten());
            }
            chunks.push(chunk);
            rest = head;
        }
        proof {
            let count = chunks@.len() as int;
            let size = size as int;
            let len = len as int;
            assert(count == len / size) by (nonlinear_arith)
                requires
                    size >= 1,
                    count * size <= len < count * size + size,
            ;
            assert(mut_views(chunks@) =~= exact_rchunks_of(items, self.size@ as nat));
        }
        chunks
    }
}

/// Represents non-empty iterations over non-empty slices in (non-overlapping) mutable chunks,
/// separated by the given predicate.
pub struct ChunkByMut<'a, T, P: FnMut(&T, &T) -> bool> {
    /// The slice that is cut into chunks.
    pub slice: NonEmptyMutSlice<'a, T>,
    /// The predicate that says whether an item belongs to the chunk of the item before it.
    pub predicate: P,
}

impl<'a, T, P: FnMut(&T, &T) -> bool> ChunkByMut<'a, T, P> {
    /// The invariant of the iteration: the slice is non-empty, and the predicate accepts
    /// every pair of items.
    pub open spec fn inv(&self) -> bool {
        &&& self.slice.inv()
        &&& forall|first: &T, second: &T| call_requires(self.predicate, (first, second))
    }

    /// Constructs [`Self`].
    ///
    /// The predicate has to accept every pair of items.
    pub fn new(slice: NonEmptyMutSlice<'a, T>, predicate: P) -> (chunks: Self)
        requires
            slice.inv(),
            forall|first: &T, second: &T| call_requires(predicate, (first, second)),
        ensures
            chunks.inv(),
            chunks.slice@ == slice@,
            chunks.predicate == predicate,
            final(chunks.slice.inner)@ == final(slice.inner)@,
    {
        Self { slice, predicate }
    }

    /// Returns the mutable chunks, in their order from the front.
    ///
    /// The predicate is asked once for each item and the item behind it, from the front,
    /// before anything is written. What is written to the chunks is written to the slice:
    /// in the end the slice holds what the chunks hold, one behind the other.
    pub fn into_vec(self) -> (chunks: Vec<NonEmptyMutSlice<'a, T>>)
        requires
            self.inv(),
        ensures
            all_mut_non_empty(chunks@),
            is_chunking_by(old(self.slice.inner)@, self.predicate, mut_views(chunks@)),
            final(self.slice.inner)@ == Seq::new(
                chunks@.len(),
                |i: int| final(chunks@[i].inner)@,
            ).flatten(),
    {
        let ghost items = self.slice.inner@;
        let ghost len = items.len();
        let mut predicate = self.predicate;
        let mut rest: &'a mut [T] = self.slice.inner;
        let mut chunks: Vec<NonEmptyMutSlice<'a, T>> = Vec::new();
        assert(mut_views(chunks@) =~= Seq::<Seq<T>>::empty());
        assert(mut_views(chunks@).flatten() =~= items.subrange(0, 0));
        assert(Seq::new(chunks@.len(), |i: int| final(chunks@[i].inner)@) =~= Seq::<
            Seq<T>,
        >::empty());
        while rest.len() > 0
            invariant
                len == items.len(),
                len >= 1,
                predicate == self.predicate,
                forall|first: &T, second: &T| call_requires(predicate, (first, second)),
                rest@.len() <= len,
                rest@.len() == len ==> chunks@.len() == 0,
                rest@.len() < len ==> chunks@.len() > 0,
                rest@ == items.subrange(len - rest@.len(), len as int),
                mut_views(chunks@).flatten() == items.subrange(0, len - rest@.len()),
                forall|i: int| 0 <= i < chunks@.len() ==> (#[trigger] chunks@[i]).inv(),
                forall|i: int|
                    0 <= i < chunks@.len() ==> is_run(#[trigger] mut_views(chunks@)[i], predicate),
                forall|i: int|
                    0 <= i < chunks@.len() - 1 ==> is_cut(
                        #[trigger] mut_views(chunks@)[i],
                        mut_views(chunks@)[i + 1],
                        predicate,
                    ),
                chunks@.len() > 0 && rest@.len() > 0 ==> is_cut(
                    mut_views(chunks@).last(),
                    rest@,
                    predicate,
                ),
                final(old(self.slice.inner))@ == Seq::new(
                    chunks@.len(),
                    |i: int| final(chunks@[i].inner)@,
                ).flatten() + final(rest)@,
            decreases rest@.len(),
        {
            let left = rest.len();
            let mut end: usize = 1;
            let mut more = end < left;
            while more
                invariant
                    left == rest@.len(),
                    1 <= end <= left,
                    predicate == self.predicate,
                    forall|first: &T, second: &T| call_requires(predicate, (first, second)),
                    forall|j: int| 0 <= j < end - 1 ==> #[trigger] joins(rest@, predicate, j),
                    more ==> end < left,
                    !more && end < left ==> call_ensures(
                        predicate,
                        (&rest@[end - 1], &rest@[end as int]),
                        false,
                    ),
                decreases (left - end) * 2 + (if more { 1int } else { 0int }),
            {
                let same = predicate(&rest[end - 1], &rest[end]);
                if same {
                    assert(joins(rest@, predicate, end - 1));
                    end = end + 1;
                    more = end < left;
                } else {
                    more = false;
                }
            }
            let ghost whole = rest@;
            let (head, tail) = rest.split_at_mut(end);
            let chunk = NonEmptyMutSlice { inner: head };
            proof {
                let before = mut_views(chunks@);
                let after = mut_views(chunks@.push(chunk));
                assert(after =~= before.push(chunk@));
                before.lemma_flatten_push(chunk@);
                assert(after.flatten() =~= items.subrange(0, len - tail@.len()));
                assert(tail@ =~= items.subrange(len - tail@.len(), len as int));
                assert forall|k: int| 0 <= k < chunk@.len() - 1 implies #[trigger] joins(
                    chunk@,
                    predicate,
                    k,
                ) by {
                    assert(joins(whole, predicate, k));
                    assert(chunk@[k] == whole[k]);
                    assert(chunk@[k + 1] == whole[k + 1]);
                }
                assert(chunk@.first() == whole.first());
                assert(chunk@.last() == whole[end - 1]);
                assert forall|i: int| 0 <= i < after.len() implies is_run(
                    #[trigger] after[i],
                    predicate,
                ) by {
                    if i < before.len() {
                        assert(after[i] == before[i]);
                    }
                }
                assert forall|i: int| 0 <= i < after.len() - 1 implies is_cut(
                    #[trigger] after[i],
                    after[i + 1],
                    predicate,
                ) by {
                    if i < before.len() - 1 {
                        assert(after[i] == before[i]);
                        assert(after[i + 1] == before[i + 1]);
                    } else {
                        assert(after[i] == before.last());
                    }
                }
                if tail@.len() > 0 {
                    assert(tail@.first() == whole[end as int]);
                    assert(after.last() == chunk@);
                }
                let finals = Seq::new(chunks@.len(), |i: int| final(chunks@[i].inner)@);
                let grown = Seq::new(
                    chunks@.push(chunk).len(),
                    |i: int| final(chunks@.push(chunk)[i].inner)@,
                );
                assert(grown =~= finals.push(final(chunk.inner)@));
                finals.lemma_flatten_push(final(chunk.inner)@);
            }
            chunks.push(chunk);
            rest = tail;
        }
        proof {
            assert(items.subrange(0, len as int) =~= items);
            assert forall|i: int| 0 <= i < chunks@.len() implies (#[trigger] mut_views(
                chunks@,
            )[i]).len() >= 1 by {
                assert(chunks@[i].inv());
            }
        }
        chunks
    }
}

impl<'a, T> NonEmptyMutSlice<'a, T> {
    /// Returns non-empty iteration over the slice in (non-overlapping) mutable chunks,
    /// separated by the given predicate.
    pub fn chunk_by_mut<P: FnMut(&T, &T) -> bool>(&mut self, predicate: P) -> (chunks: ChunkByMut<
        '_,
        T,
        P,
    >)
        requires
            old(self).inv(),
            forall|first: &T, second: &T| call_requires(predicate, (first, second)),
        ensures
            chunks.inv(),
            chunks.slice@ == old(self)@,
            chunks.predicate == predicate,
            final(self)@ == final(chunks.slice.inner)@,
            final(final(self).inner)@ == final(old(self).inner)@,
    {
        ChunkByMut::new(self.as_non_empty_mut_slice(), predicate)
    }

    /// Borrows the items once more, for a shorter time.
    pub fn as_non_empty_mut_slice(&mut self) -> (non_empty: NonEmptyMutSlice<'_, T>)
        requires
            old(self).inv(),
        ensures
            non_empty.inv(),
            non_empty@ == old(self)@,
            final(self)@ == final(non_empty.inner)@,
            final(final(self).inner)@ == final(old(self).inner)@,
    {
        NonEmptyMutSlice { inner: &mut *self.inner }
    }

    /// Returns non-empty iteration over the slice in (non-overlapping) non-empty mutable
    /// chunks of given [`Size`], starting at the beginning of the slice.
    pub fn chunks_mut(&mut self, size: Size) -> (chunks: ChunksMut<'_, T>)
        requires
            old(self).inv(),
        ensures
            chunks.inv(),
            chunks.slice@ == old(self)@,
            chunks.size == size,
            final(self)@ == final(chunks.slice.inner)@,
            final(final(self).inner)@ == final(old(self).inner)@,
    {
        ChunksMut::new(self.as_non_empty_mut_slice(), size)
    }

    /// Returns non-empty iteration over the slice in (non-overlapping) non-empty mutable
    /// chunks of given [`Size`], starting at the end of the slice.
    pub fn rchunks_mut(&mut self, size: Size) -> (chunks: RChunksMut<'_, T>)
        requires
            old(self).inv(),
        ensures
            chunks.inv(),
            chunks.slice@ == old(self)@,
            chunks.size == size,
            final(self)@ == final(chunks.slice.inner)@,
            final(final(self).inner)@ == final(old(self).inner)@,
    {
        RChunksMut::new(self.as_non_empty_mut_slice(), size)
    }

    /// Returns non-empty iteration over the slice in (non-overlapping) mutable chunks
    /// of given [`Size`], starting at the beginning of the slice.
    ///
    /// When the length of the slice is not divisible by the chunk size,
    /// the last chunk will be omitted.
    pub fn chunks_exact_mut(&mut self, size: Size) -> (chunks: ChunksExactMut<'_, T>)
        requires
            old(self).inv(),
        ensures
            chunks.inv(),
            chunks.slice@ == old(self)@,
            chunks.size == size,
            final(self)@ == final(chunks.slice.inner)@,
            final(final(self).inner)@ == final(old(self).inner)@,
    {
        ChunksExactMut::new(self.as_non_empty_mut_slice(), size)
    }

    /// Returns non-empty iteration over the slice in (non-overlapping) mutable chunks
    /// of given [`Size`], starting at the end of the slice.
    ///
    /// When the length of the slice is not divisible by the chunk size,
    /// the last chunk will be omitted.
    pub fn rchunks_exact_mut(&mut self, size: Size) -> (chunks: RChunksExactMut<'_, T>)
        requires
            old(self).inv(),
        ensures
            chunks.inv(),
            chunks.slice@ == old(self)@,
            chunks.size == size,
            final(self)@ == final(chunks.slice.inner)@,
            final(final(self).inner)@ == final(old(self).inner)@,
    {
        RChunksExactMut::new(self.as_non_empty_mut_slice(), size)
    }
}

} // verus!
