//! Various non-empty iterations over non-empty slices.
//!
//! Each adapter is made from a non-empty slice and yields non-empty slices of it: chunks,
//! windows or runs. What it yields is stated by the specification functions of this module,
//! which say where each yielded slice starts and ends.
//!
//! An adapter hands out what it yields through `into_vec`, or through `into_iter` in
//! a `for` loop. The slices that it yields borrow the items and copy none of them.

use vstd::prelude::*;
use vstd::slice::slice_subrange;
use vstd::std_specs::vec::into_iter_elts;

use std::vec::IntoIter;

use crate::bytes::{escaped, escaped_byte, hex_digit};
use crate::size::Size;
use crate::slice::{NonEmptyBytes, NonEmptySlice};

verus! {

/// The number of chunks of `size` items that cover `len` items, the last one possibly shorter.
pub open spec fn chunk_count(len: nat, size: nat) -> nat {
    ((len + size - 1) / (size as int)) as nat
}

/// The chunk at `index`, counted from the front: `size` items from `index * size` on,
/// or those that are left where fewer are.
pub open spec fn chunk_at<T>(items: Seq<T>, size: nat, index: int) -> Seq<T> {
    let start = index * size;
    let end = if start + size <= items.len() {
        start + size
    } else {
        items.len() as int
    };
    items.subrange(start, end)
}

/// The chunk at `index`, counted from the back: `size` items up to `index * size` before
/// the end, or those that are left at the front where fewer are.
pub open spec fn rchunk_at<T>(items: Seq<T>, size: nat, index: int) -> Seq<T> {
    let end = items.len() - index * size;
    let start = if end >= size {
        end - size
    } else {
        0
    };
    items.subrange(start, end)
}

/// The number of chunks of exactly `size` items that fit into `len` items.
pub open spec fn exact_chunk_count(len: nat, size: nat) -> nat {
    (len as int / size as int) as nat
}

/// The exact chunk at `index`, counted from the front.
pub open spec fn exact_chunk_at<T>(items: Seq<T>, size: nat, index: int) -> Seq<T> {
    items.subrange(index * size, index * size + size)
}

/// The exact chunk at `index`, counted from the back.
pub open spec fn exact_rchunk_at<T>(items: Seq<T>, size: nat, index: int) -> Seq<T> {
    items.subrange(items.len() - index * size - size, items.len() - index * size)
}

/// The number of windows of `size` items over `len` items.
pub open spec fn window_count(len: nat, size: nat) -> nat {
    if len >= size {
        (len - size + 1) as nat
    } else {
        0
    }
}

/// The window at `index`: `size` items from `index` on.
pub open spec fn window_at<T>(items: Seq<T>, size: nat, index: int) -> Seq<T> {
    items.subrange(index, index + size)
}

/// The chunks of `size` items from the front, in their order.
pub open spec fn chunks_of<T>(items: Seq<T>, size: nat) -> Seq<Seq<T>> {
    Seq::new(chunk_count(items.len(), size), |index: int| chunk_at(items, size, index))
}

/// The chunks of `size` items from the back, in their order: the last items come first.
pub open spec fn rchunks_of<T>(items: Seq<T>, size: nat) -> Seq<Seq<T>> {
    Seq::new(chunk_count(items.len(), size), |index: int| rchunk_at(items, size, index))
}

/// The chunks of exactly `size` items from the front, in their order.
pub open spec fn exact_chunks_of<T>(items: Seq<T>, size: nat) -> Seq<Seq<T>> {
    Seq::new(exact_chunk_count(items.len(), size), |index: int| exact_chunk_at(items, size, index))
}

/// The chunks of exactly `size` items from the back, in their order: the last items come first.
pub open spec fn exact_rchunks_of<T>(items: Seq<T>, size: nat) -> Seq<Seq<T>> {
    Seq::new(
        exact_chunk_count(items.len(), size),
        |index: int| exact_rchunk_at(items, size, index),
    )
}

/// The windows of `size` items, in their order.
pub open spec fn windows_of<T>(items: Seq<T>, size: nat) -> Seq<Seq<T>> {
    Seq::new(window_count(items.len(), size), |index: int| window_at(items, size, index))
}

/// The items of each of the slices.
pub open spec fn views<'a, T>(slices: Seq<NonEmptySlice<'a, T>>) -> Seq<Seq<T>> {
    Seq::new(slices.len(), |index: int| slices[index]@)
}

/// States that each of the slices is non-empty.
pub open spec fn all_non_empty<'a, T>(slices: Seq<NonEmptySlice<'a, T>>) -> bool {
    forall|index: int| 0 <= index < slices.len() ==> (#[trigger] slices[index]).inv()
}

/// Represents non-empty iterations over non-empty slices in (non-overlapping) chunks,
/// starting at the beginning of the non-empty slice.
pub struct Chunks<'a, T> {
    slice: NonEmptySlice<'a, T>,
    size: Size,
}

impl<'a, T> Chunks<'a, T> {
    #[verifier::type_invariant]
    spec fn well_formed(self) -> bool {
        self.slice.inv() && self.size@ >= 1
    }

    /// The slice that is cut into chunks.
    pub closed spec fn slice(&self) -> NonEmptySlice<'a, T> {
        self.slice
    }

    /// The size of the chunks.
    pub closed spec fn size(&self) -> Size {
        self.size
    }

    /// Constructs [`Self`].
    pub fn new(slice: NonEmptySlice<'a, T>, size: Size) -> (chunks: Self)
        requires
            slice.inv(),
        ensures
            chunks.slice() == slice,
            chunks.size() == size,
    {
        let _ = size.get();
        Self { slice, size }
    }

    /// Returns the chunks, in their order from the front.
    pub fn into_vec(self) -> (chunks: Vec<NonEmptySlice<'a, T>>)
        ensures
            all_non_empty(chunks@),
            views(chunks@) == chunks_of(self.slice()@, self.size()@ as nat),
    {
        proof {
            use_type_invariant(&self);
        }
        let slice = self.slice.as_slice();
        let size = self.size.get();
        let len = slice.len();
        let mut chunks: Vec<NonEmptySlice<'a, T>> = Vec::new();
        let mut start: usize = 0;
        assert(chunks@.len() * size == 0) by (nonlinear_arith)
            requires
                chunks@.len() == 0,
        ;
        while start < len
            invariant
                size >= 1,
                size == self.size()@,
                len == slice@.len(),
                slice@ == self.slice()@,
                start <= len,
                start < len ==> start == chunks@.len() * size,
                start == len ==> (chunks@.len() - 1) * size < len <= chunks@.len() * size,
                forall|i: int|
                    0 <= i < chunks@.len() ==> (#[trigger] chunks@[i]).inv() && chunks@[i]@
                        == chunk_at(slice@, size as nat, i),
            decreases len - start,
        {
            let left = len - start;
            let take = if left < size {
                left
            } else {
                size
            };
            let end = start + take;
            let chunk = NonEmptySlice::from_slice_unchecked(slice_subrange(slice, start, end));
            proof {
                let count = chunks@.len() as int;
                assert((count + 1) * size == count * size + size) by (nonlinear_arith);
                assert(chunk@ == chunk_at(slice@, size as nat, count));
            }
            chunks.push(chunk);
            start = end;
        }
        proof {
            let count = chunks@.len() as int;
            let size = size as int;
            let len = len as int;
            assert(count == (len + size - 1) / size) by (nonlinear_arith)
                requires
                    size >= 1,
                    len >= 1,
                    (count - 1) * size < len <= count * size,
            ;
        }
        assert(views(chunks@) =~= chunks_of(slice@, size as nat));
        chunks
    }
}

impl<'a, T> IntoIterator for Chunks<'a, T> {
    type Item = NonEmptySlice<'a, T>;

    type IntoIter = IntoIter<NonEmptySlice<'a, T>>;

    fn into_iter(self) -> (iter: Self::IntoIter)
        ensures
            all_non_empty(into_iter_elts(iter)),
            views(into_iter_elts(iter)) == chunks_of(self.slice()@, self.size()@ as nat),
    {
        self.into_vec().into_iter()
    }
}

/// Represents non-empty iterations over non-empty slices in (non-overlapping) chunks,
/// starting at the end of the non-empty slice.
pub struct RChunks<'a, T> {
    slice: NonEmptySlice<'a, T>,
    size: Size,
}

impl<'a, T> RChunks<'a, T> {
    #[verifier::type_invariant]
    spec fn well_formed(self) -> bool {
        self.slice.inv() && self.size@ >= 1
    }

    /// The slice that is cut into chunks.
    pub closed spec fn slice(&self) -> NonEmptySlice<'a, T> {
        self.slice
    }

    /// The size of the chunks.
    pub closed spec fn size(&self) -> Size {
        self.size
    }

    /// Constructs [`Self`].
    pub fn new(slice: NonEmptySlice<'a, T>, size: Size) -> (chunks: Self)
        requires
            slice.inv(),
        ensures
            chunks.slice() == slice,
            chunks.size() == size,
    {
        let _ = size.get();
        Self { slice, size }
    }

    /// Returns the chunks, in their order from the back.
    pub fn into_vec(self) -> (chunks: Vec<NonEmptySlice<'a, T>>)
        ensures
            all_non_empty(chunks@),
            views(chunks@) == rchunks_of(self.slice()@, self.size()@ as nat),
    {
        proof {
            use_type_invariant(&self);
        }
        let slice = self.slice.as_slice();
        let size = self.size.get();
        let len = slice.len();
        let mut chunks: Vec<NonEmptySlice<'a, T>> = Vec::new();
        let mut end: usize = len;
        assert(chunks@.len() * size == 0) by (nonlinear_arith)
            requires
                chunks@.len() == 0,
        ;
        while end > 0
            invariant
                size >= 1,
                size == self.size()@,
                len == slice@.len(),
                slice@ == self.slice()@,
                end <= len,
                end > 0 ==> end == len - chunks@.len() * size,
                end == 0 ==> (chunks@.len() - 1) * size < len <= chunks@.len() * size,
                forall|i: int|
                    0 <= i < chunks@.len() ==> (#[trigger] chunks@[i]).inv() && chunks@[i]@
                        == rchunk_at(slice@, size as nat, i),
            decreases end,
        {
            let take = if end < size {
                end
            } else {
                size
            };
            let start = end - take;
            let chunk = NonEmptySlice::from_slice_unchecked(slice_subrange(slice, start, end));
            proof {
                let count = chunks@.len() as int;
                assert((count + 1) * size == count * size + size) by (nonlinear_arith);
                assert(chunk@ == rchunk_at(slice@, size as nat, count));
            }
            chunks.push(chunk);
            end = start;
        }
        proof {
            let count = chunks@.len() as int;
            let size = size as int;
            let len = len as int;
            assert(count == (len + size - 1) / size) by (nonlinear_arith)
                requires
                    size >= 1,
                    len >= 1,
                    (count - 1) * size < len <= count * size,
            ;
        }
        assert(views(chunks@) =~= rchunks_of(slice@, size as nat));
        chunks
    }
}

impl<'a, T> IntoIterator for RChunks<'a, T> {
    type Item = NonEmptySlice<'a, T>;

    type IntoIter = IntoIter<NonEmptySlice<'a, T>>;

    fn into_iter(self) -> (iter: Self::IntoIter)
        ensures
            all_non_empty(into_iter_elts(iter)),
            views(into_iter_elts(iter)) == rchunks_of(self.slice()@, self.size()@ as nat),
    {
        self.into_vec().into_iter()
    }
}

/// Represents non-empty iterations over non-empty slices in (non-overlapping) chunks,
/// starting at the beginning of the non-empty slice.
///
/// When the length of the non-empty slice is not divisible by the chunk size,
/// the last chunk will be omitted.
pub struct ChunksExact<'a, T> {
    slice: NonEmptySlice<'a, T>,
    size: Size,
}

impl<'a, T> ChunksExact<'a, T> {
    #[verifier::type_invariant]
    spec fn well_formed(self) -> bool {
        self.slice.inv() && self.size@ >= 1
    }

    /// The slice that is cut into chunks.
    pub closed spec fn slice(&self) -> NonEmptySlice<'a, T> {
        self.slice
    }

    /// The size of the chunks.
    pub closed spec fn size(&self) -> Size {
        self.size
    }

    /// Constructs [`Self`].
    pub fn new(slice: NonEmptySlice<'a, T>, size: Size) -> (chunks: Self)
        requires
            slice.inv(),
        ensures
            chunks.slice() == slice,
            chunks.size() == size,
    {
        let _ = size.get();
        Self { slice, size }
    }

    /// Returns the chunks, in their order from the front. Items that are left over behind
    /// the last whole chunk are in none of them.
    pub fn into_vec(self) -> (chunks: Vec<NonEmptySlice<'a, T>>)
        ensures
            all_non_empty(chunks@),
            views(chunks@) == exact_chunks_of(self.slice()@, self.size()@ as nat),
    {
        proof {
            use_type_invariant(&self);
        }
        let slice = self.slice.as_slice();
        let size = self.size.get();
        let len = slice.len();
        let mut chunks: Vec<NonEmptySlice<'a, T>> = Vec::new();
        let mut start: usize = 0;
        assert(chunks@.len() * size == 0) by (nonlinear_arith)
            requires
                chunks@.len() == 0,
        ;
        while len - start >= size
            invariant
                size >= 1,
                size == self.size()@,
                len == slice@.len(),
                slice@ == self.slice()@,
                start <= len,
                start == chunks@.len() * size,
                forall|i: int|
                    0 <= i < chunks@.len() ==> (#[trigger] chunks@[i]).inv() && chunks@[i]@
                        == exact_chunk_at(slice@, size as nat, i),
            decreases len - start,
        {
            let end = start + size;
            let chunk = NonEmptySlice::from_slice_unchecked(slice_subrange(slice, start, end));
            proof {
                let count = chunks@.len() as int;
                assert((count + 1) * size == count * size + size) by (nonlinear_arith);
            }
            chunks.push(chunk);
            start = end;
        }
        proof {
            let count = chunks@.len() as int;
            let size = size as int;
            let len = len as int;
            assert(count == len / size) by (nonlinear_arith)
                requires
                    size >= 1,
                    count * size <= len < count * size + size,
            ;
        }
        assert(views(chunks@) =~= exact_chunks_of(slice@, size as nat));
        chunks
    }
}

impl<'a, T> IntoIterator for ChunksExact<'a, T> {
    type Item = NonEmptySlice<'a, T>;

    type IntoIter = IntoIter<NonEmptySlice<'a, T>>;

    fn into_iter(self) -> (iter: Self::IntoIter)
        ensures
            all_non_empty(into_iter_elts(iter)),
            views(into_iter_elts(iter)) == exact_chunks_of(self.slice()@, self.size()@ as nat),
    {
        self.into_vec().into_iter()
    }
}

/// Represents non-empty iterations over non-empty slices in (non-overlapping) chunks,
/// starting at the end of the non-empty slice.
///
/// When the length of the non-empty slice is not divisible by the chunk size,
/// the last chunk will be omitted.
pub struct RChunksExact<'a, T> {
    slice: NonEmptySlice<'a, T>,
    size: Size,
}

impl<'a, T> RChunksExact<'a, T> {
    #[verifier::type_invariant]
    spec fn well_formed(self) -> bool {
        self.slice.inv() && self.size@ >= 1
    }

    /// The slice that is cut into chunks.
    pub closed spec fn slice(&self) -> NonEmptySlice<'a, T> {
        self.slice
    }

    /// The size of the chunks.
    pub closed spec fn size(&self) -> Size {
        self.size
    }

    /// Constructs [`Self`].
    pub fn new(slice: NonEmptySlice<'a, T>, size: Size) -> (chunks: Self)
        requires
            slice.inv(),
        ensures
            chunks.slice() == slice,
            chunks.size() == size,
    {
        let _ = size.get();
        Self { slice, size }
    }

    /// Returns the chunks, in their order from the back. Items that are left over before
    /// the last whole chunk are in none of them.
    pub fn into_vec(self) -> (chunks: Vec<NonEmptySlice<'a, T>>)
        ensures
            all_non_empty(chunks@),
            views(chunks@) == exact_rchunks_of(self.slice()@, self.size()@ as nat),
    {
        proof {
            use_type_invariant(&self);
        }
        let slice = self.slice.as_slice();
        let size = self.size.get();
        let len = slice.len();
        let mut chunks: Vec<NonEmptySlice<'a, T>> = Vec::new();
        let mut end: usize = len;
        assert(chunks@.len() * size == 0) by (nonlinear_arith)
            requires
                chunks@.len() == 0,
        ;
        while end >= size
            invariant
                size >= 1,
                size == self.size()@,
                len == slice@.len(),
                slice@ == self.slice()@,
                end <= len,
                end == len - chunks@.len() * size,
                forall|i: int|
                    0 <= i < chunks@.len() ==> (#[trigger] chunks@[i]).inv() && chunks@[i]@
                        == exact_rchunk_at(slice@, size as nat, i),
            decreases end,
        {
            let start = end - size;
            let chunk = NonEmptySlice::from_slice_unchecked(slice_subrange(slice, start, end));
            proof {
                let count = chunks@.len() as int;
                assert((count + 1) * size == count * size + size) by (nonlinear_arith);
            }
            chunks.push(chunk);
            end = start;
        }
        proof {
            let count = chunks@.len() as int;
            let size = size as int;
            let len = len as int;
            assert(count == len / size) by (nonlinear_arith)
                requires
                    size >= 1,
                    count * size <= len < count * size + size,
            ;
        }
        assert(views(chunks@) =~= exact_rchunks_of(slice@, size as nat));
        chunks
    }
}

impl<'a, T> IntoIterator for RChunksExact<'a, T> {
    type Item = NonEmptySlice<'a, T>;

    type IntoIter = IntoIter<NonEmptySlice<'a, T>>;

    fn into_iter(self) -> (iter: Self::IntoIter)
        ensures
            all_non_empty(into_iter_elts(iter)),
            views(into_iter_elts(iter)) == exact_rchunks_of(self.slice()@, self.size()@ as nat),
    {
        self.into_vec().into_iter()
    }
}

/// Represents non-empty iterations over non-empty slices in (overlapping) windows.
pub struct Windows<'a, T> {
    slice: NonEmptySlice<'a, T>,
    size: Size,
}

impl<'a, T> Windows<'a, T> {
    #[verifier::type_invariant]
    spec fn well_formed(self) -> bool {
        self.slice.inv() && self.size@ >= 1
    }

    /// The slice that is cut into windows.
    pub closed spec fn slice(&self) -> NonEmptySlice<'a, T> {
        self.slice
    }

    /// The size of the windows.
    pub closed spec fn size(&self) -> Size {
        self.size
    }

    /// Constructs [`Self`].
    pub fn new(slice: NonEmptySlice<'a, T>, size: Size) -> (windows: Self)
        requires
            slice.inv(),
        ensures
            windows.slice() == slice,
            windows.size() == size,
    {
        let _ = size.get();
        Self { slice, size }
    }

    /// Returns the windows, in their order from the front. There is none where the slice
    /// holds fewer items than one window.
    pub fn into_vec(self) -> (windows: Vec<NonEmptySlice<'a, T>>)
        ensures
            all_non_empty(windows@),
            views(windows@) == windows_of(self.slice()@, self.size()@ as nat),
    {
        proof {
            use_type_invariant(&self);
        }
        let slice = self.slice.as_slice();
        let size = self.size.get();
        let len = slice.len();
        let mut windows: Vec<NonEmptySlice<'a, T>> = Vec::new();
        if len < size {
            assert(views(windows@) =~= windows_of(slice@, size as nat));
            return windows;
        }
        let last = len - size;
        let mut start: usize = 0;
        while start <= last
            invariant
                size >= 1,
                size == self.size()@,
                len == slice@.len(),
                slice@ == self.slice()@,
                last == len - size,
                start <= last + 1,
                start == windows@.len(),
                forall|i: int|
                    0 <= i < windows@.len() ==> (#[trigger] windows@[i]).inv() && windows@[i]@
                        == window_at(slice@, size as nat, i),
            decreases last + 1 - start,
        {
            let window = NonEmptySlice::from_slice_unchecked(
                slice_subrange(slice, start, start + size),
            );
            windows.push(window);
            start = start + 1;
        }
        assert(views(windows@) =~= windows_of(slice@, size as nat));
        windows
    }
}

impl<'a, T> IntoIterator for Windows<'a, T> {
    type Item = NonEmptySlice<'a, T>;

    type IntoIter = IntoIter<NonEmptySlice<'a, T>>;

    fn into_iter(self) -> (iter: Self::IntoIter)
        ensures
            all_non_empty(into_iter_elts(iter)),
            views(into_iter_elts(iter)) == windows_of(self.slice()@, self.size()@ as nat),
    {
        self.into_vec().into_iter()
    }
}

impl<'a, T> NonEmptySlice<'a, T> {
    /// Returns non-empty iteration over the slice in (non-overlapping) non-empty chunks
    /// of given [`Size`], starting at the beginning of the slice.
    pub fn chunks(&self, size: Size) -> (chunks: Chunks<'a, T>)
        requires
            self.inv(),
        ensures
            chunks.slice() == *self,
            chunks.size() == size,
    {
        Chunks::new(*self, size)
    }

    /// Returns non-empty iteration over the slice in (non-overlapping) non-empty chunks
    /// of given [`Size`], starting at the end of the slice.
    pub fn rchunks(&self, size: Size) -> (chunks: RChunks<'a, T>)
        requires
            self.inv(),
        ensures
            chunks.slice() == *self,
            chunks.size() == size,
    {
        RChunks::new(*self, size)
    }

    /// Returns non-empty iteration over the slice in (non-overlapping) chunks
    /// of given [`Size`], starting at the beginning of the slice.
    ///
    /// When the length of the slice is not divisible by the chunk size,
    /// the last chunk will be omitted.
    pub fn chunks_exact(&self, size: Size) -> (chunks: ChunksExact<'a, T>)
        requires
            self.inv(),
        ensures
            chunks.slice() == *self,
            chunks.size() == size,
    {
        ChunksExact::new(*self, size)
    }

    /// Returns non-empty iteration over the slice in (non-overlapping) chunks
    /// of given [`Size`], starting at the end of the slice.
    ///
    /// When the length of the slice is not divisible by the chunk size,
    /// the last chunk will be omitted.
    pub fn rchunks_exact(&self, size: Size) -> (chunks: RChunksExact<'a, T>)
        requires
            self.inv(),
        ensures
            chunks.slice() == *self,
            chunks.size() == size,
    {
        RChunksExact::new(*self, size)
    }

    /// Returns non-empty iteration over the slice in (overlapping) windows of given [`Size`].
    pub fn windows(&self, size: Size) -> (windows: Windows<'a, T>)
        requires
            self.inv(),
        ensures
            windows.slice() == *self,
            windows.size() == size,
    {
        Windows::new(*self, size)
    }
}

/// States that the predicate held between the item at `index` and the item behind it.
pub open spec fn joins<T, P: FnMut(&T, &T) -> bool>(
    items: Seq<T>,
    predicate: P,
    index: int,
) -> bool {
    call_ensures(predicate, (&items[index], &items[index + 1]), true)
}

/// States that the predicate held between each item of the run and the item behind it.
pub open spec fn is_run<T, P: FnMut(&T, &T) -> bool>(run: Seq<T>, predicate: P) -> bool {
    forall|index: int| 0 <= index < run.len() - 1 ==> #[trigger] joins(run, predicate, index)
}

/// States that the predicate failed between the last item of `left` and the first of `right`.
pub open spec fn is_cut<T, P: FnMut(&T, &T) -> bool>(
    left: Seq<T>,
    right: Seq<T>,
    predicate: P,
) -> bool {
    call_ensures(predicate, (&left.last(), &right.first()), false)
}

/// States that `chunks` cuts `items` into its runs under the predicate: the chunks are
/// non-empty and, one behind the other, are the items; within each chunk the predicate
/// held from item to item, and between each chunk and the next it failed.
pub open spec fn is_chunking_by<T, P: FnMut(&T, &T) -> bool>(
    items: Seq<T>,
    predicate: P,
    chunks: Seq<Seq<T>>,
) -> bool {
    &&& chunks.flatten() == items
    &&& forall|index: int| 0 <= index < chunks.len() ==> (#[trigger] chunks[index]).len() >= 1
    &&& forall|index: int| 0 <= index < chunks.len() ==> is_run(#[trigger] chunks[index], predicate)
    &&& forall|index: int|
        0 <= index < chunks.len() - 1 ==> is_cut(
            #[trigger] chunks[index],
            chunks[index + 1],
            predicate,
        )
}

/// Represents non-empty iterations over non-empty slices in (non-overlapping) chunks,
/// separated by the given predicate.
pub struct ChunkBy<'a, T, P: FnMut(&T, &T) -> bool> {
    slice: NonEmptySlice<'a, T>,
    predicate: P,
}

impl<'a, T, P: FnMut(&T, &T) -> bool> ChunkBy<'a, T, P> {
    #[verifier::type_invariant]
    spec fn well_formed(self) -> bool {
        &&& self.slice.inv()
        &&& forall|first: &T, second: &T| call_requires(self.predicate, (first, second))
    }

    /// The slice that is cut into chunks.
    pub closed spec fn slice(&self) -> NonEmptySlice<'a, T> {
        self.slice
    }

    /// The predicate that says whether an item belongs to the chunk of the item before it.
    pub closed spec fn predicate(&self) -> P {
        self.predicate
    }

    /// Constructs [`Self`].
    ///
    /// The predicate has to accept every pair of items.
    pub fn new(slice: NonEmptySlice<'a, T>, predicate: P) -> (chunks: Self)
        requires
            slice.inv(),
            forall|first: &T, second: &T| call_requires(predicate, (first, second)),
        ensures
            chunks.slice() == slice,
            chunks.predicate() == predicate,
    {
        Self { slice, predicate }
    }

    /// Returns the chunks, in their order from the front.
    ///
    /// The predicate is asked once for each item and the item behind it, from the front.
    pub fn into_vec(self) -> (chunks: Vec<NonEmptySlice<'a, T>>)
        ensures
            all_non_empty(chunks@),
            is_chunking_by(self.slice()@, self.predicate(), views(chunks@)),
    {
        proof {
            use_type_invariant(&self);
        }
        let slice = self.slice.as_slice();
        let mut predicate = self.predicate;
        let len = slice.len();
        let mut chunks: Vec<NonEmptySlice<'a, T>> = Vec::new();
        let mut start: usize = 0;
        let mut index: usize = 1;
        assert(views(chunks@) =~= Seq::<Seq<T>>::empty());
        assert(views(chunks@).flatten() =~= slice@.subrange(0, 0));
        while index < len
            invariant
                len == slice@.len(),
                slice@ == self.slice()@,
                predicate == self.predicate(),
                start < index <= len,
                forall|first: &T, second: &T| call_requires(predicate, (first, second)),
                all_non_empty(chunks@),
                views(chunks@).flatten() == slice@.subrange(0, start as int),
                forall|i: int|
                    0 <= i < chunks@.len() ==> is_run((#[trigger] views(chunks@)[i]), predicate),
                forall|i: int|
                    0 <= i < chunks@.len() - 1 ==> is_cut(
                        #[trigger] views(chunks@)[i],
                        views(chunks@)[i + 1],
                        predicate,
                    ),
                chunks@.len() > 0 ==> views(chunks@).last().last() == slice@[start - 1]
                    && call_ensures(predicate, (&slice@[start - 1], &slice@[start as int]), false),
                forall|j: int| start <= j < index - 1 ==> #[trigger] joins(slice@, predicate, j),
            decreases len - index,
        {
            let same = predicate(&slice[index - 1], &slice[index]);
            proof {
                if same {
                    assert(joins(slice@, predicate, index - 1));
                }
            }
            if !same {
                let chunk = NonEmptySlice::from_slice_unchecked(
                    slice_subrange(slice, start, index),
                );
                proof {
                    let before = views(chunks@);
                    let after = views(chunks@.push(chunk));
                    assert(after =~= before.push(chunk@));
                    before.lemma_flatten_push(chunk@);
                    assert(after.flatten() =~= slice@.subrange(0, index as int));
                    assert(is_run(chunk@, predicate)) by {
                        assert forall|k: int| 0 <= k < chunk@.len() - 1 implies #[trigger] joins(
                            chunk@,
                            predicate,
                            k,
                        ) by {
                            assert(joins(slice@, predicate, start + k));
                            assert(chunk@[k] == slice@[start + k]);
                            assert(chunk@[k + 1] == slice@[start + k + 1]);
                        }
                    }
                    assert(chunk@.first() == slice@[start as int]);
                    assert(chunk@.last() == slice@[index - 1]);
                    assert forall|i: int| 0 <= i < after.len() implies is_run(
                        #[trigger] after[i],
                        predicate,
                    ) by {
                        if i < before.len() {
                            assert(after[i] == before[i]);
                        }
                    }
                    assert forall|i: int| 0 <= i < after.len() - 1 implies is_cut(
                        #[trigger] after[i],
                        after[i + 1],
                        predicate,
                    ) by {
                        if i < before.len() - 1 {
                            assert(after[i] == before[i]);
                            assert(after[i + 1] == before[i + 1]);
                        } else {
                            assert(after[i] == before.last());
                        }
                    }
                }
                chunks.push(chunk);
                start = index;
            }
            index = index + 1;
        }
        let chunk = NonEmptySlice::from_slice_unchecked(slice_subrange(slice, start, len));
        proof {
            let before = views(chunks@);
            let after = views(chunks@.push(chunk));
            assert(after =~= before.push(chunk@));
            before.lemma_flatten_push(chunk@);
            assert(after.flatten() =~= slice@);
            assert(is_run(chunk@, predicate)) by {
                assert forall|k: int| 0 <= k < chunk@.len() - 1 implies #[trigger] joins(
                    chunk@,
                    predicate,
                    k,
                ) by {
                    assert(joins(slice@, predicate, start + k));
                    assert(chunk@[k] == slice@[start + k]);
                    assert(chunk@[k + 1] == slice@[start + k + 1]);
                }
            }
            assert(chunk@.first() == slice@[start as int]);
            assert forall|i: int| 0 <= i < after.len() implies is_run(
                #[trigger] after[i],
                predicate,
            ) by {
                if i < before.len() {
                    assert(after[i] == before[i]);
                }
            }
            assert forall|i: int| 0 <= i < after.len() - 1 implies is_cut(
                #[trigger] after[i],
                after[i + 1],
                predicate,
            ) by {
                if i < before.len() - 1 {
                    assert(after[i] == before[i]);
                    assert(after[i + 1] == before[i + 1]);
                } else {
                    assert(after[i] == before.last());
                }
            }
            assert forall|i: int| 0 <= i < after.len() implies (#[trigger] after[i]).len() >= 1 by {
                if i < before.len() {
                    assert(after[i] == chunks@[i]@);
                }
            }
        }
        chunks.push(chunk);
        chunks
    }
}

impl<'a, T, P: FnMut(&T, &T) -> bool> IntoIterator for ChunkBy<'a, T, P> {
    type Item = NonEmptySlice<'a, T>;

    type IntoIter = IntoIter<NonEmptySlice<'a, T>>;

    fn into_iter(self) -> (iter: Self::IntoIter)
        ensures
            all_non_empty(into_iter_elts(iter)),
            is_chunking_by(self.slice()@, self.predicate(), views(into_iter_elts(iter))),
    {
        self.into_vec().into_iter()
    }
}

impl<'a, T> NonEmptySlice<'a, T> {
    /// Returns non-empty iteration over the slice in (non-overlapping) chunks,
    /// separated by the given predicate.
    pub fn chunk_by<P: FnMut(&T, &T) -> bool>(&self, predicate: P) -> (chunks: ChunkBy<'a, T, P>)
        requires
            self.inv(),
            forall|first: &T, second: &T| call_requires(predicate, (first, second)),
        ensures
            chunks.slice() == *self,
            chunks.predicate() == predicate,
    {
        ChunkBy::new(*self, predicate)
    }
}

/// Returns the lower case hexadecimal digit of the value.
fn hex_digit_of(value: u8) -> (digit: u8)
    requires
        value < 16,
    ensures
        digit == hex_digit(value),
{
    if value < 10 {
        0x30 + value
    } else {
        0x61 + (value - 10)
    }
}

/// Represents non-empty iterations that produce escaped versions of provided slices,
/// treating them as ASCII strings.
pub struct EscapeAscii<'a> {
    bytes: NonEmptyBytes<'a>,
}

impl<'a> EscapeAscii<'a> {
    #[verifier::type_invariant]
    spec fn well_formed(self) -> bool {
        self.bytes.inv()
    }

    /// The bytes that are escaped.
    pub closed spec fn bytes(&self) -> NonEmptyBytes<'a> {
        self.bytes
    }

    /// Constructs [`Self`].
    pub fn new(bytes: NonEmptyBytes<'a>) -> (escape: Self)
        requires
            bytes.inv(),
        ensures
            escape.bytes() == bytes,
    {
        Self { bytes }
    }

    /// Returns the escaped bytes, of which there is at least one.
    pub fn into_vec(self) -> (output: Vec<u8>)
        ensures
            output@ == escaped(self.bytes()@),
            output@.len() >= 1,
    {
        proof {
            use_type_invariant(&self);
        }
        let bytes = self.bytes.as_slice();
        let len = bytes.len();
        let mut output: Vec<u8> = Vec::new();
        let mut index: usize = 0;
        assert(bytes@.take(0).map_values(|byte: u8| escaped_byte(byte)) =~= Seq::<
            Seq<u8>,
        >::empty());
        while index < len
            invariant
                len == bytes@.len(),
                bytes@ == self.bytes()@,
                index <= len,
                output@ == escaped(bytes@.take(index as int)),
                index > 0 ==> output@.len() >= 1,
            decreases len - index,
        {
            let byte = bytes[index];
            proof {
                let before = bytes@.take(index as int).map_values(|byte: u8| escaped_byte(byte));
                let after = bytes@.take(index + 1).map_values(|byte: u8| escaped_byte(byte));
                assert(after =~= before.push(escaped_byte(byte)));
                before.lemma_flatten_push(escaped_byte(byte));
            }
            let ghost start = output@;
            if byte == 0x09 {
                output.push(0x5c);
                output.push(0x74);
            } else if byte == 0x0d {
                output.push(0x5c);
                output.push(0x72);
            } else if byte == 0x0a {
                output.push(0x5c);
                output.push(0x6e);
            } else if byte == 0x27 || byte == 0x22 || byte == 0x5c {
                output.push(0x5c);
                output.push(byte);
            } else if 0x20 <= byte && byte <= 0x7e {
                output.push(byte);
            } else {
                output.push(0x5c);
                output.push(0x78);
                output.push(hex_digit_of(byte / 16));
                output.push(hex_digit_of(byte % 16));
            }
            assert(output@ =~= start + escaped_byte(byte));
            index = index + 1;
        }
        assert(bytes@.take(len as int) =~= bytes@);
        output
    }
}

impl<'a> IntoIterator for EscapeAscii<'a> {
    type Item = u8;

    type IntoIter = IntoIter<u8>;

    fn into_iter(self) -> (iter: Self::IntoIter)
        ensures
            into_iter_elts(iter) == escaped(self.bytes()@),
    {
        self.into_vec().into_iter()
    }
}

impl<'a> NonEmptyBytes<'a> {
    /// Returns non-empty iteration that produces the escaped version of the slice,
    /// treating it as ASCII string.
    pub fn escape_ascii(&self) -> (escape: EscapeAscii<'a>)
        requires
            self.inv(),
        ensures
            escape.bytes() == *self,
    {
        EscapeAscii::new(*self)
    }
}

} // verus!
