//! Laws that relate the functions of this crate to one another.
//!
//! Each law speaks of what the functions involved may return, through their contracts:
//! `call_ensures(f, args, result)` reads "`result` is what `f` returned on `args`".
//! Where a function changes what it is given, the law names what was there before
//! and after: the mutable reference that the function took held the one when it was
//! taken and holds the other in the end.

use vstd::prelude::*;

use crate::boxed::{EmptyBoxedSlice, NonEmptyBoxedSlice};
use crate::iter::{
    chunk_count, chunks_of, exact_chunk_count, exact_chunks_of, exact_rchunks_of, rchunks_of,
    window_count, windows_of,
};
use crate::cow::NonEmptyCowSlice;
use crate::slice::{cloned_items, NonEmptySlice};
use crate::vec::{EmptyVec, NonEmptyVec};

verus! {

/// A non-empty vector that goes through the checked constructor and back comes out
/// as it went in: construction succeeds, and the vector returned is the vector given,
/// not a copy of its items.
pub proof fn law_vec_round_trip<T>(
    vector: Vec<T>,
    result: Result<NonEmptyVec<T>, EmptyVec<T>>,
    plain: Vec<T>,
)
    requires
        vector@.len() >= 1,
        call_ensures(NonEmptyVec::<T>::new, (vector,), result),
        result matches Ok(non_empty) ==> call_ensures(
            NonEmptyVec::<T>::into_vec,
            (non_empty,),
            plain,
        ),
    ensures
        result is Ok,
        plain == vector,
{
}

/// A non-empty boxed slice that goes through the checked constructor and back comes out
/// as it went in: construction succeeds, and the boxed slice returned is the one given,
/// not a copy of its items.
pub proof fn law_boxed_round_trip<T>(
    boxed: Box<[T]>,
    result: Result<NonEmptyBoxedSlice<T>, EmptyBoxedSlice<T>>,
    plain: Box<[T]>,
)
    requires
        boxed@.len() >= 1,
        call_ensures(NonEmptySlice::<T>::from_boxed_slice, (boxed,), result),
        result matches Ok(non_empty) ==> call_ensures(
            NonEmptyBoxedSlice::<T>::into_boxed_slice,
            (non_empty,),
            plain,
        ),
    ensures
        result is Ok,
        plain == boxed,
{
}

/// A non-empty slice that goes through the checked constructor and back comes out
/// as it went in: construction succeeds, and the slice returned is the slice given.
pub proof fn law_slice_round_trip<'a, T>(
    slice: &'a [T],
    result: Result<NonEmptySlice<'a, T>, crate::slice::EmptySlice>,
    plain: &'a [T],
)
    requires
        slice@.len() >= 1,
        call_ensures(NonEmptySlice::<'a, T>::try_from_slice, (slice,), result),
        result matches Ok(non_empty) ==> call_ensures(
            NonEmptySlice::<'a, T>::as_slice,
            (&non_empty,),
            plain,
        ),
    ensures
        result is Ok,
        plain == slice,
{
}

/// The empty vector is rejected by the checked constructor, and the error hands it back:
/// the vector recovered from the error is the vector given.
pub proof fn law_empty_vec_is_handed_back<T>(
    vector: Vec<T>,
    result: Result<NonEmptyVec<T>, EmptyVec<T>>,
    recovered: Vec<T>,
)
    requires
        vector@.len() == 0,
        call_ensures(NonEmptyVec::<T>::new, (vector,), result),
        result matches Err(empty) ==> call_ensures(EmptyVec::<T>::get, (empty,), recovered),
    ensures
        result is Err,
        recovered == vector,
{
}

/// The empty boxed slice is rejected by the checked constructor, and the error hands it
/// back: the boxed slice recovered from the error is the one given.
pub proof fn law_empty_boxed_slice_is_handed_back<T>(
    boxed: Box<[T]>,
    result: Result<NonEmptyBoxedSlice<T>, EmptyBoxedSlice<T>>,
    recovered: Box<[T]>,
)
    requires
        boxed@.len() == 0,
        call_ensures(NonEmptySlice::<T>::from_boxed_slice, (boxed,), result),
        result matches Err(empty) ==> call_ensures(EmptyBoxedSlice::<T>::get, (empty,), recovered),
    ensures
        result is Err,
        recovered == boxed,
{
}

/// The empty slice is rejected by the checked constructor.
pub proof fn law_empty_slice_is_rejected<'a, T>(
    slice: &'a [T],
    result: Result<NonEmptySlice<'a, T>, crate::slice::EmptySlice>,
)
    requires
        slice@.len() == 0,
        call_ensures(NonEmptySlice::<'a, T>::try_from_slice, (slice,), result),
    ensures
        result is Err,
{
}

/// A non-empty boxed slice that is converted into a non-empty vector and back holds
/// the items that it held, in their order.
pub proof fn law_boxed_to_vec_and_back<T>(
    boxed: NonEmptyBoxedSlice<T>,
    vector: NonEmptyVec<T>,
    back: NonEmptyBoxedSlice<T>,
)
    requires
        boxed.inv(),
        call_ensures(NonEmptyBoxedSlice::<T>::into_non_empty_vec, (boxed,), vector),
        call_ensures(NonEmptyVec::<T>::into_non_empty_boxed_slice, (vector,), back),
    ensures
        vector.inv(),
        vector@ == boxed@,
        back.inv(),
        back@ == boxed@,
{
}

/// A non-empty vector that is converted into a non-empty boxed slice and back holds
/// the items that it held, in their order.
pub proof fn law_vec_to_boxed_and_back<T>(
    vector: NonEmptyVec<T>,
    boxed: NonEmptyBoxedSlice<T>,
    back: NonEmptyVec<T>,
)
    requires
        vector.inv(),
        call_ensures(NonEmptyVec::<T>::into_non_empty_boxed_slice, (vector,), boxed),
        call_ensures(NonEmptyBoxedSlice::<T>::into_non_empty_vec, (boxed,), back),
    ensures
        boxed.inv(),
        boxed@ == vector@,
        back.inv(),
        back@ == vector@,
{
}

/// The number of chunks is the least number of chunks of `size` items that hold `len` items.
pub proof fn lemma_chunk_count(len: nat, size: nat)
    requires
        len >= 1,
        size >= 1,
    ensures
        chunk_count(len, size) >= 1,
        (chunk_count(len, size) - 1) * size < len <= chunk_count(len, size) * size,
{
    let count = (len + size - 1) / (size as int);
    assert((count - 1) * size < len <= count * size && count >= 1) by (nonlinear_arith)
        requires
            len >= 1,
            size >= 1,
            count == (len + size - 1) / (size as int),
    ;
}

/// The number of exact chunks is the greatest number of chunks of `size` items that fit
/// into `len` items; what is left over is the remainder of the division.
pub proof fn lemma_exact_chunk_count(len: nat, size: nat)
    requires
        size >= 1,
    ensures
        exact_chunk_count(len, size) * size == len - len % size,
        exact_chunk_count(len, size) * size <= len < exact_chunk_count(len, size) * size + size,
{
    let count = (len as int) / (size as int);
    assert(count * size == len - (len as int) % (size as int) && count * size <= len < count * size
        + size && count >= 0) by (nonlinear_arith)
        requires
            size >= 1,
            count == (len as int) / (size as int),
    ;
}

/// Every chunk from the front is non-empty and holds at most `size` items; every chunk
/// but the last one holds exactly `size` items.
pub proof fn law_chunks_sizes<T>(items: Seq<T>, size: nat, index: int)
    requires
        items.len() >= 1,
        size >= 1,
        0 <= index < chunks_of(items, size).len(),
    ensures
        1 <= chunks_of(items, size)[index].len() <= size,
        index < chunks_of(items, size).len() - 1 ==> chunks_of(items, size)[index].len() == size,
{
    let count = chunk_count(items.len(), size) as int;
    lemma_chunk_count(items.len(), size);
    assert(index * size <= (count - 1) * size) by (nonlinear_arith)
        requires
            index <= count - 1,
            size >= 1,
    ;
    if index < count - 1 {
        assert(index * size + size <= (count - 1) * size) by (nonlinear_arith)
            requires
                index + 1 <= count - 1,
                size >= 1,
        ;
    }
}

/// The first `taken` chunks from the front, one behind the other, are the items that
/// precede the next chunk.
proof fn lemma_chunks_prefix<T>(items: Seq<T>, size: nat, taken: int)
    requires
        items.len() >= 1,
        size >= 1,
        0 <= taken <= chunks_of(items, size).len(),
    ensures
        taken < chunks_of(items, size).len() ==> chunks_of(items, size).take(taken).flatten()
            == items.subrange(0, taken * size),
        taken == chunks_of(items, size).len() ==> chunks_of(items, size).take(taken).flatten()
            == items,
    decreases taken,
{
    broadcast use Seq::lemma_flatten_push;

    let chunks = chunks_of(items, size);
    let count = chunks.len() as int;
    lemma_chunk_count(items.len(), size);
    if taken == 0 {
        assert(chunks.take(0).flatten() =~= items.subrange(0, 0));
        assert(0 * size == 0) by (nonlinear_arith);
    } else {
        let before = taken - 1;
        lemma_chunks_prefix(items, size, before);
        assert(chunks.take(taken) =~= chunks.take(before).push(chunks[before]));
        assert(before * size + size == taken * size) by (nonlinear_arith)
            requires
                before + 1 == taken,
        ;
        assert(before * size <= (count - 1) * size) by (nonlinear_arith)
            requires
                before <= count - 1,
                size >= 1,
        ;
        if taken < count {
            assert(taken * size <= (count - 1) * size) by (nonlinear_arith)
                requires
                    taken <= count - 1,
                    size >= 1,
            ;
            assert(chunks.take(taken).flatten() =~= items.subrange(0, taken * size));
        } else {
            assert(chunks.take(taken).flatten() =~= items);
        }
    }
}

/// Chunks from the front cover the items from left to right: put one behind the other,
/// they are the items.
pub proof fn law_chunks_cover<T>(items: Seq<T>, size: nat)
    requires
        items.len() >= 1,
        size >= 1,
    ensures
        chunks_of(items, size).flatten() == items,
{
    let chunks = chunks_of(items, size);
    lemma_chunks_prefix(items, size, chunks.len() as int);
    assert(chunks.take(chunks.len() as int) =~= chunks);
}

/// Every exact chunk from the front holds exactly `size` items, and so is non-empty.
pub proof fn law_exact_chunks_sizes<T>(items: Seq<T>, size: nat, index: int)
    requires
        size >= 1,
        0 <= index < exact_chunks_of(items, size).len(),
    ensures
        exact_chunks_of(items, size)[index].len() == size,
{
    let count = exact_chunk_count(items.len(), size) as int;
    lemma_exact_chunk_count(items.len(), size);
    assert(index * size + size <= count * size) by (nonlinear_arith)
        requires
            index + 1 <= count,
            size >= 1,
    ;
    assert(0 <= index * size) by (nonlinear_arith)
        requires
            0 <= index,
            size >= 1,
    ;
}

/// The first `taken` exact chunks from the front, one behind the other, are the first
/// `taken * size` items.
proof fn lemma_exact_chunks_prefix<T>(items: Seq<T>, size: nat, taken: int)
    requires
        size >= 1,
        0 <= taken <= exact_chunks_of(items, size).len(),
    ensures
        taken * size <= items.len(),
        exact_chunks_of(items, size).take(taken).flatten() == items.subrange(0, taken * size),
    decreases taken,
{
    broadcast use Seq::lemma_flatten_push;

    let chunks = exact_chunks_of(items, size);
    let count = chunks.len() as int;
    lemma_exact_chunk_count(items.len(), size);
    assert(0 <= taken * size <= count * size) by (nonlinear_arith)
        requires
            0 <= taken <= count,
            size >= 1,
    ;
    if taken == 0 {
        assert(chunks.take(0).flatten() =~= items.subrange(0, 0));
        assert(0 * size == 0) by (nonlinear_arith);
    } else {
        let before = taken - 1;
        lemma_exact_chunks_prefix(items, size, before);
        assert(chunks.take(taken) =~= chunks.take(before).push(chunks[before]));
        assert(before * size + size == taken * size) by (nonlinear_arith)
            requires
                before + 1 == taken,
        ;
        assert(chunks.take(taken).flatten() =~= items.subrange(0, taken * size));
    }
}

/// Exact chunks from the front cover the items from left to right up to the last whole
/// chunk, and drop the shorter rest: put one behind the other, they are the items without
/// the last `len % size` of them.
pub proof fn law_exact_chunks_cover<T>(items: Seq<T>, size: nat)
    requires
        size >= 1,
    ensures
        exact_chunks_of(items, size).flatten() == items.subrange(
            0,
            items.len() - (items.len() as int) % (size as int),
        ),
{
    let chunks = exact_chunks_of(items, size);
    lemma_exact_chunk_count(items.len(), size);
    lemma_exact_chunks_prefix(items, size, chunks.len() as int);
    assert(chunks.take(chunks.len() as int) =~= chunks);
}

/// Every chunk from the back is non-empty and holds at most `size` items; every chunk
/// but the last one, which lies at the front of the items, holds exactly `size` items.
pub proof fn law_rchunks_sizes<T>(items: Seq<T>, size: nat, index: int)
    requires
        items.len() >= 1,
        size >= 1,
        0 <= index < rchunks_of(items, size).len(),
    ensures
        1 <= rchunks_of(items, size)[index].len() <= size,
        index < rchunks_of(items, size).len() - 1 ==> rchunks_of(items, size)[index].len() == size,
{
    let count = chunk_count(items.len(), size) as int;
    lemma_chunk_count(items.len(), size);
    assert(0 <= index * size <= (count - 1) * size) by (nonlinear_arith)
        requires
            0 <= index <= count - 1,
            size >= 1,
    ;
    if index < count - 1 {
        assert(index * size + size <= (count - 1) * size) by (nonlinear_arith)
            requires
                index + 1 <= count - 1,
                size >= 1,
        ;
    }
}

/// The first `taken` chunks from the back, in the order of the items, are the items
/// that follow the next chunk.
proof fn lemma_rchunks_suffix<T>(items: Seq<T>, size: nat, taken: int)
    requires
        items.len() >= 1,
        size >= 1,
        0 <= taken <= rchunks_of(items, size).len(),
    ensures
        taken < rchunks_of(items, size).len() ==> rchunks_of(items, size).take(
            taken,
        ).reverse().flatten() == items.subrange(items.len() - taken * size, items.len() as int),
        taken == rchunks_of(items, size).len() ==> rchunks_of(items, size).take(
            taken,
        ).reverse().flatten() == items,
    decreases taken,
{
    let chunks = rchunks_of(items, size);
    let count = chunks.len() as int;
    let len = items.len() as int;
    lemma_chunk_count(items.len(), size);
    if taken == 0 {
        assert(chunks.take(0).reverse() =~= Seq::<Seq<T>>::empty());
        assert(chunks.take(0).reverse().flatten() =~= items.subrange(len, len));
        assert(0 * size == 0) by (nonlinear_arith);
    } else {
        let before = taken - 1;
        lemma_rchunks_suffix(items, size, before);
        let head = seq![chunks[before]];
        let tail = chunks.take(before).reverse();
        assert(chunks.take(taken).reverse() =~= head + tail);
        vstd::seq_lib::lemma_flatten_concat(head, tail);
        head.lemma_flatten_one_element();
        assert(before * size + size == taken * size) by (nonlinear_arith)
            requires
                before + 1 == taken,
        ;
        assert(0 <= before * size <= (count - 1) * size) by (nonlinear_arith)
            requires
                0 <= before <= count - 1,
                size >= 1,
        ;
        if taken < count {
            assert(taken * size <= (count - 1) * size) by (nonlinear_arith)
                requires
                    taken <= count - 1,
                    size >= 1,
            ;
            assert(chunks.take(taken).reverse().flatten() =~= items.subrange(
                len - taken * size,
                len,
            ));
        } else {
            assert(chunks.take(taken).reverse().flatten() =~= items);
        }
    }
}

/// Chunks from the back cover the items from right to left: put one before the other,
/// they are the items.
pub proof fn law_rchunks_cover<T>(items: Seq<T>, size: nat)
    requires
        items.len() >= 1,
        size >= 1,
    ensures
        rchunks_of(items, size).reverse().flatten() == items,
{
    let chunks = rchunks_of(items, size);
    lemma_rchunks_suffix(items, size, chunks.len() as int);
    assert(chunks.take(chunks.len() as int) =~= chunks);
}

/// Every exact chunk from the back holds exactly `size` items, and so is non-empty.
pub proof fn law_exact_rchunks_sizes<T>(items: Seq<T>, size: nat, index: int)
    requires
        size >= 1,
        0 <= index < exact_rchunks_of(items, size).len(),
    ensures
        exact_rchunks_of(items, size)[index].len() == size,
{
    let count = exact_chunk_count(items.len(), size) as int;
    lemma_exact_chunk_count(items.len(), size);
    assert(index * size + size <= count * size) by (nonlinear_arith)
        requires
            index + 1 <= count,
            size >= 1,
    ;
    assert(0 <= index * size) by (nonlinear_arith)
        requires
            0 <= index,
            size >= 1,
    ;
}

/// The first `taken` exact chunks from the back, in the order of the items, are the last
/// `taken * size` items.
proof fn lemma_exact_rchunks_suffix<T>(items: Seq<T>, size: nat, taken: int)
    requires
        size >= 1,
        0 <= taken <= exact_rchunks_of(items, size).len(),
    ensures
        taken * size <= items.len(),
        exact_rchunks_of(items, size).take(taken).reverse().flatten() == items.subrange(
            items.len() - taken * size,
            items.len() as int,
        ),
    decreases taken,
{
    let chunks = exact_rchunks_of(items, size);
    let count = chunks.len() as int;
    let len = items.len() as int;
    lemma_exact_chunk_count(items.len(), size);
    assert(0 <= taken * size <= count * size) by (nonlinear_arith)
        requires
            0 <= taken <= count,
            size >= 1,
    ;
    if taken == 0 {
        assert(chunks.take(0).reverse() =~= Seq::<Seq<T>>::empty());
        assert(chunks.take(0).reverse().flatten() =~= items.subrange(len, len));
        assert(0 * size == 0) by (nonlinear_arith);
    } else {
        let before = taken - 1;
        lemma_exact_rchunks_suffix(items, size, before);
        let head = seq![chunks[before]];
        let tail = chunks.take(before).reverse();
        assert(chunks.take(taken).reverse() =~= head + tail);
        vstd::seq_lib::lemma_flatten_concat(head, tail);
        head.lemma_flatten_one_element();
        assert(before * size + size == taken * size) by (nonlinear_arith)
            requires
                before + 1 == taken,
        ;
        assert(chunks.take(taken).reverse().flatten() =~= items.subrange(len - taken * size, len));
    }
}

/// Exact chunks from the back cover the items from right to left down to the last whole
/// chunk, and drop the shorter rest: put one before the other, they are the items without
/// the first `len % size` of them.
pub proof fn law_exact_rchunks_cover<T>(items: Seq<T>, size: nat)
    requires
        size >= 1,
    ensures
        exact_rchunks_of(items, size).reverse().flatten() == items.subrange(
            (items.len() as int) % (size as int),
            items.len() as int,
        ),
{
    let chunks = exact_rchunks_of(items, size);
    lemma_exact_chunk_count(items.len(), size);
    lemma_exact_rchunks_suffix(items, size, chunks.len() as int);
    assert(chunks.take(chunks.len() as int) =~= chunks);
}

/// Every window holds exactly `size` items, and so is non-empty, and starts one item
/// behind the window before it.
pub proof fn law_windows_sizes<T>(items: Seq<T>, size: nat, index: int)
    requires
        size >= 1,
        0 <= index < windows_of(items, size).len(),
    ensures
        windows_of(items, size)[index].len() == size,
        forall|offset: int|
            0 <= offset < size ==> windows_of(items, size)[index][offset] == items[index + offset],
{
}

/// There is one window for each item at which `size` items start, and none where the items
/// are fewer than `size`.
pub proof fn law_windows_count<T>(items: Seq<T>, size: nat)
    requires
        size >= 1,
    ensures
        windows_of(items, size).len() == window_count(items.len(), size),
        items.len() < size ==> windows_of(items, size).len() == 0,
        items.len() >= size ==> windows_of(items, size).len() == items.len() - size + 1,
{
}

/// The last remaining item is never popped: on a vector of one item `pop` returns
/// nothing and leaves the vector as it is.
pub proof fn law_pop_keeps_the_last_item<T>(
    before: NonEmptyVec<T>,
    after: NonEmptyVec<T>,
    value: Option<T>,
)
    requires
        before@.len() == 1,
        exists|vector: &mut NonEmptyVec<T>|
            *vector == before && *final(vector) == after && #[trigger] call_ensures(
                NonEmptyVec::<T>::pop,
                (vector,),
                value,
            ),
    ensures
        value is None,
        after@ == before@,
{
}

/// The last remaining item is never removed: on a vector of one item `remove` returns
/// nothing and leaves the vector as it is, whatever the index.
pub proof fn law_remove_keeps_the_last_item<T>(
    before: NonEmptyVec<T>,
    index: usize,
    after: NonEmptyVec<T>,
    value: Option<T>,
)
    requires
        before@.len() == 1,
        exists|vector: &mut NonEmptyVec<T>|
            *vector == before && *final(vector) == after && #[trigger] call_ensures(
                NonEmptyVec::<T>::remove,
                (vector, index),
                value,
            ),
    ensures
        value is None,
        after@ == before@,
{
}

/// The last remaining item is never removed: on a vector of one item `swap_remove` returns
/// nothing and leaves the vector as it is, whatever the index.
pub proof fn law_swap_remove_keeps_the_last_item<T>(
    before: NonEmptyVec<T>,
    index: usize,
    after: NonEmptyVec<T>,
    value: Option<T>,
)
    requires
        before@.len() == 1,
        exists|vector: &mut NonEmptyVec<T>|
            *vector == before && *final(vector) == after && #[trigger] call_ensures(
                NonEmptyVec::<T>::swap_remove,
                (vector, index),
                value,
            ),
    ensures
        value is None,
        after@ == before@,
{
}

/// On a vector of two items `pop` returns the second item and leaves the first.
pub proof fn law_pop_of_two_items<T>(
    before: NonEmptyVec<T>,
    after: NonEmptyVec<T>,
    value: Option<T>,
)
    requires
        before@.len() == 2,
        exists|vector: &mut NonEmptyVec<T>|
            *vector == before && *final(vector) == after && #[trigger] call_ensures(
                NonEmptyVec::<T>::pop,
                (vector,),
                value,
            ),
    ensures
        value == Some(before@[1]),
        after@ == seq![before@[0]],
{
    assert(before@.drop_last() =~= seq![before@[0]]);
}

/// On a vector of two items `remove` returns the item at the index and leaves the other.
pub proof fn law_remove_of_two_items<T>(
    before: NonEmptyVec<T>,
    index: usize,
    after: NonEmptyVec<T>,
    value: Option<T>,
)
    requires
        before@.len() == 2,
        index < 2,
        exists|vector: &mut NonEmptyVec<T>|
            *vector == before && *final(vector) == after && #[trigger] call_ensures(
                NonEmptyVec::<T>::remove,
                (vector, index),
                value,
            ),
    ensures
        value == Some(before@[index as int]),
        after@ == seq![before@[1 - index]],
{
    assert(before@.remove(index as int) =~= seq![before@[1 - index]]);
}

/// On a vector of two items `swap_remove` returns the item at the index and leaves
/// the other.
pub proof fn law_swap_remove_of_two_items<T>(
    before: NonEmptyVec<T>,
    index: usize,
    after: NonEmptyVec<T>,
    value: Option<T>,
)
    requires
        before@.len() == 2,
        index < 2,
        exists|vector: &mut NonEmptyVec<T>|
            *vector == before && *final(vector) == after && #[trigger] call_ensures(
                NonEmptyVec::<T>::swap_remove,
                (vector, index),
                value,
            ),
    ensures
        value == Some(before@[index as int]),
        after@ == seq![before@[1 - index]],
{
    assert(before@.update(index as int, before@.last()).drop_last() =~= seq![
        before@[1 - index],
    ]);
}

/// Mutable access makes a clone-on-write slice own its items: whatever it was before,
/// afterwards it is owned, and what was borrowed has been cloned, item by item.
pub proof fn law_mutable_access_owns<'a, T: Clone>(
    before: NonEmptyCowSlice<'a, T>,
    after: NonEmptyCowSlice<'a, T>,
)
    requires
        before.inv(),
        exists|cow: &mut NonEmptyCowSlice<'a, T>, owned: &mut NonEmptyVec<T>|
            *cow == before && *final(cow) == after && *final(owned) == *owned
                && #[trigger] call_ensures(NonEmptyCowSlice::<'a, T>::to_mut, (cow,), owned),
    ensures
        after is Owned,
        after.inv(),
        before is Owned ==> after == before,
        before is Borrowed ==> cloned_items(before@, after@),
{
}

} // verus!
