//! Contracts for the functions of the standard library that this crate calls
//! and that `vstd` leaves without one.
//!
//! Nothing here is proved: each item states what the documentation of the
//! function promises, and the rest of the crate is verified against that.

use vstd::layout::size_of;
use vstd::prelude::*;

use core::hash::{Hash, Hasher};
use core::mem::MaybeUninit;
use core::slice::IterMut;

use std::collections::TryReserveError;

verus! {

/// `core::slice::IterMut`, the iterator that `<[E]>::iter_mut` returns.
#[verifier::external_type_specification]
#[verifier::external_body]
#[verifier::reject_recursive_types(Item)]
pub struct ExIterMut<'a, Item: 'a>(IterMut<'a, Item>);

/// `Vec::capacity`: the number of items that the vector can hold without
/// reallocating, which is never below its length.
#[verifier::external_body]
pub(crate) fn vec_capacity<T>(vec: &Vec<T>) -> (capacity: usize)
    ensures
        capacity >= vec@.len(),
{
    vec.capacity()
}

/// `Vec::reserve_exact`: makes room for more items and leaves the items as they are.
/// It panics when the number of items to make room for is more than `usize::MAX`, or
/// their room more than `isize::MAX` bytes.
#[verifier::external_body]
pub(crate) fn vec_reserve_exact<T>(vec: &mut Vec<T>, additional: usize)
    requires
        old(vec)@.len() + additional <= usize::MAX,
        (old(vec)@.len() + additional) * size_of::<T>() <= isize::MAX,
    ensures
        final(vec)@ == old(vec)@,
{
    vec.reserve_exact(additional);
}

/// `Vec::try_reserve_exact`: tries to make room for more items and leaves
/// the items as they are, whether or not it succeeds. Where it succeeds there is room
/// for all the items, so it fails where the number of items to make room for is more
/// than `usize::MAX`, or their room more than `isize::MAX` bytes. Where there is no
/// such overflow the allocator decides.
#[verifier::external_body]
pub(crate) fn vec_try_reserve_exact<T>(vec: &mut Vec<T>, additional: usize) -> (result: Result<
    (),
    TryReserveError,
>)
    ensures
        final(vec)@ == old(vec)@,
        old(vec)@.len() + additional > usize::MAX ==> result is Err,
        (old(vec)@.len() + additional) * size_of::<T>() > isize::MAX ==> result is Err,
{
    vec.try_reserve_exact(additional)
}

/// `Vec::shrink_to_fit`: gives up spare capacity and leaves the items as they are.
#[verifier::external_body]
pub(crate) fn vec_shrink_to_fit<T>(vec: &mut Vec<T>)
    ensures
        final(vec)@ == old(vec)@,
{
    vec.shrink_to_fit();
}

/// `Vec::shrink_to`: gives up spare capacity down to a lower bound and leaves
/// the items as they are.
#[verifier::external_body]
pub(crate) fn vec_shrink_to<T>(vec: &mut Vec<T>, capacity: usize)
    ensures
        final(vec)@ == old(vec)@,
{
    vec.shrink_to(capacity);
}

/// `Vec::leak`: gives the items of the vector out as a mutable slice that is
/// never freed.
#[verifier::external_body]
pub(crate) fn vec_leak<'a, T>(vec: Vec<T>) -> (slice: &'a mut [T])
    ensures
        slice@ == vec@,
{
    vec.leak()
}

/// `Vec::spare_capacity_mut`: the allocated room behind the items. Writing to
/// it changes none of the items.
#[verifier::external_body]
pub(crate) fn vec_spare_capacity_mut<T>(vec: &mut Vec<T>) -> (spare: &mut [MaybeUninit<T>])
    ensures
        final(vec)@ == old(vec)@,
{
    vec.spare_capacity_mut()
}

/// `Box::new_uninit_slice`: a boxed slice of `len` items that are not initialized.
/// It panics when the items take more than `isize::MAX` bytes.
#[verifier::external_body]
pub(crate) fn box_new_uninit_slice<T>(len: usize) -> (boxed: Box<[MaybeUninit<T>]>)
    requires
        len * size_of::<MaybeUninit<T>>() <= isize::MAX,
    ensures
        boxed@.len() == len,
{
    Box::new_uninit_slice(len)
}

/// `Vec::into_boxed_slice`: the items of the vector, in their order, as a boxed slice.
#[verifier::external_body]
pub(crate) fn vec_into_boxed_slice<T>(vec: Vec<T>) -> (boxed: Box<[T]>)
    ensures
        boxed@ == vec@,
{
    vec.into_boxed_slice()
}

/// `<[E]>::swap`: exchanges the items at the two indices and leaves every
/// other item as it is. It panics when an index is out of bounds.
pub assume_specification<E>[ <[E]>::swap ](slice: &mut [E], a: usize, b: usize)
    requires
        a < old(slice)@.len(),
        b < old(slice)@.len(),
    ensures
        final(slice)@ == old(slice)@.update(a as int, old(slice)@[b as int]).update(
            b as int,
            old(slice)@[a as int],
        ),
;

/// `<[E] as Hash>::hash`: feeds the slice into the hasher. Nothing is claimed of what
/// the hasher then holds.
pub assume_specification<E: Hash, Sink: Hasher>[ <[E] as Hash>::hash ](
    slice: &[E],
    state: &mut Sink,
)
;

/// `<[E]>::first_chunk`: the first `N` items as an array, or nothing when
/// the slice holds fewer than `N` items.
pub assume_specification<E, const N: usize>[ <[E]>::first_chunk::<N> ](slice: &[E]) -> (chunk:
    Option<&[E; N]>)
    ensures
        chunk is Some <==> N <= slice@.len(),
        chunk matches Some(array) ==> array@ == slice@.subrange(0, N as int),
;

/// `<[E]>::first_chunk_mut`: the first `N` items as a mutable array, or nothing when
/// the slice holds fewer than `N` items. What is written to the array is written to
/// the first `N` items; the other items stay.
pub assume_specification<E, const N: usize>[ <[E]>::first_chunk_mut::<N> ](
    slice: &mut [E],
) -> (chunk: Option<&mut [E; N]>)
    ensures
        chunk is Some <==> N <= old(slice)@.len(),
        chunk is None ==> final(slice)@ == old(slice)@,
        chunk is Some ==> chunk.unwrap()@ == old(slice)@.subrange(0, N as int) && final(slice)@
            == final(chunk.unwrap())@ + old(slice)@.subrange(N as int, old(slice)@.len() as int),
;

/// `<[E]>::iter_mut`: an iterator over the items that allows changing each of them.
/// The number of items stays.
pub assume_specification<'a, E>[ <[E]>::iter_mut ](slice: &'a mut [E]) -> (iter: IterMut<'a, E>)
    ensures
        final(slice)@.len() == old(slice)@.len(),
;

/// `<[E]>::as_chunks`: the slice cut into arrays of `N` items from the front,
/// and the items that are left over, fewer than `N`. It panics when `N` is zero.
pub assume_specification<E, const N: usize>[ <[E]>::as_chunks::<N> ](slice: &[E]) -> (parts: (
    &[[E; N]],
    &[E],
))
    requires
        N != 0,
    ensures
        parts.0@.len() == (slice@.len() as int) / (N as int),
        forall|i: int|
            0 <= i < parts.0@.len() ==> (#[trigger] parts.0@[i])@ == slice@.subrange(
                i * N,
                i * N + N,
            ),
        parts.1@ == slice@.subrange(
            slice@.len() - (slice@.len() as int) % (N as int),
            slice@.len() as int,
        ),
;

/// `<[E]>::as_chunks_mut`: as `as_chunks`, with mutable parts. What is written to
/// the parts is written to the slice: in the end the slice holds what the arrays hold,
/// one behind the other, and then what the rest holds. It panics when `N` is zero.
pub assume_specification<E, const N: usize>[ <[E]>::as_chunks_mut::<N> ](slice: &mut [E]) -> (parts:
    (&mut [[E; N]], &mut [E]))
    requires
        N != 0,
    ensures
        parts.0@.len() == (old(slice)@.len() as int) / (N as int),
        forall|i: int|
            0 <= i < parts.0@.len() ==> (#[trigger] parts.0@[i])@ == old(slice)@.subrange(
                i * N,
                i * N + N,
            ),
        parts.1@ == old(slice)@.subrange(
            old(slice)@.len() - (old(slice)@.len() as int) % (N as int),
            old(slice)@.len() as int,
        ),
        final(slice)@ == final(parts.0)@.map_values(|array: [E; N]| array@).flatten()
            + final(parts.1)@,
;

/// `<[E]>::as_rchunks_mut`: as `as_rchunks`, with mutable parts. What is written to
/// the parts is written to the slice: in the end the slice holds what the rest holds,
/// and then what the arrays hold, one behind the other. It panics when `N` is zero.
pub assume_specification<E, const N: usize>[ <[E]>::as_rchunks_mut::<N> ](
    slice: &mut [E],
) -> (parts: (&mut [E], &mut [[E; N]]))
    requires
        N != 0,
    ensures
        parts.0@ == old(slice)@.subrange(0, (old(slice)@.len() as int) % (N as int)),
        parts.1@.len() == (old(slice)@.len() as int) / (N as int),
        forall|i: int|
            0 <= i < parts.1@.len() ==> (#[trigger] parts.1@[i])@ == old(slice)@.subrange(
                (old(slice)@.len() as int) % (N as int) + i * N,
                (old(slice)@.len() as int) % (N as int) + i * N + N,
            ),
        final(slice)@ == final(parts.0)@ + final(parts.1)@.map_values(
            |array: [E; N]| array@,
        ).flatten(),
;

/// `<[E]>::as_rchunks`: the slice cut into arrays of `N` items from the back,
/// and the items that are left over at the front, fewer than `N`. It panics
/// when `N` is zero.
pub assume_specification<E, const N: usize>[ <[E]>::as_rchunks::<N> ](slice: &[E]) -> (parts: (
    &[E],
    &[[E; N]],
))
    requires
        N != 0,
    ensures
        parts.0@ == slice@.subrange(0, (slice@.len() as int) % (N as int)),
        parts.1@.len() == (slice@.len() as int) / (N as int),
        forall|i: int|
            0 <= i < parts.1@.len() ==> (#[trigger] parts.1@[i])@ == slice@.subrange(
                (slice@.len() as int) % (N as int) + i * N,
                (slice@.len() as int) % (N as int) + i * N + N,
            ),
;

} // verus!
