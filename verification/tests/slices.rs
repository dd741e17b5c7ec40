use non_empty_slice::{NonEmptySlice, Size};

fn size(value: usize) -> Size {
    Size::new(value).unwrap()
}

#[test]
fn first_and_last_are_total() {
    let array = [1, 2, 3];
    let slice = NonEmptySlice::from_slice(&array).unwrap();
    assert_eq!(*slice.first(), 1);
    assert_eq!(*slice.last(), 3);
    let single = [7];
    let slice = NonEmptySlice::from_slice(&single).unwrap();
    assert_eq!(*slice.first(), 7);
    assert_eq!(*slice.last(), 7);
}

#[test]
fn split_first_and_last() {
    let array = [1, 2, 3];
    let slice = NonEmptySlice::from_slice(&array).unwrap();
    assert_eq!(slice.split_first(), (&1, &[2, 3][..]));
    assert_eq!(slice.split_last(), (&3, &[1, 2][..]));
    let single = [7];
    let slice = NonEmptySlice::from_slice(&single).unwrap();
    assert_eq!(slice.split_first(), (&7, &[][..]));
    assert_eq!(slice.split_last(), (&7, &[][..]));
}

#[test]
fn len_is_the_number_of_items() {
    let array = [1, 2, 3];
    let slice = NonEmptySlice::from_slice(&array).unwrap();
    assert_eq!(slice.len(), size(3));
    assert!(!slice.is_empty());
    assert_eq!(slice.iter().sum::<i32>(), 6);
}

#[test]
fn first_chunks_are_arrays() {
    let array = [1, 2, 3];
    let slice = NonEmptySlice::from_slice(&array).unwrap();
    assert_eq!(slice.first_chunk::<2>(), Some(&[1, 2]));
    assert_eq!(slice.first_chunk::<3>(), Some(&[1, 2, 3]));
    assert_eq!(slice.first_chunk::<4>(), None);
    assert_eq!(slice.first_chunk::<0>(), Some(&[]));
    assert_eq!(slice.split_first_chunk::<2>(), Some((&[1, 2], &[3][..])));
    assert_eq!(slice.split_first_chunk::<4>(), None);
}

#[test]
fn last_chunks_are_arrays() {
    let array = [1, 2, 3];
    let slice = NonEmptySlice::from_slice(&array).unwrap();
    assert_eq!(slice.last_chunk::<2>(), Some(&[2, 3]));
    assert_eq!(slice.last_chunk::<3>(), Some(&[1, 2, 3]));
    assert_eq!(slice.last_chunk::<4>(), None);
    assert_eq!(slice.split_last_chunk::<2>(), Some((&[1][..], &[2, 3])));
    assert_eq!(slice.split_last_chunk::<4>(), None);
}

#[test]
fn as_array_takes_the_exact_length() {
    let array = [1, 2, 3];
    let slice = NonEmptySlice::from_slice(&array).unwrap();
    assert_eq!(slice.as_array::<3>(), Some(&[1, 2, 3]));
    assert_eq!(slice.as_array::<2>(), None);
    assert_eq!(slice.as_array::<4>(), None);
}

#[test]
fn as_chunks_cuts_into_arrays() {
    let array = [1, 2, 3, 4, 5];
    let slice = NonEmptySlice::from_slice(&array).unwrap();
    assert_eq!(slice.as_chunks::<2>(), (&[[1, 2], [3, 4]][..], &[5][..]));
    assert_eq!(slice.as_rchunks::<2>(), (&[1][..], &[[2, 3], [4, 5]][..]));
    assert_eq!(slice.as_chunks::<5>(), (&[[1, 2, 3, 4, 5]][..], &[][..]));
    assert_eq!(slice.as_chunks::<7>().0.len(), 0);
    let even = [1, 2, 3, 4];
    let slice = NonEmptySlice::from_slice(&even).unwrap();
    assert_eq!(slice.as_chunks_unchecked::<2>(), &[[1, 2], [3, 4]]);
}

#[test]
fn split_at_keeps_the_left_part_non_empty() {
    let array = [1, 2, 3];
    let slice = NonEmptySlice::from_slice(&array).unwrap();
    let (left, right) = slice.split_at(size(1));
    assert_eq!(left.as_slice(), &[1]);
    assert_eq!(right, &[2, 3]);
    let (left, right) = slice.split_at_unchecked(size(3));
    assert_eq!(left.as_slice(), &[1, 2, 3]);
    assert!(right.is_empty());
}

#[test]
fn split_at_checked_refuses_what_is_out_of_bounds() {
    let array = [1, 2, 3];
    let slice = NonEmptySlice::from_slice(&array).unwrap();
    let (left, right) = slice.split_at_checked(size(2)).unwrap();
    assert_eq!(left.as_slice(), &[1, 2]);
    assert_eq!(right, &[3]);
    assert!(slice.split_at_checked(size(3)).is_some());
    assert!(slice.split_at_checked(size(4)).is_none());
}

#[test]
fn views_are_copied_freely() {
    let array = [1, 2, 3];
    let slice = NonEmptySlice::from_slice(&array).unwrap();
    let copy = slice;
    assert_eq!(copy, slice);
    assert_eq!(copy.clone(), slice);
    let other = [1, 2, 4];
    assert!(slice < NonEmptySlice::from_slice(&other).unwrap());
}

#[test]
fn mutable_views_write_through() {
    let mut array = [1, 2, 3];
    let mut view = NonEmptySlice::from_mut_slice(&mut array).unwrap();
    assert_eq!(view.len(), size(3));
    assert!(!view.is_empty());
    *view.first_mut() = 10;
    *view.last_mut() = 30;
    assert_eq!(view.as_non_empty_slice().as_slice(), &[10, 2, 30]);
    assert_eq!(array, [10, 2, 30]);
}

#[test]
fn swap_exchanges_two_items() {
    let mut array = [1, 2, 3];
    let mut view = NonEmptySlice::from_mut_slice(&mut array).unwrap();
    view.swap(0, 2);
    assert_eq!(view.as_slice(), &[3, 2, 1]);
    view.swap(1, 1);
    assert_eq!(array, [3, 2, 1]);
}

#[test]
fn reverse_turns_the_items_around() {
    let mut odd = [1, 2, 3];
    NonEmptySlice::from_mut_slice(&mut odd).unwrap().reverse();
    assert_eq!(odd, [3, 2, 1]);
    let mut even = [1, 2, 3, 4];
    NonEmptySlice::from_mut_slice(&mut even).unwrap().reverse();
    assert_eq!(even, [4, 3, 2, 1]);
    let mut single = [1];
    NonEmptySlice::from_mut_slice(&mut single).unwrap().reverse();
    assert_eq!(single, [1]);
}

#[test]
fn split_first_mut_and_last_mut_write_through() {
    let mut array = [1, 2, 3];
    let mut view = NonEmptySlice::from_mut_slice(&mut array).unwrap();
    let (first, rest) = view.split_first_mut();
    *first = 10;
    rest[1] = 30;
    let (last, rest) = view.split_last_mut();
    *last += 1;
    rest[0] += 1;
    assert_eq!(array, [11, 2, 31]);
}

#[test]
fn split_at_mut_writes_through() {
    let mut array = [1, 2, 3];
    let mut view = NonEmptySlice::from_mut_slice(&mut array).unwrap();
    let (mut left, right) = view.split_at_mut(size(2));
    *left.last_mut() = 20;
    right[0] = 30;
    let (mut left, right) = view.split_at_mut_unchecked(size(3));
    *left.first_mut() = 10;
    assert!(right.is_empty());
    assert!(view.split_at_mut_checked(size(4)).is_none());
    let (left, _) = view.split_at_mut_checked(size(1)).unwrap();
    assert_eq!(left.as_slice(), &[10]);
    assert_eq!(array, [10, 20, 30]);
}

#[test]
fn clone_from_non_empty_slice_clones_into_place() {
    let source = [String::from("a"), String::from("b")];
    let mut target = [String::new(), String::new()];
    let mut view = NonEmptySlice::from_mut_slice(&mut target).unwrap();
    view.clone_from_non_empty_slice(NonEmptySlice::from_slice(&source).unwrap());
    assert_eq!(target, source);
}

#[test]
fn reborrowed_views_write_through() {
    let mut array = [1, 2];
    let mut view = NonEmptySlice::from_mut_slice(&mut array).unwrap();
    {
        let mut again = view.as_non_empty_mut_slice();
        *again.first_mut() = 10;
    }
    *view.last_mut() = 20;
    assert_eq!(array, [10, 20]);
}

#[test]
fn iter_mut_writes_through() {
    let mut array = [1, 2, 3];
    let mut view = NonEmptySlice::from_mut_slice(&mut array).unwrap();
    for item in view.iter_mut() {
        *item *= 10;
    }
    assert_eq!(array, [10, 20, 30]);
}

#[test]
fn mutable_first_chunks_write_through() {
    let mut array = [1, 2, 3];
    let mut view = NonEmptySlice::from_mut_slice(&mut array).unwrap();
    view.first_chunk_mut::<2>().unwrap()[1] = 20;
    assert!(view.first_chunk_mut::<4>().is_none());
    let (head, rest) = view.split_first_chunk_mut::<1>().unwrap();
    head[0] = 10;
    rest[1] = 30;
    assert!(view.split_first_chunk_mut::<4>().is_none());
    assert_eq!(array, [10, 20, 30]);
}

#[test]
fn mutable_last_chunks_write_through() {
    let mut array = [1, 2, 3];
    let mut view = NonEmptySlice::from_mut_slice(&mut array).unwrap();
    view.last_chunk_mut::<2>().unwrap()[0] = 20;
    assert!(view.last_chunk_mut::<4>().is_none());
    let (rest, tail) = view.split_last_chunk_mut::<1>().unwrap();
    rest[0] = 10;
    tail[0] = 30;
    assert!(view.split_last_chunk_mut::<4>().is_none());
    assert_eq!(array, [10, 20, 30]);
}

#[test]
fn as_mut_array_takes_the_exact_length() {
    let mut array = [1, 2, 3];
    let mut view = NonEmptySlice::from_mut_slice(&mut array).unwrap();
    assert!(view.as_mut_array::<2>().is_none());
    assert!(view.as_mut_array::<4>().is_none());
    view.as_mut_array::<3>().unwrap()[2] = 30;
    assert_eq!(array, [1, 2, 30]);
}

#[test]
fn as_chunks_mut_cuts_into_mutable_arrays() {
    let mut array = [1, 2, 3, 4, 5];
    let mut view = NonEmptySlice::from_mut_slice(&mut array).unwrap();
    let (chunks, rest) = view.as_chunks_mut::<2>();
    chunks[1][0] = 30;
    rest[0] = 50;
    let (rest, chunks) = view.as_rchunks_mut::<2>();
    rest[0] = 10;
    chunks[0][0] = 20;
    assert_eq!(array, [10, 20, 30, 4, 50]);
}

#[test]
fn as_chunks_unchecked_mut_cuts_without_remainder() {
    let mut array = [1, 2, 3, 4];
    let mut view = NonEmptySlice::from_mut_slice(&mut array).unwrap();
    let chunks = view.as_chunks_unchecked_mut::<2>();
    chunks[1][1] = 40;
    assert_eq!(array, [1, 2, 3, 40]);
}
