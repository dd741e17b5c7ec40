use non_empty_slice::boxed::EMPTY_BOXED;
use non_empty_slice::empty::EMPTY;
use non_empty_slice::owned::EMPTY_OWNED;
use non_empty_slice::size::NON_ZERO;
use non_empty_slice::slice::EMPTY_SLICE;
use non_empty_slice::vec::EMPTY_VEC;
use non_empty_slice::{
    Empty, EmptySlice, NonEmptyBytes, NonEmptySlice, NonEmptyVec, OwnedBytes, OwnedSlice, Size,
};

#[test]
fn size_rejects_zero() {
    assert!(Size::new(0).is_none());
}

#[test]
fn size_keeps_the_value() {
    assert_eq!(Size::new(13).unwrap().get(), 13);
    assert_eq!(Size::new(usize::MAX).unwrap().get(), usize::MAX);
    assert_eq!(Size::new_unchecked(42).get(), 42);
    assert_eq!(Size::min().get(), 1);
}

#[test]
fn size_orders_by_value() {
    assert!(Size::new(1).unwrap() < Size::new(2).unwrap());
    assert_eq!(Size::new(3).unwrap(), Size::new(3).unwrap());
    assert_eq!(Size::min(), Size::new(1).unwrap());
}

#[test]
fn messages_name_what_is_empty() {
    assert_eq!(NON_ZERO, "expected non-zero size");
    assert_eq!(EMPTY, "the slice is empty");
    assert_eq!(EMPTY_SLICE, "the slice is empty");
    assert_eq!(EMPTY_VEC, "the vector is empty");
    assert_eq!(EMPTY_BOXED, "the boxed slice is empty");
    assert_eq!(EMPTY_OWNED, "the owned slice is empty");
    assert_eq!(Empty.message(), EMPTY);
    assert_eq!(EmptySlice.message(), EMPTY_SLICE);
}

#[test]
fn slice_round_trip() {
    let array = [1, 2, 3];
    let non_empty = NonEmptySlice::try_from_slice(&array).unwrap();
    assert_eq!(non_empty.as_slice(), &array);
    assert!(std::ptr::eq(non_empty.as_slice(), &array[..]));
}

#[test]
fn slice_round_trip_of_single_item() {
    let array = [7];
    let non_empty = NonEmptySlice::from_slice(&array).unwrap();
    assert_eq!(non_empty.as_slice(), &[7]);
    assert_eq!(non_empty.len().get(), 1);
}

#[test]
fn empty_slice_is_rejected() {
    let empty: [u8; 0] = [];
    assert_eq!(NonEmptyBytes::try_from_slice(&empty), Err(EmptySlice));
    assert_eq!(NonEmptyBytes::try_new(&empty), Err(EmptySlice));
    assert!(NonEmptyBytes::from_slice(&empty).is_none());
    assert!(NonEmptyBytes::new(&empty).is_none());
}

#[test]
fn unchecked_slice_constructors_wrap_the_slice() {
    let array = [1, 2];
    assert_eq!(NonEmptySlice::new_unchecked(&array).as_slice(), &array);
    assert_eq!(NonEmptySlice::from_slice_unchecked(&array).as_slice(), &array);
    assert_eq!(NonEmptySlice::new(&array).unwrap().as_slice(), &array);
    assert_eq!(NonEmptySlice::try_new(&array).unwrap().as_slice(), &array);
}

#[test]
fn mutable_slice_round_trip() {
    let mut array = [1, 2, 3];
    let mut non_empty = NonEmptySlice::try_from_mut_slice(&mut array).unwrap();
    assert_eq!(non_empty.as_slice(), &[1, 2, 3]);
    non_empty.as_mut_slice()[1] = 20;
    assert_eq!(non_empty.into_mut_slice(), &mut [1, 20, 3]);
    assert_eq!(array, [1, 20, 3]);
}

#[test]
fn empty_mutable_slice_is_rejected() {
    let mut empty: [u8; 0] = [];
    assert!(matches!(NonEmptySlice::try_from_mut_slice(&mut empty), Err(EmptySlice)));
    assert!(matches!(NonEmptySlice::try_new_mut(&mut empty), Err(EmptySlice)));
    assert!(NonEmptySlice::from_mut_slice(&mut empty).is_none());
    assert!(NonEmptySlice::new_mut(&mut empty).is_none());
}

#[test]
fn unchecked_mutable_slice_constructors_wrap_the_slice() {
    let mut array = [1, 2];
    assert_eq!(NonEmptySlice::new_unchecked_mut(&mut array).as_slice(), &[1, 2]);
    assert_eq!(NonEmptySlice::from_mut_slice_unchecked(&mut array).as_slice(), &[1, 2]);
    assert_eq!(NonEmptySlice::new_mut(&mut array).unwrap().as_slice(), &[1, 2]);
    assert_eq!(NonEmptySlice::try_new_mut(&mut array).unwrap().as_slice(), &[1, 2]);
}

#[test]
fn vec_round_trip() {
    let vector = vec![1, 2, 3];
    let pointer = vector.as_ptr();
    let non_empty = NonEmptyVec::new(vector).unwrap();
    let plain = non_empty.into_vec();
    assert_eq!(plain, vec![1, 2, 3]);
    assert_eq!(plain.as_ptr(), pointer);
}

#[test]
fn empty_vec_is_handed_back() {
    let empty: Vec<u8> = Vec::with_capacity(8);
    let pointer = empty.as_ptr();
    let error = NonEmptyVec::new(empty).unwrap_err();
    assert_eq!(error.message(), EMPTY_VEC);
    let recovered = error.get();
    assert!(recovered.is_empty());
    assert_eq!(recovered.as_ptr(), pointer);
    assert_eq!(recovered.capacity(), 8);
}

#[test]
fn boxed_round_trip() {
    let boxed: Box<[u8]> = vec![1, 2, 3].into_boxed_slice();
    let pointer = boxed.as_ptr();
    let non_empty = NonEmptySlice::from_boxed_slice(boxed).unwrap();
    assert_eq!(non_empty.len().get(), 3);
    let plain = non_empty.into_boxed_slice();
    assert_eq!(&*plain, &[1, 2, 3]);
    assert_eq!(plain.as_ptr(), pointer);
}

#[test]
fn empty_boxed_slice_is_handed_back() {
    let empty: Box<[u8]> = Vec::new().into_boxed_slice();
    let error = NonEmptySlice::from_boxed_slice(empty).unwrap_err();
    assert_eq!(error.message(), EMPTY_BOXED);
    assert!(error.get().is_empty());
}

#[test]
fn unchecked_boxed_constructor_wraps_the_boxed_slice() {
    let boxed: Box<[u8]> = vec![4, 5].into_boxed_slice();
    let non_empty = NonEmptySlice::from_boxed_slice_unchecked(boxed);
    assert_eq!(non_empty.as_slice(), &[4, 5]);
}

#[test]
fn owned_round_trip() {
    let owned = OwnedSlice::new(vec![1, 2, 3]).unwrap();
    assert_eq!(owned.as_owned(), &vec![1, 2, 3]);
    assert_eq!(owned.as_slice().as_slice(), &[1, 2, 3]);
    assert_eq!(owned.get(), vec![1, 2, 3]);
}

#[test]
fn empty_owned_is_handed_back() {
    let error = OwnedBytes::new(Vec::new()).unwrap_err();
    assert_eq!(error.message(), EMPTY_OWNED);
    assert!(error.get().is_empty());
}

#[test]
fn owned_from_slice_clones_the_items() {
    let nekit = NonEmptyBytes::from_slice(b"nekit").unwrap();
    let owned = OwnedBytes::from_slice(nekit);
    assert_eq!(owned.as_owned().as_slice(), b"nekit");
    assert_eq!(OwnedSlice::new_unchecked(vec![9]).get(), vec![9]);
    assert_eq!(owned.clone(), owned);
}

#[test]
fn empty_errors_convert_into_each_other() {
    let empty_vec = NonEmptyVec::<u8>::new(Vec::new()).unwrap_err();
    let empty_boxed = empty_vec.into_empty_boxed_slice();
    assert!(empty_boxed.into_empty_vec().get().is_empty());

    let from_boxed = NonEmptySlice::<u8>::from_boxed_slice(Vec::new().into_boxed_slice());
    let empty_vec = non_empty_slice::EmptyVec::from_empty_boxed_slice(from_boxed.unwrap_err());
    let empty_boxed = non_empty_slice::EmptyBoxedSlice::from_empty_vec(empty_vec);
    assert!(empty_boxed.get().is_empty());
}
