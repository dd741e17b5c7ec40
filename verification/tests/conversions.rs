use non_empty_slice::{
    NonEmptyBoxedBytes, NonEmptyBoxedSlice, NonEmptyCowSlice, NonEmptySlice, NonEmptyVec,
};

#[test]
fn boxed_to_vec_and_back_with_single_item() {
    let boxed = NonEmptySlice::from_boxed_slice(vec![13].into_boxed_slice()).unwrap();
    let vector = boxed.into_non_empty_vec();
    assert_eq!(vector.as_slice(), &[13]);
    let back = vector.into_non_empty_boxed_slice();
    assert_eq!(back.as_slice(), &[13]);
}

#[test]
fn boxed_to_vec_and_back_with_many_items() {
    let items: Vec<u32> = (1..=100).collect();
    let boxed = NonEmptySlice::from_boxed_slice(items.clone().into_boxed_slice()).unwrap();
    let vector = boxed.into_non_empty_vec();
    assert_eq!(vector.as_slice(), items.as_slice());
    let back = vector.into_non_empty_boxed_slice();
    assert_eq!(back.as_slice(), items.as_slice());
}

#[test]
fn vec_to_boxed_and_back_with_single_item() {
    let vector = NonEmptyVec::single(13);
    let boxed = NonEmptySlice::from_non_empty_vec(vector);
    assert_eq!(boxed.as_slice(), &[13]);
    let back = NonEmptyVec::from_non_empty_boxed_slice(boxed);
    assert_eq!(back.as_slice(), &[13]);
}

#[test]
fn vec_to_boxed_and_back_with_many_items() {
    let items: Vec<u32> = (1..=100).collect();
    let vector = NonEmptyVec::new(items.clone()).unwrap();
    let boxed = vector.into_non_empty_boxed_slice();
    assert_eq!(boxed.as_slice(), items.as_slice());
    let back = boxed.into_non_empty_vec();
    assert_eq!(back.into_vec(), items);
}

#[test]
fn vec_into_boxed_slice_gives_up_spare_capacity() {
    let capacity = non_empty_slice::Size::new(64).unwrap();
    let mut vector = NonEmptyVec::with_capacity_and_value(capacity, 1);
    vector.push(2);
    let boxed: Box<[i32]> = vector.into_boxed_slice();
    assert_eq!(&*boxed, &[1, 2]);
}

#[test]
fn boxed_views() {
    let mut boxed = NonEmptySlice::from_boxed_slice(vec![1, 2, 3].into_boxed_slice()).unwrap();
    assert!(!boxed.is_empty());
    assert_eq!(boxed.len().get(), 3);
    assert_eq!(*boxed.as_non_empty_slice().last(), 3);
    boxed.as_mut_slice()[0] = 10;
    *boxed.as_non_empty_mut_slice().last_mut() = 30;
    assert_eq!(boxed.as_slice(), &[10, 2, 30]);
    assert_eq!(boxed.into_vec(), vec![10, 2, 30]);
}

#[test]
fn boxed_clone_copies_the_items() {
    let boxed = NonEmptySlice::from_boxed_slice(vec![1, 2, 3].into_boxed_slice()).unwrap();
    let copy = boxed.clone();
    assert_eq!(copy, boxed);
    let nekit = NonEmptySlice::from_slice(b"nekit").unwrap();
    let owned: NonEmptyBoxedBytes = NonEmptyBoxedSlice::from_non_empty_slice(nekit);
    assert_eq!(owned.as_slice(), b"nekit");
}

#[test]
fn boxed_clone_from_of_the_same_length_clones_into_place() {
    let source = NonEmptySlice::from_boxed_slice(vec![1, 2, 3].into_boxed_slice()).unwrap();
    let mut target = NonEmptySlice::from_boxed_slice(vec![0, 0, 0].into_boxed_slice()).unwrap();
    let pointer = target.as_slice().as_ptr();
    target.clone_from(&source);
    assert_eq!(target, source);
    assert_eq!(target.as_slice().as_ptr(), pointer);
}

#[test]
fn boxed_clone_from_of_another_length_replaces() {
    let source = NonEmptySlice::from_boxed_slice(vec![1, 2, 3].into_boxed_slice()).unwrap();
    let mut target = NonEmptySlice::from_boxed_slice(vec![0].into_boxed_slice()).unwrap();
    target.clone_from(&source);
    assert_eq!(target, source);
}

#[test]
fn cow_stays_borrowed_while_it_is_read() {
    let array = [1, 2, 3];
    let slice = NonEmptySlice::from_slice(&array).unwrap();
    let cow = NonEmptyCowSlice::from_non_empty_slice(slice);
    assert!(cow.is_borrowed());
    assert_eq!(cow.as_non_empty_slice().as_slice(), &[1, 2, 3]);
    assert_eq!(cow.as_slice(), &[1, 2, 3]);
    assert!(std::ptr::eq(cow.as_slice(), &array[..]));
    assert!(cow.is_borrowed());
    assert!(!cow.is_owned());
}

#[test]
fn cow_is_promoted_on_mutable_access() {
    let array = [1, 2, 3];
    let slice = NonEmptySlice::from_slice(&array).unwrap();
    let mut cow = NonEmptyCowSlice::from_non_empty_slice(slice);
    cow.to_mut().push(4);
    assert!(cow.is_owned());
    assert_eq!(cow.as_slice(), &[1, 2, 3, 4]);
    assert_eq!(array, [1, 2, 3]);
    assert_eq!(slice.as_slice(), &[1, 2, 3]);

    let pointer = cow.as_slice().as_ptr();
    *cow.to_mut().as_non_empty_mut_slice().first_mut() = 10;
    assert_eq!(cow.as_slice(), &[10, 2, 3, 4]);
    assert_eq!(cow.as_slice().as_ptr(), pointer);
}

#[test]
fn cow_that_owns_is_not_cloned() {
    let vector = NonEmptyVec::new(vec![1, 2]).unwrap();
    let pointer = vector.as_slice().as_ptr();
    let mut cow = NonEmptyCowSlice::from_non_empty_vec(vector);
    assert!(cow.is_owned());
    assert_eq!(cow.to_mut().as_slice().as_ptr(), pointer);
    assert_eq!(cow.into_owned().as_slice().as_ptr(), pointer);
}

#[test]
fn cow_compares_by_items() {
    let array = [1, 2, 3];
    let slice = NonEmptySlice::from_slice(&array).unwrap();
    let borrowed = NonEmptyCowSlice::from_non_empty_slice(slice);
    let owned = NonEmptyCowSlice::from_non_empty_vec(NonEmptyVec::new(vec![1, 2, 3]).unwrap());
    let other = NonEmptyCowSlice::from_non_empty_vec(NonEmptyVec::new(vec![1, 2]).unwrap());
    let differs = NonEmptyCowSlice::from_non_empty_vec(NonEmptyVec::new(vec![1, 2, 4]).unwrap());
    assert!(borrowed == owned);
    assert!(owned == borrowed);
    assert!(borrowed != other);
    assert!(owned != differs);
    assert!(borrowed.clone() == borrowed);
    assert!(borrowed.clone().is_borrowed());
    assert!(owned.clone().is_owned());
}

#[test]
fn cow_converts_into_owned_forms() {
    let vector = NonEmptyVec::new(vec![1, 2, 3]).unwrap();
    let cow = NonEmptyCowSlice::from_non_empty_vec_ref(&vector);
    assert!(cow.is_borrowed());
    assert_eq!(cow.clone().into_owned(), vector);
    assert_eq!(cow.into_non_empty_boxed_slice().as_slice(), &[1, 2, 3]);
    let array = [4, 5];
    let cow = NonEmptyCowSlice::from_slice(&array).unwrap();
    assert_eq!(cow.into_owned().into_vec(), vec![4, 5]);
    let empty: [i32; 0] = [];
    assert!(NonEmptyCowSlice::from_slice(&empty).is_none());
}

#[test]
fn plain_form_goes_through_the_checked_constructor_and_back() {
    let plain = vec![String::from("a"), String::from("b")];
    let non_empty = NonEmptyVec::new(plain.clone()).unwrap();
    assert_eq!(non_empty.as_vec(), &plain);
    assert_eq!(NonEmptyVec::new(non_empty.into_vec()).unwrap().into_vec(), plain);
    assert!(NonEmptyVec::<String>::new(Vec::new()).is_err());
}

#[test]
fn new_uninit_has_the_length_given() {
    let mut boxed = NonEmptySlice::<u8>::new_uninit(non_empty_slice::Size::new(3).unwrap());
    assert_eq!(boxed.len().get(), 3);
    for (index, slot) in boxed.as_mut_slice().iter_mut().enumerate() {
        slot.write(index as u8);
    }
    assert_eq!(boxed.as_slice().len(), 3);
}

#[test]
fn plain_cow_keeps_its_branch() {
    let array = [1, 2];
    let borrowed = NonEmptyCowSlice::from_cow(std::borrow::Cow::Borrowed(&array[..])).unwrap();
    assert!(borrowed.is_borrowed());
    assert!(matches!(borrowed.into_cow(), std::borrow::Cow::Borrowed(&[1, 2])));

    let owned = NonEmptyCowSlice::from_cow(std::borrow::Cow::Owned(vec![3, 4])).unwrap();
    assert!(owned.is_owned());
    assert_eq!(owned.into_cow().into_owned(), vec![3, 4]);

    let unchecked = NonEmptyCowSlice::from_cow_unchecked(std::borrow::Cow::Owned(vec![5]));
    assert_eq!(unchecked.as_slice(), &[5]);
}

#[test]
fn empty_plain_cow_is_rejected() {
    let empty: [i32; 0] = [];
    assert!(NonEmptyCowSlice::from_cow(std::borrow::Cow::Borrowed(&empty[..])).is_none());
    assert!(NonEmptyCowSlice::<i32>::from_cow(std::borrow::Cow::Owned(Vec::new())).is_none());
}

#[test]
fn cow_orders_by_items() {
    let array = [1, 2, 3];
    let slice = NonEmptySlice::from_slice(&array).unwrap();
    let borrowed = NonEmptyCowSlice::from_non_empty_slice(slice);
    let shorter = NonEmptyCowSlice::from_non_empty_vec(NonEmptyVec::new(vec![1, 2]).unwrap());
    let greater = NonEmptyCowSlice::from_non_empty_vec(NonEmptyVec::new(vec![1, 3]).unwrap());
    let same = NonEmptyCowSlice::from_non_empty_vec(NonEmptyVec::new(vec![1, 2, 3]).unwrap());
    assert!(shorter < borrowed);
    assert!(borrowed < greater);
    assert!(greater > shorter);
    assert!(borrowed <= same && borrowed >= same);
    assert_eq!(borrowed.partial_cmp(&same), Some(std::cmp::Ordering::Equal));
}

#[test]
fn cow_order_agrees_with_plain_slices() {
    let lists: [&[i32]; 6] = [&[1], &[1, 2], &[1, 2, 3], &[1, 3], &[2], &[0, 9]];
    for left in lists {
        for right in lists {
            let first = NonEmptyCowSlice::from_slice(left).unwrap();
            let second = NonEmptyCowSlice::from_non_empty_vec(NonEmptyVec::new(right.to_vec()).unwrap());
            assert_eq!(first.partial_cmp(&second), left.partial_cmp(right));
            assert_eq!(first == second, left == right);
        }
    }
}

#[test]
fn cow_without_order_between_items() {
    let left = [f32::NAN];
    let right = [1.0];
    let first = NonEmptyCowSlice::from_slice(&left).unwrap();
    let second = NonEmptyCowSlice::from_slice(&right).unwrap();
    assert_eq!(first.partial_cmp(&second), None);
}

#[test]
fn cow_hashes_by_items() {
    let array = [1, 2, 3];
    let slice = NonEmptySlice::from_slice(&array).unwrap();
    let borrowed = NonEmptyCowSlice::from_non_empty_slice(slice);
    let owned = NonEmptyCowSlice::from_non_empty_vec(NonEmptyVec::new(vec![1, 2, 3]).unwrap());
    assert_eq!(hash_of(&borrowed), hash_of(&owned));
    assert_eq!(hash_of(&borrowed), hash_of(&array[..]));
}

fn hash_of<T: std::hash::Hash + ?Sized>(value: &T) -> u64 {
    let mut hasher = std::collections::hash_map::DefaultHasher::new();
    value.hash(&mut hasher);
    std::hash::Hasher::finish(&hasher)
}

#[test]
fn conversion_traits_agree_with_the_constructors() {
    let non_empty = NonEmptyVec::try_from(vec![1, 2]).unwrap();
    assert_eq!(Vec::from(non_empty.clone()), vec![1, 2]);
    assert!(NonEmptyVec::<i32>::try_from(Vec::new()).is_err());

    let array = [1, 2];
    let slice = NonEmptySlice::try_from(&array[..]).unwrap();
    let plain: &[i32] = slice.into();
    assert_eq!(plain, &[1, 2]);
    let empty: [i32; 0] = [];
    assert!(NonEmptySlice::try_from(&empty[..]).is_err());

    let boxed = NonEmptyBoxedSlice::try_from(vec![3].into_boxed_slice()).unwrap();
    assert_eq!(&*Box::<[i32]>::from(boxed), &[3]);
    assert!(NonEmptyBoxedSlice::<i32>::try_from(Vec::new().into_boxed_slice()).is_err());

    let borrowed: NonEmptyCowSlice<'_, i32> = slice.into();
    assert!(borrowed.is_borrowed());
    let owned: NonEmptyCowSlice<'_, i32> = non_empty.into();
    assert!(owned.is_owned());
    assert!(borrowed == owned);
}
