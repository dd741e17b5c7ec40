use std::io::Write;

use non_empty_slice::{NonEmptyByteVec, NonEmptySlice, NonEmptyVec};

struct Opaque;

#[test]
fn vector_grows_by_what_is_written() {
    let mut vector = NonEmptyByteVec::single(b'n');
    assert_eq!(vector.write(b"ekit"), 4);
    assert_eq!(vector.as_slice(), b"nekit");
    assert_eq!(vector.write(b""), 0);
    assert_eq!(vector.as_slice(), b"nekit");
}

#[test]
fn slice_is_written_over_from_the_front() {
    let mut array = *b"nekit";
    let mut bytes = NonEmptySlice::from_mut_slice(&mut array).unwrap();
    assert_eq!(bytes.write(b"NE"), 2);
    assert_eq!(bytes.as_slice(), b"NEkit");
    assert_eq!(bytes.write(b"x"), 1);
    assert_eq!(&array, b"xEkit");
}

#[test]
fn slice_takes_no_more_than_fits() {
    let mut array = *b"abc";
    let mut bytes = NonEmptySlice::from_mut_slice(&mut array).unwrap();
    assert_eq!(bytes.write(b"12345"), 3);
    assert_eq!(&array, b"123");
}

#[test]
fn write_all_says_whether_the_buffer_fit() {
    let mut array = *b"abc";
    let mut bytes = NonEmptySlice::from_mut_slice(&mut array).unwrap();
    assert!(bytes.write_all(b"12"));
    assert!(bytes.write_all(b"345"));
    assert!(!bytes.write_all(b"6789"));
    assert_eq!(&array, b"678");
}

#[test]
fn writing_agrees_with_plain_bytes() {
    for len in 0..6 {
        let buffer: Vec<u8> = (0..len).collect();
        let mut expected = *b"abc";
        let count = Write::write(&mut &mut expected[..], &buffer).unwrap();
        let mut array = *b"abc";
        let mut bytes = NonEmptySlice::from_mut_slice(&mut array).unwrap();
        assert_eq!(bytes.write(&buffer), count);
        assert_eq!(array, expected);

        let mut expected = *b"abc";
        let whole = Write::write_all(&mut &mut expected[..], &buffer).is_ok();
        let mut array = *b"abc";
        let mut bytes = NonEmptySlice::from_mut_slice(&mut array).unwrap();
        assert_eq!(bytes.write_all(&buffer), whole);
        assert_eq!(array, expected);
    }
}

#[test]
fn errors_show_the_empty_list() {
    let empty = NonEmptyVec::<Opaque>::new(Vec::new()).err().unwrap();
    assert_eq!(empty.to_debug_string(), "EmptyVec { vec: [] }");
    let boxed = NonEmptySlice::<Opaque>::from_boxed_slice(Vec::new().into_boxed_slice());
    assert_eq!(boxed.err().unwrap().to_debug_string(), "EmptyBoxedSlice { boxed: [] }");
    let owned = non_empty_slice::OwnedSlice::<Opaque>::new(Vec::new()).err().unwrap();
    assert_eq!(owned.to_debug_string(), "EmptyOwned { slice: [] }");
}

#[test]
fn errors_show_as_their_debug_form() {
    let empty = NonEmptyVec::<u8>::new(Vec::new()).unwrap_err();
    assert_eq!(format!("{:?}", empty), empty.to_debug_string());
}

#[test]
fn owning_forms_iterate_by_value() {
    let vector = NonEmptyVec::new(vec![1, 2, 3]).unwrap();
    assert_eq!(vector.clone().into_iter().collect::<Vec<i32>>(), vec![1, 2, 3]);
    let boxed = vector.into_non_empty_boxed_slice();
    assert_eq!(boxed.into_iter().collect::<Vec<i32>>(), vec![1, 2, 3]);
    let array = [4, 5];
    let slice = NonEmptySlice::from_slice(&array).unwrap();
    let mut sum = 0;
    for item in slice {
        sum += item;
    }
    assert_eq!(sum, 9);
}
