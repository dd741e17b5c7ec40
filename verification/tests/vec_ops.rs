use non_empty_slice::{NonEmptySlice, NonEmptyVec, PeekMut, Size};

fn size(value: usize) -> Size {
    Size::new(value).unwrap()
}

fn non_empty(items: &[i32]) -> NonEmptyVec<i32> {
    NonEmptyVec::new(items.to_vec()).unwrap()
}

#[test]
fn single_holds_one_item() {
    let single = NonEmptyVec::single(13);
    assert_eq!(single.as_slice(), &[13]);
    assert_eq!(single.len().get(), 1);
    assert!(single.next_empty());
    assert!(!single.next_non_empty());
}

#[test]
fn repeat_holds_the_count_of_items() {
    let repeated = NonEmptyVec::repeat(13, size(4));
    assert_eq!(repeated.as_slice(), &[13, 13, 13, 13]);
}

#[test]
fn with_capacity_and_value_holds_one_item() {
    let vector = NonEmptyVec::with_capacity_and_value(size(16), 7);
    assert_eq!(vector.as_slice(), &[7]);
    assert!(vector.capacity().get() >= 16);
}

#[test]
fn from_non_empty_iter_puts_the_first_item_first() {
    let vector = NonEmptyVec::from_non_empty_iter(1, vec![2, 3]);
    assert_eq!(vector.as_slice(), &[1, 2, 3]);
    assert_eq!(NonEmptyVec::from_non_empty_iter(1, Vec::new()).as_slice(), &[1]);
}

#[test]
fn never_empty() {
    let vector = non_empty(&[1]);
    assert!(!vector.is_empty());
    assert!(!vector.as_non_empty_slice().is_empty());
}

#[test]
fn capacity_is_at_least_the_length() {
    let vector = non_empty(&[1, 2, 3]);
    assert!(vector.capacity().get() >= vector.len().get());
}

#[test]
fn push_appends() {
    let mut vector = non_empty(&[1]);
    vector.push(2);
    assert_eq!(vector.as_slice(), &[1, 2]);
}

#[test]
fn insert_shifts_to_the_right() {
    let mut vector = non_empty(&[1, 3]);
    vector.insert(1, 2);
    assert_eq!(vector.as_slice(), &[1, 2, 3]);
    vector.insert(0, 0);
    vector.insert(4, 4);
    assert_eq!(vector.as_slice(), &[0, 1, 2, 3, 4]);
}

#[test]
fn append_empties_the_other() {
    let mut vector = non_empty(&[1]);
    let mut other = vec![2, 3];
    vector.append(&mut other);
    assert_eq!(vector.as_slice(), &[1, 2, 3]);
    assert!(other.is_empty());
}

#[test]
fn extend_appends_in_order() {
    let mut vector = non_empty(&[1]);
    vector.extend(vec![2, 3]);
    vector.extend_from(&[4, 5]);
    assert_eq!(vector.as_slice(), &[1, 2, 3, 4, 5]);
}

#[test]
fn extend_from_within_clones_the_range() {
    let mut vector = non_empty(&[1, 2, 3, 4]);
    vector.extend_from_within(1..3);
    assert_eq!(vector.as_slice(), &[1, 2, 3, 4, 2, 3]);
    vector.extend_from_within(2..2);
    assert_eq!(vector.len().get(), 6);
}

#[test]
fn reserving_and_shrinking_keep_the_items() {
    let mut vector = non_empty(&[1, 2, 3]);
    vector.reserve(size(10));
    assert!(vector.capacity().get() >= 13);
    vector.reserve_exact(size(20));
    assert!(vector.capacity().get() >= 23);
    assert!(vector.try_reserve(size(5)).is_ok());
    assert!(vector.try_reserve_exact(5).is_ok());
    assert!(vector.try_reserve_exact(usize::MAX).is_err());
    vector.shrink_to(size(4));
    assert!(vector.capacity().get() >= 4);
    vector.shrink_to_fit();
    assert_eq!(vector.as_slice(), &[1, 2, 3]);
    assert_eq!(vector.spare_capacity_mut().len(), vector.capacity().get() - 3);
    assert_eq!(vector.as_slice(), &[1, 2, 3]);
}

#[test]
fn guarded_removal_of_single_item() {
    let mut vector = non_empty(&[13]);
    assert_eq!(vector.pop(), None);
    assert_eq!(vector.as_slice(), &[13]);
    assert_eq!(vector.remove(0), None);
    assert_eq!(vector.as_slice(), &[13]);
    assert_eq!(vector.swap_remove(0), None);
    assert_eq!(vector.as_slice(), &[13]);
    assert_eq!(vector.pop_if(|_| true), None);
    assert_eq!(vector.as_slice(), &[13]);
    assert_eq!(vector.peek_mut().pop(), None);
    assert_eq!(vector.as_slice(), &[13]);
}

#[test]
fn guarded_removal_of_one_of_two_items() {
    let mut vector = non_empty(&[13, 42]);
    assert_eq!(vector.pop(), Some(42));
    assert_eq!(vector.as_slice(), &[13]);

    let mut vector = non_empty(&[13, 42]);
    assert_eq!(vector.remove(0), Some(13));
    assert_eq!(vector.as_slice(), &[42]);

    let mut vector = non_empty(&[13, 42]);
    assert_eq!(vector.swap_remove(0), Some(13));
    assert_eq!(vector.as_slice(), &[42]);

    let mut vector = non_empty(&[13, 42]);
    assert_eq!(vector.peek_mut().pop(), Some(42));
    assert_eq!(vector.as_slice(), &[13]);
}

#[test]
fn remove_shifts_and_swap_remove_fills_with_the_last() {
    let mut vector = non_empty(&[1, 2, 3, 4]);
    assert_eq!(vector.remove(1), Some(2));
    assert_eq!(vector.as_slice(), &[1, 3, 4]);

    let mut vector = non_empty(&[1, 2, 3, 4]);
    assert_eq!(vector.swap_remove(1), Some(2));
    assert_eq!(vector.as_slice(), &[1, 4, 3]);
}

#[test]
fn pop_if_asks_the_predicate() {
    let mut vector = non_empty(&[1, 2, 3]);
    assert_eq!(vector.pop_if(|last| *last == 2), None);
    assert_eq!(vector.as_slice(), &[1, 2, 3]);
    assert_eq!(vector.pop_if(|last| *last == 3), Some(3));
    assert_eq!(vector.as_slice(), &[1, 2]);
}

#[test]
fn pop_if_skips_the_predicate_on_single_item() {
    let mut asked = false;
    let mut vector = non_empty(&[1]);
    let popped = vector.pop_if(|_| {
        asked = true;
        true
    });
    assert_eq!(popped, None);
    assert!(!asked);
}

#[test]
fn pop_if_keeps_what_the_predicate_wrote() {
    let mut vector = non_empty(&[1, 2]);
    let popped = vector.pop_if(|last| {
        *last = 20;
        false
    });
    assert_eq!(popped, None);
    assert_eq!(vector.as_slice(), &[1, 20]);
}

#[test]
fn truncate_keeps_the_first_items() {
    let mut vector = non_empty(&[1, 2, 3]);
    vector.truncate(size(5));
    assert_eq!(vector.as_slice(), &[1, 2, 3]);
    vector.truncate(size(2));
    assert_eq!(vector.as_slice(), &[1, 2]);
    vector.truncate(size(1));
    assert_eq!(vector.as_slice(), &[1]);
}

#[test]
fn split_off_returns_the_tail() {
    let mut vector = non_empty(&[1, 2, 3]);
    assert_eq!(vector.split_off(size(1)), vec![2, 3]);
    assert_eq!(vector.as_slice(), &[1]);

    let mut vector = non_empty(&[1, 2, 3]);
    assert_eq!(vector.split_off(size(3)), Vec::<i32>::new());
    assert_eq!(vector.as_slice(), &[1, 2, 3]);
}

#[test]
fn resize_extends_and_truncates() {
    let mut vector = non_empty(&[1, 2]);
    vector.resize(size(4), 0);
    assert_eq!(vector.as_slice(), &[1, 2, 0, 0]);
    vector.resize(size(1), 0);
    assert_eq!(vector.as_slice(), &[1]);
}

#[test]
fn resize_with_calls_the_function_for_each_new_item() {
    let mut next = 10;
    let mut vector = non_empty(&[1, 2]);
    vector.resize_with(size(5), || {
        next += 1;
        next
    });
    assert_eq!(vector.as_slice(), &[1, 2, 11, 12, 13]);
    vector.resize_with(size(2), || 0);
    assert_eq!(vector.as_slice(), &[1, 2]);
    vector.resize_with(size(2), || 0);
    assert_eq!(vector.as_slice(), &[1, 2]);
}

#[test]
fn dedup_removes_consecutive_repetitions() {
    let mut vector = non_empty(&[1, 1, 2, 2, 2, 1, 3, 3]);
    vector.dedup();
    assert_eq!(vector.as_slice(), &[1, 2, 1, 3]);

    let mut same = non_empty(&[7, 7, 7]);
    same.dedup();
    assert_eq!(same.as_slice(), &[7]);

    let mut single = non_empty(&[7]);
    single.dedup();
    assert_eq!(single.as_slice(), &[7]);

    let mut distinct = non_empty(&[1, 2, 3]);
    distinct.dedup();
    assert_eq!(distinct.as_slice(), &[1, 2, 3]);
}

#[test]
fn dedup_agrees_with_the_plain_vector() {
    let mut seed: u32 = 7;
    for round in 0..200 {
        let mut items = Vec::new();
        for _ in 0..(round % 9 + 1) {
            seed = seed.wrapping_mul(1_103_515_245).wrapping_add(12_345);
            items.push((seed >> 16) % 3);
        }
        let mut expected = items.clone();
        expected.dedup();
        let mut vector = NonEmptyVec::new(items).unwrap();
        vector.dedup();
        assert_eq!(vector.into_vec(), expected);
    }
}

#[test]
fn dedup_by_removes_what_the_function_relates() {
    let mut vector = non_empty(&[1, 2, 4, 7, 9, 10]);
    vector.dedup_by(|current, kept| *current % 2 == *kept % 2);
    assert_eq!(vector.as_slice(), &[1, 2, 7, 10]);

    let mut all = non_empty(&[2, 4, 6]);
    all.dedup_by(|_, _| true);
    assert_eq!(all.as_slice(), &[2]);
}

#[test]
fn dedup_by_key_removes_equal_keys() {
    let mut vector = non_empty(&[10, 11, 20, 21, 22, 30]);
    vector.dedup_by_key(|item| *item / 10);
    assert_eq!(vector.as_slice(), &[10, 20, 30]);
}

#[test]
fn length_stays_positive_under_mutation() {
    let mut seed: u32 = 42;
    let mut vector = non_empty(&[0]);
    for _ in 0..2000 {
        seed = seed.wrapping_mul(1_103_515_245).wrapping_add(12_345);
        let choice = (seed >> 16) % 9;
        let len = vector.len().get();
        let index = (seed as usize >> 8) % len;
        match choice {
            0 => vector.push(seed as i32 % 4),
            1 => {
                vector.pop();
            },
            2 => vector.insert(index, seed as i32 % 4),
            3 => {
                vector.remove(index);
            },
            4 => {
                vector.swap_remove(index);
            },
            5 => vector.truncate(size(index + 1)),
            6 => vector.resize(size(index % 7 + 1), 1),
            7 => vector.dedup(),
            _ => {
                vector.split_off(size(index + 1));
            },
        }
        assert!(vector.len().get() >= 1);
        assert_eq!(vector.len().get(), vector.as_vec().len());
    }
}

#[test]
fn peek_mut_reads_and_writes_the_last_item() {
    let mut vector = non_empty(&[1, 2, 3]);
    let mut peek = PeekMut::new(&mut vector);
    assert_eq!(*peek.get(), 3);
    *peek.get_mut() = 30;
    assert_eq!(*peek.get(), 30);
    assert_eq!(peek.pop(), Some(30));
    assert_eq!(vector.as_slice(), &[1, 2]);

    let mut peek = vector.peek_mut();
    *peek.get_mut() = 20;
    assert_eq!(vector.as_slice(), &[1, 20]);
}

#[test]
fn clone_copies_the_items() {
    let vector = non_empty(&[1, 2, 3]);
    let copy = vector.clone();
    assert_eq!(copy, vector);
    let mut target = non_empty(&[9]);
    target.clone_from(&vector);
    assert_eq!(target, vector);
}

#[test]
fn views_of_the_vector() {
    let mut vector = non_empty(&[1, 2, 3]);
    assert_eq!(vector.as_vec(), &vec![1, 2, 3]);
    assert_eq!(vector.as_non_empty_slice().as_slice(), &[1, 2, 3]);
    assert_eq!(vector.iter().copied().collect::<Vec<i32>>(), vec![1, 2, 3]);
    vector.as_mut_slice()[0] = 10;
    vector.as_non_empty_mut_slice().as_mut_slice()[1] = 20;
    vector.as_mut_vec().push(4);
    assert_eq!(vector.as_slice(), &[10, 20, 3, 4]);
}

#[test]
fn slice_to_vec_clones_the_items() {
    let array = [1, 2, 3];
    let slice = NonEmptySlice::from_slice(&array).unwrap();
    assert_eq!(slice.to_vec(), vec![1, 2, 3]);
    assert_eq!(slice.to_non_empty_vec().into_vec(), vec![1, 2, 3]);
    assert_eq!(NonEmptyVec::from_non_empty_slice(slice).into_vec(), vec![1, 2, 3]);
}

#[test]
fn leak_gives_the_items_out() {
    let leaked: &'static mut [i32] = non_empty(&[1, 2]).leak();
    leaked[0] = 10;
    assert_eq!(leaked, &mut [10, 2]);
    let leaked = non_empty(&[3, 4]).leak_non_empty();
    assert_eq!(leaked.as_slice(), &[3, 4]);
}

#[test]
fn iter_mut_writes_to_the_vector() {
    let mut vector = non_empty(&[1, 2, 3]);
    for item in vector.iter_mut() {
        *item += 1;
    }
    assert_eq!(vector.as_slice(), &[2, 3, 4]);
}

#[test]
fn pop_if_returns_what_the_predicate_wrote() {
    let mut vector = non_empty(&[1, 2]);
    let popped = vector.pop_if(|last| {
        *last = 20;
        true
    });
    assert_eq!(popped, Some(20));
    assert_eq!(vector.as_slice(), &[1]);
}

#[test]
fn dedup_by_agrees_with_the_plain_vector() {
    let mut seed: u32 = 11;
    for round in 0..300 {
        let mut items = Vec::new();
        for _ in 0..(round % 10 + 1) {
            seed = seed.wrapping_mul(1_103_515_245).wrapping_add(12_345);
            items.push(((seed >> 16) % 5) as i32);
        }
        let mut expected = items.clone();
        let mut expected_calls = Vec::new();
        expected.dedup_by(|current, kept| {
            expected_calls.push((*current, *kept));
            (*current - *kept).abs() <= 1
        });
        let mut vector = NonEmptyVec::new(items).unwrap();
        let mut calls = Vec::new();
        vector.dedup_by(|current, kept| {
            calls.push((*current, *kept));
            (*current - *kept).abs() <= 1
        });
        assert_eq!(vector.into_vec(), expected);
        assert_eq!(calls, expected_calls);
    }
}

#[test]
fn dedup_by_keeps_what_the_function_wrote() {
    let mut seed: u32 = 5;
    for round in 0..300 {
        let mut items = Vec::new();
        for _ in 0..(round % 10 + 1) {
            seed = seed.wrapping_mul(1_103_515_245).wrapping_add(12_345);
            items.push(((seed >> 16) % 4) as i32);
        }
        let mut expected = items.clone();
        expected.dedup_by(|current, kept| {
            let same = *current % 2 == *kept % 2;
            *kept += 10;
            *current += 1;
            same
        });
        let mut vector = NonEmptyVec::new(items).unwrap();
        vector.dedup_by(|current, kept| {
            let same = *current % 2 == *kept % 2;
            *kept += 10;
            *current += 1;
            same
        });
        assert_eq!(vector.into_vec(), expected);
    }
}

#[test]
fn dedup_by_key_agrees_with_the_plain_vector() {
    let mut seed: u32 = 23;
    for round in 0..300 {
        let mut items = Vec::new();
        for _ in 0..(round % 10 + 1) {
            seed = seed.wrapping_mul(1_103_515_245).wrapping_add(12_345);
            items.push(((seed >> 16) % 40) as i32);
        }
        let mut expected = items.clone();
        let mut expected_calls = Vec::new();
        expected.dedup_by_key(|item| {
            expected_calls.push(*item);
            *item / 10
        });
        let mut vector = NonEmptyVec::new(items).unwrap();
        let mut calls = Vec::new();
        vector.dedup_by_key(|item| {
            calls.push(*item);
            *item / 10
        });
        assert_eq!(vector.into_vec(), expected);
        assert_eq!(calls, expected_calls);
    }
}

#[test]
fn dedup_by_on_single_item_asks_nothing() {
    let mut asked = 0;
    let mut vector = non_empty(&[7]);
    vector.dedup_by(|_, _| {
        asked += 1;
        true
    });
    vector.dedup_by_key(|item| {
        asked += 1;
        *item
    });
    assert_eq!(vector.as_slice(), &[7]);
    assert_eq!(asked, 0);
}

#[test]
fn try_reserve_exact_fails_on_overflow() {
    let mut bytes = NonEmptyVec::new(vec![1u8, 2, 3]).unwrap();
    assert!(bytes.try_reserve_exact(usize::MAX).is_err());
    assert!(bytes.try_reserve_exact(usize::MAX - 2).is_err());
    assert!(bytes.try_reserve_exact(isize::MAX as usize - 2).is_err());
    assert_eq!(bytes.as_slice(), &[1, 2, 3]);

    let mut words = NonEmptyVec::new(vec![1u64]).unwrap();
    assert!(words.try_reserve_exact(isize::MAX as usize / 8).is_err());
    assert!(words.try_reserve_exact(4).is_ok());
    assert_eq!(words.as_slice(), &[1]);

    let mut units = NonEmptyVec::new(vec![(), ()]).unwrap();
    assert!(units.try_reserve_exact(usize::MAX - 1).is_err());
    assert!(units.try_reserve_exact(usize::MAX - 2).is_ok());
    assert_eq!(units.len().get(), 2);
}
