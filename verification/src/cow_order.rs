//! The order of non-empty clone-on-write slices.
//!
//! Two of them compare by their items, from the front, whether borrowed or owned.

use vstd::prelude::*;
use vstd::std_specs::cmp::{PartialOrdSpec, PartialOrdSpecImpl};

use core::cmp::Ordering;

use crate::cow::NonEmptyCowSlice;

verus! {

/// The lexicographic comparison of two sequences: the first pair of items that is not
/// equal decides, and where there is none the shorter sequence is the lesser.
pub open spec fn lexicographic<T: PartialOrd>(left: Seq<T>, right: Seq<T>) -> Option<Ordering>
    decreases left.len(),
{
    if left.len() == 0 {
        if right.len() == 0 {
            Some(Ordering::Equal)
        } else {
            Some(Ordering::Less)
        }
    } else if right.len() == 0 {
        Some(Ordering::Greater)
    } else {
        match left.first().partial_cmp_spec(&right.first()) {
            Some(Ordering::Equal) => lexicographic(left.drop_first(), right.drop_first()),
            decided => decided,
        }
    }
}

impl<'a, T: PartialOrd> PartialOrd for NonEmptyCowSlice<'a, T> {
    fn partial_cmp(&self, other: &Self) -> (order: Option<Ordering>) {
        let left = self.as_slice();
        let right = other.as_slice();
        let mut index: usize = 0;
        let ghost mut position: int = 0;
        assert(left@.skip(0) =~= left@ && right@.skip(0) =~= right@);
        loop
            invariant
                position == index,
                index <= left@.len(),
                index <= right@.len(),
                left@ == self@,
                right@ == other@,
                T::obeys_partial_cmp_spec() ==> lexicographic(self@, other@) == lexicographic(
                    left@.skip(position),
                    right@.skip(position),
                ),
            decreases left@.len() - position,
        {
            if index == left.len() {
                if index == right.len() {
                    return Some(Ordering::Equal);
                }
                return Some(Ordering::Less);
            }
            if index == right.len() {
                return Some(Ordering::Greater);
            }
            let decided = left[index].partial_cmp(&right[index]);
            proof {
                assert(left@.skip(position).first() == left@[position]);
                assert(right@.skip(position).first() == right@[position]);
                assert(left@.skip(position).drop_first() =~= left@.skip(position + 1));
                assert(right@.skip(position).drop_first() =~= right@.skip(position + 1));
            }
            match decided {
                Some(Ordering::Equal) => {},
                _ => {
                    return decided;
                },
            }
            index = index + 1;
            proof {
                position = position + 1;
            }
        }
    }
}

impl<'a, T: PartialOrd> PartialOrdSpecImpl for NonEmptyCowSlice<'a, T> {
    open spec fn obeys_partial_cmp_spec() -> bool {
        T::obeys_partial_cmp_spec()
    }

    open spec fn partial_cmp_spec(&self, other: &Self) -> Option<Ordering> {
        lexicographic(self@, other@)
    }
}

} // verus!
