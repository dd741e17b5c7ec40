//! Non-zero sizes.

use vstd::prelude::*;

verus! {

/// The error message used for when the provided size is zero.
pub const NON_ZERO: &'static str = "expected non-zero size";

/// Represents non-zero sizes: lengths, counts and indices that are known to be positive.
///
/// The value can only be made through [`Size::new`] and [`Size::new_unchecked`],
/// so that every executable [`Size`] is at least one.
#[derive(Debug, Clone, Copy, PartialEq, Eq, Structural, PartialOrd, Ord, Hash)]
pub struct Size {
    value: usize,
}

impl View for Size {
    type V = usize;

    closed spec fn view(&self) -> usize {
        self.value
    }
}

impl Size {
    #[verifier::type_invariant]
    spec fn positive(self) -> bool {
        self.value >= 1
    }

    /// Constructs [`Self`], provided the value is non-zero.
    pub fn new(value: usize) -> (size: Option<Self>)
        ensures
            value == 0 <==> size is None,
            size matches Some(non_zero) ==> non_zero@ == value,
    {
        if value == 0 {
            None
        } else {
            Some(Self { value })
        }
    }

    /// Constructs [`Self`] from the value that the caller knows to be non-zero.
    pub fn new_unchecked(value: usize) -> (size: Self)
        requires
            value >= 1,
        ensures
            size@ == value,
    {
        Self { value }
    }

    /// Returns the smallest size, one.
    pub fn min() -> (size: Self)
        ensures
            size@ == 1,
    {
        Self { value: 1 }
    }

    /// Returns the contained value, which is never zero.
    pub fn get(self) -> (value: usize)
        ensures
            value == self@,
            value >= 1,
    {
        proof {
            use_type_invariant(self);
        }
        self.value
    }
}

} // verus!
