//! Emptiness errors.

use vstd::prelude::*;

verus! {

/// The message for errors returned on empty slices.
pub const EMPTY: &'static str = "the slice is empty";

/// Represents errors that occur when the input slice is empty.
#[derive(Debug, Clone, Copy, PartialEq, Eq, Structural)]
pub struct Empty;

impl Empty {
    /// Returns the message of this error.
    pub fn message(&self) -> (message: &'static str)
        ensures
            message@ == EMPTY@,
    {
        EMPTY
    }
}

} // verus!
