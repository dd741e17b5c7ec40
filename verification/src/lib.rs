//! Non-empty slices, vectors and boxed slices.
//!
//! Every container of this crate views as a `Seq` of its items and states its
//! invariant, `inv`, as the fact that this sequence has at least one item.
//! Checked constructors establish the invariant or hand the empty input back,
//! and every operation that could remove the last remaining item refuses to.

pub mod size;

pub mod empty;

pub mod trusted;

pub mod slice;

pub mod mut_slice;

pub mod bytes;

pub mod vec;

pub mod boxed;

pub mod owned;

pub mod cow;

pub mod cow_order;

pub mod io;

pub mod iter;

pub mod iter_mut;

pub mod laws;

pub use size::Size;

pub use empty::Empty;

pub use slice::{EmptySlice, NonEmptyBytes, NonEmptySlice};

pub use mut_slice::{NonEmptyMutBytes, NonEmptyMutSlice};

pub use vec::{EmptyByteVec, EmptyVec, NonEmptyByteVec, NonEmptyVec, PeekMut};

pub use boxed::{EmptyBoxedBytes, EmptyBoxedSlice, NonEmptyBoxedBytes, NonEmptyBoxedSlice};

pub use owned::{EmptyOwned, OwnedBytes, OwnedSlice};

pub use cow::NonEmptyCowSlice;
