//! The pure carrier shapes: a bare value or the runtime option.
//!
//! The pure shapes are the normalized targets that the combinators collapse
//! richer carriers onto.  The compile-time cells are not pure shapes; they
//! reach the combinators through their option views.

use vstd::prelude::*;

verus! {

use crate::maybe::Maybe;

/// A carrier that is one of the pure shapes of payload type `T`.
pub trait PureMaybe<T>: Maybe<T> {}

impl<T> PureMaybe<T> for Option<T> {}

impl<T> PureMaybe<T> for T {}

} // verus!
