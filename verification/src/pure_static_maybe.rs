//! The pure shapes whose presence is also a compile-time fact.
//!
//! Of the pure shapes only the bare value qualifies: the runtime option's
//! presence is decided at run time.

use vstd::prelude::*;

verus! {

use crate::pure_maybe::PureMaybe;
use crate::static_maybe::StaticMaybe;

/// A pure carrier shape with compile-time presence.
pub trait PureStaticMaybe<T>: PureMaybe<T> + StaticMaybe<T> {}

impl<T> PureStaticMaybe<T> for T {}

} // verus!
