//! The capability that separates genuine payload types from the sentinel.
//!
//! The unit type stands for "definitely absent", so a payload type must be
//! distinguishable from it.  Types carrying this marker may serve as
//! payloads of the absent-capable carriers without colliding with the
//! sentinel; the unit type itself never carries it.

use vstd::prelude::*;

verus! {

use core::marker::PhantomData;
use core::ops::Range;
use crate::maybe_cell::MaybeCell;
use crate::opt_cell::OptCell;
use crate::option_kind::OptionKind;

/// A marker for every payload type that is not the unit sentinel.
pub trait NotVoid {}

impl<T, const N: usize> NotVoid for [T; N] {}

impl NotVoid for bool {}

impl NotVoid for char {}

impl NotVoid for u8 {}

impl NotVoid for u16 {}

impl NotVoid for u32 {}

impl NotVoid for u64 {}

impl NotVoid for u128 {}

impl NotVoid for usize {}

impl NotVoid for i8 {}

impl NotVoid for i16 {}

impl NotVoid for i32 {}

impl NotVoid for i64 {}

impl NotVoid for i128 {}

impl NotVoid for isize {}

impl NotVoid for String {}

impl NotVoid for str {}

impl<T> NotVoid for Vec<T> {}

impl<T> NotVoid for [T] {}

impl<T> NotVoid for PhantomData<T> {}

impl<T> NotVoid for Range<T> {}

impl<T> NotVoid for Option<T> {}

impl<T, E> NotVoid for Result<T, E> {}

impl<T: ?Sized> NotVoid for &T {}

impl<T: ?Sized> NotVoid for &mut T {}

impl NotVoid for OptionKind {}

impl<T, const IS_SOME: bool> NotVoid for MaybeCell<T, IS_SOME> {}

impl<T, const IS_SOME: bool> NotVoid for OptCell<T, IS_SOME> {}

} // verus!
