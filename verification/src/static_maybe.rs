//! Carriers whose presence is a compile-time fact of the shape itself.
//!
//! A statically-shaped carrier exposes its presence as an associated
//! specification truth: every value of one concrete shape is present, or
//! every value is absent.  The runtime option deliberately has no such shape.

use vstd::prelude::*;
use crate::maybe::Maybe;

verus! {

/// A carrier shape whose presence is known at compile time.
pub trait StaticMaybe<T>: Maybe<T> {
    /// Whether every value of this shape holds a payload.  Exactly one of
    /// this and its negation is true per concrete shape.
    spec fn static_is_some() -> bool;

    /// Constructs this shape from a functor; the functor runs exactly when
    /// the shape is statically present, and is dropped unexecuted otherwise.
    fn maybe_from_fn<F: FnOnce() -> T>(func: F) -> (r: Self)
        requires
            Self::static_is_some() ==> call_requires(func, ()),
        ensures
            r.opt_view() is Some <==> Self::static_is_some(),
            Self::static_is_some() ==> call_ensures(func, (), r.opt_view()->0),
    ;

    /// Runs exactly one of the two functors, selected by the shape's static
    /// presence: `maybe` when present, `or` when absent.
    fn maybe_or_from_fn<V, M: FnOnce() -> V, O: FnOnce() -> V>(maybe: M, or: O) -> (r: V)
        requires
            Self::static_is_some() ==> call_requires(maybe, ()),
            !Self::static_is_some() ==> call_requires(or, ()),
        ensures
            Self::static_is_some() ==> call_ensures(maybe, (), r),
            !Self::static_is_some() ==> call_ensures(or, (), r),
    ;

    /// Unwraps a statically-present carrier; this cannot fail, as opposed to
    /// unwrapping a carrier whose presence is a runtime fact.
    fn into_value(self) -> (r: T)
        requires
            Self::static_is_some(),
        ensures
            Some(r) == self.opt_view(),
    ;

    /// Borrows the payload of a statically-present carrier.
    fn as_value(&self) -> (r: &T)
        requires
            Self::static_is_some(),
        ensures
            Some(*r) == self.opt_view(),
    ;

    /// Mutably borrows the payload of a statically-present carrier.
    fn as_value_mut(&mut self) -> (r: &mut T)
        requires
            Self::static_is_some(),
        ensures
            Some(*r) == (*old(self)).opt_view(),
            (*final(self)).opt_view() == Some(*final(r)),
    ;
}

/// A bare value is the statically-present shape of its own payload type.
impl<T> StaticMaybe<T> for T {
    open spec fn static_is_some() -> bool {
        true
    }

    fn maybe_from_fn<F: FnOnce() -> T>(func: F) -> (r: Self) {
        func()
    }

    fn maybe_or_from_fn<V, M: FnOnce() -> V, O: FnOnce() -> V>(maybe: M, or: O) -> (r: V) {
        let _ = or;
        maybe()
    }

    fn into_value(self) -> (r: T) {
        self
    }

    fn as_value(&self) -> (r: &T) {
        self
    }

    fn as_value_mut(&mut self) -> (r: &mut T) {
        self
    }
}

} // verus!
