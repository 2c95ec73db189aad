//! The AND-THEN combinator: monadic bind over a carrier's option view.

use vstd::prelude::*;
use crate::maybe::Maybe;

verus! {

/// Holds of `and_then`'s result: an absent operand stays absent, and a
/// present operand's result is whatever the continuation returned for the
/// payload.
pub open spec fn and_then_view_ok<T, U, F: FnOnce(T) -> Option<U>>(
    a: Option<T>,
    f: F,
    r: Option<U>,
) -> bool {
    match a {
        Some(v) => call_ensures(f, (v,), r),
        None => r is None,
    }
}

/// Monadic bind over any carrier of the payload type.
pub trait MaybeAndThen<T, U>: Maybe<T> {
    /// Feeds the payload to `and_then`, flattening the result's presence.
    fn and_then<F: FnOnce(T) -> Option<U>>(self, and_then: F) -> (r: Option<U>)
        requires
            self.opt_view() matches Some(v) ==> call_requires(and_then, (v,)),
        ensures
            and_then_view_ok(self.opt_view(), and_then, r),
    ;
}

impl<T, U, Lhs: Maybe<T>> MaybeAndThen<T, U> for Lhs {
    fn and_then<F: FnOnce(T) -> Option<U>>(self, and_then: F) -> (r: Option<U>) {
        match self.option() {
            Some(v) => and_then(v),
            None => None,
        }
    }
}

} // verus!
