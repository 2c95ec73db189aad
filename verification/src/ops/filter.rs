//! The FILTER combinator: a payload survives only if the predicate holds.

use vstd::prelude::*;
use crate::maybe::Maybe;

verus! {

/// Holds of `filter`'s result: a kept payload is the operand's own payload
/// and was accepted by the predicate; an empty result means the operand was
/// empty or its payload was rejected.
pub open spec fn filter_view_ok<T, F: Fn(&T) -> bool>(
    a: Option<T>,
    predicate: F,
    r: Option<T>,
) -> bool {
    match r {
        Some(v) => a == Some(v) && call_ensures(predicate, (&v,), true),
        None => a is None || call_ensures(predicate, (&a->0,), false),
    }
}

/// Filtering over any carrier of the payload type.
pub trait MaybeFilter<T>: Maybe<T> {
    /// Keeps the payload only if `predicate` accepts it.
    fn filter<F: Fn(&T) -> bool>(self, predicate: F) -> (r: Option<T>)
        requires
            self.opt_view() matches Some(v) ==> call_requires(predicate, (&v,)),
        ensures
            filter_view_ok(self.opt_view(), predicate, r),
    ;
}

impl<T, Lhs: Maybe<T>> MaybeFilter<T> for Lhs {
    fn filter<F: Fn(&T) -> bool>(self, predicate: F) -> (r: Option<T>) {
        match self.option() {
            Some(v) => {
                if predicate(&v) {
                    Some(v)
                } else {
                    None
                }
            },
            None => None,
        }
    }
}

} // verus!
