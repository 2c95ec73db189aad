//! The AND combinator: present exactly when both operands are, yielding the
//! right operand's payload.

use vstd::prelude::*;
use crate::maybe::Maybe;

verus! {

/// The view of `a.and(b)`: `b`'s contents when `a` is present, else absent.
///
/// When both operands are present the right operand's payload is the one
/// kept; the left payload is discarded.
pub open spec fn and_view<T>(a: Option<T>, b: Option<T>) -> Option<T> {
    match a {
        Some(_) => b,
        None => None,
    }
}

/// The AND truth table: the result is the right operand's payload when both
/// operands are present, and absent when either operand is absent.
pub proof fn lemma_and_table<T>(a: T, b: T)
    ensures
        and_view(Some(a), Some(b)) == Some(b),
        and_view(Some(a), None::<T>) == None::<T>,
        and_view(None::<T>, Some(b)) == None::<T>,
        and_view(None::<T>, None::<T>) == None::<T>,
{
}

/// The result's presence follows the Boolean truth table applied to the
/// operands' presence.
pub proof fn lemma_and_presence<T>(a: Option<T>, b: Option<T>)
    ensures
        and_view(a, b) is Some <==> (a is Some && b is Some),
{
}

/// Pairwise AND over any two carriers of the same payload type.
pub trait MaybeAnd<T, Rhs: Maybe<T>>: Maybe<T> {
    /// The right carrier's contents if both carriers are present, else absent.
    fn and(self, other: Rhs) -> (r: Option<T>)
        ensures
            r == and_view(self.opt_view(), other.opt_view()),
    ;
}

impl<T, Lhs: Maybe<T>, Rhs: Maybe<T>> MaybeAnd<T, Rhs> for Lhs {
    fn and(self, other: Rhs) -> (r: Option<T>) {
        if self.is_some() {
            other.option()
        } else {
            None
        }
    }
}

} // verus!
