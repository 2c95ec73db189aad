//! The OR combinator: the first present operand wins.

use vstd::prelude::*;
use crate::maybe::Maybe;

verus! {

/// The view of `a.or(b)`: `a`'s contents when present, else `b`'s.
///
/// When both operands are present the left operand's payload is the one kept.
pub open spec fn or_view<T>(a: Option<T>, b: Option<T>) -> Option<T> {
    match a {
        Some(_) => a,
        None => b,
    }
}

/// The OR truth table: the result is the left operand's payload when the left
/// operand is present, the right operand's payload when only the right is
/// present, and absent when both are absent.
pub proof fn lemma_or_table<T>(a: T, b: T)
    ensures
        or_view(Some(a), Some(b)) == Some(a),
        or_view(Some(a), None::<T>) == Some(a),
        or_view(None::<T>, Some(b)) == Some(b),
        or_view(None::<T>, None::<T>) == None::<T>,
{
}

/// The result's presence follows the Boolean truth table applied to the
/// operands' presence.
pub proof fn lemma_or_presence<T>(a: Option<T>, b: Option<T>)
    ensures
        or_view(a, b) is Some <==> (a is Some || b is Some),
{
}

/// Pairwise OR over any two carriers of the same payload type.
pub trait MaybeOr<T, Rhs: Maybe<T>>: Maybe<T> {
    /// The first present carrier's contents, else absent.
    fn or(self, other: Rhs) -> (r: Option<T>)
        ensures
            r == or_view(self.opt_view(), other.opt_view()),
    ;

    /// The left carrier's contents if present, else the result of `or_else`.
    fn or_else<F: FnOnce() -> Rhs>(self, or_else: F) -> (r: Option<T>)
        requires
            self.opt_view() is None ==> call_requires(or_else, ()),
        ensures
            self.opt_view() is Some ==> r == self.opt_view(),
            self.opt_view() is None ==> exists|m: Rhs|
                call_ensures(or_else, (), m) && r == m.opt_view(),
    ;
}

impl<T, Lhs: Maybe<T>, Rhs: Maybe<T>> MaybeOr<T, Rhs> for Lhs {
    fn or(self, other: Rhs) -> (r: Option<T>) {
        match self.option() {
            Some(v) => Some(v),
            None => other.option(),
        }
    }

    fn or_else<F: FnOnce() -> Rhs>(self, or_else: F) -> (r: Option<T>) {
        match self.option() {
            Some(v) => Some(v),
            None => or_else().option(),
        }
    }
}

} // verus!
