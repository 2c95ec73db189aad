//! The XOR combinator: present exactly when exactly one operand is.

use vstd::prelude::*;
use crate::maybe::Maybe;

verus! {

/// The view of `a.xor(b)`: the one present operand's contents when exactly
/// one operand is present, else absent.
pub open spec fn xor_view<T>(a: Option<T>, b: Option<T>) -> Option<T> {
    match (a, b) {
        (Some(_), None) => a,
        (None, Some(_)) => b,
        _ => None,
    }
}

/// The XOR truth table: an exactly-one-present pair returns that one payload;
/// both-present and both-absent pairs return absent.
pub proof fn lemma_xor_table<T>(a: T, b: T)
    ensures
        xor_view(Some(a), None::<T>) == Some(a),
        xor_view(None::<T>, Some(b)) == Some(b),
        xor_view(Some(a), Some(b)) == None::<T>,
        xor_view(None::<T>, None::<T>) == None::<T>,
{
}

/// The result's presence follows the Boolean truth table applied to the
/// operands' presence.
pub proof fn lemma_xor_presence<T>(a: Option<T>, b: Option<T>)
    ensures
        xor_view(a, b) is Some <==> ((a is Some) != (b is Some)),
{
}

/// Pairwise XOR over any two carriers of the same payload type.
pub trait MaybeXor<T, Rhs: Maybe<T>>: Maybe<T> {
    /// The one present carrier's contents, if exactly one is present.
    fn xor(self, other: Rhs) -> (r: Option<T>)
        ensures
            r == xor_view(self.opt_view(), other.opt_view()),
    ;
}

impl<T, Lhs: Maybe<T>, Rhs: Maybe<T>> MaybeXor<T, Rhs> for Lhs {
    fn xor(self, other: Rhs) -> (r: Option<T>) {
        let rhs = other.option();
        match self.option() {
            Some(v) => {
                match rhs {
                    Some(_) => None,
                    None => Some(v),
                }
            },
            None => rhs,
        }
    }
}

} // verus!
