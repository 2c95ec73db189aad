//! Presence inspection shared by every runtime option object.

use vstd::prelude::*;
use crate::option_kind::OptionKind;

verus! {

/// An object that may hold a value, inspectable for its presence kind.
pub trait OptionObj {
    /// Whether the object currently holds a value.
    spec fn present(&self) -> bool;

    /// True if the object holds a value.
    fn is_some(&self) -> (r: bool)
        ensures
            r == self.present(),
    ;

    /// True if the object holds no value.
    fn is_none(&self) -> (r: bool)
        ensures
            r == !self.present(),
    {
        !self.is_some()
    }

    /// The presence kind that classifies the object.
    fn kind(&self) -> (r: OptionKind)
        ensures
            r == (if self.present() {
                OptionKind::Present
            } else {
                OptionKind::Absent
            }),
    {
        if self.is_some() {
            OptionKind::Present
        } else {
            OptionKind::Absent
        }
    }
}

impl<T> OptionObj for Option<T> {
    open spec fn present(&self) -> bool {
        *self is Some
    }

    fn is_some(&self) -> (r: bool) {
        matches!(self, Some(_))
    }
}

} // verus!
