//! The runtime-managed carrier: in-place manipulation of an option object.
//!
//! Only the runtime option implements this trait; its presence can change
//! over a value's lifetime, which no compile-time shape allows.

use vstd::prelude::*;

verus! {

/// In-place construction, insertion, replacement and removal of a runtime
/// option's payload.
pub trait Optional: Sized {
    /// The payload type that may or may not be stored.
    type Item;

    /// The object seen as an option of its payload.
    spec fn stored(&self) -> Option<Self::Item>;

    /// Creates an object holding `value`.
    fn some(value: Self::Item) -> (r: Self)
        ensures
            r.stored() == Some(value),
    ;

    /// Creates an empty object.
    fn none() -> (r: Self)
        ensures
            r.stored() is None,
    ;

    /// Stores `value`, dropping any previous payload, and returns a mutable
    /// reference to the stored payload.
    fn insert(&mut self, value: Self::Item) -> (r: &mut Self::Item)
        ensures
            *r == value,
            final(self).stored() == Some(*final(r)),
    ;

    /// Stores `value` only if empty, and returns a mutable reference to the
    /// stored payload.
    fn get_or_insert(&mut self, value: Self::Item) -> (r: &mut Self::Item)
        ensures
            *r == (match old(self).stored() {
                Some(x) => x,
                None => value,
            }),
            final(self).stored() == Some(*final(r)),
    ;

    /// Stores the payload type's default value only if empty, and returns a
    /// mutable reference to the stored payload.
    fn get_or_insert_default(&mut self) -> (r: &mut Self::Item) where Self::Item: Default
        ensures
            old(self).stored() matches Some(x) ==> *r == x,
            old(self).stored() is None ==> call_ensures(Self::Item::default, (), *r),
            final(self).stored() == Some(*final(r)),
    ;

    /// Stores the result of `insert` only if empty, and returns a mutable
    /// reference to the stored payload.
    fn get_or_insert_with<F: FnOnce() -> Self::Item>(&mut self, insert: F) -> (r:
        &mut Self::Item)
        requires
            old(self).stored() is None ==> call_requires(insert, ()),
        ensures
            old(self).stored() matches Some(x) ==> *r == x,
            old(self).stored() is None ==> call_ensures(insert, (), *r),
            final(self).stored() == Some(*final(r)),
    ;

    /// Removes and returns the contents, leaving the object empty.
    fn take(&mut self) -> (r: Self)
        ensures
            r.stored() == old(self).stored(),
            final(self).stored() is None,
    ;

    /// Removes and returns the contents only if the predicate accepts the
    /// payload; otherwise the object keeps its payload.
    fn take_if<P: Fn(&Self::Item) -> bool>(&mut self, predicate: P) -> (r: Self)
        requires
            old(self).stored() matches Some(v) ==> call_requires(predicate, (&v,)),
        ensures
            old(self).stored() is None ==> r.stored() is None && final(self).stored() is None,
            old(self).stored() matches Some(v) ==> {
                ||| (call_ensures(predicate, (&v,), true) && r.stored() == Some(v)
                    && final(self).stored() is None)
                ||| (call_ensures(predicate, (&v,), false) && r.stored() is None
                    && final(self).stored() == Some(v))
            },
    ;

    /// Stores `value` and returns the previous contents.
    fn replace(&mut self, value: Self::Item) -> (r: Self)
        ensures
            r.stored() == old(self).stored(),
            final(self).stored() == Some(value),
    ;
}

impl<T> Optional for Option<T> {
    type Item = T;

    open spec fn stored(&self) -> Option<T> {
        *self
    }

    fn some(value: T) -> (r: Self) {
        Some(value)
    }

    fn none() -> (r: Self) {
        None
    }

    fn insert(&mut self, value: T) -> (r: &mut T) {
        Option::insert(self, value)
    }

    fn get_or_insert(&mut self, value: T) -> (r: &mut T) {
        Option::get_or_insert(self, value)
    }

    fn get_or_insert_default(&mut self) -> (r: &mut T) where T: Default {
        if self.is_none() {
            *self = Some(T::default());
        }
        match self {
            Some(v) => v,
            None => unreached(),
        }
    }

    fn get_or_insert_with<F: FnOnce() -> T>(&mut self, insert: F) -> (r: &mut T) {
        if self.is_none() {
            *self = Some(insert());
        }
        match self {
            Some(v) => v,
            None => unreached(),
        }
    }

    fn take(&mut self) -> (r: Self) {
        Option::take(self)
    }

    fn take_if<P: Fn(&T) -> bool>(&mut self, predicate: P) -> (r: Self) {
        let taken = Option::take(self);
        match taken {
            Some(v) => {
                if predicate(&v) {
                    Some(v)
                } else {
                    *self = Some(v);
                    None
                }
            },
            None => None,
        }
    }

    fn replace(&mut self, value: T) -> (r: Self) {
        let r = Option::take(self);
        *self = Some(value);
        r
    }
}

} // verus!
