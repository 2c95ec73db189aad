//! The common interface of every optional-value carrier.
//!
//! A carrier views as an [`Option`] of its payload through
//! [`Maybe::opt_view`]; every operation's contract is stated over that view.
//! The central law is representation parity: each operation behaves exactly
//! as the same operation on a runtime option holding the same contents.

use vstd::prelude::*;
verus! {

/// The uniform read/inspect/transform interface over every carrier kind.
pub trait Maybe<T>: Sized {
    /// The carrier seen as an option of its payload.
    spec fn opt_view(&self) -> Option<T>;

    /// True if the carrier holds a value.
    fn is_some(&self) -> (r: bool)
        ensures
            r == (self.opt_view() is Some),
    ;

    /// True if the carrier holds no value.
    fn is_none(&self) -> (r: bool)
        ensures
            r == (self.opt_view() is None),
    ;

    /// Collapses the carrier into a runtime option with the same contents.
    fn option(self) -> (r: Option<T>)
        ensures
            r == self.opt_view(),
    ;

    /// Borrows the payload as a runtime option with the same presence.
    fn option_ref(&self) -> (r: Option<&T>)
        ensures
            match r {
                Some(v) => self.opt_view() == Some(*v),
                None => self.opt_view() is None,
            },
    ;

    /// Returns the payload; the carrier must be known to hold one.
    fn expect(self, msg: &str) -> (r: T)
        requires
            self.opt_view() is Some,
        ensures
            Some(r) == self.opt_view(),
    ;

    /// Returns the payload; the carrier must be known to hold one.
    fn unwrap(self) -> (r: T)
        requires
            self.opt_view() is Some,
        ensures
            Some(r) == self.opt_view(),
    ;

    /// Borrows the payload; the carrier must be known to hold one.
    fn unwrap_ref(&self) -> (r: &T)
        requires
            self.opt_view() is Some,
        ensures
            Some(*r) == self.opt_view(),
    ;

    /// Mutably borrows the payload as a runtime option with the same presence.
    fn option_mut(&mut self) -> (r: Option<&mut T>)
        ensures
            match (*old(self)).opt_view() {
                Some(x) => {
                    &&& r is Some
                    &&& *(r->0) == x
                    &&& (*final(self)).opt_view() == Some(*final(r->0))
                },
                None => r is None && (*final(self)).opt_view() is None,
            },
    ;

    /// Mutably borrows the payload; the carrier must be known to hold one.
    fn unwrap_mut(&mut self) -> (r: &mut T)
        requires
            (*old(self)).opt_view() is Some,
        ensures
            Some(*r) == (*old(self)).opt_view(),
            (*final(self)).opt_view() == Some(*final(r)),
    ;

    /// Borrows the payload, or `default` if the carrier is empty.
    fn unwrap_ref_or<'a>(&'a self, default: &'a T) -> (r: &'a T)
        ensures
            *r == (match self.opt_view() {
                Some(v) => v,
                None => *default,
            }),
    ;

    /// Borrows the payload, or the result of `default` if the carrier is empty.
    fn unwrap_ref_or_else<'a, F: FnOnce() -> &'a T>(&'a self, default: F) -> (r: &'a T)
        requires
            self.opt_view() is None ==> call_requires(default, ()),
        ensures
            self.opt_view() matches Some(v) ==> *r == v,
            self.opt_view() is None ==> call_ensures(default, (), r),
    ;

    /// Returns the payload, or `default` if the carrier is empty.
    fn unwrap_or(self, default: T) -> (r: T)
        ensures
            r == (match self.opt_view() {
                Some(v) => v,
                None => default,
            }),
    ;

    /// Returns the payload, or the result of `default` if the carrier is empty.
    fn unwrap_or_else<F: FnOnce() -> T>(self, default: F) -> (r: T)
        requires
            self.opt_view() is None ==> call_requires(default, ()),
        ensures
            self.opt_view() is Some ==> Some(r) == self.opt_view(),
            self.opt_view() is None ==> call_ensures(default, (), r),
    ;

    /// Returns the payload, or `T`'s default value if the carrier is empty.
    fn unwrap_or_default(self) -> (r: T)
        where T: Default
        ensures
            self.opt_view() is Some ==> Some(r) == self.opt_view(),
            self.opt_view() is None ==> call_ensures(T::default, (), r),
    ;

    /// Applies `map` to the payload, keeping the carrier's presence.
    fn map<U, F: FnOnce(T) -> U>(self, map: F) -> (r: Option<U>)
        requires
            self.opt_view() matches Some(v) ==> call_requires(map, (v,)),
        ensures
            r is Some <==> self.opt_view() is Some,
            self.opt_view() matches Some(v) ==> call_ensures(map, (v,), r->0),
    ;

    /// Applies `map` to the payload, or returns `default` if the carrier is empty.
    fn map_or<U, F: FnOnce(T) -> U>(self, default: U, map: F) -> (r: U)
        requires
            self.opt_view() matches Some(v) ==> call_requires(map, (v,)),
        ensures
            match self.opt_view() {
                Some(v) => call_ensures(map, (v,), r),
                None => r == default,
            },
    ;

    /// Applies `map` to the payload, or returns the result of `default`.
    fn map_or_else<U, D: FnOnce() -> U, F: FnOnce(T) -> U>(self, default: D, map: F) -> (r: U)
        requires
            self.opt_view() matches Some(v) ==> call_requires(map, (v,)),
            self.opt_view() is None ==> call_requires(default, ()),
        ensures
            match self.opt_view() {
                Some(v) => call_ensures(map, (v,), r),
                None => call_ensures(default, (), r),
            },
    ;

    /// `Ok` of the payload, or `Err(error)` if the carrier is empty.
    fn ok_or<E>(self, error: E) -> (r: Result<T, E>)
        ensures
            r == (match self.opt_view() {
                Some(v) => Ok::<T, E>(v),
                None => Err::<T, E>(error),
            }),
    ;

    /// `Ok` of the payload, or `Err` of the result of `error`.
    fn ok_or_else<E, F: FnOnce() -> E>(self, error: F) -> (r: Result<T, E>)
        requires
            self.opt_view() is None ==> call_requires(error, ()),
        ensures
            self.opt_view() matches Some(v) ==> r == Ok::<T, E>(v),
            self.opt_view() is None ==> r is Err && call_ensures(error, (), r->Err_0),
    ;

}

impl<T> Maybe<T> for Option<T> {
    open spec fn opt_view(&self) -> Option<T> {
        *self
    }

    fn is_some(&self) -> (r: bool) {
        matches!(self, Some(_))
    }

    fn is_none(&self) -> (r: bool) {
        matches!(self, None)
    }

    fn option(self) -> (r: Option<T>) {
        self
    }

    fn option_ref(&self) -> (r: Option<&T>) {
        self.as_ref()
    }

    fn expect(self, msg: &str) -> (r: T) {
        match self {
            Some(v) => v,
            None => unreached(),
        }
    }

    fn unwrap(self) -> (r: T) {
        match self {
            Some(v) => v,
            None => unreached(),
        }
    }

    fn unwrap_ref(&self) -> (r: &T) {
        match self {
            Some(v) => v,
            None => unreached(),
        }
    }

    fn option_mut(&mut self) -> (r: Option<&mut T>) {
        match self {
            Some(v) => Some(v),
            None => None,
        }
    }

    fn unwrap_mut(&mut self) -> (r: &mut T) {
        match self {
            Some(v) => v,
            None => unreached(),
        }
    }

    fn unwrap_ref_or<'a>(&'a self, default: &'a T) -> (r: &'a T) {
        match self {
            Some(v) => v,
            None => default,
        }
    }

    fn unwrap_ref_or_else<'a, F: FnOnce() -> &'a T>(&'a self, default: F) -> (r: &'a T) {
        match self {
            Some(v) => v,
            None => default(),
        }
    }

    fn unwrap_or(self, default: T) -> (r: T) {
        match self {
            Some(v) => v,
            None => default,
        }
    }

    fn unwrap_or_else<F: FnOnce() -> T>(self, default: F) -> (r: T) {
        match self {
            Some(v) => v,
            None => default(),
        }
    }

    fn unwrap_or_default(self) -> (r: T) where T: Default {
        match self {
            Some(v) => v,
            None => T::default(),
        }
    }

    fn map<U, F: FnOnce(T) -> U>(self, map: F) -> (r: Option<U>) {
        match self {
            Some(v) => Some(map(v)),
            None => None,
        }
    }

    fn map_or<U, F: FnOnce(T) -> U>(self, default: U, map: F) -> (r: U) {
        match self {
            Some(v) => map(v),
            None => default,
        }
    }

    fn map_or_else<U, D: FnOnce() -> U, F: FnOnce(T) -> U>(self, default: D, map: F) -> (r: U) {
        match self {
            Some(v) => map(v),
            None => default(),
        }
    }

    fn ok_or<E>(self, error: E) -> (r: Result<T, E>) {
        match self {
            Some(v) => Ok(v),
            None => Err(error),
        }
    }

    fn ok_or_else<E, F: FnOnce() -> E>(self, error: F) -> (r: Result<T, E>) {
        match self {
            Some(v) => Ok(v),
            None => Err(error()),
        }
    }
}

/// A bare value is the carrier that always holds a payload.
impl<T> Maybe<T> for T {
    open spec fn opt_view(&self) -> Option<T> {
        Some(*self)
    }

    fn is_some(&self) -> (r: bool) {
        true
    }

    fn is_none(&self) -> (r: bool) {
        false
    }

    fn option(self) -> (r: Option<T>) {
        Some(self)
    }

    fn option_ref(&self) -> (r: Option<&T>) {
        Some(self)
    }

    fn expect(self, msg: &str) -> (r: T) {
        self
    }

    fn unwrap(self) -> (r: T) {
        self
    }

    fn unwrap_ref(&self) -> (r: &T) {
        self
    }

    fn option_mut(&mut self) -> (r: Option<&mut T>) {
        Some(self)
    }

    fn unwrap_mut(&mut self) -> (r: &mut T) {
        self
    }

    fn unwrap_ref_or<'a>(&'a self, default: &'a T) -> (r: &'a T) {
        self
    }

    fn unwrap_ref_or_else<'a, F: FnOnce() -> &'a T>(&'a self, default: F) -> (r: &'a T) {
        self
    }

    fn unwrap_or(self, default: T) -> (r: T) {
        self
    }

    fn unwrap_or_else<F: FnOnce() -> T>(self, default: F) -> (r: T) {
        self
    }

    fn unwrap_or_default(self) -> (r: T) where T: Default {
        self
    }

    fn map<U, F: FnOnce(T) -> U>(self, map: F) -> (r: Option<U>) {
        Some(map(self))
    }

    fn map_or<U, F: FnOnce(T) -> U>(self, default: U, map: F) -> (r: U) {
        map(self)
    }

    fn map_or_else<U, D: FnOnce() -> U, F: FnOnce(T) -> U>(self, default: D, map: F) -> (r: U) {
        map(self)
    }

    fn ok_or<E>(self, error: E) -> (r: Result<T, E>) {
        Ok(self)
    }

    fn ok_or_else<E, F: FnOnce() -> E>(self, error: F) -> (r: Result<T, E>) {
        Ok(self)
    }
}

/// Representation parity for present carriers: a bare value and a present
/// runtime option of the same payload view identically, as `Some` of that
/// payload.  Every operation's contract is a function of this view alone, so
/// the present carrier kinds are indistinguishable through the interface;
/// the flag-`true` cells share the same view by their constructors'
/// contracts.
pub proof fn lemma_representation_parity<T>(v: T)
    ensures
        Maybe::<T>::opt_view(&v) == Some(v),
        Maybe::<T>::opt_view(&Some(v)) == Some(v),
{
}

/// Absence parity: an absent runtime option views as `None`, the same view
/// that the flag-`false` cells' constructors establish, so the absent
/// carrier kinds are indistinguishable through the interface.
pub proof fn lemma_absence_parity<T>()
    ensures
        Maybe::<T>::opt_view(&None::<T>) is None,
{
}

} // verus!
