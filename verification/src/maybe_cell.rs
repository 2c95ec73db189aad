//! A compile-time flagged carrier, with an alias for its empty shape.
//!
//! [`MaybeCell<T, IS_SOME>`](MaybeCell) holds a value of type `T` exactly
//! when the constant flag `IS_SOME` is `true`, with the same invariant as
//! [`OptCell`](crate::opt_cell::OptCell): the flag and the contents always
//! agree, which only the matching constructor can establish.

use vstd::prelude::*;
use crate::maybe::Maybe;
use crate::static_maybe::StaticMaybe;
use crate::ops::and::and_view;
use crate::ops::and_then::and_then_view_ok;
use crate::ops::filter::filter_view_ok;
use crate::ops::or::or_view;
use crate::ops::xor::xor_view;

verus! {

/// A cell that contains a value of type `T` exactly when the constant
/// expression `IS_SOME` is `true`.
#[derive(Debug)]
pub struct MaybeCell<T, const IS_SOME: bool> {
    inner: Option<T>,
}

/// An alias for an empty [`MaybeCell`].
pub type EmptyCell<T> = MaybeCell<T, false>;

fn opt_unwrap_mut<T>(o: &mut Option<T>) -> (r: &mut T)
    requires
        (*old(o)) is Some,
    ensures
        *r == (*old(o))->0,
        *final(o) == Some(*final(r)),
    no_unwind
{
    match o {
        Some(v) => v,
        None => unreached(),
    }
}

fn opt_as_mut<T>(o: &mut Option<T>) -> (r: Option<&mut T>)
    ensures
        match *old(o) {
            Some(x) => {
                &&& r matches Some(m)
                &&& *m == x
                &&& *final(o) == Some(*final(r->0))
            },
            None => r is None && *final(o) is None,
        },
    no_unwind
{
    match o {
        Some(v) => Some(v),
        None => None,
    }
}

impl<T> MaybeCell<T, false> {
    /// Creates an empty cell.  Only flag-`false` cells have this constructor.
    pub fn none() -> (r: Self)
        ensures
            r.opt() is None,
    {
        MaybeCell { inner: None }
    }

    /// Creates an empty cell for payloads like those of `like`.
    pub fn none_like<const B: bool>(like: &MaybeCell<T, B>) -> (r: Self)
        ensures
            r.opt() is None,
    {
        let _ = like;
        Self::none()
    }

    /// Creates an empty cell for the same payload type as `like`.
    pub fn none_for(like: &T) -> (r: Self)
        ensures
            r.opt() is None,
    {
        let _ = like;
        Self::none()
    }
}

impl<T> MaybeCell<T, true> {
    /// Creates a cell that contains `value`.  Only flag-`true` cells have
    /// this constructor.
    pub fn some(value: T) -> (r: Self)
        ensures
            r.opt() == Some(value),
    {
        MaybeCell { inner: Some(value) }
    }

    /// Unwraps the cell into its value; a flag-`true` cell always holds one.
    pub fn into_value(self) -> (r: T)
        ensures
            Some(r) == self.opt(),
    {
        proof {
            use_type_invariant(&self);
        }
        match self.inner {
            Some(v) => v,
            None => unreached(),
        }
    }

    /// Borrows the cell's value; a flag-`true` cell always holds one.
    pub fn as_value(&self) -> (r: &T)
        ensures
            Some(*r) == self.opt(),
    {
        proof {
            use_type_invariant(self);
        }
        match &self.inner {
            Some(v) => v,
            None => unreached(),
        }
    }

    /// Mutably borrows the cell's value; a flag-`true` cell always holds one.
    pub fn as_value_mut(&mut self) -> (r: &mut T)
        ensures
            Some(*r) == old(self).opt(),
            final(self).opt() == Some(*final(r)),
    {
        proof {
            use_type_invariant(&*self);
        }
        opt_unwrap_mut(&mut self.inner)
    }
}

impl<T, const IS_SOME: bool> MaybeCell<T, IS_SOME> {
    /// The cell seen as an option of its payload.
    pub closed spec fn opt(self) -> Option<T> {
        self.inner
    }

    /// The flag and the contents always agree: a flag-`true` cell holds a
    /// value and a flag-`false` cell holds none.
    #[verifier::type_invariant]
    spec fn flag_matches_contents(self) -> bool {
        self.inner is Some <==> IS_SOME
    }

    /// Creates a cell from a functor; the functor runs exactly when the flag
    /// says the cell holds a value.
    pub fn from_fn<F: FnOnce() -> T>(func: F) -> (r: Self)
        requires
            IS_SOME ==> call_requires(func, ()),
        ensures
            r.opt() is Some <==> IS_SOME,
            IS_SOME ==> call_ensures(func, (), r.opt()->0),
    {
        if IS_SOME {
            MaybeCell { inner: Some(func()) }
        } else {
            MaybeCell { inner: None }
        }
    }

    /// Collapses the cell into a runtime option with the same contents.
    pub fn option(self) -> (r: Option<T>)
        ensures
            r == self.opt(),
            r is Some <==> IS_SOME,
    {
        proof {
            use_type_invariant(&self);
        }
        self.inner
    }

    /// Borrows the payload as a runtime option with the same presence.
    pub fn get(&self) -> (r: Option<&T>)
        ensures
            match r {
                Some(v) => self.opt() == Some(*v),
                None => self.opt() is None,
            },
            r is Some <==> IS_SOME,
    {
        proof {
            use_type_invariant(self);
        }
        self.inner.as_ref()
    }

    /// Mutably borrows the payload as a runtime option with the same presence.
    pub fn get_mut(&mut self) -> (r: Option<&mut T>)
        ensures
            match old(self).opt() {
                Some(x) => {
                    &&& r matches Some(m)
                    &&& *m == x
                    &&& final(self).opt() == Some(*final(r->0))
                },
                None => r is None && final(self).opt() is None,
            },
            r is Some <==> IS_SOME,
    {
        proof {
            use_type_invariant(&*self);
        }
        opt_as_mut(&mut self.inner)
    }

    /// Reports whether the cell holds a value; always equal to the flag.
    pub fn is_some(&self) -> (r: bool)
        ensures
            r == IS_SOME,
            r == (self.opt() is Some),
    {
        proof {
            use_type_invariant(self);
        }
        IS_SOME
    }

    /// Reports whether the cell is empty; always the flag's negation.
    pub fn is_none(&self) -> (r: bool)
        ensures
            r == !IS_SOME,
            r == (self.opt() is None),
    {
        proof {
            use_type_invariant(self);
        }
        !IS_SOME
    }

    /// A cell of the same flag borrowing this cell's payload.
    pub fn as_ref<'a>(&'a self) -> (r: MaybeCell<&'a T, IS_SOME>)
        ensures
            match r.opt() {
                Some(v) => self.opt() == Some(*v),
                None => self.opt() is None,
            },
    {
        proof {
            use_type_invariant(self);
        }
        MaybeCell { inner: self.inner.as_ref() }
    }

    /// A cell of the same flag mutably borrowing this cell's payload.
    pub fn as_mut<'a>(&'a mut self) -> (r: MaybeCell<&'a mut T, IS_SOME>)
        ensures
            match old(self).opt() {
                Some(x) => {
                    &&& r.opt() is Some
                    &&& *(r.opt()->0) == x
                    &&& final(self).opt() == Some(*final(r.opt()->0))
                },
                None => r.opt() is None && final(self).opt() is None,
            },
    {
        proof {
            use_type_invariant(&*self);
        }
        MaybeCell { inner: opt_as_mut(&mut self.inner) }
    }

    /// The payload as a slice: one element when present, empty when absent.
    pub fn as_slice(&self) -> (r: &[T])
        ensures
            r@ == (match self.opt() {
                Some(x) => seq![x],
                None => Seq::<T>::empty(),
            }),
    {
        proof {
            use_type_invariant(self);
        }
        let s = self.inner.as_slice();
        proof {
            assert(self.opt() is None ==> s@ =~= Seq::<T>::empty());
        }
        s
    }

    /// Returns the payload, or fails with `msg`; the flag must be `true`.
    pub fn expect(self, msg: &str) -> (r: T)
        requires
            IS_SOME,
        ensures
            Some(r) == self.opt(),
    {
        proof {
            use_type_invariant(&self);
        }
        let _ = msg;
        match self.inner {
            Some(v) => v,
            None => unreached(),
        }
    }

    /// Returns the payload; the flag must be `true`.
    pub fn unwrap(self) -> (r: T)
        requires
            IS_SOME,
        ensures
            Some(r) == self.opt(),
    {
        proof {
            use_type_invariant(&self);
        }
        match self.inner {
            Some(v) => v,
            None => unreached(),
        }
    }

    /// Borrows the payload; the flag must be `true`.
    pub fn unwrap_ref(&self) -> (r: &T)
        requires
            IS_SOME,
        ensures
            Some(*r) == self.opt(),
    {
        proof {
            use_type_invariant(self);
        }
        match &self.inner {
            Some(v) => v,
            None => unreached(),
        }
    }

    /// Mutably borrows the payload; the flag must be `true`.
    pub fn unwrap_mut(&mut self) -> (r: &mut T)
        requires
            IS_SOME,
        ensures
            Some(*r) == old(self).opt(),
            final(self).opt() == Some(*final(r)),
    {
        proof {
            use_type_invariant(&*self);
        }
        opt_unwrap_mut(&mut self.inner)
    }

    /// Returns the payload, or `default` if the cell is empty.
    pub fn unwrap_or(self, default: T) -> (r: T)
        ensures
            r == (match self.opt() {
                Some(v) => v,
                None => default,
            }),
    {
        proof {
            use_type_invariant(&self);
        }
        match self.inner {
            Some(v) => v,
            None => default,
        }
    }

    /// Returns the payload, or the result of `default` if the cell is empty.
    pub fn unwrap_or_else<F: FnOnce() -> T>(self, default: F) -> (r: T)
        requires
            !IS_SOME ==> call_requires(default, ()),
        ensures
            IS_SOME ==> Some(r) == self.opt(),
            !IS_SOME ==> call_ensures(default, (), r),
    {
        proof {
            use_type_invariant(&self);
        }
        match self.inner {
            Some(v) => v,
            None => default(),
        }
    }

    /// Returns the payload, or `T`'s default value if the cell is empty.
    pub fn unwrap_or_default(self) -> (r: T) where T: Default
        ensures
            IS_SOME ==> Some(r) == self.opt(),
            !IS_SOME ==> call_ensures(T::default, (), r),
    {
        proof {
            use_type_invariant(&self);
        }
        match self.inner {
            Some(v) => v,
            None => T::default(),
        }
    }

    /// Maps the payload into a cell of the same flag.
    pub fn map<U, F: FnOnce(T) -> U>(self, map: F) -> (r: MaybeCell<U, IS_SOME>)
        requires
            self.opt() matches Some(v) ==> call_requires(map, (v,)),
        ensures
            r.opt() is Some <==> IS_SOME,
            self.opt() matches Some(v) ==> call_ensures(map, (v,), r.opt()->0),
    {
        proof {
            use_type_invariant(&self);
        }
        match self.inner {
            Some(v) => MaybeCell { inner: Some(map(v)) },
            None => MaybeCell { inner: None },
        }
    }

    /// Maps the payload, or returns `default` if the cell is empty.
    pub fn map_or<U, F: FnOnce(T) -> U>(self, default: U, map: F) -> (r: U)
        requires
            self.opt() matches Some(v) ==> call_requires(map, (v,)),
        ensures
            match self.opt() {
                Some(v) => call_ensures(map, (v,), r),
                None => r == default,
            },
    {
        proof {
            use_type_invariant(&self);
        }
        match self.inner {
            Some(v) => map(v),
            None => default,
        }
    }

    /// Maps the payload, or returns the result of `default`.
    pub fn map_or_else<U, D: FnOnce() -> U, F: FnOnce(T) -> U>(self, default: D, map: F) -> (r: U)
        requires
            self.opt() matches Some(v) ==> call_requires(map, (v,)),
            !IS_SOME ==> call_requires(default, ()),
        ensures
            match self.opt() {
                Some(v) => call_ensures(map, (v,), r),
                None => call_ensures(default, (), r),
            },
    {
        proof {
            use_type_invariant(&self);
        }
        match self.inner {
            Some(v) => map(v),
            None => default(),
        }
    }

    /// `Ok` of the payload, or `Err(error)` if the cell is empty.
    pub fn ok_or<E>(self, error: E) -> (r: Result<T, E>)
        ensures
            r == (match self.opt() {
                Some(v) => Ok::<T, E>(v),
                None => Err::<T, E>(error),
            }),
            r is Ok <==> IS_SOME,
    {
        proof {
            use_type_invariant(&self);
        }
        match self.inner {
            Some(v) => Ok(v),
            None => Err(error),
        }
    }

    /// `Ok` of the payload, or `Err` of the result of `error`.
    pub fn ok_or_else<E, F: FnOnce() -> E>(self, error: F) -> (r: Result<T, E>)
        requires
            !IS_SOME ==> call_requires(error, ()),
        ensures
            self.opt() matches Some(v) ==> r == Ok::<T, E>(v),
            !IS_SOME ==> r is Err && call_ensures(error, (), r->Err_0),
            r is Ok <==> IS_SOME,
    {
        proof {
            use_type_invariant(&self);
        }
        match self.inner {
            Some(v) => Ok(v),
            None => Err(error()),
        }
    }

    /// The other carrier's contents if both are present, else absent.
    pub fn and<Rhs: Maybe<T>>(self, other: Rhs) -> (r: Option<T>)
        ensures
            r == and_view(self.opt(), other.opt_view()),
    {
        proof {
            use_type_invariant(&self);
        }
        match self.inner {
            Some(_) => other.option(),
            None => None,
        }
    }

    /// Feeds the payload to `and_then`, flattening the result's presence.
    pub fn and_then<U, F: FnOnce(T) -> Option<U>>(self, and_then: F) -> (r: Option<U>)
        requires
            self.opt() matches Some(v) ==> call_requires(and_then, (v,)),
        ensures
            and_then_view_ok(self.opt(), and_then, r),
    {
        proof {
            use_type_invariant(&self);
        }
        match self.inner {
            Some(v) => and_then(v),
            None => None,
        }
    }

    /// Keeps the payload only if `predicate` accepts it.
    pub fn filter<F: Fn(&T) -> bool>(self, predicate: F) -> (r: Option<T>)
        requires
            self.opt() matches Some(v) ==> call_requires(predicate, (&v,)),
        ensures
            filter_view_ok(self.opt(), predicate, r),
    {
        proof {
            use_type_invariant(&self);
        }
        match self.inner {
            Some(v) => {
                if predicate(&v) {
                    Some(v)
                } else {
                    None
                }
            },
            None => None,
        }
    }

    /// This cell's contents if present, else the other carrier's.
    pub fn or<Rhs: Maybe<T>>(self, other: Rhs) -> (r: Option<T>)
        ensures
            r == or_view(self.opt(), other.opt_view()),
    {
        proof {
            use_type_invariant(&self);
        }
        match self.inner {
            Some(v) => Some(v),
            None => other.option(),
        }
    }

    /// This cell's contents if present, else the result of `or_else`.
    pub fn or_else<Rhs: Maybe<T>, F: FnOnce() -> Rhs>(self, or_else: F) -> (r: Option<T>)
        requires
            !IS_SOME ==> call_requires(or_else, ()),
        ensures
            IS_SOME ==> r == self.opt(),
            !IS_SOME ==> exists|m: Rhs| call_ensures(or_else, (), m) && r == m.opt_view(),
    {
        proof {
            use_type_invariant(&self);
        }
        match self.inner {
            Some(v) => Some(v),
            None => or_else().option(),
        }
    }

    /// The one present carrier's contents, if exactly one is present.
    pub fn xor<Rhs: Maybe<T>>(self, other: Rhs) -> (r: Option<T>)
        ensures
            r == xor_view(self.opt(), other.opt_view()),
    {
        proof {
            use_type_invariant(&self);
        }
        let rhs = other.option();
        match self.inner {
            Some(v) => {
                match rhs {
                    Some(_) => None,
                    None => Some(v),
                }
            },
            None => rhs,
        }
    }
}

impl<'a, T, const IS_SOME: bool> MaybeCell<&'a T, IS_SOME> {
    /// A cell of the same flag holding a copy of the borrowed payload.
    pub fn copied(&self) -> (r: MaybeCell<T, IS_SOME>) where T: Copy
        ensures
            r.opt() == (match self.opt() {
                Some(v) => Some(*v),
                None => None::<T>,
            }),
    {
        proof {
            use_type_invariant(self);
        }
        match &self.inner {
            Some(v) => MaybeCell { inner: Some(**v) },
            None => MaybeCell { inner: None },
        }
    }

    /// A cell of the same flag holding a clone of the borrowed payload.
    pub fn cloned(&self) -> (r: MaybeCell<T, IS_SOME>) where T: Clone
        ensures
            r.opt() is Some <==> IS_SOME,
            self.opt() matches Some(v) ==> vstd::pervasive::cloned::<T>(*v, r.opt()->0),
    {
        proof {
            use_type_invariant(self);
        }
        match &self.inner {
            Some(v) => MaybeCell { inner: Some((*v).clone()) },
            None => MaybeCell { inner: None },
        }
    }
}

impl<T, const IS_SOME: bool> Maybe<T> for MaybeCell<T, IS_SOME> {
    open spec fn opt_view(&self) -> Option<T> {
        self.opt()
    }

    fn is_some(&self) -> (r: bool) {
        self.is_some()
    }

    fn is_none(&self) -> (r: bool) {
        self.is_none()
    }

    fn option(self) -> (r: Option<T>) {
        self.option()
    }

    fn option_ref(&self) -> (r: Option<&T>) {
        self.get()
    }

    fn expect(self, msg: &str) -> (r: T) {
        proof {
            use_type_invariant(&self);
        }
        let _ = msg;
        match self.inner {
            Some(v) => v,
            None => unreached(),
        }
    }

    fn unwrap(self) -> (r: T) {
        proof {
            use_type_invariant(&self);
        }
        match self.inner {
            Some(v) => v,
            None => unreached(),
        }
    }

    fn unwrap_ref(&self) -> (r: &T) {
        proof {
            use_type_invariant(self);
        }
        match &self.inner {
            Some(v) => v,
            None => unreached(),
        }
    }

    fn option_mut(&mut self) -> (r: Option<&mut T>) {
        proof {
            use_type_invariant(&*self);
        }
        opt_as_mut(&mut self.inner)
    }

    fn unwrap_mut(&mut self) -> (r: &mut T) {
        proof {
            use_type_invariant(&*self);
        }
        opt_unwrap_mut(&mut self.inner)
    }

    fn unwrap_ref_or<'a>(&'a self, default: &'a T) -> (r: &'a T) {
        proof {
            use_type_invariant(self);
        }
        match &self.inner {
            Some(v) => v,
            None => default,
        }
    }

    fn unwrap_ref_or_else<'a, F: FnOnce() -> &'a T>(&'a self, default: F) -> (r: &'a T) {
        proof {
            use_type_invariant(self);
        }
        match &self.inner {
            Some(v) => v,
            None => default(),
        }
    }

    fn unwrap_or(self, default: T) -> (r: T) {
        self.unwrap_or(default)
    }

    fn unwrap_or_else<F: FnOnce() -> T>(self, default: F) -> (r: T) {
        proof {
            use_type_invariant(&self);
        }
        match self.inner {
            Some(v) => v,
            None => default(),
        }
    }

    fn unwrap_or_default(self) -> (r: T) where T: Default {
        proof {
            use_type_invariant(&self);
        }
        match self.inner {
            Some(v) => v,
            None => T::default(),
        }
    }

    fn map<U, F: FnOnce(T) -> U>(self, map: F) -> (r: Option<U>) {
        proof {
            use_type_invariant(&self);
        }
        match self.inner {
            Some(v) => Some(map(v)),
            None => None,
        }
    }

    fn map_or<U, F: FnOnce(T) -> U>(self, default: U, map: F) -> (r: U) {
        self.map_or(default, map)
    }

    fn map_or_else<U, D: FnOnce() -> U, F: FnOnce(T) -> U>(self, default: D, map: F) -> (r: U) {
        proof {
            use_type_invariant(&self);
        }
        match self.inner {
            Some(v) => map(v),
            None => default(),
        }
    }

    fn ok_or<E>(self, error: E) -> (r: Result<T, E>) {
        self.ok_or(error)
    }

    fn ok_or_else<E, F: FnOnce() -> E>(self, error: F) -> (r: Result<T, E>) {
        proof {
            use_type_invariant(&self);
        }
        match self.inner {
            Some(v) => Ok(v),
            None => Err(error()),
        }
    }
}

impl<T, const IS_SOME: bool> StaticMaybe<T> for MaybeCell<T, IS_SOME> {
    open spec fn static_is_some() -> bool {
        IS_SOME
    }

    fn maybe_from_fn<F: FnOnce() -> T>(func: F) -> (r: Self) {
        Self::from_fn(func)
    }

    fn maybe_or_from_fn<V, M: FnOnce() -> V, O: FnOnce() -> V>(maybe: M, or: O) -> (r: V) {
        if IS_SOME {
            let _ = or;
            maybe()
        } else {
            let _ = maybe;
            or()
        }
    }

    fn into_value(self) -> (r: T) {
        proof {
            use_type_invariant(&self);
        }
        match self.inner {
            Some(v) => v,
            None => unreached(),
        }
    }

    fn as_value(&self) -> (r: &T) {
        proof {
            use_type_invariant(self);
        }
        match &self.inner {
            Some(v) => v,
            None => unreached(),
        }
    }

    fn as_value_mut(&mut self) -> (r: &mut T) {
        proof {
            use_type_invariant(&*self);
        }
        opt_unwrap_mut(&mut self.inner)
    }
}

impl<T> Default for MaybeCell<T, false> {
    /// The default cell of the empty shape holds nothing.
    fn default() -> (r: Self)
        ensures
            r.opt() is None,
    {
        Self::none()
    }
}

impl<T> From<T> for MaybeCell<T, true> {
    /// Wraps a value into the present shape.
    fn from(value: T) -> (r: Self) {
        Self::some(value)
    }
}

impl<T> vstd::std_specs::convert::FromSpecImpl<T> for MaybeCell<T, true> {
    open spec fn obeys_from_spec() -> bool {
        true
    }

    closed spec fn from_spec(t: T) -> Self {
        MaybeCell { inner: Some(t) }
    }
}

impl<T, const IS_SOME: bool> From<MaybeCell<T, IS_SOME>> for Option<T> {
    /// Collapses a cell into the runtime option with the same contents.
    fn from(value: MaybeCell<T, IS_SOME>) -> (r: Self) {
        value.option()
    }
}

impl<T, const IS_SOME: bool> vstd::std_specs::convert::FromSpecImpl<MaybeCell<T, IS_SOME>> for Option<T> {
    open spec fn obeys_from_spec() -> bool {
        true
    }

    open spec fn from_spec(t: MaybeCell<T, IS_SOME>) -> Self {
        t.opt()
    }
}

/// The round-trip law for the present shape: collapsing a flag-`true` cell
/// into its runtime option and wrapping that option's value anew reproduces
/// the cell's presence and contents.
pub fn round_trip_present<T>(cell: MaybeCell<T, true>) -> (r: MaybeCell<T, true>)
    ensures
        r.opt() == cell.opt(),
{
    let opt = cell.option();
    MaybeCell::some(opt.unwrap())
}

/// The round-trip law for the absent shape: collapsing a flag-`false` cell
/// into its runtime option and constructing the empty cell anew reproduces
/// the cell's absence.
pub fn round_trip_absent<T>(cell: MaybeCell<T, false>) -> (r: MaybeCell<T, false>)
    ensures
        r.opt() == cell.opt(),
        r.opt() is None,
{
    let opt = cell.option();
    let _ = opt;
    MaybeCell::none()
}

} // verus!
