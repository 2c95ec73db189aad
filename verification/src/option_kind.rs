//! Classification of a carrier's presence: the two-valued kind derived from
//! `is_some`, together with the Boolean algebra of presence kinds that the
//! pairwise combinators follow.

use vstd::prelude::*;

verus! {

/// Whether a carrier holds a value.  Derived from a carrier, never stored.
#[derive(Clone, Copy, Debug, PartialEq, Eq, Structural)]
pub enum OptionKind {
    Absent,
    Present,
}

impl<T> From<&Option<T>> for OptionKind {
    /// The kind of an option value.
    fn from(option: &Option<T>) -> (r: Self) {
        if option.is_some() {
            OptionKind::Present
        } else {
            OptionKind::Absent
        }
    }
}

impl<T> vstd::std_specs::convert::FromSpecImpl<&Option<T>> for OptionKind {
    open spec fn obeys_from_spec() -> bool {
        true
    }

    open spec fn from_spec(t: &Option<T>) -> Self {
        OptionKind::kind_of(*t)
    }
}

impl OptionKind {
    /// The kind that classifies `option`.
    pub open spec fn kind_of<T>(option: Option<T>) -> Self {
        if option is Some {
            OptionKind::Present
        } else {
            OptionKind::Absent
        }
    }

    /// True if this is the present kind.
    pub fn is_some(self) -> (r: bool)
        ensures
            r == (self == OptionKind::Present),
    {
        matches!(self, OptionKind::Present)
    }

    /// True if this is the absent kind.
    pub fn is_none(self) -> (r: bool)
        ensures
            r == (self == OptionKind::Absent),
    {
        matches!(self, OptionKind::Absent)
    }

    /// The opposite presence kind.
    pub fn negate(self) -> (r: Self)
        ensures
            r == (if self == OptionKind::Present {
                OptionKind::Absent
            } else {
                OptionKind::Present
            }),
    {
        match self {
            OptionKind::Present => OptionKind::Absent,
            OptionKind::Absent => OptionKind::Present,
        }
    }

    /// Present exactly when both operands are present.
    pub fn and(self, rhs: Self) -> (r: Self)
        ensures
            r == OptionKind::Present <==> (self == OptionKind::Present && rhs == OptionKind::Present),
    {
        match self {
            OptionKind::Present => rhs,
            OptionKind::Absent => OptionKind::Absent,
        }
    }

    /// Present exactly when at least one operand is present.
    pub fn or(self, rhs: Self) -> (r: Self)
        ensures
            r == OptionKind::Present <==> (self == OptionKind::Present || rhs == OptionKind::Present),
    {
        match self {
            OptionKind::Present => OptionKind::Present,
            OptionKind::Absent => rhs,
        }
    }

    /// Present exactly when exactly one operand is present.
    pub fn xor(self, rhs: Self) -> (r: Self)
        ensures
            r == OptionKind::Present <==> ((self == OptionKind::Present) != (rhs == OptionKind::Present)),
    {
        match (self, rhs) {
            (OptionKind::Present, OptionKind::Absent) => OptionKind::Present,
            (OptionKind::Absent, OptionKind::Present) => OptionKind::Present,
            _ => OptionKind::Absent,
        }
    }

    /// The negation of [`OptionKind::and`].
    pub fn nand(self, rhs: Self) -> (r: Self)
        ensures
            r == OptionKind::Present <==> !(self == OptionKind::Present && rhs == OptionKind::Present),
    {
        self.and(rhs).negate()
    }

    /// The negation of [`OptionKind::or`].
    pub fn nor(self, rhs: Self) -> (r: Self)
        ensures
            r == OptionKind::Present <==> !(self == OptionKind::Present || rhs == OptionKind::Present),
    {
        self.or(rhs).negate()
    }

    /// The negation of [`OptionKind::xor`].
    pub fn xnor(self, rhs: Self) -> (r: Self)
        ensures
            r == OptionKind::Present <==> ((self == OptionKind::Present) == (rhs == OptionKind::Present)),
    {
        self.xor(rhs).negate()
    }
}

} // verus!
