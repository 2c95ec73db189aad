//! Carriers of optional values whose presence may be fixed at compile time.
//!
//! A *carrier* is any type that holds zero or one payload value: the ordinary
//! runtime [`Option`], a value that is always present, and the compile-time
//! flagged cells [`MaybeCell`](maybe_cell::MaybeCell) and
//! [`OptCell`](opt_cell::OptCell), whose presence is a constant boolean type
//! parameter.  Every carrier is seen in specifications as an `Option` of its
//! payload, and every operation's contract is stated over that view, so each
//! representation behaves exactly as a runtime option with the same contents.

pub mod maybe;
pub mod maybe_cell;
pub mod not_void;
pub mod ops;
pub mod opt_cell;
pub mod option_kind;
pub mod option_obj;
pub mod optional;
pub mod pure_maybe;
pub mod pure_static_maybe;
pub mod static_maybe;

pub use maybe::Maybe;
pub use maybe_cell::EmptyCell;
pub use maybe_cell::MaybeCell;
pub use not_void::NotVoid;
pub use opt_cell::OptCell;
pub use option_kind::OptionKind;
pub use option_obj::OptionObj;
pub use optional::Optional;
pub use pure_maybe::PureMaybe;
pub use pure_static_maybe::PureStaticMaybe;
pub use static_maybe::StaticMaybe;
pub use ops::and::MaybeAnd;
pub use ops::and_then::MaybeAndThen;
pub use ops::filter::MaybeFilter;
pub use ops::or::MaybeOr;
pub use ops::xor::MaybeXor;
