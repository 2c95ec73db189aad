//! The pairwise combinators over carriers, stated over their option views.

pub mod and;
pub mod and_then;
pub mod filter;
pub mod or;
pub mod xor;
