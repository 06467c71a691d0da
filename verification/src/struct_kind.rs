//! The shape of a supported declaration.

use vstd::prelude::*;

use crate::derive_input::Field;

verus! {

/// The three product-type shapes the declaration layer generates code for.
pub enum StructKind {
    /// A struct with named fields.
    Named(Vec<Field>),
    /// A tuple struct with positional fields.
    Unnamed(Vec<Field>),
    /// A unit struct with no fields.
    Unit,
}

} // verus!
