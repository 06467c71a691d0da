//! The reserved lifetime marker.

use vstd::prelude::*;

verus! {

/// A lifetime marker carried by the capability contracts.  It is reserved
/// for a future scoped-lifetime policy and has no resolution-time effect:
/// nothing is cached, pooled, or reused across resolutions.
#[derive(Clone, Copy, PartialEq, Eq, Structural, Debug)]
pub enum Scope {
    Scoped,
}

} // verus!
