//! The constructibility contract.

use vstd::prelude::*;

use crate::container::Container;
use crate::container::ResolveDepsFrom;
use crate::container::scope::Scope;

verus! {

/// Marks a type as constructible via dependency injection.
///
/// A constructible type declares a fixed dependency aggregate shape
/// (`Deps`: the unit type for no dependencies, a single type for one, or a
/// tuple of 2 to 8 types) and a construction function `inject` mapping one
/// instance of that aggregate to one instance of the type.  The contract is
/// infallible by design: a graph either type-checks, or the program does
/// not compile.  In particular, a recursive dependency cannot be written
/// down as a finite `Deps` shape, so cyclic graphs are rejected at compile
/// time.
pub trait Injectable: Sized {
    /// The declared dependency aggregate shape, fixed per type.
    type Deps;

    /// Reserved lifetime marker; no resolution-time effect.
    const SCOPE: Scope = Scope::Scoped;

    /// The value `inject` builds from a given dependency aggregate.
    spec fn inject_spec(deps: Self::Deps) -> Self;

    /// Build one instance of `Self` from one instance of its dependency
    /// aggregate.  Construction is pure: the result is a function of the
    /// aggregate alone.
    fn inject(deps: Self::Deps) -> (r: Self)
        ensures
            r == Self::inject_spec(deps),
    ;

    /// Singleton forwarding, the recursive rule of the resolution engine:
    /// whenever a constructible type stands alone as a dependency, resolving
    /// it must mean resolving its own dependency aggregate and then invoking
    /// its construction function.  Each implementation discharges this
    /// obligation, so the rule holds of every type in the graph.
    proof fn singleton_forwarding() where
        Self: ResolveDepsFrom<Container>,
        Self::Deps: ResolveDepsFrom<Container>,

        ensures
            <Self as ResolveDepsFrom<Container>>::resolved_deps() == Self::inject_spec(
                <Self::Deps as ResolveDepsFrom<Container>>::resolved_deps(),
            ),
    ;
}

} // verus!
