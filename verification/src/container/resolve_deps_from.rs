//! The resolution engine: rules for producing a dependency aggregate.

use vstd::prelude::*;

use crate::container::Container;
use crate::container::Injectable;
use crate::container::resolution_of;

verus! {

/// A general contract for resolving dependency aggregates.
///
/// The engine has one rule per aggregate shape, each a distinct impl chosen
/// by the compiler, never at runtime:
/// - the empty aggregate `()` resolves trivially (base case);
/// - a constructible type standing alone resolves by resolving its own
///   aggregate and invoking its construction function (the recursive rule;
///   every `Injectable` impl carries it, see
///   [`Injectable::singleton_forwarding`]);
/// - a tuple of 2 to 8 element types resolves each element independently,
///   left to right, and combines the results positionally.
///
/// A missing or recursive dependency is a compile-time error instead of a
/// runtime failure.
pub trait ResolveDepsFrom<C>: Sized {
    /// The one aggregate value that resolution yields.  Resolution is pure,
    /// so this is a function of the aggregate shape alone.
    spec fn resolved_deps() -> Self;

    /// Produce the aggregate by recursion over its shape.
    fn resolve_deps(container: &C) -> (deps: Self)
        ensures
            deps == Self::resolved_deps(),
    ;
}

/// Base case: the constructed type has no dependencies.
impl ResolveDepsFrom<Container> for () {
    open spec fn resolved_deps() -> () {
        ()
    }

    #[inline(always)]
    fn resolve_deps(_container: &Container) -> () {
        ()
    }
}

/// Composition for two dependencies: each element is resolved through
/// the container, left to right by declared position, and the results are
/// combined positionally.
impl<A, B> ResolveDepsFrom<Container> for (A, B) where
    A: Injectable,
    B: Injectable,
    A::Deps: ResolveDepsFrom<Container>,
    B::Deps: ResolveDepsFrom<Container>,
 {
    open spec fn resolved_deps() -> (A, B) {
        (resolution_of::<A>(), resolution_of::<B>())
    }

    #[inline(always)]
    fn resolve_deps(container: &Container) -> (A, B) {
        (container.resolve::<A>(), container.resolve::<B>())
    }
}

/// Composition for three dependencies: each element is resolved through
/// the container, left to right by declared position, and the results are
/// combined positionally.
impl<A, B, C> ResolveDepsFrom<Container> for (A, B, C) where
    A: Injectable,
    B: Injectable,
    C: Injectable,
    A::Deps: ResolveDepsFrom<Container>,
    B::Deps: ResolveDepsFrom<Container>,
    C::Deps: ResolveDepsFrom<Container>,
 {
    open spec fn resolved_deps() -> (A, B, C) {
        (resolution_of::<A>(), resolution_of::<B>(), resolution_of::<C>())
    }

    #[inline(always)]
    fn resolve_deps(container: &Container) -> (A, B, C) {
        (container.resolve::<A>(), container.resolve::<B>(), container.resolve::<C>())
    }
}

/// Composition for four dependencies: each element is resolved through
/// the container, left to right by declared position, and the results are
/// combined positionally.
impl<A, B, C, D> ResolveDepsFrom<Container> for (A, B, C, D) where
    A: Injectable,
    B: Injectable,
    C: Injectable,
    D: Injectable,
    A::Deps: ResolveDepsFrom<Container>,
    B::Deps: ResolveDepsFrom<Container>,
    C::Deps: ResolveDepsFrom<Container>,
    D::Deps: ResolveDepsFrom<Container>,
 {
    open spec fn resolved_deps() -> (A, B, C, D) {
        (resolution_of::<A>(), resolution_of::<B>(), resolution_of::<C>(), resolution_of::<D>())
    }

    #[inline(always)]
    fn resolve_deps(container: &Container) -> (A, B, C, D) {
        (container.resolve::<A>(), container.resolve::<B>(), container.resolve::<C>(), container.resolve::<D>())
    }
}

/// Composition for five dependencies: each element is resolved through
/// the container, left to right by declared position, and the results are
/// combined positionally.
impl<A, B, C, D, E> ResolveDepsFrom<Container> for (A, B, C, D, E) where
    A: Injectable,
    B: Injectable,
    C: Injectable,
    D: Injectable,
    E: Injectable,
    A::Deps: ResolveDepsFrom<Container>,
    B::Deps: ResolveDepsFrom<Container>,
    C::Deps: ResolveDepsFrom<Container>,
    D::Deps: ResolveDepsFrom<Container>,
    E::Deps: ResolveDepsFrom<Container>,
 {
    open spec fn resolved_deps() -> (A, B, C, D, E) {
        (resolution_of::<A>(), resolution_of::<B>(), resolution_of::<C>(), resolution_of::<D>(), resolution_of::<E>())
    }

    #[inline(always)]
    fn resolve_deps(container: &Container) -> (A, B, C, D, E) {
        (container.resolve::<A>(), container.resolve::<B>(), container.resolve::<C>(), container.resolve::<D>(), container.resolve::<E>())
    }
}

/// Composition for six dependencies: each element is resolved through
/// the container, left to right by declared position, and the results are
/// combined positionally.
impl<A, B, C, D, E, F> ResolveDepsFrom<Container> for (A, B, C, D, E, F) where
    A: Injectable,
    B: Injectable,
    C: Injectable,
    D: Injectable,
    E: Injectable,
    F: Injectable,
    A::Deps: ResolveDepsFrom<Container>,
    B::Deps: ResolveDepsFrom<Container>,
    C::Deps: ResolveDepsFrom<Container>,
    D::Deps: ResolveDepsFrom<Container>,
    E::Deps: ResolveDepsFrom<Container>,
    F::Deps: ResolveDepsFrom<Container>,
 {
    open spec fn resolved_deps() -> (A, B, C, D, E, F) {
        (resolution_of::<A>(), resolution_of::<B>(), resolution_of::<C>(), resolution_of::<D>(), resolution_of::<E>(), resolution_of::<F>())
    }

    #[inline(always)]
    fn resolve_deps(container: &Container) -> (A, B, C, D, E, F) {
        (container.resolve::<A>(), container.resolve::<B>(), container.resolve::<C>(), container.resolve::<D>(), container.resolve::<E>(), container.resolve::<F>())
    }
}

/// Composition for seven dependencies: each element is resolved through
/// the container, left to right by declared position, and the results are
/// combined positionally.
impl<A, B, C, D, E, F, G> ResolveDepsFrom<Container> for (A, B, C, D, E, F, G) where
    A: Injectable,
    B: Injectable,
    C: Injectable,
    D: Injectable,
    E: Injectable,
    F: Injectable,
    G: Injectable,
    A::Deps: ResolveDepsFrom<Container>,
    B::Deps: ResolveDepsFrom<Container>,
    C::Deps: ResolveDepsFrom<Container>,
    D::Deps: ResolveDepsFrom<Container>,
    E::Deps: ResolveDepsFrom<Container>,
    F::Deps: ResolveDepsFrom<Container>,
    G::Deps: ResolveDepsFrom<Container>,
 {
    open spec fn resolved_deps() -> (A, B, C, D, E, F, G) {
        (resolution_of::<A>(), resolution_of::<B>(), resolution_of::<C>(), resolution_of::<D>(), resolution_of::<E>(), resolution_of::<F>(), resolution_of::<G>())
    }

    #[inline(always)]
    fn resolve_deps(container: &Container) -> (A, B, C, D, E, F, G) {
        (container.resolve::<A>(), container.resolve::<B>(), container.resolve::<C>(), container.resolve::<D>(), container.resolve::<E>(), container.resolve::<F>(), container.resolve::<G>())
    }
}

/// Composition for eight dependencies: each element is resolved through
/// the container, left to right by declared position, and the results are
/// combined positionally.
impl<A, B, C, D, E, F, G, H> ResolveDepsFrom<Container> for (A, B, C, D, E, F, G, H) where
    A: Injectable,
    B: Injectable,
    C: Injectable,
    D: Injectable,
    E: Injectable,
    F: Injectable,
    G: Injectable,
    H: Injectable,
    A::Deps: ResolveDepsFrom<Container>,
    B::Deps: ResolveDepsFrom<Container>,
    C::Deps: ResolveDepsFrom<Container>,
    D::Deps: ResolveDepsFrom<Container>,
    E::Deps: ResolveDepsFrom<Container>,
    F::Deps: ResolveDepsFrom<Container>,
    G::Deps: ResolveDepsFrom<Container>,
    H::Deps: ResolveDepsFrom<Container>,
 {
    open spec fn resolved_deps() -> (A, B, C, D, E, F, G, H) {
        (resolution_of::<A>(), resolution_of::<B>(), resolution_of::<C>(), resolution_of::<D>(), resolution_of::<E>(), resolution_of::<F>(), resolution_of::<G>(), resolution_of::<H>())
    }

    #[inline(always)]
    fn resolve_deps(container: &Container) -> (A, B, C, D, E, F, G, H) {
        (container.resolve::<A>(), container.resolve::<B>(), container.resolve::<C>(), container.resolve::<D>(), container.resolve::<E>(), container.resolve::<F>(), container.resolve::<G>(), container.resolve::<H>())
    }
}

} // verus!
