//! Laws of the resolution engine, stated and proved once for every type
//! that takes part in it.

use vstd::prelude::*;

use crate::container::Container;
use crate::container::Injectable;
use crate::container::ResolveDepsFrom;
use crate::container::resolution_of;

verus! {

/// Law: a constructible type with an empty dependency aggregate resolves to
/// exactly the value its construction function builds from `()`, with no
/// other inputs.
pub proof fn lemma_empty_aggregate_resolution<T>() where
    T: Injectable<Deps = ()>,

    ensures
        resolution_of::<T>() == T::inject_spec(()),
{
}

/// Law: resolving a constructible type with exactly one dependency type `A`
/// is equivalent to building it from the resolution of `A`.  Applied level
/// by level, this covers dependency chains of any depth.
pub proof fn lemma_singleton_resolution<T, A>() where
    T: Injectable<Deps = A>,
    A: Injectable + ResolveDepsFrom<Container>,
    A::Deps: ResolveDepsFrom<Container>,

    ensures
        resolution_of::<T>() == T::inject_spec(resolution_of::<A>()),
{
    A::singleton_forwarding();
}

/// Law: resolution is deterministic, so two resolutions of the same type
/// with no shared mutable state between them produce equal values.
pub proof fn lemma_resolution_deterministic<T>(first: T, second: T) where
    T: Injectable,
    T::Deps: ResolveDepsFrom<Container>,

    requires
        first == resolution_of::<T>(),
        second == resolution_of::<T>(),
    ensures
        first == second,
{
}

/// Law: an aggregate of two element types resolves each element in
/// declared order, left to right, and places each result at its declared
/// position.
pub proof fn lemma_aggregate_order_2<A, B>() where
    A: Injectable,
    B: Injectable,
    A::Deps: ResolveDepsFrom<Container>,
    B::Deps: ResolveDepsFrom<Container>,

    ensures
        <(A, B) as ResolveDepsFrom<Container>>::resolved_deps() == ((resolution_of::<A>(),
            resolution_of::<B>(),
        )),
{
}

/// Law: an aggregate of three element types resolves each element in
/// declared order, left to right, and places each result at its declared
/// position.
pub proof fn lemma_aggregate_order_3<A, B, C>() where
    A: Injectable,
    B: Injectable,
    C: Injectable,
    A::Deps: ResolveDepsFrom<Container>,
    B::Deps: ResolveDepsFrom<Container>,
    C::Deps: ResolveDepsFrom<Container>,

    ensures
        <(A, B, C) as ResolveDepsFrom<Container>>::resolved_deps() == ((resolution_of::<A>(),
            resolution_of::<B>(),
            resolution_of::<C>(),
        )),
{
}

/// Law: an aggregate of four element types resolves each element in
/// declared order, left to right, and places each result at its declared
/// position.
pub proof fn lemma_aggregate_order_4<A, B, C, D>() where
    A: Injectable,
    B: Injectable,
    C: Injectable,
    D: Injectable,
    A::Deps: ResolveDepsFrom<Container>,
    B::Deps: ResolveDepsFrom<Container>,
    C::Deps: ResolveDepsFrom<Container>,
    D::Deps: ResolveDepsFrom<Container>,

    ensures
        <(A, B, C, D) as ResolveDepsFrom<Container>>::resolved_deps() == ((resolution_of::<A>(),
            resolution_of::<B>(),
            resolution_of::<C>(),
            resolution_of::<D>(),
        )),
{
}

/// Law: an aggregate of five element types resolves each element in
/// declared order, left to right, and places each result at its declared
/// position.
pub proof fn lemma_aggregate_order_5<A, B, C, D, E>() where
    A: Injectable,
    B: Injectable,
    C: Injectable,
    D: Injectable,
    E: Injectable,
    A::Deps: ResolveDepsFrom<Container>,
    B::Deps: ResolveDepsFrom<Container>,
    C::Deps: ResolveDepsFrom<Container>,
    D::Deps: ResolveDepsFrom<Container>,
    E::Deps: ResolveDepsFrom<Container>,

    ensures
        <(A, B, C, D, E) as ResolveDepsFrom<Container>>::resolved_deps() == ((resolution_of::<A>(),
            resolution_of::<B>(),
            resolution_of::<C>(),
            resolution_of::<D>(),
            resolution_of::<E>(),
        )),
{
}

/// Law: an aggregate of six element types resolves each element in
/// declared order, left to right, and places each result at its declared
/// position.
pub proof fn lemma_aggregate_order_6<A, B, C, D, E, F>() where
    A: Injectable,
    B: Injectable,
    C: Injectable,
    D: Injectable,
    E: Injectable,
    F: Injectable,
    A::Deps: ResolveDepsFrom<Container>,
    B::Deps: ResolveDepsFrom<Container>,
    C::Deps: ResolveDepsFrom<Container>,
    D::Deps: ResolveDepsFrom<Container>,
    E::Deps: ResolveDepsFrom<Container>,
    F::Deps: ResolveDepsFrom<Container>,

    ensures
        <(A, B, C, D, E, F) as ResolveDepsFrom<Container>>::resolved_deps() == ((resolution_of::<A>(),
            resolution_of::<B>(),
            resolution_of::<C>(),
            resolution_of::<D>(),
            resolution_of::<E>(),
            resolution_of::<F>(),
        )),
{
}

/// Law: an aggregate of seven element types resolves each element in
/// declared order, left to right, and places each result at its declared
/// position.
pub proof fn lemma_aggregate_order_7<A, B, C, D, E, F, G>() where
    A: Injectable,
    B: Injectable,
    C: Injectable,
    D: Injectable,
    E: Injectable,
    F: Injectable,
    G: Injectable,
    A::Deps: ResolveDepsFrom<Container>,
    B::Deps: ResolveDepsFrom<Container>,
    C::Deps: ResolveDepsFrom<Container>,
    D::Deps: ResolveDepsFrom<Container>,
    E::Deps: ResolveDepsFrom<Container>,
    F::Deps: ResolveDepsFrom<Container>,
    G::Deps: ResolveDepsFrom<Container>,

    ensures
        <(A, B, C, D, E, F, G) as ResolveDepsFrom<Container>>::resolved_deps() == ((resolution_of::<A>(),
            resolution_of::<B>(),
            resolution_of::<C>(),
            resolution_of::<D>(),
            resolution_of::<E>(),
            resolution_of::<F>(),
            resolution_of::<G>(),
        )),
{
}

/// Law: an aggregate of eight element types resolves each element in
/// declared order, left to right, and places each result at its declared
/// position.
pub proof fn lemma_aggregate_order_8<A, B, C, D, E, F, G, H>() where
    A: Injectable,
    B: Injectable,
    C: Injectable,
    D: Injectable,
    E: Injectable,
    F: Injectable,
    G: Injectable,
    H: Injectable,
    A::Deps: ResolveDepsFrom<Container>,
    B::Deps: ResolveDepsFrom<Container>,
    C::Deps: ResolveDepsFrom<Container>,
    D::Deps: ResolveDepsFrom<Container>,
    E::Deps: ResolveDepsFrom<Container>,
    F::Deps: ResolveDepsFrom<Container>,
    G::Deps: ResolveDepsFrom<Container>,
    H::Deps: ResolveDepsFrom<Container>,

    ensures
        <(A, B, C, D, E, F, G, H) as ResolveDepsFrom<Container>>::resolved_deps() == ((resolution_of::<A>(),
            resolution_of::<B>(),
            resolution_of::<C>(),
            resolution_of::<D>(),
            resolution_of::<E>(),
            resolution_of::<F>(),
            resolution_of::<G>(),
            resolution_of::<H>(),
        )),
{
}

} // verus!
