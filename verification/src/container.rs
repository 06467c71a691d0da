//! The construction root: a stateless handle through which all resolution
//! is triggered.

mod injectable;
mod invokable;
pub mod laws;
mod resolve_deps_from;
mod scope;

pub use injectable::Injectable;
pub use invokable::Invokable;
pub use invokable::invocation_output_of;
pub use resolve_deps_from::ResolveDepsFrom;
pub use scope::Scope;

use vstd::prelude::*;

verus! {

/// A zero-cost compile-time dependency resolver that avoids:
/// - service locators,
/// - runtime reflection,
/// - container lifecycle complexity.
///
/// Instead, it resolves dependencies **statically**, via type constraints.
///
/// Key principles:
/// - no runtime resolution logic,
/// - constructor-based dependency flow,
/// - circular dependencies caught at compile time,
/// - up to 8 dependency parameters per constructed type.
pub struct Container {
    /// Prevents direct struct initialization via `Container {}` or `Container;`.
    /// Enforces usage via `Container::new()`.
    _private: (),
}

/// The one value that resolving `T` through a container yields: `T`'s
/// construction function applied to the resolution of `T`'s declared
/// dependency aggregate.  Resolution is a pure walk of the static
/// dependency graph, so this is a function of the type alone.
pub open spec fn resolution_of<T>() -> T where
    T: Injectable,
    T::Deps: ResolveDepsFrom<Container>,
{
    T::inject_spec(<T::Deps as ResolveDepsFrom<Container>>::resolved_deps())
}

impl Container {
    /// Containers carry no state: any two are interchangeable.
    pub fn new() -> Self {
        Container { _private: () }
    }

    /// Resolve a value of type `T`: resolve `T`'s dependency aggregate,
    /// then apply `T`'s construction function to it.  Every resolution of
    /// `T` yields the same value, `resolution_of::<T>()`.
    #[inline(always)]
    pub fn resolve<T>(&self) -> (r: T) where
        T: Injectable,
        T::Deps: ResolveDepsFrom<Container>,

        ensures
            r == resolution_of::<T>(),
    {
        T::inject(<T::Deps as ResolveDepsFrom<Container>>::resolve_deps(self))
    }

    /// Resolve `T`'s dependency aggregate, execute `T`, and discard the
    /// output.
    #[inline(always)]
    pub fn invoke<T>(&self) where
        T: Invokable,
        T::Deps: ResolveDepsFrom<Container>,
    {
        let deps = <T::Deps as ResolveDepsFrom<Container>>::resolve_deps(self);
        T::invoke(deps);
    }

    /// Resolve `T`'s dependency aggregate, execute `T`, and deliver the
    /// output, `invocation_output_of::<T>()`, to the caller's callback
    /// exactly once, synchronously, before returning.
    #[inline(always)]
    pub fn invoke_with<T, F>(&self, callback: F) where
        T: Invokable,
        T::Deps: ResolveDepsFrom<Container>,
        F: FnOnce(T::Output),

        requires
            call_requires(callback, (invocation_output_of::<T>(),)),
        ensures
            call_ensures(callback, (invocation_output_of::<T>(),), ()),
    {
        let deps = <T::Deps as ResolveDepsFrom<Container>>::resolve_deps(self);
        T::invoke_with(deps, callback);
    }
}

} // verus!
