//! The stateless execution contract.

use vstd::prelude::*;

use crate::container::Container;
use crate::container::ResolveDepsFrom;
use crate::container::scope::Scope;

verus! {

/// A stateless execution contract layered on the same resolution engine.
///
/// - `Deps` is the dependency aggregate the container resolves before
///   execution.
/// - `Output` is the value execution delivers; use `invoke` for
///   fire-and-forget.
/// - `invoke_with` enables value extraction without persistence: the output
///   is delivered to the callback exactly once, synchronously, before the
///   call returns.
///
/// Always prefer `invoke` unless you need the callback.
pub trait Invokable: Sized {
    /// Type describing resolved dependencies.
    type Deps;

    /// Value returned by execution.
    type Output;

    /// Reserved lifetime marker; no resolution-time effect.
    const SCOPE: Scope = Scope::Scoped;

    /// The output that execution with a given aggregate delivers.
    /// Execution is pure up to its callback: the output is a function of
    /// the aggregate alone.
    spec fn output_spec(deps: Self::Deps) -> Self::Output;

    /// Executes and returns `Output` via a callback, called exactly once
    /// with `Self::output_spec(deps)`.
    fn invoke_with<F: FnOnce(Self::Output)>(deps: Self::Deps, callback: F)
        requires
            call_requires(callback, (Self::output_spec(deps),)),
        ensures
            call_ensures(callback, (Self::output_spec(deps),), ()),
    ;

    /// Fire-and-forget version of `invoke_with`: the output is discarded
    /// through a no-op callback.
    fn invoke(deps: Self::Deps) {
        Self::invoke_with(deps, |_output: Self::Output| {
        });
    }
}

/// The value that running `T` through a container delivers to the caller's
/// callback: `T`'s output for the resolution of its dependency aggregate.
pub open spec fn invocation_output_of<T>() -> T::Output where
    T: Invokable,
    T::Deps: ResolveDepsFrom<Container>,
{
    T::output_spec(<T::Deps as ResolveDepsFrom<Container>>::resolved_deps())
}

} // verus!
