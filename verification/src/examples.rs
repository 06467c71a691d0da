//! Small constructible services, wired by hand exactly as the declaration
//! layer would wire them.  They exercise every rule of the resolution
//! engine and back the library's tests.

use vstd::prelude::*;

use crate::container::Container;
use crate::container::Injectable;
use crate::container::Invokable;
use crate::container::ResolveDepsFrom;

verus! {

/// A service with no dependencies that builds to the literal value 10.
#[derive(PartialEq, Eq, Structural, Clone, Copy, Debug)]
pub struct Dummy2(pub i32);

/// A service with exactly one dependency, `Dummy2`, wrapped unchanged.
#[derive(PartialEq, Eq, Structural, Clone, Copy, Debug)]
pub struct Dummy(pub Dummy2);

/// Second level of a dependency chain: wraps a resolved `Dummy`.
#[derive(PartialEq, Eq, Structural, Clone, Copy, Debug)]
pub struct DoubleWrap(pub Dummy);

/// Third level of a dependency chain: wraps a resolved `DoubleWrap`.
#[derive(PartialEq, Eq, Structural, Clone, Copy, Debug)]
pub struct TripleWrap(pub DoubleWrap);

/// A unit service: no dependencies, no fields.
#[derive(PartialEq, Eq, Structural, Clone, Copy, Debug)]
pub struct NoDepNoField;

/// No dependencies and one locally computed field, initialized to 5.
#[derive(PartialEq, Eq, Structural, Clone, Copy, Debug)]
pub struct NoDepWithField {
    pub a: i32,
}

/// One dependency and no locally computed fields.
#[derive(PartialEq, Eq, Structural, Clone, Copy, Debug)]
pub struct OneDepNoField {
    pub d: Dummy2,
}

/// One dependency and one locally computed field, initialized to 5.
#[derive(PartialEq, Eq, Structural, Clone, Copy, Debug)]
pub struct OneDepWithField {
    pub d: Dummy2,
    pub a: i32,
}

/// Two dependencies of the same underlying type and one locally computed
/// field, initialized to 5.
#[derive(PartialEq, Eq, Structural, Clone, Copy, Debug)]
pub struct MultiDepWithField {
    pub a: Dummy2,
    pub b: Dummy2,
    pub x: i32,
}

/// A service with the widest supported fan-out: eight direct dependencies.
#[derive(PartialEq, Eq, Structural, Clone, Copy, Debug)]
pub struct WideService {
    pub d1: Dummy2,
    pub d2: Dummy,
    pub d3: Dummy2,
    pub d4: Dummy,
    pub d5: Dummy2,
    pub d6: Dummy,
    pub d7: Dummy2,
    pub d8: Dummy,
}

impl Injectable for Dummy2 {
    type Deps = ();

    open spec fn inject_spec(deps: ()) -> Dummy2 {
        Dummy2(10)
    }

    fn inject(deps: ()) -> (r: Self) {
        Self(10)
    }

    proof fn singleton_forwarding() {
        assert(<Dummy2 as ResolveDepsFrom<Container>>::resolved_deps() == Dummy2::inject_spec(
            <() as ResolveDepsFrom<Container>>::resolved_deps(),
        ));
    }
}

impl ResolveDepsFrom<Container> for Dummy2 {
    open spec fn resolved_deps() -> Dummy2 {
        Dummy2::inject_spec(<() as ResolveDepsFrom<Container>>::resolved_deps())
    }

    #[inline(always)]
    fn resolve_deps(container: &Container) -> (r: Dummy2) {
        container.resolve::<Dummy2>()
    }
}

impl Injectable for Dummy {
    type Deps = Dummy2;

    open spec fn inject_spec(deps: Dummy2) -> Dummy {
        Dummy(deps)
    }

    fn inject(deps: Dummy2) -> (r: Self) {
        Self(deps)
    }

    proof fn singleton_forwarding() {
        assert(<Dummy as ResolveDepsFrom<Container>>::resolved_deps() == Dummy::inject_spec(
            <Dummy2 as ResolveDepsFrom<Container>>::resolved_deps(),
        ));
    }
}

impl ResolveDepsFrom<Container> for Dummy {
    open spec fn resolved_deps() -> Dummy {
        Dummy::inject_spec(<Dummy2 as ResolveDepsFrom<Container>>::resolved_deps())
    }

    #[inline(always)]
    fn resolve_deps(container: &Container) -> (r: Dummy) {
        container.resolve::<Dummy>()
    }
}

impl Injectable for DoubleWrap {
    type Deps = Dummy;

    open spec fn inject_spec(deps: Dummy) -> DoubleWrap {
        DoubleWrap(deps)
    }

    fn inject(deps: Dummy) -> (r: Self) {
        Self(deps)
    }

    proof fn singleton_forwarding() {
        assert(<DoubleWrap as ResolveDepsFrom<Container>>::resolved_deps() == DoubleWrap::inject_spec(
            <Dummy as ResolveDepsFrom<Container>>::resolved_deps(),
        ));
    }
}

impl ResolveDepsFrom<Container> for DoubleWrap {
    open spec fn resolved_deps() -> DoubleWrap {
        DoubleWrap::inject_spec(<Dummy as ResolveDepsFrom<Container>>::resolved_deps())
    }

    #[inline(always)]
    fn resolve_deps(container: &Container) -> (r: DoubleWrap) {
        container.resolve::<DoubleWrap>()
    }
}

impl Injectable for TripleWrap {
    type Deps = DoubleWrap;

    open spec fn inject_spec(deps: DoubleWrap) -> TripleWrap {
        TripleWrap(deps)
    }

    fn inject(deps: DoubleWrap) -> (r: Self) {
        Self(deps)
    }

    proof fn singleton_forwarding() {
        assert(<TripleWrap as ResolveDepsFrom<Container>>::resolved_deps() == TripleWrap::inject_spec(
            <DoubleWrap as ResolveDepsFrom<Container>>::resolved_deps(),
        ));
    }
}

impl ResolveDepsFrom<Container> for TripleWrap {
    open spec fn resolved_deps() -> TripleWrap {
        TripleWrap::inject_spec(<DoubleWrap as ResolveDepsFrom<Container>>::resolved_deps())
    }

    #[inline(always)]
    fn resolve_deps(container: &Container) -> (r: TripleWrap) {
        container.resolve::<TripleWrap>()
    }
}

impl Injectable for NoDepNoField {
    type Deps = ();

    open spec fn inject_spec(deps: ()) -> NoDepNoField {
        NoDepNoField
    }

    fn inject(deps: ()) -> (r: Self) {
        Self
    }

    proof fn singleton_forwarding() {
        assert(<NoDepNoField as ResolveDepsFrom<Container>>::resolved_deps() == NoDepNoField::inject_spec(
            <() as ResolveDepsFrom<Container>>::resolved_deps(),
        ));
    }
}

impl ResolveDepsFrom<Container> for NoDepNoField {
    open spec fn resolved_deps() -> NoDepNoField {
        NoDepNoField::inject_spec(<() as ResolveDepsFrom<Container>>::resolved_deps())
    }

    #[inline(always)]
    fn resolve_deps(container: &Container) -> (r: NoDepNoField) {
        container.resolve::<NoDepNoField>()
    }
}

impl Injectable for NoDepWithField {
    type Deps = ();

    open spec fn inject_spec(deps: ()) -> NoDepWithField {
        NoDepWithField { a: 5 }
    }

    fn inject(deps: ()) -> (r: Self) {
        Self { a: 5 }
    }

    proof fn singleton_forwarding() {
        assert(<NoDepWithField as ResolveDepsFrom<Container>>::resolved_deps() == NoDepWithField::inject_spec(
            <() as ResolveDepsFrom<Container>>::resolved_deps(),
        ));
    }
}

impl ResolveDepsFrom<Container> for NoDepWithField {
    open spec fn resolved_deps() -> NoDepWithField {
        NoDepWithField::inject_spec(<() as ResolveDepsFrom<Container>>::resolved_deps())
    }

    #[inline(always)]
    fn resolve_deps(container: &Container) -> (r: NoDepWithField) {
        container.resolve::<NoDepWithField>()
    }
}

impl Injectable for OneDepNoField {
    type Deps = Dummy2;

    open spec fn inject_spec(deps: Dummy2) -> OneDepNoField {
        OneDepNoField { d: deps }
    }

    fn inject(deps: Dummy2) -> (r: Self) {
        Self { d: deps }
    }

    proof fn singleton_forwarding() {
        assert(<OneDepNoField as ResolveDepsFrom<Container>>::resolved_deps() == OneDepNoField::inject_spec(
            <Dummy2 as ResolveDepsFrom<Container>>::resolved_deps(),
        ));
    }
}

impl ResolveDepsFrom<Container> for OneDepNoField {
    open spec fn resolved_deps() -> OneDepNoField {
        OneDepNoField::inject_spec(<Dummy2 as ResolveDepsFrom<Container>>::resolved_deps())
    }

    #[inline(always)]
    fn resolve_deps(container: &Container) -> (r: OneDepNoField) {
        container.resolve::<OneDepNoField>()
    }
}

impl Injectable for OneDepWithField {
    type Deps = Dummy2;

    open spec fn inject_spec(deps: Dummy2) -> OneDepWithField {
        OneDepWithField { d: deps, a: 5 }
    }

    fn inject(deps: Dummy2) -> (r: Self) {
        Self { d: deps, a: 5 }
    }

    proof fn singleton_forwarding() {
        assert(<OneDepWithField as ResolveDepsFrom<Container>>::resolved_deps() == OneDepWithField::inject_spec(
            <Dummy2 as ResolveDepsFrom<Container>>::resolved_deps(),
        ));
    }
}

impl ResolveDepsFrom<Container> for OneDepWithField {
    open spec fn resolved_deps() -> OneDepWithField {
        OneDepWithField::inject_spec(<Dummy2 as ResolveDepsFrom<Container>>::resolved_deps())
    }

    #[inline(always)]
    fn resolve_deps(container: &Container) -> (r: OneDepWithField) {
        container.resolve::<OneDepWithField>()
    }
}

impl Injectable for MultiDepWithField {
    type Deps = (Dummy2, Dummy2);

    open spec fn inject_spec(deps: (Dummy2, Dummy2)) -> MultiDepWithField {
        MultiDepWithField { a: deps.0, b: deps.1, x: 5 }
    }

    fn inject(deps: (Dummy2, Dummy2)) -> (r: Self) {
        Self { a: deps.0, b: deps.1, x: 5 }
    }

    proof fn singleton_forwarding() {
        assert(<MultiDepWithField as ResolveDepsFrom<Container>>::resolved_deps() == MultiDepWithField::inject_spec(
            <(Dummy2, Dummy2) as ResolveDepsFrom<Container>>::resolved_deps(),
        ));
    }
}

impl ResolveDepsFrom<Container> for MultiDepWithField {
    open spec fn resolved_deps() -> MultiDepWithField {
        MultiDepWithField::inject_spec(<(Dummy2, Dummy2) as ResolveDepsFrom<Container>>::resolved_deps())
    }

    #[inline(always)]
    fn resolve_deps(container: &Container) -> (r: MultiDepWithField) {
        container.resolve::<MultiDepWithField>()
    }
}

impl Injectable for WideService {
    type Deps = (Dummy2, Dummy, Dummy2, Dummy, Dummy2, Dummy, Dummy2, Dummy);

    open spec fn inject_spec(deps: (Dummy2, Dummy, Dummy2, Dummy, Dummy2, Dummy, Dummy2, Dummy)) -> WideService {
        WideService {
            d1: deps.0,
            d2: deps.1,
            d3: deps.2,
            d4: deps.3,
            d5: deps.4,
            d6: deps.5,
            d7: deps.6,
            d8: deps.7,
        }
    }

    fn inject(deps: (Dummy2, Dummy, Dummy2, Dummy, Dummy2, Dummy, Dummy2, Dummy)) -> (r: Self) {
        Self {
            d1: deps.0,
            d2: deps.1,
            d3: deps.2,
            d4: deps.3,
            d5: deps.4,
            d6: deps.5,
            d7: deps.6,
            d8: deps.7,
        }
    }

    proof fn singleton_forwarding() {
        assert(<WideService as ResolveDepsFrom<Container>>::resolved_deps() == WideService::inject_spec(
            <(Dummy2, Dummy, Dummy2, Dummy, Dummy2, Dummy, Dummy2, Dummy) as ResolveDepsFrom<Container>>::resolved_deps(),
        ));
    }
}

impl ResolveDepsFrom<Container> for WideService {
    open spec fn resolved_deps() -> WideService {
        WideService::inject_spec(<(Dummy2, Dummy, Dummy2, Dummy, Dummy2, Dummy, Dummy2, Dummy) as ResolveDepsFrom<Container>>::resolved_deps())
    }

    #[inline(always)]
    fn resolve_deps(container: &Container) -> (r: WideService) {
        container.resolve::<WideService>()
    }
}

/// A command that extracts the wrapped value of its one dependency and
/// delivers it to the caller's callback.
pub struct ReadInner;

impl Invokable for ReadInner {
    type Deps = Dummy2;

    type Output = i32;

    open spec fn output_spec(deps: Dummy2) -> i32 {
        deps.0
    }

    fn invoke_with<F: FnOnce(i32)>(deps: Dummy2, callback: F) {
        assert(ReadInner::output_spec(deps) == deps.0);
        callback(deps.0);
    }
}

} // verus!
