use singularity::Container;
use singularity::Injectable;
use singularity::Invokable;
use singularity::examples::Dummy;
use singularity::examples::Dummy2;
use singularity::examples::DoubleWrap;
use singularity::examples::MultiDepWithField;
use singularity::examples::NoDepNoField;
use singularity::examples::NoDepWithField;
use singularity::examples::OneDepNoField;
use singularity::examples::OneDepWithField;
use singularity::examples::ReadInner;
use singularity::examples::TripleWrap;
use singularity::examples::WideService;

#[test]
fn it_resolves_injectable_service_through_container() {
    // Using the real container (not mocking anything)
    let container = Container::new();

    let svc = container.resolve::<Dummy>();

    // Compile-time type checks
    let _: Dummy = svc;
    let _: Dummy2 = svc.0;

    // Asserts: value is correct
    assert_eq!(svc.0.0, 10, "Dummy2 inner value should be 10");
}

#[test]
fn it_should_have_typesafe_inject_params() {
    let dummy2: Dummy2 = Dummy2(10);
    let dummy: Dummy = Dummy::inject(dummy2);

    assert_eq!(dummy.0.0, 10, "Dummy2 inner value should be 10");
}

#[test]
fn it_should_create_service_with_macro() {
    // 0 dependency - no field
    let _ = NoDepNoField::inject(());

    // 0 dependency - with field
    let s1 = NoDepWithField::inject(());
    assert_eq!(s1.a, 5);

    // 1 dependency - no field
    let s2 = OneDepNoField::inject(Dummy2(10));
    assert_eq!(s2.d.0, 10);

    // 1 dependency - with field
    let s3 = OneDepWithField::inject(Dummy2(20));
    assert_eq!(s3.a, 5);
    assert_eq!(s3.d.0, 20);

    // >1 dependency - with field
    let s4 = MultiDepWithField::inject((Dummy2(7), Dummy2(8)));
    assert_eq!(s4.x, 5);
    assert_eq!(s4.a.0, 7);
    assert_eq!(s4.b.0, 8);
}

#[test]
fn empty_aggregate_builds_from_unit_alone() {
    let container = Container::new();
    let d: Dummy2 = container.resolve();
    assert_eq!(d, Dummy2::inject(()));
    assert_eq!(d.0, 10);
    let n: NoDepWithField = container.resolve();
    assert_eq!(n.a, 5);
}

#[test]
fn singleton_dependency_resolves_recursively() {
    let container = Container::new();
    let d: Dummy = container.resolve();
    assert_eq!(d, Dummy::inject(container.resolve::<Dummy2>()));
    assert_eq!(d.0.0, 10);
}

#[test]
fn dependency_chains_nest_to_any_depth() {
    let container = Container::new();
    let t: TripleWrap = container.resolve();
    assert_eq!(t, TripleWrap(DoubleWrap(Dummy(Dummy2(10)))));
    assert_eq!(t.0.0.0.0, 10);
}

#[test]
fn widest_aggregate_resolves_every_position() {
    let container = Container::new();
    let w: WideService = container.resolve();
    assert_eq!(w.d1, Dummy2(10));
    assert_eq!(w.d2, Dummy(Dummy2(10)));
    assert_eq!(w.d3, Dummy2(10));
    assert_eq!(w.d4, Dummy(Dummy2(10)));
    assert_eq!(w.d5, Dummy2(10));
    assert_eq!(w.d6, Dummy(Dummy2(10)));
    assert_eq!(w.d7, Dummy2(10));
    assert_eq!(w.d8, Dummy(Dummy2(10)));
}

#[test]
fn pair_aggregate_keeps_declared_order() {
    let container = Container::new();
    let m: MultiDepWithField = container.resolve();
    assert_eq!(m.a, Dummy2(10));
    assert_eq!(m.b, Dummy2(10));
    assert_eq!(m.x, 5);
    // Positional order is observable through inject itself.
    let made = MultiDepWithField::inject((Dummy2(1), Dummy2(2)));
    assert_eq!(made.a.0, 1);
    assert_eq!(made.b.0, 2);
}

#[test]
fn repeated_resolutions_are_identical() {
    let container = Container::new();
    let first: Dummy = container.resolve();
    let second: Dummy = container.resolve();
    assert_eq!(first, second);
    let other_container = Container::new();
    let third: Dummy = other_container.resolve();
    assert_eq!(first, third);
}

#[test]
fn invoke_with_delivers_output_once() {
    let container = Container::new();
    let mut seen: Vec<i32> = Vec::new();
    container.invoke_with::<ReadInner, _>(|v| seen.push(v));
    assert_eq!(seen, vec![10]);
}

#[test]
fn invoke_discards_output() {
    let container = Container::new();
    container.invoke::<ReadInner>();
    ReadInner::invoke_with(Dummy2(3), |v| assert_eq!(v, 3));
    ReadInner::invoke(Dummy2(4));
}
