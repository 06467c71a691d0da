use singularity::derive_input::Data;
use singularity::derive_input::DeriveInput;
use singularity::derive_input::Field;
use singularity::derive_input::FieldType;
use singularity::derive_input::Fields;
use singularity::derive_input::Generics;
use singularity::derive_input::InjectExpr;
use singularity::injectable_struct::InjectableStruct;
use singularity::struct_kind::StructKind;

fn plain_type(text: &str, path_ident: &str) -> FieldType {
    FieldType { text: text.to_string(), path_ident: Some(path_ident.to_string()) }
}

fn dep_field(name: Option<&str>, ty: FieldType) -> Field {
    Field { name: name.map(|n| n.to_string()), ty, inject: None }
}

fn local_field(name: Option<&str>, ty: FieldType, expr: InjectExpr) -> Field {
    Field { name: name.map(|n| n.to_string()), ty, inject: Some(expr) }
}

fn named_input(ident: &str, params: Vec<&str>, fields: Vec<Field>) -> DeriveInput {
    DeriveInput {
        ident: ident.to_string(),
        generics: Generics { params: params.iter().map(|p| p.to_string()).collect() },
        data: Data::Struct(Fields::Named(fields)),
    }
}

#[test]
fn struct_named_simple() {
    let input = named_input("A", vec![], vec![dep_field(Some("x"), plain_type("i32", "i32"))]);

    let result = InjectableStruct::new(input);

    assert_eq!(result.ident.to_string(), "A");
    assert!(result.generics.params.is_empty(), "Should have no generics");

    match result.kind {
        StructKind::Named(_) => {}
        _ => panic!("Expected Named struct"),
    }
}

#[test]
fn struct_tuple() {
    let input = DeriveInput {
        ident: "B".to_string(),
        generics: Generics { params: vec![] },
        data: Data::Struct(Fields::Unnamed(vec![
            dep_field(None, plain_type("i32", "i32")),
            dep_field(None, plain_type("String", "String")),
        ])),
    };

    let result = InjectableStruct::new(input);

    match result.kind {
        StructKind::Unnamed(_) => {}
        _ => panic!("Expected Tuple struct"),
    }
}

#[test]
fn struct_unit() {
    let input = DeriveInput {
        ident: "C".to_string(),
        generics: Generics { params: vec![] },
        data: Data::Struct(Fields::Unit),
    };

    let result = InjectableStruct::new(input);

    match result.kind {
        StructKind::Unit => {}
        _ => panic!("Expected Unit struct"),
    }
}

#[test]
fn struct_with_generics() {
    let input = named_input("D", vec!["T"], vec![dep_field(Some("v"), plain_type("T", "T"))]);

    let result = InjectableStruct::new(input);

    assert!(!result.generics.params.is_empty(), "Should detect generic parameters");
    assert_eq!(result.ident.to_string(), "D");
}

#[test]
fn generated_impl_matches_expected() {
    // Arrange
    let input = named_input(
        "TestService",
        vec![],
        vec![dep_field(Some("a"), plain_type("i32", "i32"))],
    );

    // Act
    let tokens = InjectableStruct::new(input).into_token_stream();

    // Assert
    assert!(
        tokens.to_string().contains("impl Injectable for TestService"),
        "Generated code must contain trait implementation."
    );

    assert!(
        tokens.to_string().contains("type Deps = (i32)"),
        "Dependency tuple must be generated"
    );
    assert!(tokens.to_string().contains("fn inject"), "Inject function must exist");
    assert!(tokens.to_string().contains("{ a }"), "Field initialization should match");
}

#[test]
fn generated_impl_for_generic_struct() {
    let input = named_input(
        "GenericService",
        vec!["T"],
        vec![dep_field(Some("value"), plain_type("T", "T"))],
    );

    let tokens = InjectableStruct::new(input).into_token_stream();
    let code = tokens.to_string();

    assert!(
        code.contains("impl < T > Injectable for GenericService < T >"),
        "Generic impl block must include generics"
    );

    assert!(code.contains("type Deps = (T)"), "Generic dependency tuple must be T");

    assert!(code.contains("fn inject"), "Inject method missing");

    assert!(code.contains("{ value }"), "Field initialization incorrect");
}

#[test]
fn generated_impl_for_named_service_exactly() {
    let input = named_input(
        "TestService",
        vec![],
        vec![dep_field(Some("a"), plain_type("i32", "i32"))],
    );
    let code = InjectableStruct::new(input).into_token_stream();
    assert_eq!(
        code,
        "impl Injectable for TestService { type Deps = (i32) ; \
         fn inject ((a) : Self :: Deps) -> Self { Self { a } } }"
    );
}

#[test]
fn generated_impl_for_unit_struct_exactly() {
    let input = DeriveInput {
        ident: "C".to_string(),
        generics: Generics { params: vec![] },
        data: Data::Struct(Fields::Unit),
    };
    let code = InjectableStruct::new(input).into_token_stream();
    assert_eq!(
        code,
        "impl Injectable for C { type Deps = () ; \
         fn inject (_ : Self :: Deps) -> Self { Self } }"
    );
}

#[test]
fn generated_impl_for_tuple_struct_derives_parameter_names() {
    let input = DeriveInput {
        ident: "Holder".to_string(),
        generics: Generics { params: vec![] },
        data: Data::Struct(Fields::Unnamed(vec![dep_field(None, plain_type("Dummy2", "Dummy2"))])),
    };
    let code = InjectableStruct::new(input).into_token_stream();
    assert_eq!(
        code,
        "impl Injectable for Holder { type Deps = (Dummy2) ; \
         fn inject ((dummy2) : Self :: Deps) -> Self { Self (dummy2) } }"
    );
}

#[test]
fn locally_computed_closure_is_invoked() {
    let input = named_input(
        "NoDepWithField",
        vec![],
        vec![local_field(
            Some("a"),
            plain_type("i32", "i32"),
            InjectExpr::Closure("| | 5".to_string()),
        )],
    );
    let code = InjectableStruct::new(input).into_token_stream();
    assert_eq!(
        code,
        "impl Injectable for NoDepWithField { type Deps = () ; \
         fn inject (_ : Self :: Deps) -> Self { Self { a : (| | 5) () } } }"
    );
}

#[test]
fn locally_computed_non_closure_falls_back_to_default() {
    let input = named_input(
        "WithLiteral",
        vec![],
        vec![local_field(Some("a"), plain_type("i32", "i32"), InjectExpr::Other)],
    );
    let code = InjectableStruct::new(input).into_token_stream();
    assert_eq!(
        code,
        "impl Injectable for WithLiteral { type Deps = () ; fn inject (_ : Self :: Deps) \
         -> Self { Self { a : :: core :: default :: Default :: default () } } }"
    );
}

#[test]
fn marker_parentheses_are_stripped() {
    let expr = InjectExpr::Paren(Box::new(InjectExpr::Paren(Box::new(InjectExpr::Closure(
        "| | 7".to_string(),
    )))));
    let input = named_input(
        "Parenthesized",
        vec![],
        vec![local_field(Some("a"), plain_type("i32", "i32"), expr)],
    );
    let s = InjectableStruct::new(input);
    let (_, _, factory_tokens, factory_exprs) = s.parse_dependencies();
    assert_eq!(factory_exprs, vec!["(| | 7) ()".to_string()]);
    assert_eq!(factory_tokens, vec!["a : (| | 7) ()".to_string()]);
}

#[test]
fn round_trip_keeps_aggregate_order_and_local_position() {
    let input = named_input(
        "Mixed",
        vec![],
        vec![
            dep_field(Some("x"), plain_type("X", "X")),
            dep_field(Some("y"), plain_type("Y", "Y")),
            local_field(Some("l"), plain_type("i32", "i32"), InjectExpr::Closure("| | 5".to_string())),
        ],
    );
    let s = InjectableStruct::new(input);
    let (dep_types, dep_tokens, _, _) = s.parse_dependencies();
    assert_eq!(dep_types, vec!["X".to_string(), "Y".to_string()]);
    assert_eq!(dep_tokens, vec!["x".to_string(), "y".to_string()]);
    let inits = s.init_tokens();
    assert_eq!(
        inits,
        vec!["x".to_string(), "y".to_string(), "l : (| | 5) ()".to_string()]
    );
}

#[test]
fn local_field_keeps_declared_position_in_tuple_shapes() {
    let input = DeriveInput {
        ident: "Mixed".to_string(),
        generics: Generics { params: vec![] },
        data: Data::Struct(Fields::Unnamed(vec![
            local_field(None, plain_type("i32", "i32"), InjectExpr::Closure("| | 5".to_string())),
            dep_field(None, plain_type("Dummy2", "Dummy2")),
        ])),
    };
    let s = InjectableStruct::new(input);
    let inits = s.init_tokens();
    assert_eq!(inits, vec!["(| | 5) ()".to_string(), "dummy2".to_string()]);
    let code = s.into_token_stream();
    assert_eq!(
        code,
        "impl Injectable for Mixed { type Deps = (Dummy2) ; \
         fn inject ((dummy2) : Self :: Deps) -> Self { Self ((| | 5) () , dummy2) } }"
    );
}

#[test]
fn snake_case_converts_type_identifiers() {
    let s = InjectableStruct::new(DeriveInput {
        ident: "S".to_string(),
        generics: Generics { params: vec![] },
        data: Data::Struct(Fields::Unit),
    });
    assert_eq!(s.to_snake_case("Dummy2"), "dummy2");
    assert_eq!(s.to_snake_case("HelloWorld"), "hello_world");
    assert_eq!(s.to_snake_case("ABC"), "a_b_c");
    assert_eq!(s.to_snake_case("already_snake"), "already_snake");
    assert_eq!(s.to_snake_case(""), "");
}
