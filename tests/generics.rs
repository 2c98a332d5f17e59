use visit::codegen::generate_all;
use visit::parse::{get_visitor_trait_configs, ConfigDirective, VisitorTraitConf};
use visit::schema::{Fields, GenericParam, Generics, NamedField, Record, TypeExpr, Variant, VariantGroup};
use visit::traversal::{accept_trace, Value};

fn s(x: &str) -> String {
    x.to_string()
}

fn path(name: &str) -> TypeExpr {
    TypeExpr::Path { name: s(name), args: vec![] }
}

fn no_generics() -> Generics {
    Generics { params: vec![], where_clause: None }
}

fn directive(name: &str) -> ConfigDirective {
    ConfigDirective { attribute: s("visitor"), name: Some(s(name)), public: None, enter: None, leave: None }
}

fn directives() -> Vec<ConfigDirective> {
    vec![directive("Visitor"), directive("HierVisitor")]
}

fn conf() -> VisitorTraitConf {
    get_visitor_trait_configs(&directives()).unwrap().remove(0)
}

fn type_params() -> Generics {
    Generics {
        params: vec![
            GenericParam { decl: s("A"), arg: s("A"), is_type: true },
            GenericParam { decl: s("B"), arg: s("B"), is_type: true },
        ],
        where_clause: Some(s(
            "where A: Copy + AcceptVisitor + AcceptHierVisitor, B: Default + AcceptVisitor + AcceptHierVisitor,",
        )),
    }
}

fn schema() -> (Vec<Record>, Vec<VariantGroup>) {
    let generic_test = Record {
        ident: s("GenericTest"),
        generics: type_params(),
        fields: Fields::Named(vec![
            NamedField { name: s("foo"), ty: path("A") },
            NamedField { name: s("bar"), ty: path("B") },
        ]),
    };
    let lifetime_test = Record {
        ident: s("LifetimeTest"),
        generics: Generics { params: vec![GenericParam { decl: s("'a"), arg: s("'a"), is_type: false }], where_clause: None },
        fields: Fields::Named(vec![NamedField { name: s("s"), ty: TypeExpr::Reference(Box::new(path("str"))) }]),
    };
    let option_foo = || TypeExpr::Path { name: s("Option"), args: vec![path("Foo")] };
    let option_test = Record {
        ident: s("OptionTest"),
        generics: no_generics(),
        fields: Fields::Named(vec![
            NamedField { name: s("maybe_foo1"), ty: option_foo() },
            NamedField { name: s("maybe_foo2"), ty: option_foo() },
        ]),
    };
    let foo = Record { ident: s("Foo"), generics: no_generics(), fields: Fields::Unit };
    let generic_enum = VariantGroup {
        ident: s("GenericEnum"),
        generics: type_params(),
        variants: vec![
            Variant { ident: s("Foo"), fields: Fields::Named(vec![NamedField { name: s("a"), ty: path("A") }]) },
            Variant { ident: s("Bar"), fields: Fields::Named(vec![NamedField { name: s("b"), ty: path("B") }]) },
        ],
    };
    (vec![generic_test, lifetime_test, option_test, foo], vec![generic_enum])
}

fn leaf(x: &str) -> Value {
    Value::Leaf(s(x))
}

fn called(calls: &[(String, &Value)], method: &str) -> usize {
    calls.iter().filter(|(m, _)| m == method).count()
}

#[test]
fn test_generic_struct_simple() {
    let (structs, enums) = schema();
    assert!(generate_all(&structs, &enums, &directives()).is_ok());
    let test = Value::Record { entity: s("GenericTest"), fields: vec![leaf("0"), leaf("")] };
    let calls = accept_trace(&conf(), &test);
    assert!(called(&calls, "visit_generic_test") > 0);
}

#[test]
fn test_generic_enum_simple_a() {
    let test = Value::Variant { entity: s("GenericEnum"), variant: s("Foo"), fields: vec![leaf("0")] };
    let calls = accept_trace(&conf(), &test);
    assert!(called(&calls, "visit_generic_enum") > 0);
}

#[test]
fn test_generic_enum_simple_b() {
    let test = Value::Variant { entity: s("GenericEnum"), variant: s("Bar"), fields: vec![leaf("")] };
    let calls = accept_trace(&conf(), &test);
    assert!(called(&calls, "visit_generic_enum") > 0);
}

#[test]
fn test_lifetime_simple() {
    let test = Value::Record {
        entity: s("LifetimeTest"),
        fields: vec![Value::Borrowed(Box::new(leaf("Borrow me!")))],
    };
    let calls = accept_trace(&conf(), &test);
    assert!(called(&calls, "visit_lifetime_test") > 0);
}

#[test]
fn test_option_simple() {
    let test = Value::Record {
        entity: s("OptionTest"),
        fields: vec![
            Value::Optional(Some(Box::new(Value::Record { entity: s("Foo"), fields: vec![] }))),
            Value::Optional(None),
        ],
    };
    let calls = accept_trace(&conf(), &test);
    assert_eq!(1, called(&calls, "visit_foo"));
}

#[test]
fn generic_parameters_are_propagated() {
    let (structs, enums) = schema();
    let code = generate_all(&structs, &enums, &directives()).unwrap();
    let bound = " where A: Copy + AcceptVisitor + AcceptHierVisitor, B: Default + AcceptVisitor + AcceptHierVisitor,";
    let method = format!("    fn visit_generic_test<A, B>(&mut self, _generic_test: &GenericTest<A, B>){} {{}}\n", bound);
    assert!(code.contains(&method));
    let imp = format!("impl<A, B> AcceptVisitor for &GenericEnum<A, B>{} {{\n", bound);
    assert!(code.contains(&imp));
    assert!(code.contains("    fn visit_lifetime_test<'a>(&mut self, _lifetime_test: &LifetimeTest<'a>) {}\n"));
}

#[test]
fn absent_option_contributes_nothing() {
    let absent = Value::Record { entity: s("OptionTest"), fields: vec![Value::Optional(None), Value::Optional(None)] };
    let calls = accept_trace(&conf(), &absent);
    let names: Vec<&str> = calls.iter().map(|(m, _)| m.as_str()).collect();
    assert_eq!(vec!["visit_option_test"], names);
    let inner = Value::Record { entity: s("Foo"), fields: vec![] };
    let direct = accept_trace(&conf(), &inner);
    let present = Value::Optional(Some(Box::new(Value::Record { entity: s("Foo"), fields: vec![] })));
    let wrapped = accept_trace(&conf(), &present);
    let a: Vec<&String> = direct.iter().map(|(m, _)| m).collect();
    let b: Vec<&String> = wrapped.iter().map(|(m, _)| m).collect();
    assert_eq!(a, b);
}
