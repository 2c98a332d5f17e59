use visit::codegen::generate_all;
use visit::parse::{get_visitor_trait_configs, ConfigDirective};
use visit::schema::{Fields, GenericParam, Generics, NamedField, Record, TypeExpr, Variant, VariantGroup};
use visit::traversal::{accept_trace, Value};

fn s(x: &str) -> String {
    x.to_string()
}

fn borrowed(name: &str) -> TypeExpr {
    TypeExpr::Reference(Box::new(TypeExpr::Path { name: s(name), args: vec![] }))
}

fn no_generics() -> Generics {
    Generics { params: vec![], where_clause: None }
}

fn visitor_directive() -> ConfigDirective {
    ConfigDirective { attribute: s("visitor"), name: Some(s("Visitor")), public: None, enter: None, leave: None }
}

fn schema() -> (Vec<Record>, Vec<VariantGroup>) {
    let foo = Record {
        ident: s("Foo"),
        generics: Generics {
            params: vec![GenericParam { decl: s("'a"), arg: s("'a"), is_type: false }],
            where_clause: None,
        },
        fields: Fields::Named(vec![
            NamedField { name: s("bar"), ty: borrowed("Bar") },
            NamedField { name: s("baz"), ty: borrowed("Baz") },
        ]),
    };
    let bar = Record { ident: s("Bar"), generics: no_generics(), fields: Fields::Unit };
    let baz = VariantGroup {
        ident: s("Baz"),
        generics: no_generics(),
        variants: vec![Variant { ident: s("Something"), fields: Fields::Unit }],
    };
    (vec![foo, bar], vec![baz])
}

/// Ensures AcceptVisitor is implemented for &Bar and &Baz
#[test]
fn test_reference_accept() {
    let (structs, enums) = schema();
    let code = generate_all(&structs, &enums, &vec![visitor_directive()]).unwrap();
    assert!(code.contains("impl AcceptVisitor for &Bar {"));
    assert!(code.contains("impl AcceptVisitor for &Baz {"));
    assert!(code.contains("impl<'a> AcceptVisitor for Foo<'a> {"));

    let conf = get_visitor_trait_configs(&vec![visitor_directive()]).unwrap().remove(0);
    let foo = Value::Record {
        entity: s("Foo"),
        fields: vec![
            Value::Borrowed(Box::new(Value::Record { entity: s("Bar"), fields: vec![] })),
            Value::Borrowed(Box::new(Value::Variant { entity: s("Baz"), variant: s("Something"), fields: vec![] })),
        ],
    };
    let calls = accept_trace(&conf, &foo);
    let names: Vec<&str> = calls.iter().map(|(m, _)| m.as_str()).collect();
    assert_eq!(vec!["visit_bar", "visit_baz", "visit_foo"], names);
}
