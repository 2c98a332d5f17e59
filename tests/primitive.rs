use visit::codegen::generate_all;
use visit::parse::{get_visitor_trait_configs, ConfigDirective, VisitorTraitConf};
use visit::schema::{Fields, GenericParam, Generics, NamedField, Record, TypeExpr};
use visit::traversal::{accept_trace, Value};

fn s(x: &str) -> String {
    x.to_string()
}

fn path(name: &str) -> TypeExpr {
    TypeExpr::Path { name: s(name), args: vec![] }
}

fn directives() -> Vec<ConfigDirective> {
    vec![
        ConfigDirective { attribute: s("visitor"), name: Some(s("Visitor")), public: None, enter: None, leave: None },
        ConfigDirective {
            attribute: s("visitor"),
            name: Some(s("HierVisitor")),
            public: None,
            enter: Some(s("enter")),
            leave: Some(s("leave")),
        },
    ]
}

fn conf(i: usize) -> VisitorTraitConf {
    get_visitor_trait_configs(&directives()).unwrap().remove(i)
}

const KINDS: [&str; 15] = [
    "u8", "u16", "u32", "u64", "u128", "i8", "i16", "i32", "i64", "i128", "usize", "isize", "f32", "f64", "bool",
];

fn schema() -> Vec<Record> {
    let mut fields: Vec<NamedField> =
        KINDS.iter().map(|k| NamedField { name: format!("test_{}", k), ty: path(k) }).collect();
    fields.push(NamedField { name: s("test_str"), ty: TypeExpr::Reference(Box::new(path("str"))) });
    fields.push(NamedField { name: s("test_string"), ty: path("String") });
    fields.push(NamedField { name: s("foo"), ty: path("Foo") });
    let primitives = Record {
        ident: s("Primitives"),
        generics: Generics { params: vec![GenericParam { decl: s("'a"), arg: s("'a"), is_type: false }], where_clause: None },
        fields: Fields::Named(fields),
    };
    let foo = Record { ident: s("Foo"), generics: Generics { params: vec![], where_clause: None }, fields: Fields::Named(vec![]) };
    vec![primitives, foo]
}

fn primitives() -> Value {
    let mut fields: Vec<Value> = KINDS.iter().map(|_| Value::Leaf(s("0"))).collect();
    fields.push(Value::Borrowed(Box::new(Value::Leaf(s("test")))));
    fields.push(Value::Leaf(s("test")));
    fields.push(Value::Record { entity: s("Foo"), fields: vec![] });
    Value::Record { entity: s("Primitives"), fields }
}

fn method_names(calls: &[(String, &Value)]) -> Vec<String> {
    calls.iter().map(|(m, _)| m.clone()).collect()
}

#[test]
fn primitive_test_ignore_primitives() {
    assert!(generate_all(&schema(), &vec![], &directives()).is_ok());
    let p = primitives();
    let calls = accept_trace(&conf(0), &p);
    assert!(calls.iter().any(|(m, _)| m == "visit_foo"));
}

#[test]
fn lib_test_ignore_primitives() {
    let p = primitives();
    let calls = accept_trace(&conf(0), &p);
    assert!(calls.iter().any(|(m, _)| m == "visit_foo"));
}

#[test]
fn test_ignore_primitives_hierarchical() {
    let p = primitives();
    let calls = accept_trace(&conf(1), &p);
    let foo_calls: Vec<String> = method_names(&calls).into_iter().filter(|m| m.ends_with("_foo")).collect();
    assert_eq!(vec!["enter_foo", "leave_foo"], foo_calls);
}

#[test]
fn leaves_alone_make_no_calls() {
    let v = Value::Sequence(vec![Value::Leaf(s("1")), Value::Pointer(Box::new(Value::Leaf(s("2"))))]);
    assert!(accept_trace(&conf(1), &v).is_empty());
}

#[test]
fn leaf_kinds_get_empty_accept_impls() {
    let code = generate_all(&schema(), &vec![], &directives()).unwrap();
    assert!(code.contains("impl AcceptVisitor for f64 {\n    fn accept<V: Visitor>(&self, _visitor: &mut V) {}\n}\n"));
    assert!(code.contains("impl AcceptVisitor for &str {\n"));
    assert!(code.contains("impl AcceptHierVisitor for String {\n"));
}
