use visit::codegen::generate_all;
use visit::parse::{get_visitor_trait_configs, ConfigDirective, VisitorTraitConf};
use visit::schema::{Fields, Generics, NamedField, Record, TypeExpr, VariantGroup};
use visit::traversal::{accept_trace, Value};

fn s(x: &str) -> String {
    x.to_string()
}

fn path(name: &str) -> TypeExpr {
    TypeExpr::Path { name: s(name), args: vec![] }
}

fn no_generics() -> Generics {
    Generics { params: vec![], where_clause: None }
}

fn directive(name: &str, enter: Option<&str>, leave: Option<&str>) -> ConfigDirective {
    ConfigDirective {
        attribute: s("visitor"),
        name: Some(s(name)),
        public: None,
        enter: enter.map(s),
        leave: leave.map(s),
    }
}

fn directives() -> Vec<ConfigDirective> {
    vec![directive("Visitor", None, None), directive("HierVisitor", Some("enter"), Some("leave"))]
}

fn conf(i: usize) -> VisitorTraitConf {
    get_visitor_trait_configs(&directives()).unwrap().remove(i)
}

fn schema() -> (Vec<Record>, Vec<VariantGroup>) {
    let my_tree = Record {
        ident: s("MyTree"),
        generics: no_generics(),
        fields: Fields::Named(vec![NamedField { name: s("foo"), ty: path("Foo") }]),
    };
    let foo = Record {
        ident: s("Foo"),
        generics: no_generics(),
        fields: Fields::Named(vec![NamedField { name: s("bar"), ty: path("Bar") }]),
    };
    let bar = Record { ident: s("Bar"), generics: no_generics(), fields: Fields::Unnamed(vec![path("Child"), path("Child")]) };
    let child = Record { ident: s("Child"), generics: no_generics(), fields: Fields::Unit };
    (vec![my_tree, foo, bar, child], vec![])
}

fn rec(entity: &str, fields: Vec<Value>) -> Value {
    Value::Record { entity: s(entity), fields }
}

fn tree() -> Value {
    rec("MyTree", vec![rec("Foo", vec![rec("Bar", vec![rec("Child", vec![]), rec("Child", vec![])])])])
}

/// What a leave-only visitor that records entity names keeps of each call.
fn entity_names(calls: &[(String, &Value)]) -> Vec<&'static str> {
    calls
        .iter()
        .map(|(m, _)| match m.as_str() {
            "visit_my_tree" => "MyTree",
            "visit_foo" => "Foo",
            "visit_bar" => "Bar",
            "visit_child" => "Child",
            other => panic!("unexpected call {}", other),
        })
        .collect()
}

fn method_names(calls: &[(String, &Value)]) -> Vec<String> {
    calls.iter().map(|(m, _)| m.clone()).collect()
}

#[test]
fn test_structs_simple() {
    let (structs, enums) = schema();
    assert!(generate_all(&structs, &enums, &directives()).is_ok());
    let t = tree();
    let calls = accept_trace(&conf(0), &t);
    assert_eq!(vec!["Child", "Child", "Bar", "Foo", "MyTree"], entity_names(&calls));
}

#[test]
fn test_simple() {
    let t = tree();
    let calls = accept_trace(&conf(0), &t);
    assert_eq!(vec!["Child", "Child", "Bar", "Foo", "MyTree"], entity_names(&calls));
}

#[test]
fn test_hierarchical_structs() {
    let t = tree();
    let calls = accept_trace(&conf(1), &t);
    assert_eq!(
        vec![
            "enter_my_tree",
            "enter_foo",
            "enter_bar",
            "enter_child",
            "leave_child",
            "enter_child",
            "leave_child",
            "leave_bar",
            "leave_foo",
            "leave_my_tree",
        ],
        method_names(&calls)
    );
}

#[test]
fn hierarchical_calls_receive_the_visited_node() {
    let t = tree();
    let calls = accept_trace(&conf(1), &t);
    assert!(std::ptr::eq(calls[0].1, &t));
    assert!(std::ptr::eq(calls[9].1, &t));
    match calls[1].1 {
        Value::Record { entity, .. } => assert_eq!("Foo", entity),
        _ => panic!("expected a record"),
    }
}

#[test]
fn generated_struct_code_accepts_fields_in_order() {
    let (structs, enums) = schema();
    let code = generate_all(&structs, &enums, &directives()).unwrap();
    let bar_impl = "impl AcceptVisitor for Bar {\n    fn accept<V: Visitor>(&self, visitor: &mut V) {\n        AcceptVisitor::accept(&self.0, visitor);\n        AcceptVisitor::accept(&self.1, visitor);\n        visitor.visit_bar(self);\n    }\n}\n";
    assert!(code.contains(bar_impl));
    let hier_impl = "impl AcceptHierVisitor for &MyTree {\n    fn accept<V: HierVisitor>(&self, visitor: &mut V) {\n        visitor.enter_my_tree(self);\n        AcceptHierVisitor::accept(&self.foo, visitor);\n        visitor.leave_my_tree(self);\n    }\n}\n";
    assert!(code.contains(hier_impl));
    assert!(code.contains("trait HierVisitor {\n    fn enter_my_tree(&mut self, _my_tree: &MyTree) {}\n"));
    assert!(code.contains("    fn leave_child(&mut self, _child: &Child) {}\n}\n"));
    // The first configuration's unit comes first.
    assert!(code.find("trait Visitor {").unwrap() < code.find("trait HierVisitor {").unwrap());
}

#[test]
fn zero_field_record_emits_only_hooks() {
    let (structs, enums) = schema();
    let code = generate_all(&structs, &enums, &directives()).unwrap();
    assert!(code.contains("impl AcceptVisitor for Child {\n    fn accept<V: Visitor>(&self, visitor: &mut V) {\n        visitor.visit_child(self);\n    }\n}\n"));
}
