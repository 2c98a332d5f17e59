use visit::codegen::generate_all;
use visit::diag::{Diagnostic, Malformed};
use visit::parse::{get_visitor_trait_configs, ConfigDirective};

fn s(x: &str) -> String {
    x.to_string()
}

fn directive(name: Option<&str>, enter: Option<&str>, leave: Option<&str>) -> ConfigDirective {
    ConfigDirective { attribute: s("visitor"), name: name.map(s), public: None, enter: enter.map(s), leave: leave.map(s) }
}

#[test]
fn duplicate_config_name_is_rejected() {
    let ds = vec![directive(Some("V"), None, None), directive(Some("W"), None, None), directive(Some("V"), Some("enter"), None)];
    match get_visitor_trait_configs(&ds) {
        Err(Diagnostic::DuplicateConfigName { directive, name }) => {
            assert_eq!(2, directive);
            assert_eq!("V", name);
        },
        other => panic!("unexpected {:?}", other),
    }
}

#[test]
fn same_enter_leave_is_rejected() {
    let ds = vec![directive(Some("V"), Some("hook"), Some("hook"))];
    match get_visitor_trait_configs(&ds) {
        Err(Diagnostic::SameEnterLeaveIdentifier { directive, ident }) => {
            assert_eq!(0, directive);
            assert_eq!("hook", ident);
        },
        other => panic!("unexpected {:?}", other),
    }
}

#[test]
fn missing_name_is_malformed() {
    let ds = vec![directive(None, None, None)];
    match get_visitor_trait_configs(&ds) {
        Err(Diagnostic::MalformedConfigDirective { directive: 0, reason: Malformed::MissingName }) => {},
        other => panic!("unexpected {:?}", other),
    }
}

#[test]
fn other_attribute_is_malformed() {
    let mut d = directive(Some("V"), None, None);
    d.attribute = s("hierarchical_visitor");
    match get_visitor_trait_configs(&vec![directive(Some("W"), None, None), d]) {
        Err(Diagnostic::MalformedConfigDirective { directive: 1, reason: Malformed::UnexpectedAttribute }) => {},
        other => panic!("unexpected {:?}", other),
    }
}

#[test]
fn omitted_prefixes_default_to_visit() {
    let implicit = get_visitor_trait_configs(&vec![directive(Some("V"), None, None)]).unwrap();
    let explicit = get_visitor_trait_configs(&vec![directive(Some("V"), None, Some("visit"))]).unwrap();
    assert_eq!(implicit[0].leave, Some(s("visit")));
    assert_eq!(implicit[0].enter, None);
    assert_eq!(implicit[0].leave, explicit[0].leave);
    assert_eq!(implicit[0].enter, explicit[0].enter);
    assert!(!implicit[0].public);
    let code_a = generate_all(&vec![], &vec![], &vec![directive(Some("V"), None, None)]).unwrap();
    let code_b = generate_all(&vec![], &vec![], &vec![directive(Some("V"), None, Some("visit"))]).unwrap();
    assert_eq!(code_a, code_b);
}

#[test]
fn enter_only_keeps_no_leave() {
    let cs = get_visitor_trait_configs(&vec![directive(Some("V"), Some("enter"), None)]).unwrap();
    assert_eq!(cs[0].enter, Some(s("enter")));
    assert_eq!(cs[0].leave, None);
}

#[test]
fn configurations_keep_declaration_order() {
    let mut p = directive(Some("B"), None, None);
    p.public = Some(true);
    let cs = get_visitor_trait_configs(&vec![directive(Some("A"), None, None), p]).unwrap();
    assert_eq!(vec!["A", "B"], cs.iter().map(|c| c.name.as_str()).collect::<Vec<_>>());
    assert!(cs[1].public);
    assert_eq!("AcceptB", cs[1].accept_trait_ident());
}

#[test]
fn public_configuration_emits_pub_traits() {
    let mut p = directive(Some("Visitor"), None, None);
    p.public = Some(true);
    let code = generate_all(&vec![], &vec![], &vec![p]).unwrap();
    assert!(code.starts_with("pub trait Visitor {\n}\npub trait AcceptVisitor {\n    fn accept<V: Visitor>(&self, visitor: &mut V);\n}\n"));
}

#[test]
fn config_error_aborts_generation() {
    let ds = vec![directive(Some("V"), None, None), directive(Some("V"), None, None)];
    assert!(matches!(generate_all(&vec![], &vec![], &ds), Err(Diagnostic::DuplicateConfigName { directive: 1, .. })));
}
