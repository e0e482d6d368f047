use idl_parser::ast::common::Verbatim;
use idl_parser::ast::insert::Insert;
use idl_parser::ast::xclass::method::{Argument, ArgumentProperty, Method, MethodElement, MethodType};
use idl_parser::ast::xclass::variable::{Variable, VariableProperty};
use idl_parser::ast::xclass::{IntegerType, VariableType, XClass, XClassElement, XClassPropertyName};
use idl_parser::ast::{Interface, InterfaceElement};
use idl_parser::pair::{Pair, ParseError, Rule};

fn leaf(rule: Rule, text: &str) -> Pair {
    Pair { rule, text: text.to_string(), inner: Vec::new() }
}

fn node(rule: Rule, inner: Vec<Pair>) -> Pair {
    Pair { rule, text: String::new(), inner }
}

fn verbatim(code: &str) -> Pair {
    node(Rule::verbatim, vec![leaf(Rule::other, code)])
}

fn integer_type(name: &str) -> Pair {
    node(Rule::variable_type, vec![leaf(Rule::integer_type, name)])
}

fn bool_type() -> Pair {
    node(Rule::variable_type, vec![])
}

fn properties(rule: Rule, item: Rule, names: &[&str]) -> Pair {
    node(rule, names.iter().map(|n| leaf(item, n)).collect())
}

fn variable(ty: Pair, name: &str, extra: Vec<Pair>) -> Pair {
    let mut inner = vec![ty, leaf(Rule::other, name)];
    inner.extend(extra);
    node(Rule::variable, inner)
}

fn argument(ty: Pair, name: &str, extra: Vec<Pair>) -> Pair {
    let mut inner = vec![ty, leaf(Rule::other, name)];
    inner.extend(extra);
    node(Rule::argument, inner)
}

fn method(ty: Pair, name: &str, args: Vec<Pair>, elements: Vec<Pair>) -> Pair {
    node(
        Rule::method,
        vec![ty, leaf(Rule::other, name), node(Rule::arg_list, args), node(Rule::method_elements, elements)],
    )
}

fn xclass(name: &str, props: Option<Vec<Pair>>, elements: Vec<Pair>) -> Pair {
    let mut inner = vec![leaf(Rule::other, name)];
    if let Some(props) = props {
        inner.push(node(Rule::xclass_properties, props));
    }
    inner.push(node(Rule::xclass_elements, elements));
    node(Rule::xclass, inner)
}

fn interface(elements: Vec<Pair>) -> Pair {
    node(
        Rule::interface,
        vec![
            leaf(Rule::other, "CCP"),
            leaf(Rule::other, "Adder"),
            leaf(Rule::other, "1.0"),
            node(Rule::interface_elements, elements),
        ],
    )
}

#[test]
fn keywords_are_read() {
    assert_eq!(XClassPropertyName::parse(&leaf(Rule::xclass_property_name, "#init")), Some(XClassPropertyName::Init));
    assert_eq!(XClassPropertyName::parse(&leaf(Rule::xclass_property_name, "#process")), Some(XClassPropertyName::Process));
    assert_eq!(XClassPropertyName::parse(&leaf(Rule::xclass_property_name, "#other")), None);
    assert_eq!(XClassPropertyName::parse(&leaf(Rule::other, "#init")), None);
    assert_eq!(IntegerType::parse(&leaf(Rule::integer_type, "S16")), Some(IntegerType::S16));
    assert_eq!(IntegerType::parse(&leaf(Rule::integer_type, "U64")), None);
    assert_eq!(VariableType::parse(&bool_type()), Some(VariableType::Bool));
    assert_eq!(VariableType::parse(&integer_type("U32")), Some(VariableType::IntegerType(IntegerType::U32)));
    assert_eq!(MethodType::parse(&node(Rule::method_type, vec![])), Some(MethodType::Void));
    assert_eq!(
        MethodType::parse(&node(Rule::method_type, vec![integer_type("S8")])),
        Some(MethodType::VariableType(VariableType::IntegerType(IntegerType::S8)))
    );
    assert_eq!(VariableProperty::parse(&leaf(Rule::variable_property, "#shared")), Some(VariableProperty::Shared));
    assert_eq!(VariableProperty::parse(&leaf(Rule::variable_property, "#set")), Some(VariableProperty::Setter));
    assert_eq!(ArgumentProperty::parse(&leaf(Rule::argument_property, "#out")), Some(ArgumentProperty::Out));
    assert_eq!(ArgumentProperty::parse(&leaf(Rule::argument_property, "#sideways")), None);
}

#[test]
fn type_tokens_and_defaults() {
    assert_eq!(VariableType::IntegerType(IntegerType::U8).to_tokens(), "u8");
    assert_eq!(VariableType::IntegerType(IntegerType::S32).to_tokens(), "i32");
    assert_eq!(VariableType::Bool.to_tokens(), "bool");
    assert_eq!(MethodType::Void.to_tokens(), "()");
    assert_eq!(VariableType::Bool.default_value_tokens(), "false");
    assert_eq!(VariableType::IntegerType(IntegerType::U16).default_value_tokens(), "0");
    assert_eq!(IntegerType::default_value_tokens(), "0");
    assert_eq!(XClassPropertyName::Process.fragment(), "PROCESS");
    assert_eq!(VariableProperty::Get.fragment(), "GET");
}

#[test]
fn variable_with_value_and_properties() {
    let pair = variable(
        integer_type("U16"),
        "count",
        vec![leaf(Rule::init_value, "3"), properties(Rule::variable_properties, Rule::variable_property, &["#shared", "#get"])],
    );
    let v = Variable::parse(&pair).unwrap();
    assert_eq!(v.identifier(), "count");
    assert_eq!(v.variable_type(), VariableType::IntegerType(IntegerType::U16));
    assert_eq!(v.maybe_initial_value.as_deref(), Some("3"));
    assert!(v.is_shared());
    assert!(v.is_get());
    assert!(!v.is_set());
}

#[test]
fn variable_with_properties_only() {
    let pair = variable(bool_type(), "flag", vec![properties(Rule::variable_properties, Rule::variable_property, &["#set"])]);
    let v = Variable::parse(&pair).unwrap();
    assert_eq!(v.maybe_initial_value, None);
    assert!(v.is_set());
    assert!(!v.is_shared());
}

#[test]
fn variable_errors() {
    assert_eq!(Variable::try_parse(&node(Rule::variable, vec![])).unwrap_err(), ParseError::MissingPair);
    assert_eq!(Variable::try_parse(&node(Rule::variable, vec![bool_type()])).unwrap_err(), ParseError::MissingPair);
    assert_eq!(
        Variable::try_parse(&variable(integer_type("U99"), "x", vec![])).unwrap_err(),
        ParseError::Unexpected
    );
    assert_eq!(
        Variable::try_parse(&variable(bool_type(), "x", vec![leaf(Rule::other, "?")])).unwrap_err(),
        ParseError::Unexpected
    );
    assert_eq!(
        Variable::try_parse(&variable(
            bool_type(),
            "x",
            vec![properties(Rule::variable_properties, Rule::variable_property, &["#get", "#bogus"])]
        ))
        .unwrap_err(),
        ParseError::Unexpected
    );
    assert!(Variable::try_parse(&leaf(Rule::method, "")).unwrap().is_none());
}

#[test]
fn argument_directions() {
    let plain = argument(integer_type("U8"), "a", vec![]);
    assert_eq!(Argument::parse(&plain, ArgumentProperty::In).unwrap().property(), ArgumentProperty::In);
    assert_eq!(Argument::parse(&plain, ArgumentProperty::Out).unwrap().property(), ArgumentProperty::Out);
    let last_wins = argument(
        integer_type("U8"),
        "b",
        vec![properties(Rule::argument_properties, Rule::argument_property, &["#in", "#out"])],
    );
    assert_eq!(Argument::parse(&last_wins, ArgumentProperty::In).unwrap().property(), ArgumentProperty::Out);
    let with_value = argument(integer_type("U8"), "c", vec![leaf(Rule::init_value, "1")]);
    let c = Argument::parse(&with_value, ArgumentProperty::In).unwrap();
    assert_eq!(c.maybe_initial_value().map(|s| s.as_str()), Some("1"));
}

#[test]
fn argument_errors() {
    let back_in = argument(bool_type(), "a", vec![properties(Rule::argument_properties, Rule::argument_property, &["#in"])]);
    assert_eq!(Argument::try_parse(&back_in, ArgumentProperty::Out).unwrap_err(), ParseError::InArgumentAfterOut);
    let out_with_value = argument(
        bool_type(),
        "b",
        vec![leaf(Rule::init_value, "true"), properties(Rule::argument_properties, Rule::argument_property, &["#out"])],
    );
    assert_eq!(
        Argument::try_parse(&out_with_value, ArgumentProperty::In).unwrap_err(),
        ParseError::OutArgumentWithInitialValue
    );
    let value_after_out = argument(bool_type(), "c", vec![leaf(Rule::init_value, "true")]);
    assert_eq!(
        Argument::try_parse(&value_after_out, ArgumentProperty::Out).unwrap_err(),
        ParseError::OutArgumentWithInitialValue
    );
}

#[test]
fn arguments_are_ins_then_outs() {
    let list = node(
        Rule::arg_list,
        vec![
            argument(integer_type("U8"), "a", vec![]),
            argument(integer_type("U8"), "b", vec![properties(Rule::argument_properties, Rule::argument_property, &["#out"])]),
            argument(integer_type("S8"), "c", vec![]),
        ],
    );
    let args = Method::parse_arguments(&list).unwrap();
    let directions: Vec<ArgumentProperty> = args.iter().map(|a| a.property()).collect();
    assert_eq!(directions, vec![ArgumentProperty::In, ArgumentProperty::Out, ArgumentProperty::Out]);
    let bad = node(
        Rule::arg_list,
        vec![
            argument(bool_type(), "a", vec![properties(Rule::argument_properties, Rule::argument_property, &["#out"])]),
            argument(bool_type(), "b", vec![properties(Rule::argument_properties, Rule::argument_property, &["#in"])]),
        ],
    );
    assert_eq!(Method::try_parse_arguments(&bad).unwrap_err(), ParseError::InArgumentAfterOut);
}

#[test]
fn method_parts() {
    let pair = method(
        node(Rule::method_type, vec![integer_type("U32")]),
        "add",
        vec![
            argument(integer_type("U32"), "x", vec![]),
            argument(integer_type("U32"), "sum", vec![properties(Rule::argument_properties, Rule::argument_property, &["#out"])]),
        ],
        vec![verbatim("let y = x;"), verbatim("y")],
    );
    let m = Method::parse(&pair).unwrap();
    assert_eq!(m.identifier(), "add");
    assert_eq!(m.method_type(), MethodType::VariableType(VariableType::IntegerType(IntegerType::U32)));
    assert!(m.has_in_arguments());
    assert!(m.has_out_arguments());
    assert_eq!(m.in_arguments().len(), 1);
    assert_eq!(m.out_arguments()[0].identifier(), "sum");
    let texts: Vec<String> = m.verbatims().iter().map(|v| v.to_tokens()).collect();
    assert_eq!(texts, vec!["let y = x;".to_string(), "y".to_string()]);
}

#[test]
fn method_errors() {
    assert_eq!(
        Method::try_parse(&node(Rule::method, vec![node(Rule::method_type, vec![]), leaf(Rule::other, "m")])).unwrap_err(),
        ParseError::MissingPair
    );
    let with_variable = method(
        node(Rule::method_type, vec![]),
        "m",
        vec![],
        vec![node(Rule::method_variable, vec![bool_type(), leaf(Rule::other, "v"), leaf(Rule::init_value, "true")])],
    );
    assert_eq!(Method::try_parse(&with_variable).unwrap_err(), ParseError::UnsupportedMethodVariable);
    assert_eq!(
        MethodElement::try_parse(&node(Rule::method_variable, vec![])).unwrap_err(),
        ParseError::UnsupportedMethodVariable
    );
}

#[test]
fn verbatim_must_lex() {
    assert_eq!(Verbatim::parse(&verbatim("a + b")).unwrap().to_tokens(), "a + b");
    assert_eq!(Verbatim::try_parse(&verbatim("fn f( {")).unwrap_err(), ParseError::InvalidVerbatim);
    assert_eq!(Verbatim::try_parse(&node(Rule::verbatim, vec![])).unwrap_err(), ParseError::MissingPair);
    assert!(Verbatim::try_parse(&leaf(Rule::other, "x")).unwrap().is_none());
}

#[test]
fn verbatim_from_lexer_answer() {
    let code = verbatim("a + b");
    assert_eq!(Verbatim::from_checked(&code, true).unwrap().unwrap().to_tokens(), "a + b");
    assert_eq!(Verbatim::from_checked(&code, false).unwrap_err(), ParseError::InvalidVerbatim);
    assert_eq!(Verbatim::from_checked(&node(Rule::verbatim, vec![]), false).unwrap_err(), ParseError::MissingPair);
    assert!(Verbatim::from_checked(&leaf(Rule::other, "x"), false).unwrap().is_none());
}

#[test]
fn unlexable_verbatim_in_a_method_body() {
    let method = node(
        Rule::method,
        vec![
            node(Rule::method_type, vec![]),
            leaf(Rule::other, "run"),
            node(Rule::arg_list, vec![]),
            node(Rule::method_elements, vec![verbatim("let x = \"open;")]),
        ],
    );
    assert_eq!(Method::try_parse(&method).unwrap_err(), ParseError::InvalidVerbatim);
}

#[test]
fn xclass_queries() {
    let pair = xclass(
        "Adder",
        Some(vec![
            node(Rule::xclass_property, vec![leaf(Rule::xclass_property_name, "#init"), verbatim("first();")]),
            node(Rule::xclass_property, vec![leaf(Rule::xclass_property_name, "#process")]),
            node(Rule::xclass_property, vec![leaf(Rule::xclass_property_name, "#init"), verbatim("second();")]),
        ]),
        vec![
            variable(integer_type("U8"), "a", vec![properties(Rule::variable_properties, Rule::variable_property, &["#shared"])]),
            variable(integer_type("U8"), "b", vec![]),
            verbatim("x: u8,"),
            method(node(Rule::method_type, vec![]), "m", vec![], vec![]),
            variable(bool_type(), "c", vec![properties(Rule::variable_properties, Rule::variable_property, &["#shared", "#get"])]),
        ],
    );
    let x = XClass::parse(&pair).unwrap();
    assert_eq!(x.identifier(), "Adder");
    assert_eq!(x.variables().len(), 3);
    let shared: Vec<&str> = x.shared_variables().iter().map(|v| v.identifier().as_str()).collect();
    let instance: Vec<&str> = x.instance_variables().iter().map(|v| v.identifier().as_str()).collect();
    assert_eq!(shared, vec!["a", "c"]);
    assert_eq!(instance, vec!["b"]);
    assert_eq!(x.methods().len(), 1);
    assert_eq!(x.methods_with_out_arguments().len(), 0);
    assert_eq!(x.properties_of_name(XClassPropertyName::Init).unwrap().len(), 2);
    let init = x.last_init_property().unwrap();
    assert_eq!(init.verbatim().unwrap().to_tokens(), "second();");
    assert!(x.last_process_property().unwrap().verbatim().is_none());
    assert_eq!(x.verbatims().len(), 1);
    assert!(matches!(x.elements[2], XClassElement::Verbatim(_)));
}

#[test]
fn xclass_without_properties() {
    let x = XClass::parse(&xclass("Plain", None, vec![])).unwrap();
    assert!(x.properties.is_none());
    assert!(x.last_init_property().is_none());
    assert!(x.properties_of_name(XClassPropertyName::Process).is_none());
}

#[test]
fn xclass_errors() {
    assert_eq!(XClass::try_parse(&node(Rule::xclass, vec![leaf(Rule::other, "A")])).unwrap_err(), ParseError::MissingPair);
    assert_eq!(
        XClass::try_parse(&node(Rule::xclass, vec![leaf(Rule::other, "A"), leaf(Rule::other, "?")])).unwrap_err(),
        ParseError::Unexpected
    );
    let bad_property = xclass("A", Some(vec![node(Rule::xclass_property, vec![leaf(Rule::xclass_property_name, "#deinit")])]), vec![]);
    assert_eq!(XClass::try_parse(&bad_property).unwrap_err(), ParseError::Unexpected);
}

#[test]
fn interface_reads_and_refuses_inserts() {
    let pair = interface(vec![xclass("Adder", None, vec![])]);
    let i = Interface::parse(&pair).unwrap();
    assert_eq!(i.ccp_type(), "CCP");
    assert_eq!(i.name(), "Adder");
    assert_eq!(i.version(), "1.0");
    assert_eq!(i.interface_elements().len(), 1);
    assert!(matches!(i.interface_elements()[0], InterfaceElement::XClass(_)));
    let with_insert = interface(vec![node(Rule::insert, vec![])]);
    assert_eq!(Interface::try_parse(&with_insert).unwrap_err(), ParseError::UnsupportedInsert);
    assert_eq!(Interface::try_parse(&node(Rule::interface, vec![])).unwrap_err(), ParseError::MissingPair);
    assert!(Interface::try_parse(&leaf(Rule::xclass, "")).unwrap().is_none());
}

#[test]
fn insert_reads_its_parts() {
    let pair = node(
        Rule::insert,
        vec![
            node(
                Rule::insert_properties,
                vec![node(Rule::insert_property, vec![leaf(Rule::other, "file"), node(Rule::other, vec![leaf(Rule::other, "x.h")])])],
            ),
            verbatim("const A: u8 = 1;"),
            leaf(Rule::other, "ignored"),
        ],
    );
    let insert = Insert::parse(&pair).unwrap();
    let props = insert.properties.as_ref().unwrap();
    assert_eq!(props[0].name, "file");
    assert_eq!(props[0].value, "x.h");
    assert_eq!(insert.to_tokens(), "const A: u8 = 1;");
    let empty = Insert::parse(&node(Rule::insert, vec![])).unwrap();
    assert_eq!(empty.to_tokens(), "");
    let broken = node(Rule::insert, vec![node(Rule::insert_properties, vec![node(Rule::insert_property, vec![])])]);
    assert_eq!(Insert::try_parse(&broken).unwrap_err(), ParseError::MissingPair);
}
