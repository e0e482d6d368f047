use idl_parser::ast::xclass::variable::Variable;
use idl_parser::ast::xclass::XClass;
use idl_parser::ast::Interface;
use idl_parser::codegen::idl::alien_struct::AlienStruct;
use idl_parser::codegen::idl::instance_struct::InstanceStruct;
use idl_parser::codegen::idl::interface::{InterfaceDefinition, XClassDefinition};
use idl_parser::codegen::idl::method::{
    XClassMethodDefinition, XClassVariableGetMethodDefinition, XClassVariableSetMethodDefinition,
};
use idl_parser::codegen::idl::shared_struct::SharedStruct;
use idl_parser::codegen::rust::definition::{
    ArgumentDefinition, MethodDefiner, MethodDefinition, StructDefiner, StructDefinition, StructFieldDefinition,
};
use idl_parser::codegen::rust::instantiation::{
    StaticAssigner, StaticAssignment, StructFieldInstantiation, StructFieldInstantiator, StructInstantiation,
};
use idl_parser::pair::{Pair, Rule};
use idl_parser::text::{join, to_upper_hex};

fn leaf(rule: Rule, text: &str) -> Pair {
    Pair { rule, text: text.to_string(), inner: Vec::new() }
}

fn node(rule: Rule, inner: Vec<Pair>) -> Pair {
    Pair { rule, text: String::new(), inner }
}

fn verbatim(code: &str) -> Pair {
    node(Rule::verbatim, vec![leaf(Rule::other, code)])
}

fn integer_type(name: &str) -> Pair {
    node(Rule::variable_type, vec![leaf(Rule::integer_type, name)])
}

fn props(rule: Rule, item: Rule, names: &[&str]) -> Pair {
    node(rule, names.iter().map(|n| leaf(item, n)).collect())
}

/// An XClass `Adder` with a shared gettable `count: U16`, an instance
/// settable `flag: bool`, an `#init` property and a method
/// `U32 add(U32 x, U32 sum #out)` whose body is `sum`.
fn adder_pair() -> Pair {
    node(
        Rule::xclass,
        vec![
            leaf(Rule::other, "Adder"),
            node(
                Rule::xclass_properties,
                vec![node(Rule::xclass_property, vec![leaf(Rule::xclass_property_name, "#init"), verbatim("setup();")])],
            ),
            node(
                Rule::xclass_elements,
                vec![
                    node(
                        Rule::variable,
                        vec![
                            integer_type("U16"),
                            leaf(Rule::other, "count"),
                            props(Rule::variable_properties, Rule::variable_property, &["#shared", "#get"]),
                        ],
                    ),
                    node(
                        Rule::variable,
                        vec![
                            node(Rule::variable_type, vec![]),
                            leaf(Rule::other, "flag"),
                            props(Rule::variable_properties, Rule::variable_property, &["#set"]),
                        ],
                    ),
                    node(
                        Rule::method,
                        vec![
                            node(Rule::method_type, vec![integer_type("U32")]),
                            leaf(Rule::other, "add"),
                            node(
                                Rule::arg_list,
                                vec![
                                    node(Rule::argument, vec![integer_type("U32"), leaf(Rule::other, "x")]),
                                    node(
                                        Rule::argument,
                                        vec![
                                            integer_type("U32"),
                                            leaf(Rule::other, "sum"),
                                            props(Rule::argument_properties, Rule::argument_property, &["#out"]),
                                        ],
                                    ),
                                ],
                            ),
                            node(Rule::method_elements, vec![verbatim("sum")]),
                        ],
                    ),
                ],
            ),
        ],
    )
}

fn adder() -> XClass {
    XClass::parse(&adder_pair()).unwrap()
}

const SHARED: &str = "#[repr(C)]\npub struct Adder_1F_SHARED_TYPE {\npub init_flag: u32,\npub count: u16,\npub add: add_OUT_ARGUMENTS_TYPE\n}";
const OUT_ARGUMENTS: &str = "#[repr(C)]\npub struct add_OUT_ARGUMENTS_TYPE {\npub sum: u32\n}";
const STATIC: &str = "#[unsafe(no_mangle)]\npub static mut Adder_1F_SHARED_INSTANCE: Adder_1F_SHARED_TYPE = Adder_1F_SHARED_TYPE {\ninit_flag: 0,\ncount: 0,\nadd: add_OUT_ARGUMENTS_TYPE {\nsum: 0\n}\n};";
const INSTANCE: &str = "#[repr(C)]\npub struct Adder {\npub reserved: u32,\npub shared: *mut Adder_1F_SHARED_TYPE,\npub flag: bool\n}";
const INIT: &str = "#[unsafe(no_mangle)]\npub extern \"C\" fn Adder_INIT(adder: *mut Adder) -> () {\nsetup();\n}";
const GET: &str = "#[unsafe(no_mangle)]\npub extern \"C\" fn Adder_CountGET(adder: *mut Adder) -> u16 {\nlet adder = unsafe { &mut *adder };\nlet shared = unsafe { &mut *adder.shared };\nshared.count\n}";
const SET: &str = "#[unsafe(no_mangle)]\npub extern \"C\" fn Adder_FlagSET(adder: *mut Adder, flag: bool) -> () {\nlet adder = unsafe { &mut *adder };\nadder.flag = flag;\n}";
const METHOD: &str = "#[unsafe(no_mangle)]\npub extern \"C\" fn Adder_add(adder: *mut Adder, x: u32, sum: *mut u32) -> u32 {\nsum\n}";

#[test]
fn upper_hex_formatting() {
    assert_eq!(to_upper_hex(0), "0");
    assert_eq!(to_upper_hex(15), "F");
    assert_eq!(to_upper_hex(16), "10");
    assert_eq!(to_upper_hex(0xDEADBEEF), "DEADBEEF");
    assert_eq!(to_upper_hex(u64::MAX), "FFFFFFFFFFFFFFFF");
    for n in [1u64, 255, 4096, 123456789, 0x0123_4567_89AB_CDEF] {
        assert_eq!(to_upper_hex(n), format!("{:X}", n));
    }
}

#[test]
fn joining() {
    let parts = vec!["a".to_string(), "b".to_string(), "c".to_string()];
    assert_eq!(join(&parts, ", "), "a, b, c");
    assert_eq!(join(&Vec::new(), ", "), "");
    assert_eq!(join(&vec!["only".to_string()], ", "), "only");
}

#[test]
fn rust_item_texts() {
    let field = StructFieldDefinition::new("a".to_string(), "u8".to_string());
    assert_eq!(field.to_tokens(), "pub a: u8");
    let empty = StructDefinition::new("E".to_string(), vec![]);
    assert_eq!(empty.to_tokens(), "#[repr(C)]\npub struct E {\n\n}");
    let no_body = MethodDefinition::new(
        "f".to_string(),
        "()".to_string(),
        vec![ArgumentDefinition::new("x".to_string(), "u8".to_string())],
        None,
    );
    assert_eq!(no_body.to_tokens(), "#[unsafe(no_mangle)]\npub extern \"C\" fn f(x: u8) -> () {\ntodo!();\n}");
    let value = StructInstantiation::new("S".to_string(), vec![StructFieldInstantiation::new("a".to_string(), "0".to_string())]);
    assert_eq!(value.to_tokens(), "S {\na: 0\n}");
    let item = StaticAssignment::new("I".to_string(), "S".to_string(), "S {}".to_string());
    assert_eq!(item.to_tokens(), "#[unsafe(no_mangle)]\npub static mut I: S = S {};");
}

#[test]
fn shared_struct_names_and_fields() {
    let shared = SharedStruct::new(0x1F, adder());
    assert_eq!(shared.type_identifier(), "Adder_1F_SHARED_TYPE");
    assert_eq!(shared.instance_identifier(), "Adder_1F_SHARED_INSTANCE");
    assert_ne!(shared.type_identifier(), shared.instance_identifier());
    assert_eq!(SharedStruct::init_flag_field_identifier(), "init_flag");
    assert_eq!(shared.to_struct_definition().to_tokens(), SHARED);
    assert_eq!(shared.to_static_assignment().to_tokens(), STATIC);
}

#[test]
fn instance_and_alien_structs() {
    let instance = InstanceStruct::new(0x1F, adder());
    assert_eq!(InstanceStruct::shared_field_identifier(), "shared");
    assert_eq!(instance.to_struct_definition().to_tokens(), INSTANCE);
    let alien = AlienStruct::new(adder());
    assert_eq!(alien.type_identifier(), "AdderAlien");
    assert_eq!(alien.field_tokens(), "");
}

#[test]
fn out_arguments_struct() {
    let x = adder();
    let methods = x.methods_with_out_arguments();
    assert_eq!(methods.len(), 1);
    assert_eq!(StructDefiner::to_struct_definition(methods[0]).to_tokens(), OUT_ARGUMENTS);
}

#[test]
fn functions_of_an_xclass() {
    let x = adder();
    let variables = x.variables();
    let get = XClassVariableGetMethodDefinition::new(adder(), variables[0].clone());
    assert_eq!(get.self_instance_identifier(), "adder");
    assert_eq!(get.self_type_identifier(), "Adder");
    assert_eq!(get.to_method_definition().to_tokens(), GET);
    let set = XClassVariableSetMethodDefinition::new(adder(), variables[1].clone());
    assert_eq!(set.to_method_definition().to_tokens(), SET);
    let method = XClassMethodDefinition::new(adder(), x.methods()[0].clone());
    assert_eq!(method.to_method_definition().to_tokens(), METHOD);
}

#[test]
fn snake_case_of_a_class_name() {
    let x = XClass::parse(&node(
        Rule::xclass,
        vec![
            leaf(Rule::other, "MyAdder"),
            node(
                Rule::xclass_elements,
                vec![node(
                    Rule::variable,
                    vec![
                        integer_type("U8"),
                        leaf(Rule::other, "level"),
                        props(Rule::variable_properties, Rule::variable_property, &["#get"]),
                    ],
                )],
            ),
        ],
    ))
    .unwrap();
    let get = XClassVariableGetMethodDefinition::new(x.clone(), x.variables()[0].clone());
    assert_eq!(get.self_instance_identifier(), "my_adder");
    let text = XClassDefinition::new(0, x).to_tokens();
    assert!(text.contains("pub struct MyAdder {\npub reserved: u32,\npub shared: *mut MyAdder_0_SHARED_TYPE,\npub level: u8\n}"));
    assert!(text.contains(
        "pub extern \"C\" fn MyAdder_LevelGET(my_adder: *mut MyAdder) -> u8 {\nlet my_adder = unsafe { &mut *my_adder };\nmy_adder.level\n}"
    ));
}

#[test]
fn accessors_follow_the_properties() {
    let definition = XClassDefinition::new(0x1F, adder());
    let accessors = definition.variable_method_definitions();
    let names: Vec<String> = accessors.iter().map(|d| d.method_identifier().clone()).collect();
    assert_eq!(names, vec!["Adder_CountGET".to_string(), "Adder_FlagSET".to_string()]);
    let properties = definition.property_method_definitions();
    assert_eq!(properties.len(), 1);
    assert_eq!(properties[0].to_tokens(), INIT);
    assert_eq!(definition.method_definitions().len(), 1);
}

#[test]
fn whole_xclass_text() {
    let definition = XClassDefinition::new(0x1F, adder());
    let expected = [SHARED, OUT_ARGUMENTS, STATIC, INSTANCE, INIT, GET, SET, METHOD].join("\n\n");
    assert_eq!(definition.to_tokens(), expected);
}

#[test]
fn xclass_verbatim_elements_do_not_reach_the_code() {
    let mut pair = adder_pair();
    pair.inner[2].inner.insert(1, verbatim("static EXTRA: u8 = 1;"));
    pair.inner[2].inner.push(verbatim("fn helper() {}"));
    let with_verbatims = XClass::parse(&pair).unwrap();
    assert_eq!(with_verbatims.elements.len(), 5);
    let expected = [SHARED, OUT_ARGUMENTS, STATIC, INSTANCE, INIT, GET, SET, METHOD].join("\n\n");
    assert_eq!(XClassDefinition::new(0x1F, with_verbatims).to_tokens(), expected);
}

#[test]
fn whole_interface_is_rust() {
    let pair = node(
        Rule::interface,
        vec![
            leaf(Rule::other, "CCP"),
            leaf(Rule::other, "Adder"),
            leaf(Rule::other, "1.0"),
            node(Rule::interface_elements, vec![adder_pair()]),
        ],
    );
    let interface = Interface::parse(&pair).unwrap();
    let text = InterfaceDefinition::new(0x1F, interface).to_tokens();
    assert!(text.starts_with("#![no_std]\n\nuse core::panic::PanicInfo;"));
    assert!(text.ends_with(METHOD));
    let file = syn::parse_file(&text).expect("generated source parses as Rust");
    assert_eq!(file.items.len(), 10);
}

#[test]
fn shared_variable_starts_at_its_initial_value() {
    let counted = node(
        Rule::xclass,
        vec![
            leaf(Rule::other, "Counter"),
            node(
                Rule::xclass_elements,
                vec![
                    node(
                        Rule::variable,
                        vec![
                            integer_type("U16"),
                            leaf(Rule::other, "count"),
                            leaf(Rule::init_value, "7"),
                            props(Rule::variable_properties, Rule::variable_property, &["#shared"]),
                        ],
                    ),
                    node(
                        Rule::variable,
                        vec![
                            integer_type("U8"),
                            leaf(Rule::other, "step"),
                            props(Rule::variable_properties, Rule::variable_property, &["#shared"]),
                        ],
                    ),
                ],
            ),
        ],
    );
    let xclass = XClass::parse(&counted).unwrap();
    let shared = SharedStruct::new(0, xclass);
    assert_eq!(
        shared.to_static_assignment().to_tokens(),
        "#[unsafe(no_mangle)]\npub static mut Counter_0_SHARED_INSTANCE: Counter_0_SHARED_TYPE = Counter_0_SHARED_TYPE {\ninit_flag: 0,\ncount: 7,\nstep: 0\n};"
    );
    let plain = Variable::parse(&node(Rule::variable, vec![node(Rule::variable_type, vec![]), leaf(Rule::other, "on")])).unwrap();
    assert_eq!(StructFieldInstantiator::value_tokens(&plain), "false");
}
