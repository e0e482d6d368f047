//! The Rust source of a whole interface.

use vstd::prelude::*;

use crate::ast::xclass::method::{Method, SpecMethod};
use crate::ast::xclass::variable::{SpecVariable, Variable};
use crate::ast::xclass::{lemma_without_verbatim_elements, SpecXClass, XClass, XClassPropertyName};
use crate::ast::{Interface, InterfaceElement, SpecInterface, SpecInterfaceElement};
use crate::codegen::idl::instance_struct::InstanceStruct;
use crate::codegen::idl::method::{
    XClassMethodDefinition, XClassPropertyMethodDefinition, XClassVariableGetMethodDefinition,
    XClassVariableSetMethodDefinition,
};
use crate::codegen::idl::shared_struct::SharedStruct;
use crate::codegen::idl::SpecXClassCode;
use crate::codegen::rust::definition::{
    MethodDefiner, MethodDefinition, SpecMethodDefinition, SpecStructDefinition, SpecStructFieldDefinition,
    StructDefiner, StructDefinition,
};
use crate::codegen::rust::instantiation::{SpecStaticAssignment, StaticAssigner};
use crate::seqs::{append_vec, lemma_take_all};
use crate::text::{join, joined};

verus! {

/// The definition of the property's function, where there is a property.
pub open spec fn optional_property_definition(xclass: SpecXClass, name: XClassPropertyName) -> Seq<SpecMethodDefinition> {
    match xclass.last_property_of_name(name) {
        Some(p) => seq![xclass.property_method_definition(p)],
        None => Seq::empty(),
    }
}

impl SpecXClass {
    /// The accessors of one variable: its getter if it is `#get`, then its
    /// setter if it is `#set`.
    pub open spec fn accessor_definitions(self, variable: SpecVariable) -> Seq<SpecMethodDefinition> {
        (if variable.is_get() { seq![self.get_method_definition(variable)] } else { Seq::empty() })
            + (if variable.is_set() { seq![self.set_method_definition(variable)] } else { Seq::empty() })
    }
}

/// The accessors of `variables`, variable after variable.
pub open spec fn accessors_of(xclass: SpecXClass, variables: Seq<SpecVariable>) -> Seq<SpecMethodDefinition>
    decreases variables.len(),
{
    if variables.len() == 0 {
        Seq::empty()
    } else {
        accessors_of(xclass, variables.drop_last()) + xclass.accessor_definitions(variables.last())
    }
}

impl SpecXClassCode {
    /// The definition of the shared struct.
    pub open spec fn shared_struct_definition(self) -> SpecStructDefinition {
        SpecStructDefinition { identifier: self.shared_type_identifier(), fields: self.shared_struct_fields() }
    }

    /// The `static` item that holds the one instance of the shared struct.
    pub open spec fn shared_static(self) -> SpecStaticAssignment {
        SpecStaticAssignment {
            identifier: self.shared_instance_identifier(),
            type_tokens: self.shared_type_identifier(),
            value_tokens: self.shared_struct_instantiation().text(),
        }
    }

    /// The definition of the instance struct.
    pub open spec fn instance_struct_definition(self) -> SpecStructDefinition {
        SpecStructDefinition { identifier: self.xclass.identifier, fields: self.instance_struct_fields() }
    }

    /// The functions of the last `#init` and the last `#process` property,
    /// where there are such properties.
    pub open spec fn property_method_definitions(self) -> Seq<SpecMethodDefinition> {
        optional_property_definition(self.xclass, XClassPropertyName::Init)
            + optional_property_definition(self.xclass, XClassPropertyName::Process)
    }

    /// The functions of the methods, in order.
    pub open spec fn method_definitions(self) -> Seq<SpecMethodDefinition> {
        self.xclass.methods().map_values(|m: SpecMethod| self.xclass.method_definition(m))
    }

    /// The accessors of the variables, in order.
    pub open spec fn variable_method_definitions(self) -> Seq<SpecMethodDefinition> {
        accessors_of(self.xclass, self.xclass.variables())
    }

    /// The source texts of the class's items, in order: the shared struct,
    /// the structs of `#out` arguments, the shared instance, the instance
    /// struct, then the functions of the properties, of the variables and of
    /// the methods.
    pub open spec fn definition_texts(self) -> Seq<Seq<char>> {
        seq![self.shared_struct_definition().text()]
            + self.xclass.methods_with_out_arguments().map_values(|m: SpecMethod| m.out_arguments_struct_definition().text())
            + seq![self.shared_static().text(), self.instance_struct_definition().text()]
            + self.property_method_definitions().map_values(|d: SpecMethodDefinition| d.text())
            + self.variable_method_definitions().map_values(|d: SpecMethodDefinition| d.text())
            + self.method_definitions().map_values(|d: SpecMethodDefinition| d.text())
    }

    /// The source text of the class's items, separated by blank lines.
    pub open spec fn definition_text(self) -> Seq<char> {
        joined(self.definition_texts(), "\n\n"@)
    }
}

/// The source texts of `definitions`, in order.
fn method_definition_texts(definitions: &Vec<MethodDefinition>) -> (res: Vec<String>)
    ensures
        res.deep_view() == definitions.deep_view().map_values(|d: SpecMethodDefinition| d.text()),
{
    let ghost wanted = definitions.deep_view().map_values(|d: SpecMethodDefinition| d.text());
    let mut res: Vec<String> = Vec::new();
    let mut i: usize = 0;
    while i < definitions.len()
        invariant
            i <= definitions@.len(),
            wanted == definitions.deep_view().map_values(|d: SpecMethodDefinition| d.text()),
            res.deep_view() =~= wanted.take(i as int),
        decreases definitions@.len() - i,
    {
        let t = definitions[i].to_tokens();
        let ghost before = res.deep_view();
        res.push(t);
        assert(res.deep_view() =~= before.push(t@));
        i = i + 1;
    }
    proof { lemma_take_all(wanted); }
    res
}

/// The source texts of the `#out` argument structs of `methods`, in order.
fn out_arguments_struct_texts(methods: &Vec<&Method>) -> (res: Vec<String>)
    ensures
        res.deep_view() == methods.deep_view().map_values(|m: SpecMethod| m.out_arguments_struct_definition().text()),
{
    let ghost wanted = methods.deep_view().map_values(|m: SpecMethod| m.out_arguments_struct_definition().text());
    let mut res: Vec<String> = Vec::new();
    let mut i: usize = 0;
    while i < methods.len()
        invariant
            i <= methods@.len(),
            wanted == methods.deep_view().map_values(|m: SpecMethod| m.out_arguments_struct_definition().text()),
            res.deep_view() =~= wanted.take(i as int),
        decreases methods@.len() - i,
    {
        let definition: StructDefinition = StructDefiner::to_struct_definition(methods[i]);
        let t = definition.to_tokens();
        let ghost before = res.deep_view();
        res.push(t);
        assert(res.deep_view() =~= before.push(t@));
        i = i + 1;
    }
    proof { lemma_take_all(wanted); }
    res
}

/// The items of an XClass.
#[derive(Debug)]
pub struct XClassDefinition {
    idl_checksum: u64,
    xclass: XClass,
}

impl DeepView for XClassDefinition {
    type V = SpecXClassCode;

    closed spec fn deep_view(&self) -> SpecXClassCode {
        SpecXClassCode { idl_checksum: self.idl_checksum, xclass: self.xclass.deep_view() }
    }
}

impl XClassDefinition {
    pub fn new(idl_checksum: u64, xclass: XClass) -> (res: Self)
        ensures
            res.deep_view() == (SpecXClassCode { idl_checksum, xclass: xclass.deep_view() }),
    {
        XClassDefinition { idl_checksum, xclass }
    }

    pub fn idl_checksum(&self) -> (res: u64)
        ensures
            res == self.deep_view().idl_checksum,
    {
        self.idl_checksum
    }

    pub fn xclass(&self) -> (res: &XClass)
        ensures
            res.deep_view() == self.deep_view().xclass,
    {
        &self.xclass
    }

    /// The functions of the last `#init` and the last `#process` property,
    /// where there are such properties.
    pub fn property_method_definitions(&self) -> (res: Vec<MethodDefinition>)
        ensures
            res.deep_view() == self.deep_view().property_method_definitions(),
    {
        let mut res: Vec<MethodDefinition> = Vec::new();
        match self.xclass.last_init_property() {
            Some(p) => {
                let d = XClassPropertyMethodDefinition::new(self.xclass.clone(), p.clone()).to_method_definition();
                res.push(d);
                assert(res.deep_view() =~= optional_property_definition(self.xclass.deep_view(), XClassPropertyName::Init));
            },
            None => {
                assert(res.deep_view() =~= optional_property_definition(self.xclass.deep_view(), XClassPropertyName::Init));
            },
        }
        let ghost before = res.deep_view();
        match self.xclass.last_process_property() {
            Some(p) => {
                let d = XClassPropertyMethodDefinition::new(self.xclass.clone(), p.clone()).to_method_definition();
                res.push(d);
                assert(res.deep_view() =~= before + optional_property_definition(self.xclass.deep_view(), XClassPropertyName::Process));
            },
            None => {
                assert(res.deep_view() =~= before + optional_property_definition(self.xclass.deep_view(), XClassPropertyName::Process));
            },
        }
        res
    }

    /// The functions of the methods, in order.
    pub fn method_definitions(&self) -> (res: Vec<MethodDefinition>)
        ensures
            res.deep_view() == self.deep_view().method_definitions(),
    {
        let methods = self.xclass.methods();
        let ghost x = self.xclass.deep_view();
        let ghost wanted = self.deep_view().method_definitions();
        let mut res: Vec<MethodDefinition> = Vec::new();
        let mut i: usize = 0;
        while i < methods.len()
            invariant
                i <= methods@.len(),
                x == self.xclass.deep_view(),
                methods.deep_view() == x.methods(),
                wanted == self.deep_view().method_definitions(),
                wanted == x.methods().map_values(|m: SpecMethod| x.method_definition(m)),
                res.deep_view() =~= wanted.take(i as int),
            decreases methods@.len() - i,
        {
            let d = XClassMethodDefinition::new(self.xclass.clone(), methods[i].clone()).to_method_definition();
            let ghost before = res.deep_view();
            res.push(d);
            assert(res.deep_view() =~= before.push(d.deep_view()));
            i = i + 1;
        }
        proof { lemma_take_all(wanted); }
        res
    }

    /// The accessors of the variables, in order: for each variable its
    /// getter if it is `#get`, then its setter if it is `#set`.
    pub fn variable_method_definitions(&self) -> (res: Vec<MethodDefinition>)
        ensures
            res.deep_view() == self.deep_view().variable_method_definitions(),
    {
        let variables = self.xclass.variables();
        let ghost x = self.xclass.deep_view();
        let mut res: Vec<MethodDefinition> = Vec::new();
        let mut i: usize = 0;
        while i < variables.len()
            invariant
                i <= variables@.len(),
                x == self.xclass.deep_view(),
                variables.deep_view() == x.variables(),
                res.deep_view() == accessors_of(x, x.variables().take(i as int)),
            decreases variables@.len() - i,
        {
            let variable: &Variable = variables[i];
            proof {
                assert(x.variables().take(i + 1).drop_last() =~= x.variables().take(i as int));
                assert(x.variables().take(i + 1).last() == variable.deep_view());
            }
            let ghost before = res.deep_view();
            if variable.is_get() {
                let d = XClassVariableGetMethodDefinition::new(self.xclass.clone(), variable.clone()).to_method_definition();
                res.push(d);
            }
            let ghost middle = res.deep_view();
            if variable.is_set() {
                let d = XClassVariableSetMethodDefinition::new(self.xclass.clone(), variable.clone()).to_method_definition();
                res.push(d);
            }
            assert(res.deep_view() =~= before + x.accessor_definitions(variable.deep_view()));
            i = i + 1;
        }
        proof { lemma_take_all(x.variables()); }
        res
    }

    /// The source text of the class's items.
    pub fn to_tokens(&self) -> (res: String)
        ensures
            res@ == self.deep_view().definition_text(),
    {
        let ghost code = self.deep_view();
        let shared_struct = SharedStruct::new(self.idl_checksum, self.xclass.clone());
        let mut texts: Vec<String> = Vec::new();
        texts.push(StructDefiner::to_struct_definition(&shared_struct).to_tokens());
        assert(texts.deep_view() =~= seq![code.shared_struct_definition().text()]);
        append_vec(&mut texts, out_arguments_struct_texts(&self.xclass.methods_with_out_arguments()));
        let ghost before = texts.deep_view();
        texts.push(shared_struct.to_static_assignment().to_tokens());
        let instance_struct = InstanceStruct::new(self.idl_checksum, self.xclass.clone());
        texts.push(StructDefiner::to_struct_definition(&instance_struct).to_tokens());
        assert(texts.deep_view() =~= before + seq![code.shared_static().text(), code.instance_struct_definition().text()]);
        append_vec(&mut texts, method_definition_texts(&self.property_method_definitions()));
        append_vec(&mut texts, method_definition_texts(&self.variable_method_definitions()));
        append_vec(&mut texts, method_definition_texts(&self.method_definitions()));
        assert(texts.deep_view() =~= code.definition_texts());
        join(&texts, "\n\n")
    }
}

/// The source text that an interface element contributes.
pub open spec fn element_text(idl_checksum: u64, element: SpecInterfaceElement) -> Seq<char> {
    match element {
        SpecInterfaceElement::XClass(x) => (SpecXClassCode { idl_checksum, xclass: x }).definition_text(),
        SpecInterfaceElement::Insert(i) => i.tokens_text(),
    }
}

/// An element of an interface together with the IDL checksum.
#[derive(Debug)]
pub struct InterfaceElementDefinition {
    idl_checksum: u64,
    interface_element: InterfaceElement,
}

impl DeepView for InterfaceElementDefinition {
    type V = (u64, SpecInterfaceElement);

    closed spec fn deep_view(&self) -> (u64, SpecInterfaceElement) {
        (self.idl_checksum, self.interface_element.deep_view())
    }
}

impl InterfaceElementDefinition {
    pub fn new(idl_checksum: u64, interface_element: InterfaceElement) -> (res: Self)
        ensures
            res.deep_view() == (idl_checksum, interface_element.deep_view()),
    {
        InterfaceElementDefinition { idl_checksum, interface_element }
    }

    pub fn idl_checksum(&self) -> (res: u64)
        ensures
            res == self.deep_view().0,
    {
        self.idl_checksum
    }

    pub fn interface_element(&self) -> (res: &InterfaceElement)
        ensures
            res.deep_view() == self.deep_view().1,
    {
        &self.interface_element
    }

    /// The source text of the element: the items of an XClass, or the
    /// verbatim code of an insert element.
    pub fn to_tokens(&self) -> (res: String)
        ensures
            res@ == element_text(self.deep_view().0, self.deep_view().1),
    {
        match &self.interface_element {
            InterfaceElement::XClass(xclass) => XClassDefinition::new(self.idl_checksum, xclass.clone()).to_tokens(),
            InterfaceElement::Insert(insert) => insert.to_tokens(),
        }
    }
}

/// What every generated source begins with: `#![no_std]` and a panic
/// handler that loops.
pub open spec fn prelude_text() -> Seq<char> {
    "#![no_std]\n\nuse core::panic::PanicInfo;\n\n#[panic_handler]\nfn panic(_: &PanicInfo) -> ! {\n    loop {}\n}\n\n"@
}

/// The source text of an interface: the prelude, then the items of its
/// elements, in order, separated by blank lines.
pub open spec fn interface_text(idl_checksum: u64, interface: SpecInterface) -> Seq<char> {
    prelude_text() + joined(interface.interface_elements.map_values(|e: SpecInterfaceElement| element_text(idl_checksum, e)), "\n\n"@)
}

/// An interface together with the checksum of its IDL description: the
/// whole generated source.
#[derive(Debug)]
pub struct InterfaceDefinition {
    idl_checksum: u64,
    interface: Interface,
}

impl DeepView for InterfaceDefinition {
    type V = (u64, SpecInterface);

    closed spec fn deep_view(&self) -> (u64, SpecInterface) {
        (self.idl_checksum, self.interface.deep_view())
    }
}

impl InterfaceDefinition {
    pub fn new(idl_checksum: u64, interface: Interface) -> (res: Self)
        ensures
            res.deep_view() == (idl_checksum, interface.deep_view()),
    {
        InterfaceDefinition { idl_checksum, interface }
    }

    pub fn idl_checksum(&self) -> (res: u64)
        ensures
            res == self.deep_view().0,
    {
        self.idl_checksum
    }

    pub fn interface(&self) -> (res: &Interface)
        ensures
            res.deep_view() == self.deep_view().1,
    {
        &self.interface
    }

    /// The whole generated source text.
    pub fn to_tokens(&self) -> (res: String)
        ensures
            res@ == interface_text(self.deep_view().0, self.deep_view().1),
    {
        let elements = self.interface.interface_elements();
        let ghost wanted = self.deep_view().1.interface_elements.map_values(|e: SpecInterfaceElement| element_text(self.deep_view().0, e));
        let mut texts: Vec<String> = Vec::new();
        let mut i: usize = 0;
        while i < elements.len()
            invariant
                i <= elements@.len(),
                elements.deep_view() == self.deep_view().1.interface_elements,
                wanted == self.deep_view().1.interface_elements.map_values(|e: SpecInterfaceElement| element_text(self.deep_view().0, e)),
                texts.deep_view() =~= wanted.take(i as int),
            decreases elements@.len() - i,
        {
            let definition = InterfaceElementDefinition::new(self.idl_checksum, elements[i].clone());
            let t = definition.to_tokens();
            let ghost before = texts.deep_view();
            texts.push(t);
            assert(texts.deep_view() =~= before.push(t@));
            i = i + 1;
        }
        proof { lemma_take_all(wanted); }
        let mut res = "#![no_std]\n\nuse core::panic::PanicInfo;\n\n#[panic_handler]\nfn panic(_: &PanicInfo) -> ! {\n    loop {}\n}\n\n".to_owned();
        res.append(join(&texts, "\n\n").as_str());
        res
    }
}

/// A getter is made exactly for each `#get` variable and a setter exactly for
/// each `#set` variable: each of those is among the accessors, and each
/// accessor is one of those.
pub proof fn lemma_accessors(xclass: SpecXClass, variables: Seq<SpecVariable>)
    ensures
        forall|i: int| 0 <= i < variables.len() && (#[trigger] variables[i]).is_get()
            ==> accessors_of(xclass, variables).contains(xclass.get_method_definition(variables[i])),
        forall|i: int| 0 <= i < variables.len() && (#[trigger] variables[i]).is_set()
            ==> accessors_of(xclass, variables).contains(xclass.set_method_definition(variables[i])),
        forall|k: int| 0 <= k < accessors_of(xclass, variables).len() ==> exists|i: int|
            #![trigger variables[i]]
            0 <= i < variables.len() && {
                ||| variables[i].is_get() && (#[trigger] accessors_of(xclass, variables)[k]) == xclass.get_method_definition(variables[i])
                ||| variables[i].is_set() && accessors_of(xclass, variables)[k] == xclass.set_method_definition(variables[i])
            },
    decreases variables.len(),
{
    if variables.len() > 0 {
        let t = variables.drop_last();
        let v = variables.last();
        let n: int = variables.len() - 1;
        lemma_accessors(xclass, t);
        let before = accessors_of(xclass, t);
        let own = xclass.accessor_definitions(v);
        let all = accessors_of(xclass, variables);
        assert(all == before + own);
        assert forall|i: int| 0 <= i < variables.len() && (#[trigger] variables[i]).is_get()
            implies all.contains(xclass.get_method_definition(variables[i])) by {
            if i < n {
                assert(variables[i] == t[i]);
                let k: int = choose|k: int| 0 <= k < before.len() && before[k] == xclass.get_method_definition(t[i]);
                assert(all[k] == before[k]);
            } else {
                assert(all[before.len() as int] == own[0]);
            }
        }
        assert forall|i: int| 0 <= i < variables.len() && (#[trigger] variables[i]).is_set()
            implies all.contains(xclass.set_method_definition(variables[i])) by {
            if i < n {
                assert(variables[i] == t[i]);
                let k: int = choose|k: int| 0 <= k < before.len() && before[k] == xclass.set_method_definition(t[i]);
                assert(all[k] == before[k]);
            } else {
                let k: int = own.len() - 1;
                assert(all[before.len() + k] == own[k]);
            }
        }
        assert forall|k: int| 0 <= k < all.len() implies exists|i: int|
            #![trigger variables[i]]
            0 <= i < variables.len() && {
                ||| variables[i].is_get() && (#[trigger] all[k]) == xclass.get_method_definition(variables[i])
                ||| variables[i].is_set() && all[k] == xclass.set_method_definition(variables[i])
            } by {
            if k < before.len() {
                assert(all[k] == before[k]);
                let i: int = choose|i: int|
                    #![trigger t[i]]
                    0 <= i < t.len() && {
                        ||| t[i].is_get() && before[k] == xclass.get_method_definition(t[i])
                        ||| t[i].is_set() && before[k] == xclass.set_method_definition(t[i])
                    };
                assert(variables[i] == t[i]);
            } else {
                assert(all[k] == own[k - before.len()]);
                assert(variables[n] == v);
            }
        }
    }
}

/// Each method with `#out` arguments has a field in the shared struct whose
/// type is the struct of its `#out` arguments, and that struct is among the
/// class's items; the instance struct points to the shared struct, and the
/// shared instance is of the shared struct's type.
pub proof fn lemma_items_refer_to_defined_structs(code: SpecXClassCode)
    ensures
        forall|i: int| 0 <= i < code.xclass.methods_with_out_arguments().len() ==> {
            let m = #[trigger] code.xclass.methods_with_out_arguments()[i];
            &&& code.shared_struct_fields().contains(m.field_definition())
            &&& m.field_definition().type_tokens == m.out_arguments_struct_definition().identifier
            &&& code.definition_texts().contains(m.out_arguments_struct_definition().text())
        },
        code.instance_struct_fields()[1].type_tokens == "*mut "@ + code.shared_struct_definition().identifier,
        code.shared_static().type_tokens == code.shared_struct_definition().identifier,
        code.definition_texts()[0] == code.shared_struct_definition().text(),
{
    let outs = code.xclass.methods_with_out_arguments();
    let shared = code.xclass.shared_variables().map_values(|v: SpecVariable| v.field_definition());
    let fields = outs.map_values(|m: SpecMethod| m.field_definition());
    let texts = outs.map_values(|m: SpecMethod| m.out_arguments_struct_definition().text());
    assert forall|i: int| 0 <= i < outs.len() implies {
        let m = #[trigger] outs[i];
        &&& code.shared_struct_fields().contains(m.field_definition())
        &&& m.field_definition().type_tokens == m.out_arguments_struct_definition().identifier
        &&& code.definition_texts().contains(m.out_arguments_struct_definition().text())
    } by {
        let head = seq![SpecStructFieldDefinition { identifier: "init_flag"@, type_tokens: "u32"@ }];
        assert(code.shared_struct_fields() == head + shared + fields);
        assert(code.shared_struct_fields()[1 + shared.len() + i] == fields[i]);
        let k: int = 1 + i;
        assert(code.definition_texts()[k] == texts[i]);
    }
}

/// The accessors of variables depend on the class only through its name.
proof fn lemma_accessors_of_same_name(a: SpecXClass, b: SpecXClass, variables: Seq<SpecVariable>)
    requires
        a.identifier == b.identifier,
    ensures
        accessors_of(a, variables) == accessors_of(b, variables),
    decreases variables.len(),
{
    if variables.len() > 0 {
        lemma_accessors_of_same_name(a, b, variables.drop_last());
        assert(a.accessor_definitions(variables.last()) =~= b.accessor_definitions(variables.last()));
    }
}

/// Verbatim elements of a class do not reach the generated code: the
/// source text of the class's items is the same with its verbatim elements
/// left out.
pub proof fn lemma_verbatim_elements_unused(code: SpecXClassCode)
    ensures
        code.definition_text() == (SpecXClassCode {
            idl_checksum: code.idl_checksum,
            xclass: code.xclass.without_verbatim_elements(),
        }).definition_text(),
{
    let x = code.xclass;
    let bare = SpecXClassCode { idl_checksum: code.idl_checksum, xclass: x.without_verbatim_elements() };
    lemma_without_verbatim_elements(x);
    lemma_accessors_of_same_name(x, bare.xclass, x.variables());
    assert(bare.method_definitions() =~= code.method_definitions());
    assert(bare.property_method_definitions() =~= code.property_method_definitions());
    assert(bare.variable_method_definitions() =~= code.variable_method_definitions());
    assert(bare.shared_struct_definition() == code.shared_struct_definition());
    assert(bare.shared_static() == code.shared_static());
    assert(bare.instance_struct_definition() == code.instance_struct_definition());
    assert(bare.definition_texts() =~= code.definition_texts());
}

} // verus!
