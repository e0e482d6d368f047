//! The struct that all instances of an XClass share, and its one instance.

use vstd::prelude::*;

use crate::ast::xclass::variable::Variable;
use crate::ast::xclass::method::{Method, SpecMethod};
use crate::ast::xclass::variable::SpecVariable;
use crate::ast::xclass::XClass;
use crate::codegen::idl::SpecXClassCode;
use crate::codegen::rust::definition::{SpecStructFieldDefinition, StructDefiner, StructFieldDefiner, StructFieldDefinition};
use crate::codegen::rust::instantiation::{
    SpecStructFieldInstantiation, SpecStructInstantiation, StaticAssigner, StructFieldInstantiation,
    StructFieldInstantiator, StructInstantiator,
};
use crate::seqs::{append_vec, lemma_take_all};
use crate::text::{to_upper_hex, upper_hex};

verus! {

impl SpecXClassCode {
    /// `<class>_<checksum in upper-case hex>_SHARED_TYPE`
    pub open spec fn shared_type_identifier(self) -> Seq<char> {
        self.xclass.identifier + "_"@ + upper_hex(self.idl_checksum as nat) + "_SHARED_TYPE"@
    }

    /// `<class>_<checksum in upper-case hex>_SHARED_INSTANCE`
    pub open spec fn shared_instance_identifier(self) -> Seq<char> {
        self.xclass.identifier + "_"@ + upper_hex(self.idl_checksum as nat) + "_SHARED_INSTANCE"@
    }

    /// The fields of the shared struct: the `init_flag`, then the `#shared`
    /// variables, then one field for each method with `#out` arguments.
    pub open spec fn shared_struct_fields(self) -> Seq<SpecStructFieldDefinition> {
        seq![SpecStructFieldDefinition { identifier: "init_flag"@, type_tokens: "u32"@ }]
            + self.xclass.shared_variables().map_values(|v: SpecVariable| v.field_definition())
            + self.xclass.methods_with_out_arguments().map_values(|m: SpecMethod| m.field_definition())
    }

    /// The initial values of the fields of the shared struct: `init_flag` is
    /// `0`, every other field the default of its type.
    pub open spec fn shared_struct_field_instantiations(self) -> Seq<SpecStructFieldInstantiation> {
        seq![SpecStructFieldInstantiation { identifier: "init_flag"@, value_tokens: "0"@ }]
            + self.xclass.shared_variables().map_values(|v: SpecVariable| v.field_instantiation())
            + self.xclass.methods_with_out_arguments().map_values(|m: SpecMethod| m.field_instantiation())
    }

    /// The initial value of the shared struct.
    pub open spec fn shared_struct_instantiation(self) -> SpecStructInstantiation {
        SpecStructInstantiation { identifier: self.shared_type_identifier(), fields: self.shared_struct_field_instantiations() }
    }
}

/// The struct that holds what all instances of an XClass share: an
/// initialisation flag, the `#shared` variables and the `#out` arguments of
/// the methods.
#[derive(Debug)]
pub struct SharedStruct {
    idl_checksum: u64,
    xclass: XClass,
}

impl DeepView for SharedStruct {
    type V = SpecXClassCode;

    closed spec fn deep_view(&self) -> SpecXClassCode {
        SpecXClassCode { idl_checksum: self.idl_checksum, xclass: self.xclass.deep_view() }
    }
}

/// The field definitions of `variables`, in order.
pub(crate) fn variable_field_definitions(variables: &Vec<&Variable>) -> (res: Vec<StructFieldDefinition>)
    ensures
        res.deep_view() == variables.deep_view().map_values(|v: SpecVariable| v.field_definition()),
{
    let ghost wanted = variables.deep_view().map_values(|v: SpecVariable| v.field_definition());
    let mut res: Vec<StructFieldDefinition> = Vec::new();
    let mut i: usize = 0;
    while i < variables.len()
        invariant
            i <= variables@.len(),
            wanted == variables.deep_view().map_values(|v: SpecVariable| v.field_definition()),
            res.deep_view() =~= wanted.take(i as int),
        decreases variables@.len() - i,
    {
        let field = StructFieldDefiner::to_struct_field_definition(variables[i]);
        let ghost before = res.deep_view();
        res.push(field);
        assert(res.deep_view() =~= before.push(field.deep_view()));
        i = i + 1;
    }
    proof { lemma_take_all(wanted); }
    res
}

/// The field values that `variables` start with, in order.
pub(crate) fn variable_field_instantiations(variables: &Vec<&Variable>) -> (res: Vec<StructFieldInstantiation>)
    ensures
        res.deep_view() == variables.deep_view().map_values(|v: SpecVariable| v.field_instantiation()),
{
    let ghost wanted = variables.deep_view().map_values(|v: SpecVariable| v.field_instantiation());
    let mut res: Vec<StructFieldInstantiation> = Vec::new();
    let mut i: usize = 0;
    while i < variables.len()
        invariant
            i <= variables@.len(),
            wanted == variables.deep_view().map_values(|v: SpecVariable| v.field_instantiation()),
            res.deep_view() =~= wanted.take(i as int),
        decreases variables@.len() - i,
    {
        let field = StructFieldInstantiator::to_struct_field_instantiation(variables[i]);
        let ghost before = res.deep_view();
        res.push(field);
        assert(res.deep_view() =~= before.push(field.deep_view()));
        i = i + 1;
    }
    proof { lemma_take_all(wanted); }
    res
}

/// The shared-struct fields of `methods`, in order.
fn method_field_definitions(methods: &Vec<&Method>) -> (res: Vec<StructFieldDefinition>)
    ensures
        res.deep_view() == methods.deep_view().map_values(|m: SpecMethod| m.field_definition()),
{
    let ghost wanted = methods.deep_view().map_values(|m: SpecMethod| m.field_definition());
    let mut res: Vec<StructFieldDefinition> = Vec::new();
    let mut i: usize = 0;
    while i < methods.len()
        invariant
            i <= methods@.len(),
            wanted == methods.deep_view().map_values(|m: SpecMethod| m.field_definition()),
            res.deep_view() =~= wanted.take(i as int),
        decreases methods@.len() - i,
    {
        let field = StructFieldDefiner::to_struct_field_definition(methods[i]);
        let ghost before = res.deep_view();
        res.push(field);
        assert(res.deep_view() =~= before.push(field.deep_view()));
        i = i + 1;
    }
    proof { lemma_take_all(wanted); }
    res
}

/// The initial values of the shared-struct fields of `methods`, in order.
fn method_field_instantiations(methods: &Vec<&Method>) -> (res: Vec<StructFieldInstantiation>)
    ensures
        res.deep_view() == methods.deep_view().map_values(|m: SpecMethod| m.field_instantiation()),
{
    let ghost wanted = methods.deep_view().map_values(|m: SpecMethod| m.field_instantiation());
    let mut res: Vec<StructFieldInstantiation> = Vec::new();
    let mut i: usize = 0;
    while i < methods.len()
        invariant
            i <= methods@.len(),
            wanted == methods.deep_view().map_values(|m: SpecMethod| m.field_instantiation()),
            res.deep_view() =~= wanted.take(i as int),
        decreases methods@.len() - i,
    {
        let field = StructFieldInstantiator::to_struct_field_instantiation(methods[i]);
        let ghost before = res.deep_view();
        res.push(field);
        assert(res.deep_view() =~= before.push(field.deep_view()));
        i = i + 1;
    }
    proof { lemma_take_all(wanted); }
    res
}

impl SharedStruct {
    pub fn new(idl_checksum: u64, xclass: XClass) -> (res: Self)
        ensures
            res.deep_view() == (SpecXClassCode { idl_checksum, xclass: xclass.deep_view() }),
    {
        SharedStruct { idl_checksum, xclass }
    }

    pub fn idl_checksum(&self) -> (res: u64)
        ensures
            res == self.deep_view().idl_checksum,
    {
        self.idl_checksum
    }

    pub fn xclass(&self) -> (res: &XClass)
        ensures
            res.deep_view() == self.deep_view().xclass,
    {
        &self.xclass
    }

    /// The name of the initialisation flag: `init_flag`.
    pub fn init_flag_field_identifier() -> (res: String)
        ensures
            res@ == "init_flag"@,
    {
        "init_flag".to_owned()
    }

    /// `<class>_<checksum in upper-case hex>_SHARED_TYPE`
    pub fn type_identifier(&self) -> (res: String)
        ensures
            res@ == self.deep_view().shared_type_identifier(),
    {
        let mut res = self.xclass.identifier();
        res.append("_");
        res.append(to_upper_hex(self.idl_checksum).as_str());
        res.append("_SHARED_TYPE");
        res
    }

    /// `<class>_<checksum in upper-case hex>_SHARED_INSTANCE`
    pub fn instance_identifier(&self) -> (res: String)
        ensures
            res@ == self.deep_view().shared_instance_identifier(),
    {
        let mut res = self.xclass.identifier();
        res.append("_");
        res.append(to_upper_hex(self.idl_checksum).as_str());
        res.append("_SHARED_INSTANCE");
        res
    }

    /// The fields of the shared struct, in order.
    pub fn struct_field_definitions(&self) -> (res: Vec<StructFieldDefinition>)
        ensures
            res.deep_view() == self.deep_view().shared_struct_fields(),
    {
        let mut res: Vec<StructFieldDefinition> = Vec::new();
        let init_flag = StructFieldDefinition::new(Self::init_flag_field_identifier(), "u32".to_owned());
        res.push(init_flag);
        assert(res.deep_view() =~= seq![init_flag.deep_view()]);
        let shared = variable_field_definitions(&self.xclass.shared_variables());
        append_vec(&mut res, shared);
        let methods = method_field_definitions(&self.xclass.methods_with_out_arguments());
        append_vec(&mut res, methods);
        res
    }
}

/// The shared struct is named after the class and the checksum.
impl StructDefiner for SharedStruct {
    open spec fn struct_identifier_text(&self) -> Seq<char> {
        self.deep_view().shared_type_identifier()
    }

    open spec fn struct_fields_view(&self) -> Seq<SpecStructFieldDefinition> {
        self.deep_view().shared_struct_fields()
    }

    fn identifier(&self) -> String {
        self.type_identifier()
    }

    fn fields(&self) -> Vec<StructFieldDefinition> {
        self.struct_field_definitions()
    }
}

/// The shared struct starts with every field at its initial value.
impl StructInstantiator for SharedStruct {
    open spec fn instantiation_identifier_text(&self) -> Seq<char> {
        self.deep_view().shared_type_identifier()
    }

    open spec fn instantiation_fields_view(&self) -> Seq<SpecStructFieldInstantiation> {
        self.deep_view().shared_struct_field_instantiations()
    }

    fn identifier(&self) -> String {
        self.type_identifier()
    }

    fn fields(&self) -> Vec<StructFieldInstantiation> {
        let mut res: Vec<StructFieldInstantiation> = Vec::new();
        let init_flag = StructFieldInstantiation::new(Self::init_flag_field_identifier(), "0".to_owned());
        res.push(init_flag);
        assert(res.deep_view() =~= seq![init_flag.deep_view()]);
        let shared = variable_field_instantiations(&self.xclass.shared_variables());
        append_vec(&mut res, shared);
        let methods = method_field_instantiations(&self.xclass.methods_with_out_arguments());
        append_vec(&mut res, methods);
        res
    }
}

/// The one instance of the shared struct is a `static` item.
impl StaticAssigner for SharedStruct {
    open spec fn static_identifier_text(&self) -> Seq<char> {
        self.deep_view().shared_instance_identifier()
    }

    open spec fn static_type_text(&self) -> Seq<char> {
        self.deep_view().shared_type_identifier()
    }

    open spec fn static_value_text(&self) -> Seq<char> {
        self.deep_view().shared_struct_instantiation().text()
    }

    fn identifier(&self) -> String {
        self.instance_identifier()
    }

    fn type_tokens(&self) -> String {
        self.type_identifier()
    }

    fn value_tokens(&self) -> String {
        StructInstantiator::to_struct_instantiation(self).to_tokens()
    }
}

/// The shared struct's type and its one instance have different names.
pub proof fn lemma_shared_names_differ(code: SpecXClassCode)
    ensures
        code.shared_type_identifier() != code.shared_instance_identifier(),
{
    reveal_strlit("_SHARED_TYPE");
    reveal_strlit("_SHARED_INSTANCE");
    assert(code.shared_type_identifier().len() != code.shared_instance_identifier().len());
}

} // verus!
