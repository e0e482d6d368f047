//! The struct of one instance of an XClass.

use vstd::prelude::*;

use crate::ast::xclass::method::SpecMethod;
use crate::ast::xclass::variable::SpecVariable;
use crate::ast::xclass::{is_instance_variable, is_shared_variable, XClass};
use crate::codegen::idl::shared_struct::{variable_field_definitions, SharedStruct};
use crate::codegen::idl::SpecXClassCode;
use crate::codegen::rust::definition::{SpecStructFieldDefinition, StructDefiner, StructFieldDefinition};
use crate::seqs::append_vec;

verus! {

impl SpecXClassCode {
    /// The fields of the instance struct: `reserved`, a pointer `shared` to
    /// the shared struct, then the variables that are not `#shared`.
    pub open spec fn instance_struct_fields(self) -> Seq<SpecStructFieldDefinition> {
        seq![
            SpecStructFieldDefinition { identifier: "reserved"@, type_tokens: "u32"@ },
            SpecStructFieldDefinition { identifier: "shared"@, type_tokens: "*mut "@ + self.shared_type_identifier() },
        ] + self.xclass.instance_variables().map_values(|v: SpecVariable| v.field_definition())
    }
}

/// The struct of one instance of an XClass, named after the class.
#[derive(Debug)]
pub struct InstanceStruct {
    idl_checksum: u64,
    xclass: XClass,
}

impl DeepView for InstanceStruct {
    type V = SpecXClassCode;

    closed spec fn deep_view(&self) -> SpecXClassCode {
        SpecXClassCode { idl_checksum: self.idl_checksum, xclass: self.xclass.deep_view() }
    }
}

impl InstanceStruct {
    pub fn new(idl_checksum: u64, xclass: XClass) -> (res: Self)
        ensures
            res.deep_view() == (SpecXClassCode { idl_checksum, xclass: xclass.deep_view() }),
    {
        InstanceStruct { idl_checksum, xclass }
    }

    pub fn idl_checksum(&self) -> (res: u64)
        ensures
            res == self.deep_view().idl_checksum,
    {
        self.idl_checksum
    }

    pub fn xclass(&self) -> (res: &XClass)
        ensures
            res.deep_view() == self.deep_view().xclass,
    {
        &self.xclass
    }

    /// The name of the field that points to the shared struct: `shared`.
    pub fn shared_field_identifier() -> (res: String)
        ensures
            res@ == "shared"@,
    {
        "shared".to_owned()
    }
}

/// The instance struct is named after the class.
impl StructDefiner for InstanceStruct {
    open spec fn struct_identifier_text(&self) -> Seq<char> {
        self.deep_view().xclass.identifier
    }

    open spec fn struct_fields_view(&self) -> Seq<SpecStructFieldDefinition> {
        self.deep_view().instance_struct_fields()
    }

    fn identifier(&self) -> String {
        self.xclass.identifier()
    }

    fn fields(&self) -> Vec<StructFieldDefinition> {
        let shared_struct = SharedStruct::new(self.idl_checksum, self.xclass.clone());
        let shared_struct_type_identifier = shared_struct.type_identifier();
        let mut res: Vec<StructFieldDefinition> = Vec::new();
        let reserved = StructFieldDefinition::new("reserved".to_owned(), "u32".to_owned());
        let shared = StructFieldDefinition::new(
            Self::shared_field_identifier(),
            "*mut ".to_owned().concat(shared_struct_type_identifier.as_str()),
        );
        res.push(reserved);
        res.push(shared);
        assert(res.deep_view() =~= seq![reserved.deep_view(), shared.deep_view()]);
        let instance = variable_field_definitions(&self.xclass.instance_variables());
        append_vec(&mut res, instance);
        res
    }
}

/// Every variable of an XClass has a field: a `#shared` variable in the
/// shared struct, any other in the instance struct.
pub proof fn lemma_variables_have_fields(code: SpecXClassCode)
    ensures
        forall|i: int| 0 <= i < code.xclass.variables().len() ==> {
            let v = #[trigger] code.xclass.variables()[i];
            &&& v.is_shared() ==> code.shared_struct_fields().contains(v.field_definition())
            &&& !v.is_shared() ==> code.instance_struct_fields().contains(v.field_definition())
        },
{
    let variables = code.xclass.variables();
    let shared = code.xclass.shared_variables();
    let instance = code.xclass.instance_variables();
    assert forall|i: int| 0 <= i < variables.len() implies {
        let v = #[trigger] variables[i];
        &&& v.is_shared() ==> code.shared_struct_fields().contains(v.field_definition())
        &&& !v.is_shared() ==> code.instance_struct_fields().contains(v.field_definition())
    } by {
        let v = variables[i];
        if v.is_shared() {
            variables.lemma_filter_contains(|w: SpecVariable| is_shared_variable(w), i);
            let k: int = choose|k: int| 0 <= k < shared.len() && shared[k] == v;
            let head = seq![SpecStructFieldDefinition { identifier: "init_flag"@, type_tokens: "u32"@ }];
            let shared_fields = shared.map_values(|w: SpecVariable| w.field_definition());
            let method_fields = code.xclass.methods_with_out_arguments().map_values(|m: SpecMethod| m.field_definition());
            assert(code.shared_struct_fields() == head + shared_fields + method_fields);
            assert(code.shared_struct_fields()[1 + k] == v.field_definition());
        } else {
            variables.lemma_filter_contains(|w: SpecVariable| is_instance_variable(w), i);
            let k: int = choose|k: int| 0 <= k < instance.len() && instance[k] == v;
            assert(code.instance_struct_fields()[2 + k] == v.field_definition());
        }
    }
}

} // verus!
