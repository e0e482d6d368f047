//! Struct values and `static` items that hold them.

use vstd::prelude::*;

use crate::text::{join, joined};

verus! {

/// A field of a struct value as the model holds it.
pub struct SpecStructFieldInstantiation {
    pub identifier: Seq<char>,
    pub value_tokens: Seq<char>,
}

impl SpecStructFieldInstantiation {
    /// `<identifier>: <value>`
    pub open spec fn text(self) -> Seq<char> {
        self.identifier + ": "@ + self.value_tokens
    }
}

/// The source texts of `fields`, in order.
pub open spec fn field_instantiation_texts(fields: Seq<SpecStructFieldInstantiation>) -> Seq<Seq<char>> {
    fields.map_values(|f: SpecStructFieldInstantiation| f.text())
}

/// A struct value as the model holds it.
pub struct SpecStructInstantiation {
    pub identifier: Seq<char>,
    pub fields: Seq<SpecStructFieldInstantiation>,
}

impl SpecStructInstantiation {
    /// `<identifier> { <fields, separated by commas> }`
    pub open spec fn text(self) -> Seq<char> {
        self.identifier + " {\n"@ + joined(field_instantiation_texts(self.fields), ",\n"@) + "\n}"@
    }
}

/// A `static` item as the model holds it.
pub struct SpecStaticAssignment {
    pub identifier: Seq<char>,
    pub type_tokens: Seq<char>,
    pub value_tokens: Seq<char>,
}

impl SpecStaticAssignment {
    /// `#[unsafe(no_mangle)] pub static mut <identifier>: <type> = <value>;`
    pub open spec fn text(self) -> Seq<char> {
        "#[unsafe(no_mangle)]\npub static mut "@ + self.identifier + ": "@ + self.type_tokens
            + " = "@ + self.value_tokens + ";"@
    }
}

/// A struct value: the struct's name and the values of its fields.
#[derive(Debug)]
pub struct StructInstantiation {
    identifier: String,
    fields: Vec<StructFieldInstantiation>,
}

impl DeepView for StructInstantiation {
    type V = SpecStructInstantiation;

    closed spec fn deep_view(&self) -> SpecStructInstantiation {
        SpecStructInstantiation { identifier: self.identifier@, fields: self.fields.deep_view() }
    }
}

impl StructInstantiation {
    pub fn new(identifier: String, fields: Vec<StructFieldInstantiation>) -> (res: Self)
        ensures
            res.deep_view() == (SpecStructInstantiation { identifier: identifier@, fields: fields.deep_view() }),
    {
        StructInstantiation { identifier, fields }
    }

    pub fn identifier(&self) -> (res: &String)
        ensures
            res@ == self.deep_view().identifier,
    {
        &self.identifier
    }

    pub fn fields(&self) -> (res: &Vec<StructFieldInstantiation>)
        ensures
            res.deep_view() == self.deep_view().fields,
    {
        &self.fields
    }

    /// The source text of the struct value.
    pub fn to_tokens(&self) -> (res: String)
        ensures
            res@ == self.deep_view().text(),
    {
        let mut texts: Vec<String> = Vec::new();
        let mut i: usize = 0;
        while i < self.fields.len()
            invariant
                i <= self.fields@.len(),
                texts.deep_view() =~= field_instantiation_texts(self.fields.deep_view()).take(i as int),
            decreases self.fields@.len() - i,
        {
            let t = self.fields[i].to_tokens();
            assert(field_instantiation_texts(self.fields.deep_view())[i as int] == self.fields@[i as int].deep_view().text());
            let ghost before = texts.deep_view();
            texts.push(t);
            assert(texts.deep_view() =~= before.push(t@));
            i = i + 1;
        }
        assert(field_instantiation_texts(self.fields.deep_view()).take(i as int) =~= field_instantiation_texts(self.fields.deep_view()));
        let mut res = self.identifier.clone();
        res.append(" {\n");
        res.append(join(&texts, ",\n").as_str());
        res.append("\n}");
        res
    }
}

/// What can be instantiated as a struct value.
pub trait StructInstantiator {
    /// The name of the struct.
    spec fn instantiation_identifier_text(&self) -> Seq<char>;

    /// The values of the fields.
    spec fn instantiation_fields_view(&self) -> Seq<SpecStructFieldInstantiation>;

    fn identifier(&self) -> (res: String)
        ensures
            res@ == self.instantiation_identifier_text();

    fn fields(&self) -> (res: Vec<StructFieldInstantiation>)
        ensures
            res.deep_view() == self.instantiation_fields_view();

    fn to_struct_instantiation(&self) -> (res: StructInstantiation)
        ensures
            res.deep_view() == (SpecStructInstantiation { identifier: self.instantiation_identifier_text(), fields: self.instantiation_fields_view() }),
    {
        StructInstantiation::new(self.identifier(), self.fields())
    }
}

/// The value of a field in a struct value: the field's name and its value.
#[derive(Debug)]
pub struct StructFieldInstantiation {
    identifier: String,
    value_tokens: String,
}

impl DeepView for StructFieldInstantiation {
    type V = SpecStructFieldInstantiation;

    closed spec fn deep_view(&self) -> SpecStructFieldInstantiation {
        SpecStructFieldInstantiation { identifier: self.identifier@, value_tokens: self.value_tokens@ }
    }
}

impl Clone for StructFieldInstantiation {
    fn clone(&self) -> (res: Self)
        ensures
            res.deep_view() == self.deep_view(),
    {
        StructFieldInstantiation { identifier: self.identifier.clone(), value_tokens: self.value_tokens.clone() }
    }
}

impl StructFieldInstantiation {
    pub fn new(identifier: String, value_tokens: String) -> (res: Self)
        ensures
            res.deep_view() == (SpecStructFieldInstantiation { identifier: identifier@, value_tokens: value_tokens@ }),
    {
        StructFieldInstantiation { identifier, value_tokens }
    }

    pub fn identifier(&self) -> (res: &String)
        ensures
            res@ == self.deep_view().identifier,
    {
        &self.identifier
    }

    pub fn value_tokens(&self) -> (res: &String)
        ensures
            res@ == self.deep_view().value_tokens,
    {
        &self.value_tokens
    }

    /// The source text of the field value.
    pub fn to_tokens(&self) -> (res: String)
        ensures
            res@ == self.deep_view().text(),
    {
        let mut res = self.identifier.clone();
        res.append(": ");
        res.append(self.value_tokens.as_str());
        res
    }
}

/// What can be instantiated as the value of a field.
pub trait StructFieldInstantiator {
    /// The name of the field.
    spec fn field_instantiation_identifier_text(&self) -> Seq<char>;

    /// The value of the field.
    spec fn field_value_text(&self) -> Seq<char>;

    fn identifier(&self) -> (res: String)
        ensures
            res@ == self.field_instantiation_identifier_text();

    fn value_tokens(&self) -> (res: String)
        ensures
            res@ == self.field_value_text();

    fn to_struct_field_instantiation(&self) -> (res: StructFieldInstantiation)
        ensures
            res.deep_view() == (SpecStructFieldInstantiation { identifier: self.field_instantiation_identifier_text(), value_tokens: self.field_value_text() }),
    {
        StructFieldInstantiation::new(self.identifier(), self.value_tokens())
    }
}

/// A `static mut` item with C linkage: its name, type and initial value.
#[derive(Debug)]
pub struct StaticAssignment {
    identifier: String,
    type_tokens: String,
    value_tokens: String,
}

impl DeepView for StaticAssignment {
    type V = SpecStaticAssignment;

    closed spec fn deep_view(&self) -> SpecStaticAssignment {
        SpecStaticAssignment { identifier: self.identifier@, type_tokens: self.type_tokens@, value_tokens: self.value_tokens@ }
    }
}

impl StaticAssignment {
    pub fn new(identifier: String, type_tokens: String, value_tokens: String) -> (res: Self)
        ensures
            res.deep_view() == (SpecStaticAssignment { identifier: identifier@, type_tokens: type_tokens@, value_tokens: value_tokens@ }),
    {
        StaticAssignment { identifier, type_tokens, value_tokens }
    }

    pub fn identifier(&self) -> (res: &String)
        ensures
            res@ == self.deep_view().identifier,
    {
        &self.identifier
    }

    pub fn type_tokens(&self) -> (res: &String)
        ensures
            res@ == self.deep_view().type_tokens,
    {
        &self.type_tokens
    }

    pub fn value_tokens(&self) -> (res: &String)
        ensures
            res@ == self.deep_view().value_tokens,
    {
        &self.value_tokens
    }

    /// The source text of the `static` item.
    pub fn to_tokens(&self) -> (res: String)
        ensures
            res@ == self.deep_view().text(),
    {
        let mut res = "#[unsafe(no_mangle)]\npub static mut ".to_owned();
        res.append(self.identifier.as_str());
        res.append(": ");
        res.append(self.type_tokens.as_str());
        res.append(" = ");
        res.append(self.value_tokens.as_str());
        res.append(";");
        res
    }
}

/// What can be assigned to a `static` item.
pub trait StaticAssigner {
    /// The name of the item.
    spec fn static_identifier_text(&self) -> Seq<char>;

    /// The type of the item.
    spec fn static_type_text(&self) -> Seq<char>;

    /// The initial value of the item.
    spec fn static_value_text(&self) -> Seq<char>;

    fn identifier(&self) -> (res: String)
        ensures
            res@ == self.static_identifier_text();

    fn type_tokens(&self) -> (res: String)
        ensures
            res@ == self.static_type_text();

    fn value_tokens(&self) -> (res: String)
        ensures
            res@ == self.static_value_text();

    fn to_static_assignment(&self) -> (res: StaticAssignment)
        ensures
            res.deep_view() == (SpecStaticAssignment {
                identifier: self.static_identifier_text(),
                type_tokens: self.static_type_text(),
                value_tokens: self.static_value_text(),
            }),
    {
        StaticAssignment::new(self.identifier(), self.type_tokens(), self.value_tokens())
    }
}

} // verus!
