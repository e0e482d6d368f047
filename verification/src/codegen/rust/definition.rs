//! Definitions of `#[repr(C)]` structs and `extern "C"` functions.

use vstd::prelude::*;

use crate::text::{join, joined};

verus! {

/// A field of a struct definition as the model holds it.
pub struct SpecStructFieldDefinition {
    pub identifier: Seq<char>,
    pub type_tokens: Seq<char>,
}

impl SpecStructFieldDefinition {
    /// `pub <identifier>: <type>`
    pub open spec fn text(self) -> Seq<char> {
        "pub "@ + self.identifier + ": "@ + self.type_tokens
    }
}

/// The source texts of `fields`, in order.
pub open spec fn field_definition_texts(fields: Seq<SpecStructFieldDefinition>) -> Seq<Seq<char>> {
    fields.map_values(|f: SpecStructFieldDefinition| f.text())
}

/// A struct definition as the model holds it.
pub struct SpecStructDefinition {
    pub identifier: Seq<char>,
    pub fields: Seq<SpecStructFieldDefinition>,
}

impl SpecStructDefinition {
    /// `#[repr(C)] pub struct <identifier> { <fields, separated by commas> }`
    pub open spec fn text(self) -> Seq<char> {
        "#[repr(C)]\npub struct "@ + self.identifier + " {\n"@
            + joined(field_definition_texts(self.fields), ",\n"@) + "\n}"@
    }
}

/// An argument of a function definition as the model holds it.
pub struct SpecArgumentDefinition {
    pub identifier: Seq<char>,
    pub type_tokens: Seq<char>,
}

impl SpecArgumentDefinition {
    /// `<identifier>: <type>`
    pub open spec fn text(self) -> Seq<char> {
        self.identifier + ": "@ + self.type_tokens
    }
}

/// The source texts of `arguments`, in order.
pub open spec fn argument_definition_texts(arguments: Seq<SpecArgumentDefinition>) -> Seq<Seq<char>> {
    arguments.map_values(|a: SpecArgumentDefinition| a.text())
}

/// A function definition as the model holds it.
pub struct SpecMethodDefinition {
    pub method_identifier: Seq<char>,
    pub return_type_tokens: Seq<char>,
    pub arguments: Seq<SpecArgumentDefinition>,
    pub body: Option<Seq<char>>,
}

impl SpecMethodDefinition {
    /// The body of the function; `todo!();` where it has none.
    pub open spec fn body_text(self) -> Seq<char> {
        match self.body {
            Some(body) => body,
            None => "todo!();"@,
        }
    }

    /// `#[unsafe(no_mangle)] pub extern "C" fn <identifier>(<arguments>) -> <return type> { <body> }`
    pub open spec fn text(self) -> Seq<char> {
        "#[unsafe(no_mangle)]\npub extern \"C\" fn "@ + self.method_identifier + "("@
            + joined(argument_definition_texts(self.arguments), ", "@) + ") -> "@
            + self.return_type_tokens + " {\n"@ + self.body_text() + "\n}"@
    }
}

/// A field of a struct definition: its name and type.
#[derive(Debug)]
pub struct StructFieldDefinition {
    identifier: String,
    type_tokens: String,
}

impl DeepView for StructFieldDefinition {
    type V = SpecStructFieldDefinition;

    closed spec fn deep_view(&self) -> SpecStructFieldDefinition {
        SpecStructFieldDefinition { identifier: self.identifier@, type_tokens: self.type_tokens@ }
    }
}

impl Clone for StructFieldDefinition {
    fn clone(&self) -> (res: Self)
        ensures
            res.deep_view() == self.deep_view(),
    {
        StructFieldDefinition { identifier: self.identifier.clone(), type_tokens: self.type_tokens.clone() }
    }
}

impl StructFieldDefinition {
    pub fn new(identifier: String, type_tokens: String) -> (res: Self)
        ensures
            res.deep_view() == (SpecStructFieldDefinition { identifier: identifier@, type_tokens: type_tokens@ }),
    {
        StructFieldDefinition { identifier, type_tokens }
    }

    pub fn identifier(&self) -> (res: &String)
        ensures
            res@ == self.deep_view().identifier,
    {
        &self.identifier
    }

    pub fn type_tokens(&self) -> (res: &String)
        ensures
            res@ == self.deep_view().type_tokens,
    {
        &self.type_tokens
    }

    /// The source text of the field.
    pub fn to_tokens(&self) -> (res: String)
        ensures
            res@ == self.deep_view().text(),
    {
        let mut res = "pub ".to_owned();
        res.append(self.identifier.as_str());
        res.append(": ");
        res.append(self.type_tokens.as_str());
        res
    }
}

/// A `#[repr(C)]` struct definition: its name and fields.
#[derive(Debug)]
pub struct StructDefinition {
    identifier: String,
    fields: Vec<StructFieldDefinition>,
}

impl DeepView for StructDefinition {
    type V = SpecStructDefinition;

    closed spec fn deep_view(&self) -> SpecStructDefinition {
        SpecStructDefinition { identifier: self.identifier@, fields: self.fields.deep_view() }
    }
}

impl StructDefinition {
    pub fn new(identifier: String, fields: Vec<StructFieldDefinition>) -> (res: Self)
        ensures
            res.deep_view() == (SpecStructDefinition { identifier: identifier@, fields: fields.deep_view() }),
    {
        StructDefinition { identifier, fields }
    }

    pub fn identifier(&self) -> (res: &String)
        ensures
            res@ == self.deep_view().identifier,
    {
        &self.identifier
    }

    pub fn fields(&self) -> (res: &Vec<StructFieldDefinition>)
        ensures
            res.deep_view() == self.deep_view().fields,
    {
        &self.fields
    }

    /// The source text of the struct definition.
    pub fn to_tokens(&self) -> (res: String)
        ensures
            res@ == self.deep_view().text(),
    {
        let mut texts: Vec<String> = Vec::new();
        let mut i: usize = 0;
        while i < self.fields.len()
            invariant
                i <= self.fields@.len(),
                texts.deep_view() =~= field_definition_texts(self.fields.deep_view()).take(i as int),
            decreases self.fields@.len() - i,
        {
            let t = self.fields[i].to_tokens();
            assert(field_definition_texts(self.fields.deep_view())[i as int] == self.fields@[i as int].deep_view().text());
            let ghost before = texts.deep_view();
            texts.push(t);
            assert(texts.deep_view() =~= before.push(t@));
            i = i + 1;
        }
        assert(field_definition_texts(self.fields.deep_view()).take(i as int) =~= field_definition_texts(self.fields.deep_view()));
        let mut res = "#[repr(C)]\npub struct ".to_owned();
        res.append(self.identifier.as_str());
        res.append(" {\n");
        res.append(join(&texts, ",\n").as_str());
        res.append("\n}");
        res
    }
}

/// What can be defined as a `#[repr(C)]` struct.
pub trait StructDefiner {
    /// The name of the struct.
    spec fn struct_identifier_text(&self) -> Seq<char>;

    /// The fields of the struct.
    spec fn struct_fields_view(&self) -> Seq<SpecStructFieldDefinition>;

    fn identifier(&self) -> (res: String)
        ensures
            res@ == self.struct_identifier_text();

    fn fields(&self) -> (res: Vec<StructFieldDefinition>)
        ensures
            res.deep_view() == self.struct_fields_view();

    fn to_struct_definition(&self) -> (res: StructDefinition)
        ensures
            res.deep_view() == (SpecStructDefinition { identifier: self.struct_identifier_text(), fields: self.struct_fields_view() }),
    {
        StructDefinition::new(self.identifier(), self.fields())
    }
}

/// What can be defined as a field of a struct.
pub trait StructFieldDefiner {
    /// The name of the field.
    spec fn field_identifier_text(&self) -> Seq<char>;

    /// The type of the field.
    spec fn field_type_text(&self) -> Seq<char>;

    fn identifier(&self) -> (res: String)
        ensures
            res@ == self.field_identifier_text();

    fn type_tokens(&self) -> (res: String)
        ensures
            res@ == self.field_type_text();

    fn to_struct_field_definition(&self) -> (res: StructFieldDefinition)
        ensures
            res.deep_view() == (SpecStructFieldDefinition { identifier: self.field_identifier_text(), type_tokens: self.field_type_text() }),
    {
        StructFieldDefinition::new(self.identifier(), self.type_tokens())
    }
}

/// An argument of a function definition: its name and type.
#[derive(Debug)]
pub struct ArgumentDefinition {
    identifier: String,
    type_tokens: String,
}

impl DeepView for ArgumentDefinition {
    type V = SpecArgumentDefinition;

    closed spec fn deep_view(&self) -> SpecArgumentDefinition {
        SpecArgumentDefinition { identifier: self.identifier@, type_tokens: self.type_tokens@ }
    }
}

impl Clone for ArgumentDefinition {
    fn clone(&self) -> (res: Self)
        ensures
            res.deep_view() == self.deep_view(),
    {
        ArgumentDefinition { identifier: self.identifier.clone(), type_tokens: self.type_tokens.clone() }
    }
}

impl ArgumentDefinition {
    pub fn new(identifier: String, type_tokens: String) -> (res: Self)
        ensures
            res.deep_view() == (SpecArgumentDefinition { identifier: identifier@, type_tokens: type_tokens@ }),
    {
        ArgumentDefinition { identifier, type_tokens }
    }

    pub fn identifier(&self) -> (res: &String)
        ensures
            res@ == self.deep_view().identifier,
    {
        &self.identifier
    }

    pub fn type_tokens(&self) -> (res: &String)
        ensures
            res@ == self.deep_view().type_tokens,
    {
        &self.type_tokens
    }

    /// The source text of the argument.
    pub fn to_tokens(&self) -> (res: String)
        ensures
            res@ == self.deep_view().text(),
    {
        let mut res = self.identifier.clone();
        res.append(": ");
        res.append(self.type_tokens.as_str());
        res
    }
}

/// What can be defined as an argument of a function.
pub trait ArgumentDefiner {
    /// The name of the argument.
    spec fn argument_identifier_text(&self) -> Seq<char>;

    /// The type of the argument.
    spec fn argument_type_text(&self) -> Seq<char>;

    fn identifier(&self) -> (res: String)
        ensures
            res@ == self.argument_identifier_text();

    fn type_tokens(&self) -> (res: String)
        ensures
            res@ == self.argument_type_text();

    fn to_argument_definition(&self) -> (res: ArgumentDefinition)
        ensures
            res.deep_view() == (SpecArgumentDefinition { identifier: self.argument_identifier_text(), type_tokens: self.argument_type_text() }),
    {
        ArgumentDefinition::new(self.identifier(), self.type_tokens())
    }
}

/// An `extern "C"` function definition: its name, return type, arguments and
/// body, if it has one.
#[derive(Debug)]
pub struct MethodDefinition {
    method_identifier: String,
    return_type_tokens: String,
    arguments: Vec<ArgumentDefinition>,
    body: Option<String>,
}

impl DeepView for MethodDefinition {
    type V = SpecMethodDefinition;

    closed spec fn deep_view(&self) -> SpecMethodDefinition {
        SpecMethodDefinition {
            method_identifier: self.method_identifier@,
            return_type_tokens: self.return_type_tokens@,
            arguments: self.arguments.deep_view(),
            body: self.body.deep_view(),
        }
    }
}

impl MethodDefinition {
    pub fn new(method_identifier: String, return_type_tokens: String, arguments: Vec<ArgumentDefinition>, body: Option<String>) -> (res: Self)
        ensures
            res.deep_view() == (SpecMethodDefinition {
                method_identifier: method_identifier@,
                return_type_tokens: return_type_tokens@,
                arguments: arguments.deep_view(),
                body: body.deep_view(),
            }),
    {
        MethodDefinition { method_identifier, return_type_tokens, arguments, body }
    }

    pub fn method_identifier(&self) -> (res: &String)
        ensures
            res@ == self.deep_view().method_identifier,
    {
        &self.method_identifier
    }

    pub fn return_type_tokens(&self) -> (res: &String)
        ensures
            res@ == self.deep_view().return_type_tokens,
    {
        &self.return_type_tokens
    }

    pub fn arguments(&self) -> (res: &Vec<ArgumentDefinition>)
        ensures
            res.deep_view() == self.deep_view().arguments,
    {
        &self.arguments
    }

    pub fn body(&self) -> (res: Option<&String>)
        ensures
            res.deep_view() == self.deep_view().body,
    {
        match &self.body {
            Some(b) => Some(b),
            None => None,
        }
    }

    /// The source text of the function definition.
    pub fn to_tokens(&self) -> (res: String)
        ensures
            res@ == self.deep_view().text(),
    {
        let mut texts: Vec<String> = Vec::new();
        let mut i: usize = 0;
        while i < self.arguments.len()
            invariant
                i <= self.arguments@.len(),
                texts.deep_view() =~= argument_definition_texts(self.arguments.deep_view()).take(i as int),
            decreases self.arguments@.len() - i,
        {
            let t = self.arguments[i].to_tokens();
            assert(argument_definition_texts(self.arguments.deep_view())[i as int] == self.arguments@[i as int].deep_view().text());
            let ghost before = texts.deep_view();
            texts.push(t);
            assert(texts.deep_view() =~= before.push(t@));
            i = i + 1;
        }
        assert(argument_definition_texts(self.arguments.deep_view()).take(i as int) =~= argument_definition_texts(self.arguments.deep_view()));
        let body = match &self.body {
            Some(body) => body.clone(),
            None => "todo!();".to_owned(),
        };
        let mut res = "#[unsafe(no_mangle)]\npub extern \"C\" fn ".to_owned();
        res.append(self.method_identifier.as_str());
        res.append("(");
        res.append(join(&texts, ", ").as_str());
        res.append(") -> ");
        res.append(self.return_type_tokens.as_str());
        res.append(" {\n");
        res.append(body.as_str());
        res.append("\n}");
        res
    }
}

/// What can be defined as an `extern "C"` function.
pub trait MethodDefiner {
    /// The name of the function.
    spec fn method_identifier_text(&self) -> Seq<char>;

    /// The return type of the function.
    spec fn return_type_text(&self) -> Seq<char>;

    /// The arguments of the function.
    spec fn arguments_view(&self) -> Seq<SpecArgumentDefinition>;

    /// The body of the function, if it has one.
    spec fn body_view(&self) -> Option<Seq<char>>;

    fn method_identifier(&self) -> (res: String)
        ensures
            res@ == self.method_identifier_text();

    fn return_type_tokens(&self) -> (res: String)
        ensures
            res@ == self.return_type_text();

    fn arguments(&self) -> (res: Vec<ArgumentDefinition>)
        ensures
            res.deep_view() == self.arguments_view();

    fn body(&self) -> (res: Option<String>)
        ensures
            res.deep_view() == self.body_view();

    fn to_method_definition(&self) -> (res: MethodDefinition)
        ensures
            res.deep_view() == (SpecMethodDefinition {
                method_identifier: self.method_identifier_text(),
                return_type_tokens: self.return_type_text(),
                arguments: self.arguments_view(),
                body: self.body_view(),
            }),
    {
        MethodDefinition::new(self.method_identifier(), self.return_type_tokens(), self.arguments(), self.body())
    }
}

} // verus!
