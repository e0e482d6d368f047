//! The `extern "C"` functions of an XClass: its methods, its `#init` and
//! `#process` properties, and the accessors of its `#get` and `#set`
//! variables.

use vstd::prelude::*;

use crate::ast::common::Verbatim;
use crate::ast::xclass::method::{Method, SpecArgument, SpecMethod};
use crate::ast::xclass::variable::{SpecVariable, Variable};
use crate::ast::xclass::{SpecXClass, SpecXClassProperty, XClass, XClassProperty, XClassPropertyName};
use crate::codegen::idl::instance_struct::InstanceStruct;
use crate::codegen::rust::definition::{
    ArgumentDefiner, ArgumentDefinition, MethodDefiner, SpecArgumentDefinition, SpecMethodDefinition,
};
use crate::external::{capitalize_first_only, capitalized_first_only, snake_case, to_snake_case};
use crate::seqs::lemma_take_all;
use crate::text::{join, joined};

verus! {

impl SpecXClass {
    /// The name of the instance pointer that every function takes: the class
    /// name in snake case.
    pub open spec fn self_instance_identifier(self) -> Seq<char> {
        snake_case(self.identifier)
    }

    /// The first argument of every function: the instance pointer,
    /// `<class in snake case>: *mut <class>`.
    pub open spec fn self_argument(self) -> SpecArgumentDefinition {
        SpecArgumentDefinition { identifier: self.self_instance_identifier(), type_tokens: "*mut "@ + self.identifier }
    }

    /// The function of a method: `<class>_<method>`, returning the method's
    /// type, taking the instance pointer and then the method's arguments, with
    /// the method's verbatim code, one piece per line, as body.
    pub open spec fn method_definition(self, method: SpecMethod) -> SpecMethodDefinition {
        SpecMethodDefinition {
            method_identifier: self.identifier + "_"@ + method.identifier,
            return_type_tokens: method.method_type.tokens_text(),
            arguments: seq![self.self_argument()] + method.arguments.map_values(|a: SpecArgument| a.argument_definition()),
            body: if method.verbatims().len() > 0 { Some(joined(method.verbatims(), "\n"@)) } else { None },
        }
    }

    /// The function of a property: `<class>_INIT` or `<class>_PROCESS`,
    /// returning `()`, taking the instance pointer, with the property's
    /// verbatim code as body.
    pub open spec fn property_method_definition(self, property: SpecXClassProperty) -> SpecMethodDefinition {
        SpecMethodDefinition {
            method_identifier: self.identifier + "_"@ + property.name.fragment_text(),
            return_type_tokens: "()"@,
            arguments: seq![self.self_argument()],
            body: property.verbatim,
        }
    }

    /// `let <instance> = unsafe { &mut *<instance> };`
    pub open spec fn self_instance_assignment(self) -> Seq<char> {
        "let "@ + self.self_instance_identifier() + " = unsafe { &mut *"@ + self.self_instance_identifier() + " };"@
    }

    /// `let shared = unsafe { &mut *<instance>.shared };`
    pub open spec fn shared_field_assignment(self) -> Seq<char> {
        "let "@ + "shared"@ + " = unsafe { &mut *"@ + self.self_instance_identifier() + "."@ + "shared"@ + " };"@
    }

    /// Where a variable lives: `shared.<variable>` for a `#shared` variable,
    /// `<instance>.<variable>` for any other, after the statements that reach it.
    pub open spec fn variable_place(self, variable: SpecVariable) -> Seq<char> {
        if variable.is_shared() {
            self.self_instance_assignment() + "\n"@ + self.shared_field_assignment() + "\n"@
                + "shared"@ + "."@ + variable.identifier
        } else {
            self.self_instance_assignment() + "\n"@ + self.self_instance_identifier() + "."@ + variable.identifier
        }
    }

    /// The getter of a variable: `<class>_<Variable>GET`, returning the
    /// variable's type, taking the instance pointer, returning the variable.
    pub open spec fn get_method_definition(self, variable: SpecVariable) -> SpecMethodDefinition {
        SpecMethodDefinition {
            method_identifier: self.identifier + "_"@ + capitalized_first_only(variable.identifier) + "GET"@,
            return_type_tokens: variable.variable_type.tokens_text(),
            arguments: seq![self.self_argument()],
            body: Some(self.variable_place(variable)),
        }
    }

    /// The setter of a variable: `<class>_<Variable>SET`, returning `()`,
    /// taking the instance pointer and the new value under the variable's
    /// name, storing the value in the variable.
    pub open spec fn set_method_definition(self, variable: SpecVariable) -> SpecMethodDefinition {
        SpecMethodDefinition {
            method_identifier: self.identifier + "_"@ + capitalized_first_only(variable.identifier) + "SET"@,
            return_type_tokens: "()"@,
            arguments: seq![
                self.self_argument(),
                SpecArgumentDefinition { identifier: variable.identifier, type_tokens: variable.variable_type.tokens_text() },
            ],
            body: Some(self.variable_place(variable) + " = "@ + variable.identifier + ";"@),
        }
    }
}

/// The instance pointer argument of the functions of `xclass`.
fn self_argument(xclass: &XClass) -> (res: ArgumentDefinition)
    ensures
        res.deep_view() == xclass.deep_view().self_argument(),
{
    ArgumentDefinition::new(
        to_snake_case(xclass.identifier.as_str()),
        "*mut ".to_owned().concat(xclass.identifier.as_str()),
    )
}

/// The verbatim pieces joined, one per line.
fn join_verbatims(verbatims: &Vec<&Verbatim>) -> (res: String)
    ensures
        res@ == joined(verbatims.deep_view(), "\n"@),
{
    let mut texts: Vec<String> = Vec::new();
    let mut i: usize = 0;
    while i < verbatims.len()
        invariant
            i <= verbatims@.len(),
            texts.deep_view() =~= verbatims.deep_view().take(i as int),
        decreases verbatims@.len() - i,
    {
        let t = verbatims[i].to_tokens();
        let ghost before = texts.deep_view();
        texts.push(t);
        assert(texts.deep_view() =~= before.push(t@));
        i = i + 1;
    }
    proof { lemma_take_all(verbatims.deep_view()); }
    join(&texts, "\n")
}

/// The function of a method of an XClass.
#[derive(Debug)]
pub struct XClassMethodDefinition {
    xclass: XClass,
    method: Method,
}

impl DeepView for XClassMethodDefinition {
    type V = (SpecXClass, SpecMethod);

    closed spec fn deep_view(&self) -> (SpecXClass, SpecMethod) {
        (self.xclass.deep_view(), self.method.deep_view())
    }
}

impl XClassMethodDefinition {
    pub fn new(xclass: XClass, method: Method) -> (res: Self)
        ensures
            res.deep_view() == (xclass.deep_view(), method.deep_view()),
    {
        XClassMethodDefinition { xclass, method }
    }

    pub fn xclass(&self) -> (res: &XClass)
        ensures
            res.deep_view() == self.deep_view().0,
    {
        &self.xclass
    }

    pub fn method(&self) -> (res: &Method)
        ensures
            res.deep_view() == self.deep_view().1,
    {
        &self.method
    }
}

impl MethodDefiner for XClassMethodDefinition {
    open spec fn method_identifier_text(&self) -> Seq<char> {
        self.deep_view().0.method_definition(self.deep_view().1).method_identifier
    }

    open spec fn return_type_text(&self) -> Seq<char> {
        self.deep_view().0.method_definition(self.deep_view().1).return_type_tokens
    }

    open spec fn arguments_view(&self) -> Seq<SpecArgumentDefinition> {
        self.deep_view().0.method_definition(self.deep_view().1).arguments
    }

    open spec fn body_view(&self) -> Option<Seq<char>> {
        self.deep_view().0.method_definition(self.deep_view().1).body
    }

    fn method_identifier(&self) -> String {
        let mut res = self.xclass.identifier();
        res.append("_");
        res.append(self.method.identifier().as_str());
        res
    }

    fn return_type_tokens(&self) -> String {
        self.method.method_type().to_tokens()
    }

    fn arguments(&self) -> Vec<ArgumentDefinition> {
        let arguments = self.method.arguments();
        let ghost wanted = self.deep_view().1.arguments.map_values(|a: SpecArgument| a.argument_definition());
        let first = self_argument(&self.xclass);
        let mut res: Vec<ArgumentDefinition> = Vec::new();
        res.push(first);
        let mut i: usize = 0;
        while i < arguments.len()
            invariant
                i <= arguments@.len(),
                arguments.deep_view() == self.deep_view().1.arguments,
                wanted == self.deep_view().1.arguments.map_values(|a: SpecArgument| a.argument_definition()),
                res.deep_view() =~= seq![self.deep_view().0.self_argument()] + wanted.take(i as int),
            decreases arguments@.len() - i,
        {
            let argument = ArgumentDefiner::to_argument_definition(&arguments[i]);
            let ghost before = res.deep_view();
            res.push(argument);
            assert(res.deep_view() =~= before.push(argument.deep_view()));
            i = i + 1;
        }
        proof { lemma_take_all(wanted); }
        res
    }

    fn body(&self) -> Option<String> {
        let verbatims = self.method.verbatims();
        if verbatims.len() > 0 {
            Some(join_verbatims(&verbatims))
        } else {
            None
        }
    }
}

/// The function of an `#init` or `#process` property of an XClass.
#[derive(Debug)]
pub struct XClassPropertyMethodDefinition {
    xclass: XClass,
    xclass_property: XClassProperty,
}

impl DeepView for XClassPropertyMethodDefinition {
    type V = (SpecXClass, SpecXClassProperty);

    closed spec fn deep_view(&self) -> (SpecXClass, SpecXClassProperty) {
        (self.xclass.deep_view(), self.xclass_property.deep_view())
    }
}

impl XClassPropertyMethodDefinition {
    pub fn new(xclass: XClass, xclass_property: XClassProperty) -> (res: Self)
        ensures
            res.deep_view() == (xclass.deep_view(), xclass_property.deep_view()),
    {
        XClassPropertyMethodDefinition { xclass, xclass_property }
    }

    pub fn xclass(&self) -> (res: &XClass)
        ensures
            res.deep_view() == self.deep_view().0,
    {
        &self.xclass
    }

    pub fn xclass_property(&self) -> (res: &XClassProperty)
        ensures
            res.deep_view() == self.deep_view().1,
    {
        &self.xclass_property
    }
}

impl MethodDefiner for XClassPropertyMethodDefinition {
    open spec fn method_identifier_text(&self) -> Seq<char> {
        self.deep_view().0.property_method_definition(self.deep_view().1).method_identifier
    }

    open spec fn return_type_text(&self) -> Seq<char> {
        self.deep_view().0.property_method_definition(self.deep_view().1).return_type_tokens
    }

    open spec fn arguments_view(&self) -> Seq<SpecArgumentDefinition> {
        self.deep_view().0.property_method_definition(self.deep_view().1).arguments
    }

    open spec fn body_view(&self) -> Option<Seq<char>> {
        self.deep_view().0.property_method_definition(self.deep_view().1).body
    }

    fn method_identifier(&self) -> String {
        let mut res = self.xclass.identifier();
        res.append("_");
        res.append(self.xclass_property.name().fragment().as_str());
        res
    }

    fn return_type_tokens(&self) -> String {
        "()".to_owned()
    }

    fn arguments(&self) -> Vec<ArgumentDefinition> {
        let first = self_argument(&self.xclass);
        let mut res: Vec<ArgumentDefinition> = Vec::new();
        res.push(first);
        assert(res.deep_view() =~= seq![first.deep_view()]);
        res
    }

    fn body(&self) -> Option<String> {
        match self.xclass_property.verbatim() {
            Some(verbatim) => Some(verbatim.to_tokens()),
            None => None,
        }
    }
}

/// The statements that reach `variable` and the place that holds it.
fn variable_place(xclass: &XClass, variable: &Variable) -> (res: String)
    ensures
        res@ == xclass.deep_view().variable_place(variable.deep_view()),
{
    let instance = to_snake_case(xclass.identifier.as_str());
    let mut res = "let ".to_owned();
    res.append(instance.as_str());
    res.append(" = unsafe { &mut *");
    res.append(instance.as_str());
    res.append(" };");
    res.append("\n");
    if variable.is_shared() {
        res.append("let ");
        res.append(InstanceStruct::shared_field_identifier().as_str());
        res.append(" = unsafe { &mut *");
        res.append(instance.as_str());
        res.append(".");
        res.append(InstanceStruct::shared_field_identifier().as_str());
        res.append(" };");
        res.append("\n");
        res.append(InstanceStruct::shared_field_identifier().as_str());
        res.append(".");
    } else {
        res.append(instance.as_str());
        res.append(".");
    }
    res.append(variable.identifier.as_str());
    res
}

/// The getter of a `#get` variable of an XClass.
#[derive(Debug)]
pub struct XClassVariableGetMethodDefinition {
    xclass: XClass,
    variable: Variable,
}

impl DeepView for XClassVariableGetMethodDefinition {
    type V = (SpecXClass, SpecVariable);

    closed spec fn deep_view(&self) -> (SpecXClass, SpecVariable) {
        (self.xclass.deep_view(), self.variable.deep_view())
    }
}

impl XClassVariableGetMethodDefinition {
    pub fn new(xclass: XClass, variable: Variable) -> (res: Self)
        ensures
            res.deep_view() == (xclass.deep_view(), variable.deep_view()),
    {
        XClassVariableGetMethodDefinition { xclass, variable }
    }

    pub fn xclass(&self) -> (res: &XClass)
        ensures
            res.deep_view() == self.deep_view().0,
    {
        &self.xclass
    }

    pub fn variable(&self) -> (res: &Variable)
        ensures
            res.deep_view() == self.deep_view().1,
    {
        &self.variable
    }

    pub fn self_type_identifier(&self) -> (res: &String)
        ensures
            res@ == self.deep_view().0.identifier,
    {
        &self.xclass.identifier
    }

    pub fn self_instance_identifier(&self) -> (res: String)
        ensures
            res@ == self.deep_view().0.self_instance_identifier(),
    {
        to_snake_case(self.xclass.identifier.as_str())
    }
}

impl MethodDefiner for XClassVariableGetMethodDefinition {
    open spec fn method_identifier_text(&self) -> Seq<char> {
        self.deep_view().0.get_method_definition(self.deep_view().1).method_identifier
    }

    open spec fn return_type_text(&self) -> Seq<char> {
        self.deep_view().0.get_method_definition(self.deep_view().1).return_type_tokens
    }

    open spec fn arguments_view(&self) -> Seq<SpecArgumentDefinition> {
        self.deep_view().0.get_method_definition(self.deep_view().1).arguments
    }

    open spec fn body_view(&self) -> Option<Seq<char>> {
        self.deep_view().0.get_method_definition(self.deep_view().1).body
    }

    fn method_identifier(&self) -> String {
        let mut res = self.xclass.identifier();
        res.append("_");
        res.append(capitalize_first_only(self.variable.identifier.as_str()).as_str());
        res.append("GET");
        res
    }

    fn return_type_tokens(&self) -> String {
        self.variable.variable_type().to_tokens()
    }

    fn arguments(&self) -> Vec<ArgumentDefinition> {
        let first = self_argument(&self.xclass);
        let mut res: Vec<ArgumentDefinition> = Vec::new();
        res.push(first);
        assert(res.deep_view() =~= seq![first.deep_view()]);
        res
    }

    fn body(&self) -> Option<String> {
        Some(variable_place(&self.xclass, &self.variable))
    }
}

/// The setter of a `#set` variable of an XClass.
#[derive(Debug)]
pub struct XClassVariableSetMethodDefinition {
    xclass: XClass,
    variable: Variable,
}

impl DeepView for XClassVariableSetMethodDefinition {
    type V = (SpecXClass, SpecVariable);

    closed spec fn deep_view(&self) -> (SpecXClass, SpecVariable) {
        (self.xclass.deep_view(), self.variable.deep_view())
    }
}

impl XClassVariableSetMethodDefinition {
    pub fn new(xclass: XClass, variable: Variable) -> (res: Self)
        ensures
            res.deep_view() == (xclass.deep_view(), variable.deep_view()),
    {
        XClassVariableSetMethodDefinition { xclass, variable }
    }

    pub fn xclass(&self) -> (res: &XClass)
        ensures
            res.deep_view() == self.deep_view().0,
    {
        &self.xclass
    }

    pub fn variable(&self) -> (res: &Variable)
        ensures
            res.deep_view() == self.deep_view().1,
    {
        &self.variable
    }

    pub fn self_type_identifier(&self) -> (res: &String)
        ensures
            res@ == self.deep_view().0.identifier,
    {
        &self.xclass.identifier
    }

    pub fn self_instance_identifier(&self) -> (res: String)
        ensures
            res@ == self.deep_view().0.self_instance_identifier(),
    {
        to_snake_case(self.xclass.identifier.as_str())
    }
}

impl MethodDefiner for XClassVariableSetMethodDefinition {
    open spec fn method_identifier_text(&self) -> Seq<char> {
        self.deep_view().0.set_method_definition(self.deep_view().1).method_identifier
    }

    open spec fn return_type_text(&self) -> Seq<char> {
        self.deep_view().0.set_method_definition(self.deep_view().1).return_type_tokens
    }

    open spec fn arguments_view(&self) -> Seq<SpecArgumentDefinition> {
        self.deep_view().0.set_method_definition(self.deep_view().1).arguments
    }

    open spec fn body_view(&self) -> Option<Seq<char>> {
        self.deep_view().0.set_method_definition(self.deep_view().1).body
    }

    fn method_identifier(&self) -> String {
        let mut res = self.xclass.identifier();
        res.append("_");
        res.append(capitalize_first_only(self.variable.identifier.as_str()).as_str());
        res.append("SET");
        res
    }

    fn return_type_tokens(&self) -> String {
        "()".to_owned()
    }

    fn arguments(&self) -> Vec<ArgumentDefinition> {
        let first = self_argument(&self.xclass);
        let value = ArgumentDefinition::new(self.variable.identifier.clone(), self.variable.variable_type().to_tokens());
        let mut res: Vec<ArgumentDefinition> = Vec::new();
        res.push(first);
        res.push(value);
        assert(res.deep_view() =~= seq![first.deep_view(), value.deep_view()]);
        res
    }

    fn body(&self) -> Option<String> {
        let mut body = variable_place(&self.xclass, &self.variable);
        body.append(" = ");
        body.append(self.variable.identifier.as_str());
        body.append(";");
        Some(body)
    }
}

/// The function of a property is named `<class>_INIT` for `#init` and
/// `<class>_PROCESS` for `#process`, so the two functions of one class never
/// share a name.
pub proof fn lemma_property_function_names(xclass: SpecXClass, a: SpecXClassProperty, b: SpecXClassProperty)
    ensures
        xclass.property_method_definition(a).method_identifier == xclass.identifier + "_"@
            + (if a.name == XClassPropertyName::Init { "INIT"@ } else { "PROCESS"@ }),
        a.name != b.name ==> xclass.property_method_definition(a).method_identifier
            != xclass.property_method_definition(b).method_identifier,
{
    reveal_strlit("INIT");
    reveal_strlit("PROCESS");
    let na = xclass.property_method_definition(a).method_identifier;
    let nb = xclass.property_method_definition(b).method_identifier;
    if a.name != b.name {
        assert(na.len() != nb.len());
    }
}

/// A setter stores the new value exactly where the getter of the same
/// variable reads it: in the shared struct, through the instance's `shared`
/// pointer, for a `#shared` variable, and in the instance struct otherwise.
pub proof fn lemma_setter_writes_where_getter_reads(xclass: SpecXClass, variable: SpecVariable)
    ensures
        xclass.set_method_definition(variable).body == Some(
            xclass.get_method_definition(variable).body->Some_0 + " = "@ + variable.identifier + ";"@,
        ),
        xclass.set_method_definition(variable).arguments.len() == 2,
        xclass.get_method_definition(variable).arguments.len() == 1,
        xclass.set_method_definition(variable).arguments[0] == xclass.get_method_definition(variable).arguments[0],
        xclass.set_method_definition(variable).arguments[1].identifier == variable.identifier,
        xclass.set_method_definition(variable).arguments[1].type_tokens
            == xclass.get_method_definition(variable).return_type_tokens,
        variable.is_shared() ==> xclass.get_method_definition(variable).body == Some(
            "let "@ + snake_case(xclass.identifier) + " = unsafe { &mut *"@ + snake_case(xclass.identifier) + " };\n"@
                + "let shared = unsafe { &mut *"@ + snake_case(xclass.identifier) + ".shared };\n"@
                + "shared."@ + variable.identifier,
        ),
        !variable.is_shared() ==> xclass.get_method_definition(variable).body == Some(
            "let "@ + snake_case(xclass.identifier) + " = unsafe { &mut *"@ + snake_case(xclass.identifier) + " };\n"@
                + snake_case(xclass.identifier) + "."@ + variable.identifier,
        ),
{
    reveal_strlit("let ");
    reveal_strlit(" = unsafe { &mut *");
    reveal_strlit(" };");
    reveal_strlit(" };\n");
    reveal_strlit("\n");
    reveal_strlit("shared");
    reveal_strlit(".");
    reveal_strlit(".shared };\n");
    reveal_strlit("let shared = unsafe { &mut *");
    reveal_strlit("shared.");
    let inst = snake_case(xclass.identifier);
    let place = xclass.variable_place(variable);
    if variable.is_shared() {
        assert(place =~= "let "@ + inst + " = unsafe { &mut *"@ + inst + " };\n"@
            + "let shared = unsafe { &mut *"@ + inst + ".shared };\n"@ + "shared."@ + variable.identifier);
    } else {
        assert(place =~= "let "@ + inst + " = unsafe { &mut *"@ + inst + " };\n"@ + inst + "."@ + variable.identifier);
    }
}

} // verus!
