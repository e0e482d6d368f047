//! Externally defined classes (`XClass`) and the types of their members.

use vstd::prelude::*;

use crate::ast::common::Verbatim;
use crate::ast::xclass::method::{Method, SpecMethod};
use crate::external::lexes_as_tokens;
use crate::ast::xclass::variable::{SpecVariable, Variable};
use crate::pair::{
    collect, deep_result, holds_verbatim, lemma_collect_end, lemma_collect_error, lemma_collect_start,
    lemma_collect_step, lemma_inner_verbatim, lexed_reading, prepend, required, ParseError, Pair, Rule,
};
use crate::seqs::{lemma_filter_all, lemma_filter_map_after_filter, lemma_filter_map_take_step, lemma_filter_split, lemma_filter_take_step, lemma_take_all};
use crate::text::text_is;

pub mod method;
pub mod variable;

verus! {

/// The name of an XClass property: `#init` or `#process`.
#[derive(Debug, Clone, Copy, PartialEq, Eq, Structural)]
pub enum XClassPropertyName {
    Init,
    Process,
}

impl DeepView for XClassPropertyName {
    type V = XClassPropertyName;

    open spec fn deep_view(&self) -> XClassPropertyName {
        *self
    }
}

impl XClassPropertyName {
    /// An `xclass_property_name` pair reads as the property it names, if its
    /// text is `#init` or `#process`.
    pub open spec fn spec_parse(pair: Pair) -> Option<XClassPropertyName> {
        if pair.rule != Rule::xclass_property_name {
            None
        } else if pair.text@ == "#init"@ {
            Some(XClassPropertyName::Init)
        } else if pair.text@ == "#process"@ {
            Some(XClassPropertyName::Process)
        } else {
            None
        }
    }

    /// Reads an `xclass_property_name` pair.
    pub fn parse(pair: &Pair) -> (res: Option<Self>)
        ensures
            res == Self::spec_parse(*pair),
    {
        if pair.rule != Rule::xclass_property_name {
            None
        } else if text_is(&pair.text, "#init") {
            Some(XClassPropertyName::Init)
        } else if text_is(&pair.text, "#process") {
            Some(XClassPropertyName::Process)
        } else {
            None
        }
    }

    /// The text that stands for this name inside generated identifiers.
    pub open spec fn fragment_text(self) -> Seq<char> {
        match self {
            XClassPropertyName::Init => "INIT"@,
            XClassPropertyName::Process => "PROCESS"@,
        }
    }

    /// The text that stands for this name inside generated identifiers:
    /// `INIT` or `PROCESS`.
    pub fn fragment(&self) -> (res: String)
        ensures
            res@ == self.fragment_text(),
    {
        match self {
            XClassPropertyName::Init => "INIT".to_owned(),
            XClassPropertyName::Process => "PROCESS".to_owned(),
        }
    }
}

/// An integer type of the IDL: unsigned or signed, of 8, 16 or 32 bits.
#[derive(Debug, Clone, Copy, PartialEq, Eq, Structural)]
pub enum IntegerType {
    U8,
    S8,
    U16,
    S16,
    U32,
    S32,
}

impl DeepView for IntegerType {
    type V = IntegerType;

    open spec fn deep_view(&self) -> IntegerType {
        *self
    }
}

impl IntegerType {
    /// An `integer_type` pair reads as the type its text names.
    pub open spec fn spec_parse(pair: Pair) -> Option<IntegerType> {
        if pair.rule != Rule::integer_type {
            None
        } else if pair.text@ == "U8"@ {
            Some(IntegerType::U8)
        } else if pair.text@ == "S8"@ {
            Some(IntegerType::S8)
        } else if pair.text@ == "U16"@ {
            Some(IntegerType::U16)
        } else if pair.text@ == "S16"@ {
            Some(IntegerType::S16)
        } else if pair.text@ == "U32"@ {
            Some(IntegerType::U32)
        } else if pair.text@ == "S32"@ {
            Some(IntegerType::S32)
        } else {
            None
        }
    }

    /// Reads an `integer_type` pair.
    pub fn parse(pair: &Pair) -> (res: Option<Self>)
        ensures
            res == Self::spec_parse(*pair),
    {
        if pair.rule != Rule::integer_type {
            None
        } else if text_is(&pair.text, "U8") {
            Some(IntegerType::U8)
        } else if text_is(&pair.text, "S8") {
            Some(IntegerType::S8)
        } else if text_is(&pair.text, "U16") {
            Some(IntegerType::U16)
        } else if text_is(&pair.text, "S16") {
            Some(IntegerType::S16)
        } else if text_is(&pair.text, "U32") {
            Some(IntegerType::U32)
        } else if text_is(&pair.text, "S32") {
            Some(IntegerType::S32)
        } else {
            None
        }
    }

    /// The Rust type of this integer type.
    pub open spec fn tokens_text(self) -> Seq<char> {
        match self {
            IntegerType::U8 => "u8"@,
            IntegerType::S8 => "i8"@,
            IntegerType::U16 => "u16"@,
            IntegerType::S16 => "i16"@,
            IntegerType::U32 => "u32"@,
            IntegerType::S32 => "i32"@,
        }
    }

    /// The Rust type of this integer type, as source text.
    pub fn to_tokens(&self) -> (res: String)
        ensures
            res@ == self.tokens_text(),
    {
        match self {
            IntegerType::U8 => "u8".to_owned(),
            IntegerType::S8 => "i8".to_owned(),
            IntegerType::U16 => "u16".to_owned(),
            IntegerType::S16 => "i16".to_owned(),
            IntegerType::U32 => "u32".to_owned(),
            IntegerType::S32 => "i32".to_owned(),
        }
    }

    /// The value that an integer starts with: `0`.
    pub open spec fn default_value_text() -> Seq<char> {
        "0"@
    }

    /// The value that an integer starts with, as source text: `0`.
    pub fn default_value_tokens() -> (res: String)
        ensures
            res@ == Self::default_value_text(),
    {
        "0".to_owned()
    }
}

/// An IDL integer type reads as the Rust integer type of the same
/// signedness and width: a keyword `S<n>` names `i<n>` and a keyword `U<n>`
/// names `u<n>`.
pub proof fn lemma_integer_type_keeps_sign_and_width(pair: Pair)
    requires
        IntegerType::spec_parse(pair) is Some,
    ensures
        pair.text@.len() > 1,
        pair.text@[0] == 'S' || pair.text@[0] == 'U',
        IntegerType::spec_parse(pair)->Some_0.tokens_text()
            == seq![if pair.text@[0] == 'S' { 'i' } else { 'u' }] + pair.text@.drop_first(),
{
    reveal_strlit("U8");
    reveal_strlit("S8");
    reveal_strlit("U16");
    reveal_strlit("S16");
    reveal_strlit("U32");
    reveal_strlit("S32");
    reveal_strlit("u8");
    reveal_strlit("i8");
    reveal_strlit("u16");
    reveal_strlit("i16");
    reveal_strlit("u32");
    reveal_strlit("i32");
    let t = pair.text@;
    let rust = IntegerType::spec_parse(pair)->Some_0.tokens_text();
    assert(rust =~= seq![if t[0] == 'S' { 'i' } else { 'u' }] + t.drop_first());
}

/// Only `bool` is written `bool` in Rust; each integer type has a Rust
/// type of its own.
pub proof fn lemma_variable_type_tokens_differ(a: VariableType, b: VariableType)
    ensures
        (a == VariableType::Bool) == (a.tokens_text() == "bool"@),
        a != b ==> a.tokens_text() != b.tokens_text(),
{
    reveal_strlit("bool");
    reveal_strlit("u8");
    reveal_strlit("i8");
    reveal_strlit("u16");
    reveal_strlit("i16");
    reveal_strlit("u32");
    reveal_strlit("i32");
    let ta = a.tokens_text();
    let tb = b.tokens_text();
    if a != b && ta == tb {
        assert(ta.len() == tb.len());
        assert(ta[0] == tb[0]);
        if ta.len() == 3 {
            assert(ta[1] == tb[1]);
            assert(ta[2] == tb[2]);
        } else if ta.len() == 2 {
            assert(ta[1] == tb[1]);
        } else {
            assert(ta[1] == tb[1]);
        }
    }
    if a != VariableType::Bool {
        assert(ta.len() < 4 || ta[0] != 'b');
    }
}

/// Different integer-type keywords read as different types.
pub proof fn lemma_integer_type_keywords_differ(a: Pair, b: Pair)
    requires
        IntegerType::spec_parse(a) is Some,
        IntegerType::spec_parse(b) is Some,
        a.text@ != b.text@,
    ensures
        IntegerType::spec_parse(a) != IntegerType::spec_parse(b),
{
    lemma_integer_type_keeps_sign_and_width(a);
    lemma_integer_type_keeps_sign_and_width(b);
    let ta = a.text@;
    let tb = b.text@;
    if IntegerType::spec_parse(a) == IntegerType::spec_parse(b) {
        let ra = seq![if ta[0] == 'S' { 'i' } else { 'u' }] + ta.drop_first();
        let rb = seq![if tb[0] == 'S' { 'i' } else { 'u' }] + tb.drop_first();
        assert(ra == rb);
        assert(ra[0] == rb[0]);
        assert(ta[0] == tb[0]);
        assert(ta.drop_first() =~= ra.drop_first());
        assert(tb.drop_first() =~= rb.drop_first());
        assert(ta =~= seq![ta[0]] + ta.drop_first());
        assert(tb =~= seq![tb[0]] + tb.drop_first());
    }
}

/// The type of a variable or argument: an integer type or `bool`.
#[derive(Debug, Clone, Copy, PartialEq, Eq, Structural)]
pub enum VariableType {
    IntegerType(IntegerType),
    Bool,
}

impl DeepView for VariableType {
    type V = VariableType;

    open spec fn deep_view(&self) -> VariableType {
        *self
    }
}

impl VariableType {
    /// A `variable_type` pair reads as the integer type of its first inner
    /// pair, or as `Bool` when it has no inner pair.
    pub open spec fn spec_parse(pair: Pair) -> Option<VariableType> {
        if pair.rule != Rule::variable_type {
            None
        } else if pair.inner@.len() > 0 {
            match IntegerType::spec_parse(pair.inner@[0]) {
                Some(t) => Some(VariableType::IntegerType(t)),
                None => None,
            }
        } else {
            Some(VariableType::Bool)
        }
    }

    /// Reads a `variable_type` pair.
    pub fn parse(pair: &Pair) -> (res: Option<Self>)
        ensures
            res == Self::spec_parse(*pair),
    {
        if pair.rule != Rule::variable_type {
            None
        } else if pair.inner.len() > 0 {
            match IntegerType::parse(&pair.inner[0]) {
                Some(t) => Some(VariableType::IntegerType(t)),
                None => None,
            }
        } else {
            Some(VariableType::Bool)
        }
    }

    /// The Rust type of this type.
    pub open spec fn tokens_text(self) -> Seq<char> {
        match self {
            VariableType::IntegerType(t) => t.tokens_text(),
            VariableType::Bool => "bool"@,
        }
    }

    /// The Rust type of this type, as source text.
    pub fn to_tokens(&self) -> (res: String)
        ensures
            res@ == self.tokens_text(),
    {
        match self {
            VariableType::IntegerType(t) => t.to_tokens(),
            VariableType::Bool => "bool".to_owned(),
        }
    }

    /// The value that a variable of this type starts with.
    pub open spec fn default_value_text(self) -> Seq<char> {
        match self {
            VariableType::IntegerType(_) => IntegerType::default_value_text(),
            VariableType::Bool => "false"@,
        }
    }

    /// The value that a variable of this type starts with, as source text:
    /// `0` for an integer, `false` for `bool`.
    pub fn default_value_tokens(&self) -> (res: String)
        ensures
            res@ == self.default_value_text(),
    {
        match self {
            VariableType::IntegerType(_) => IntegerType::default_value_tokens(),
            VariableType::Bool => "false".to_owned(),
        }
    }
}

/// An XClass property as the model holds it.
pub struct SpecXClassProperty {
    pub name: XClassPropertyName,
    pub verbatim: Option<Seq<char>>,
}

impl SpecXClassProperty {
    /// Whether the verbatim code of the property, if it has any, lexes as
    /// Rust tokens.
    pub open spec fn verbatim_lexes(self) -> bool {
        match self.verbatim {
            Some(v) => lexes_as_tokens(v),
            None => true,
        }
    }
}

/// Whether the verbatim code of each property lexes as Rust tokens.
pub open spec fn properties_lex(ps: Seq<SpecXClassProperty>) -> bool {
    forall|i: int| 0 <= i < ps.len() ==> (#[trigger] ps[i]).verbatim_lexes()
}

/// A property of an XClass: `#init` or `#process`, with the verbatim code
/// that the generated function of that name runs, if there is any.
#[derive(Debug)]
pub struct XClassProperty {
    name: XClassPropertyName,
    verbatim: Option<Verbatim>,
}

impl DeepView for XClassProperty {
    type V = SpecXClassProperty;

    closed spec fn deep_view(&self) -> SpecXClassProperty {
        SpecXClassProperty { name: self.name, verbatim: self.verbatim.deep_view() }
    }
}

impl Clone for XClassProperty {
    fn clone(&self) -> (res: Self)
        ensures
            res.deep_view() == self.deep_view(),
    {
        let verbatim = match &self.verbatim {
            Some(v) => Some(v.clone()),
            None => None,
        };
        XClassProperty { name: self.name, verbatim }
    }
}

impl XClassProperty {
    /// An `xclass_property` pair reads as a property: its name, then the
    /// verbatim code of the second inner pair if there is one.
    pub open spec fn spec_parse(pair: Pair) -> Result<Option<SpecXClassProperty>, ParseError> {
        let inner = pair.inner@;
        if pair.rule != Rule::xclass_property {
            Ok(None)
        } else if inner.len() == 0 {
            Err(ParseError::MissingPair)
        } else {
            match XClassPropertyName::spec_parse(inner[0]) {
                None => Err(ParseError::Unexpected),
                Some(name) => if inner.len() < 2 {
                    Ok(Some(SpecXClassProperty { name, verbatim: None }))
                } else {
                    match required(Verbatim::spec_parse(inner[1])) {
                        Ok(v) => Ok(Some(SpecXClassProperty { name, verbatim: Some(v) })),
                        Err(e) => Err(e),
                    }
                },
            }
        }
    }

    /// Reads an `xclass_property` pair, or tells why it cannot be read.
    pub fn try_parse(pair: &Pair) -> (res: Result<Option<Self>, ParseError>)
        ensures
            lexed_reading(deep_result(res), Self::spec_parse(*pair), *pair),
            deep_result(res) matches Ok(Some(p)) ==> p.verbatim_lexes(),
    {
        if pair.rule != Rule::xclass_property {
            return Ok(None);
        }
        if pair.inner.len() == 0 {
            return Err(ParseError::MissingPair);
        }
        let name = match XClassPropertyName::parse(&pair.inner[0]) {
            Some(name) => name,
            None => return Err(ParseError::Unexpected),
        };
        if pair.inner.len() < 2 {
            return Ok(Some(XClassProperty { name, verbatim: None }));
        }
        match Verbatim::try_parse(&pair.inner[1]) {
            Ok(Some(v)) => Ok(Some(XClassProperty { name, verbatim: Some(v) })),
            Ok(None) => Err(ParseError::Unexpected),
            Err(e) => {
                proof { lemma_inner_verbatim(*pair, 1); }
                Err(e)
            },
        }
    }

    /// Reads an `xclass_property` pair that can be read; nothing where the Rust lexer
    /// refuses verbatim code in it.
    pub fn parse(pair: &Pair) -> (res: Option<Self>)
        requires
            Self::spec_parse(*pair) is Ok,
        ensures
            Self::spec_parse(*pair) == Ok::<_, ParseError>(res.deep_view()) || (res is None && holds_verbatim(*pair)),
            res.deep_view() matches Some(p) ==> p.verbatim_lexes(),
    {
        match Self::try_parse(pair) {
            Ok(res) => res,
            Err(_) => None,
        }
    }

    pub fn name(&self) -> (res: XClassPropertyName)
        ensures
            res == self.deep_view().name,
    {
        self.name
    }

    pub fn verbatim(&self) -> (res: Option<&Verbatim>)
        ensures
            res.deep_view() == self.deep_view().verbatim,
    {
        match &self.verbatim {
            Some(v) => Some(v),
            None => None,
        }
    }
}

/// An XClass element as the model holds it.
pub enum SpecXClassElement {
    Method(SpecMethod),
    Variable(SpecVariable),
    Verbatim(Seq<char>),
}

/// An element of an XClass: a method, a variable or verbatim Rust code.
#[derive(Debug)]
pub enum XClassElement {
    Method(Method),
    Variable(Variable),
    Verbatim(Verbatim),
}

impl DeepView for XClassElement {
    type V = SpecXClassElement;

    open spec fn deep_view(&self) -> SpecXClassElement {
        match self {
            XClassElement::Method(m) => SpecXClassElement::Method(m.deep_view()),
            XClassElement::Variable(v) => SpecXClassElement::Variable(v.deep_view()),
            XClassElement::Verbatim(v) => SpecXClassElement::Verbatim(v.deep_view()),
        }
    }
}

impl Clone for XClassElement {
    fn clone(&self) -> (res: Self)
        ensures
            res.deep_view() == self.deep_view(),
    {
        match self {
            XClassElement::Method(m) => XClassElement::Method(m.clone()),
            XClassElement::Variable(v) => XClassElement::Variable(v.clone()),
            XClassElement::Verbatim(v) => XClassElement::Verbatim(v.clone()),
        }
    }
}

impl XClassElement {
    /// A `method`, `variable` or `verbatim` pair reads as that element; a
    /// pair of another rule reads as nothing.
    pub open spec fn spec_parse(pair: Pair) -> Result<Option<SpecXClassElement>, ParseError> {
        if pair.rule == Rule::method {
            match Method::spec_parse(pair) {
                Ok(Some(m)) => Ok(Some(SpecXClassElement::Method(m))),
                Ok(None) => Ok(None),
                Err(e) => Err(e),
            }
        } else if pair.rule == Rule::variable {
            match Variable::spec_parse(pair) {
                Ok(Some(v)) => Ok(Some(SpecXClassElement::Variable(v))),
                Ok(None) => Ok(None),
                Err(e) => Err(e),
            }
        } else if pair.rule == Rule::verbatim {
            match Verbatim::spec_parse(pair) {
                Ok(Some(v)) => Ok(Some(SpecXClassElement::Verbatim(v))),
                Ok(None) => Ok(None),
                Err(e) => Err(e),
            }
        } else {
            Ok(None)
        }
    }

    /// Reads an XClass element, or tells why it cannot be read.
    pub fn try_parse(pair: &Pair) -> (res: Result<Option<Self>, ParseError>)
        ensures
            lexed_reading(deep_result(res), Self::spec_parse(*pair), *pair),
            deep_result(res) matches Ok(Some(e)) ==> xclass_element_lexes(e),
    {
        if pair.rule == Rule::method {
            match Method::try_parse(pair) {
                Ok(Some(m)) => Ok(Some(XClassElement::Method(m))),
                Ok(None) => Ok(None),
                Err(e) => Err(e),
            }
        } else if pair.rule == Rule::variable {
            match Variable::try_parse(pair) {
                Ok(Some(v)) => Ok(Some(XClassElement::Variable(v))),
                Ok(None) => Ok(None),
                Err(e) => Err(e),
            }
        } else if pair.rule == Rule::verbatim {
            match Verbatim::try_parse(pair) {
                Ok(Some(v)) => Ok(Some(XClassElement::Verbatim(v))),
                Ok(None) => Ok(None),
                Err(e) => Err(e),
            }
        } else {
            Ok(None)
        }
    }

    /// Reads an XClass element that can be read; nothing where the Rust lexer
    /// refuses verbatim code in it.
    pub fn parse(pair: &Pair) -> (res: Option<Self>)
        requires
            Self::spec_parse(*pair) is Ok,
        ensures
            Self::spec_parse(*pair) == Ok::<_, ParseError>(res.deep_view()) || (res is None && holds_verbatim(*pair)),
            res.deep_view() matches Some(e) ==> xclass_element_lexes(e),
    {
        match Self::try_parse(pair) {
            Ok(res) => res,
            Err(_) => None,
        }
    }
}

/// Whether the verbatim code of an element (its own, or that of the body
/// of a method) lexes as Rust tokens.
pub open spec fn xclass_element_lexes(e: SpecXClassElement) -> bool {
    match e {
        SpecXClassElement::Method(m) => m.verbatims_lex(),
        SpecXClassElement::Variable(_) => true,
        SpecXClassElement::Verbatim(v) => lexes_as_tokens(v),
    }
}

/// Whether the verbatim code of each element lexes as Rust tokens.
pub open spec fn xclass_elements_lex(es: Seq<SpecXClassElement>) -> bool {
    forall|i: int| 0 <= i < es.len() ==> xclass_element_lexes(#[trigger] es[i])
}

/// The method of an element, if it is a method.
pub open spec fn element_method(e: SpecXClassElement) -> Option<SpecMethod> {
    match e {
        SpecXClassElement::Method(m) => Some(m),
        _ => None,
    }
}

/// The variable of an element, if it is a variable.
pub open spec fn element_variable(e: SpecXClassElement) -> Option<SpecVariable> {
    match e {
        SpecXClassElement::Variable(v) => Some(v),
        _ => None,
    }
}

/// The verbatim code of an element, if it is verbatim code.
pub open spec fn element_verbatim(e: SpecXClassElement) -> Option<Seq<char>> {
    match e {
        SpecXClassElement::Verbatim(v) => Some(v),
        _ => None,
    }
}

/// Whether a method has `#out` arguments.
pub open spec fn has_out_arguments(m: SpecMethod) -> bool {
    m.out_arguments().len() > 0
}

/// Whether a variable is `#shared`.
pub open spec fn is_shared_variable(v: SpecVariable) -> bool {
    v.is_shared()
}

/// Whether a variable is not `#shared`.
pub open spec fn is_instance_variable(v: SpecVariable) -> bool {
    !v.is_shared()
}

/// An XClass as the model holds it.
pub struct SpecXClass {
    pub identifier: Seq<char>,
    pub properties: Option<Seq<SpecXClassProperty>>,
    pub elements: Seq<SpecXClassElement>,
}

impl SpecXClass {
    /// Whether each piece of verbatim code in the class, in its properties
    /// and in its elements, lexes as Rust tokens.
    pub open spec fn verbatims_lex(self) -> bool {
        &&& match self.properties {
            Some(ps) => properties_lex(ps),
            None => true,
        }
        &&& xclass_elements_lex(self.elements)
    }

    /// The properties of the given name, in order, where the class has
    /// properties.
    pub open spec fn properties_of_name(self, name: XClassPropertyName) -> Option<Seq<SpecXClassProperty>> {
        match self.properties {
            Some(ps) => Some(ps.filter(|p: SpecXClassProperty| p.name == name)),
            None => None,
        }
    }

    /// The last property of the given name, if there is one.
    pub open spec fn last_property_of_name(self, name: XClassPropertyName) -> Option<SpecXClassProperty> {
        match self.properties_of_name(name) {
            Some(ps) => if ps.len() > 0 { Some(ps.last()) } else { None },
            None => None,
        }
    }

    /// The methods, in order.
    pub open spec fn methods(self) -> Seq<SpecMethod> {
        self.elements.filter_map(|e: SpecXClassElement| element_method(e))
    }

    /// The methods that have `#out` arguments, in order.
    pub open spec fn methods_with_out_arguments(self) -> Seq<SpecMethod> {
        self.methods().filter(|m: SpecMethod| has_out_arguments(m))
    }

    /// The variables, in order.
    pub open spec fn variables(self) -> Seq<SpecVariable> {
        self.elements.filter_map(|e: SpecXClassElement| element_variable(e))
    }

    /// The `#shared` variables, in order.
    pub open spec fn shared_variables(self) -> Seq<SpecVariable> {
        self.variables().filter(|v: SpecVariable| is_shared_variable(v))
    }

    /// The variables that are not `#shared`, in order.
    pub open spec fn instance_variables(self) -> Seq<SpecVariable> {
        self.variables().filter(|v: SpecVariable| is_instance_variable(v))
    }

    /// The verbatim code among the elements, in order.
    pub open spec fn verbatims(self) -> Seq<Seq<char>> {
        self.elements.filter_map(|e: SpecXClassElement| element_verbatim(e))
    }

    /// The class with its verbatim elements left out.
    pub open spec fn without_verbatim_elements(self) -> SpecXClass {
        SpecXClass {
            identifier: self.identifier,
            properties: self.properties,
            elements: self.elements.filter(|e: SpecXClassElement| is_not_verbatim_element(e)),
        }
    }
}

/// Whether an element is a method or a variable.
pub open spec fn is_not_verbatim_element(e: SpecXClassElement) -> bool {
    !(e is Verbatim)
}

/// Leaving out the verbatim elements of a class keeps its methods and its
/// variables.
pub proof fn lemma_without_verbatim_elements(xclass: SpecXClass)
    ensures
        xclass.without_verbatim_elements().methods() == xclass.methods(),
        xclass.without_verbatim_elements().variables() == xclass.variables(),
{
    lemma_filter_map_after_filter(
        xclass.elements,
        |e: SpecXClassElement| is_not_verbatim_element(e),
        |e: SpecXClassElement| element_method(e),
    );
    lemma_filter_map_after_filter(
        xclass.elements,
        |e: SpecXClassElement| is_not_verbatim_element(e),
        |e: SpecXClassElement| element_variable(e),
    );
}

/// An externally defined class: its name, its properties where the
/// description gives any, and its elements.
#[derive(Debug)]
pub struct XClass {
    pub identifier: String,
    pub properties: Option<Vec<XClassProperty>>,
    pub elements: Vec<XClassElement>,
}

impl DeepView for XClass {
    type V = SpecXClass;

    open spec fn deep_view(&self) -> SpecXClass {
        SpecXClass {
            identifier: self.identifier@,
            properties: self.properties.deep_view(),
            elements: self.elements.deep_view(),
        }
    }
}

impl Clone for XClass {
    fn clone(&self) -> (res: Self)
        ensures
            res.deep_view() == self.deep_view(),
    {
        let properties = match &self.properties {
            Some(ps) => {
                let mut out: Vec<XClassProperty> = Vec::new();
                let mut i: usize = 0;
                while i < ps.len()
                    invariant
                        i <= ps@.len(),
                        out.deep_view() =~= ps.deep_view().take(i as int),
                    decreases ps@.len() - i,
                {
                    let p = ps[i].clone();
                    let ghost before = out.deep_view();
                    out.push(p);
                    assert(out.deep_view() =~= before.push(p.deep_view()));
                    i = i + 1;
                }
                proof { lemma_take_all(ps.deep_view()); }
                Some(out)
            },
            None => None,
        };
        let mut elements: Vec<XClassElement> = Vec::new();
        let mut j: usize = 0;
        while j < self.elements.len()
            invariant
                j <= self.elements@.len(),
                elements.deep_view() =~= self.elements.deep_view().take(j as int),
            decreases self.elements@.len() - j,
        {
            let e = self.elements[j].clone();
            let ghost before = elements.deep_view();
            elements.push(e);
            assert(elements.deep_view() =~= before.push(e.deep_view()));
            j = j + 1;
        }
        proof { lemma_take_all(self.elements.deep_view()); }
        XClass { identifier: self.identifier.clone(), properties, elements }
    }
}

impl XClass {
    /// The readings of the inner pairs of an `xclass_properties` pair.
    pub open spec fn property_readings(pair: Pair) -> Seq<Result<SpecXClassProperty, ParseError>> {
        pair.inner@.map_values(|p: Pair| required(XClassProperty::spec_parse(p)))
    }

    /// An `xclass_properties` pair reads as the properties of its inner
    /// pairs, each of which must be a property.
    pub open spec fn spec_parse_properties(pair: Pair) -> Result<Option<Seq<SpecXClassProperty>>, ParseError> {
        if pair.rule != Rule::xclass_properties {
            Ok(None)
        } else {
            match collect(Self::property_readings(pair)) {
                Ok(ps) => Ok(Some(ps)),
                Err(e) => Err(e),
            }
        }
    }

    /// Reads an `xclass_properties` pair, or tells why it cannot be read.
    pub fn try_parse_properties(pair: &Pair) -> (res: Result<Option<Vec<XClassProperty>>, ParseError>)
        ensures
            lexed_reading(deep_result(res), Self::spec_parse_properties(*pair), *pair),
            deep_result(res) matches Ok(Some(ps)) ==> properties_lex(ps),
    {
        if pair.rule != Rule::xclass_properties {
            return Ok(None);
        }
        let ghost readings = Self::property_readings(*pair);
        proof { lemma_collect_start(readings); }
        let mut out: Vec<XClassProperty> = Vec::new();
        let mut i: usize = 0;
        while i < pair.inner.len()
            invariant
                pair.rule == Rule::xclass_properties,
                i <= pair.inner@.len(),
                readings == Self::property_readings(*pair),
                collect(readings) == prepend(out.deep_view(), collect(readings.skip(i as int))),
                properties_lex(out.deep_view()),
            decreases pair.inner@.len() - i,
        {
            assert(readings[i as int] == required(XClassProperty::spec_parse(pair.inner@[i as int])));
            match XClassProperty::try_parse(&pair.inner[i]) {
                Ok(Some(p)) => {
                    proof { lemma_collect_step(out.deep_view(), readings, i as int); }
                    let ghost before = out.deep_view();
                    let ghost pv = p.deep_view();
                    out.push(p);
                    assert(out.deep_view() =~= before.push(pv));
                },
                Ok(None) => {
                    proof { lemma_collect_error(out.deep_view(), readings, i as int); }
                    return Err(ParseError::Unexpected);
                },
                Err(e) => {
                    proof {
                        lemma_inner_verbatim(*pair, i as int);
                        if readings[i as int] is Err {
                            lemma_collect_error(out.deep_view(), readings, i as int);
                        }
                    }
                    return Err(e);
                },
            }
            i = i + 1;
        }
        proof { lemma_collect_end(out.deep_view(), readings); }
        Ok(Some(out))
    }

    /// Reads an `xclass_properties` pair that can be read; nothing where the Rust lexer
    /// refuses verbatim code in it.
    pub fn parse_properties(pair: &Pair) -> (res: Option<Vec<XClassProperty>>)
        requires
            Self::spec_parse_properties(*pair) is Ok,
        ensures
            Self::spec_parse_properties(*pair) == Ok::<_, ParseError>(res.deep_view()) || (res is None && holds_verbatim(*pair)),
            res.deep_view() matches Some(ps) ==> properties_lex(ps),
    {
        match Self::try_parse_properties(pair) {
            Ok(res) => res,
            Err(_) => None,
        }
    }

    /// The readings of the inner pairs of an `xclass_elements` pair.
    pub open spec fn element_readings(pair: Pair) -> Seq<Result<SpecXClassElement, ParseError>> {
        pair.inner@.map_values(|p: Pair| required(XClassElement::spec_parse(p)))
    }

    /// An `xclass_elements` pair reads as the elements of its inner pairs,
    /// each of which must be an element.
    pub open spec fn spec_parse_elements(pair: Pair) -> Result<Option<Seq<SpecXClassElement>>, ParseError> {
        if pair.rule != Rule::xclass_elements {
            Ok(None)
        } else {
            match collect(Self::element_readings(pair)) {
                Ok(es) => Ok(Some(es)),
                Err(e) => Err(e),
            }
        }
    }

    /// Reads an `xclass_elements` pair, or tells why it cannot be read.
    pub fn try_parse_elements(pair: &Pair) -> (res: Result<Option<Vec<XClassElement>>, ParseError>)
        ensures
            lexed_reading(deep_result(res), Self::spec_parse_elements(*pair), *pair),
            deep_result(res) matches Ok(Some(es)) ==> xclass_elements_lex(es),
    {
        if pair.rule != Rule::xclass_elements {
            return Ok(None);
        }
        let ghost readings = Self::element_readings(*pair);
        proof { lemma_collect_start(readings); }
        let mut out: Vec<XClassElement> = Vec::new();
        let mut i: usize = 0;
        while i < pair.inner.len()
            invariant
                pair.rule == Rule::xclass_elements,
                i <= pair.inner@.len(),
                readings == Self::element_readings(*pair),
                collect(readings) == prepend(out.deep_view(), collect(readings.skip(i as int))),
                xclass_elements_lex(out.deep_view()),
            decreases pair.inner@.len() - i,
        {
            assert(readings[i as int] == required(XClassElement::spec_parse(pair.inner@[i as int])));
            match XClassElement::try_parse(&pair.inner[i]) {
                Ok(Some(e)) => {
                    proof { lemma_collect_step(out.deep_view(), readings, i as int); }
                    let ghost before = out.deep_view();
                    let ghost ev = e.deep_view();
                    out.push(e);
                    assert(out.deep_view() =~= before.push(ev));
                },
                Ok(None) => {
                    proof { lemma_collect_error(out.deep_view(), readings, i as int); }
                    return Err(ParseError::Unexpected);
                },
                Err(err) => {
                    proof {
                        lemma_inner_verbatim(*pair, i as int);
                        if readings[i as int] is Err {
                            lemma_collect_error(out.deep_view(), readings, i as int);
                        }
                    }
                    return Err(err);
                },
            }
            i = i + 1;
        }
        proof { lemma_collect_end(out.deep_view(), readings); }
        Ok(Some(out))
    }

    /// Reads an `xclass_elements` pair that can be read; nothing where the Rust lexer
    /// refuses verbatim code in it.
    pub fn parse_elements(pair: &Pair) -> (res: Option<Vec<XClassElement>>)
        requires
            Self::spec_parse_elements(*pair) is Ok,
        ensures
            Self::spec_parse_elements(*pair) == Ok::<_, ParseError>(res.deep_view()) || (res is None && holds_verbatim(*pair)),
            res.deep_view() matches Some(es) ==> xclass_elements_lex(es),
    {
        match Self::try_parse_elements(pair) {
            Ok(res) => res,
            Err(_) => None,
        }
    }

    /// An `xclass` pair reads as an XClass: a name, then optional properties
    /// (`xclass_properties`), then the elements (`xclass_elements`).
    pub open spec fn spec_parse(pair: Pair) -> Result<Option<SpecXClass>, ParseError> {
        let inner = pair.inner@;
        if pair.rule != Rule::xclass {
            Ok(None)
        } else if inner.len() < 2 {
            Err(ParseError::MissingPair)
        } else if inner[1].rule == Rule::xclass_properties {
            match required(Self::spec_parse_properties(inner[1])) {
                Err(e) => Err(e),
                Ok(properties) => if inner.len() < 3 {
                    Err(ParseError::MissingPair)
                } else {
                    match required(Self::spec_parse_elements(inner[2])) {
                        Err(e) => Err(e),
                        Ok(elements) => Ok(Some(SpecXClass { identifier: inner[0].text@, properties: Some(properties), elements })),
                    }
                },
            }
        } else {
            match required(Self::spec_parse_elements(inner[1])) {
                Err(e) => Err(e),
                Ok(elements) => Ok(Some(SpecXClass { identifier: inner[0].text@, properties: None, elements })),
            }
        }
    }

    /// Reads an `xclass` pair, or tells why it cannot be read.
    pub fn try_parse(pair: &Pair) -> (res: Result<Option<Self>, ParseError>)
        ensures
            lexed_reading(deep_result(res), Self::spec_parse(*pair), *pair),
            deep_result(res) matches Ok(Some(x)) ==> x.verbatims_lex(),
    {
        if pair.rule != Rule::xclass {
            return Ok(None);
        }
        if pair.inner.len() < 2 {
            return Err(ParseError::MissingPair);
        }
        let identifier = pair.inner[0].text.clone();
        let properties_or_elements = &pair.inner[1];
        if properties_or_elements.rule == Rule::xclass_properties {
            let properties = match Self::try_parse_properties(properties_or_elements) {
                Ok(Some(ps)) => ps,
                Ok(None) => return Err(ParseError::Unexpected),
                Err(e) => {
                    proof { lemma_inner_verbatim(*pair, 1); }
                    return Err(e);
                },
            };
            if pair.inner.len() < 3 {
                return Err(ParseError::MissingPair);
            }
            match Self::try_parse_elements(&pair.inner[2]) {
                Ok(Some(elements)) => Ok(Some(XClass { identifier, properties: Some(properties), elements })),
                Ok(None) => Err(ParseError::Unexpected),
                Err(e) => {
                    proof { lemma_inner_verbatim(*pair, 2); }
                    Err(e)
                },
            }
        } else {
            match Self::try_parse_elements(properties_or_elements) {
                Ok(Some(elements)) => Ok(Some(XClass { identifier, properties: None, elements })),
                Ok(None) => Err(ParseError::Unexpected),
                Err(e) => {
                    proof { lemma_inner_verbatim(*pair, 1); }
                    Err(e)
                },
            }
        }
    }

    /// Reads an `xclass` pair that can be read; nothing where the Rust lexer
    /// refuses verbatim code in it.
    pub fn parse(pair: &Pair) -> (res: Option<Self>)
        requires
            Self::spec_parse(*pair) is Ok,
        ensures
            Self::spec_parse(*pair) == Ok::<_, ParseError>(res.deep_view()) || (res is None && holds_verbatim(*pair)),
            res.deep_view() matches Some(x) ==> x.verbatims_lex(),
    {
        match Self::try_parse(pair) {
            Ok(res) => res,
            Err(_) => None,
        }
    }

    /// The properties of the given name, in order, where the class has
    /// properties.
    pub fn properties_of_name(&self, xclass_property_name: XClassPropertyName) -> (res: Option<Vec<&XClassProperty>>)
        ensures
            res.deep_view() == self.deep_view().properties_of_name(xclass_property_name),
    {
        match &self.properties {
            None => None,
            Some(properties) => {
                let ghost all = properties.deep_view();
                let ghost pred = |p: SpecXClassProperty| p.name == xclass_property_name;
                let mut res: Vec<&XClassProperty> = Vec::new();
                let mut i: usize = 0;
                while i < properties.len()
                    invariant
                        i <= properties@.len(),
                        all == properties.deep_view(),
                        pred == (|p: SpecXClassProperty| p.name == xclass_property_name),
                        res.deep_view() == all.take(i as int).filter(pred),
                    decreases properties@.len() - i,
                {
                    proof { lemma_filter_take_step(all, pred, i as int); }
                    let p = &properties[i];
                    if p.name == xclass_property_name {
                        let ghost before = res.deep_view();
                        res.push(p);
                        assert(res.deep_view() =~= before.push(p.deep_view()));
                    }
                    i = i + 1;
                }
                proof { lemma_take_all(all); }
                Some(res)
            },
        }
    }

    /// The last property of the given name, if there is one.
    pub fn last_property_of_name(&self, xclass_property_name: XClassPropertyName) -> (res: Option<&XClassProperty>)
        ensures
            res.deep_view() == self.deep_view().last_property_of_name(xclass_property_name),
    {
        match self.properties_of_name(xclass_property_name) {
            Some(ps) => if ps.len() > 0 {
                let last = ps[ps.len() - 1];
                assert(ps.deep_view().last() == last.deep_view());
                Some(last)
            } else {
                None
            },
            None => None,
        }
    }

    /// The last `#init` property, if there is one.
    pub fn last_init_property(&self) -> (res: Option<&XClassProperty>)
        ensures
            res.deep_view() == self.deep_view().last_property_of_name(XClassPropertyName::Init),
    {
        self.last_property_of_name(XClassPropertyName::Init)
    }

    /// The last `#process` property, if there is one.
    pub fn last_process_property(&self) -> (res: Option<&XClassProperty>)
        ensures
            res.deep_view() == self.deep_view().last_property_of_name(XClassPropertyName::Process),
    {
        self.last_property_of_name(XClassPropertyName::Process)
    }

    /// The methods, in order.
    pub fn methods(&self) -> (res: Vec<&Method>)
        ensures
            res.deep_view() == self.deep_view().methods(),
    {
        let ghost all = self.elements.deep_view();
        let ghost f = |e: SpecXClassElement| element_method(e);
        let mut res: Vec<&Method> = Vec::new();
        let mut i: usize = 0;
        while i < self.elements.len()
            invariant
                i <= self.elements@.len(),
                all == self.elements.deep_view(),
                f == (|e: SpecXClassElement| element_method(e)),
                res.deep_view() == all.take(i as int).filter_map(f),
            decreases self.elements@.len() - i,
        {
            proof { lemma_filter_map_take_step(all, f, i as int); }
            if let XClassElement::Method(m) = &self.elements[i] {
                let ghost before = res.deep_view();
                res.push(m);
                assert(res.deep_view() =~= before.push(m.deep_view()));
            }
            i = i + 1;
        }
        proof { lemma_take_all(all); }
        res
    }

    /// The methods that have `#out` arguments, in order.
    pub fn methods_with_out_arguments(&self) -> (res: Vec<&Method>)
        ensures
            res.deep_view() == self.deep_view().methods_with_out_arguments(),
    {
        let methods = self.methods();
        let ghost all = self.deep_view().methods();
        let ghost pred = |m: SpecMethod| has_out_arguments(m);
        let mut res: Vec<&Method> = Vec::new();
        let mut i: usize = 0;
        while i < methods.len()
            invariant
                i <= methods@.len(),
                all == methods.deep_view(),
                all == self.deep_view().methods(),
                pred == (|m: SpecMethod| has_out_arguments(m)),
                res.deep_view() == all.take(i as int).filter(pred),
            decreases methods@.len() - i,
        {
            proof { lemma_filter_take_step(all, pred, i as int); }
            let m = methods[i];
            if m.has_out_arguments() {
                let ghost before = res.deep_view();
                res.push(m);
                assert(res.deep_view() =~= before.push(m.deep_view()));
            }
            i = i + 1;
        }
        proof { lemma_take_all(all); }
        res
    }

    /// The variables, in order.
    pub fn variables(&self) -> (res: Vec<&Variable>)
        ensures
            res.deep_view() == self.deep_view().variables(),
    {
        let ghost all = self.elements.deep_view();
        let ghost f = |e: SpecXClassElement| element_variable(e);
        let mut res: Vec<&Variable> = Vec::new();
        let mut i: usize = 0;
        while i < self.elements.len()
            invariant
                i <= self.elements@.len(),
                all == self.elements.deep_view(),
                f == (|e: SpecXClassElement| element_variable(e)),
                res.deep_view() == all.take(i as int).filter_map(f),
            decreases self.elements@.len() - i,
        {
            proof { lemma_filter_map_take_step(all, f, i as int); }
            if let XClassElement::Variable(v) = &self.elements[i] {
                let ghost before = res.deep_view();
                res.push(v);
                assert(res.deep_view() =~= before.push(v.deep_view()));
            }
            i = i + 1;
        }
        proof { lemma_take_all(all); }
        res
    }

    /// The `#shared` variables, in order.
    pub fn shared_variables(&self) -> (res: Vec<&Variable>)
        ensures
            res.deep_view() == self.deep_view().shared_variables(),
    {
        let variables = self.variables();
        let ghost all = self.deep_view().variables();
        let ghost pred = |v: SpecVariable| is_shared_variable(v);
        let mut res: Vec<&Variable> = Vec::new();
        let mut i: usize = 0;
        while i < variables.len()
            invariant
                i <= variables@.len(),
                all == variables.deep_view(),
                pred == (|v: SpecVariable| is_shared_variable(v)),
                res.deep_view() == all.take(i as int).filter(pred),
            decreases variables@.len() - i,
        {
            proof { lemma_filter_take_step(all, pred, i as int); }
            let v = variables[i];
            if v.is_shared() {
                let ghost before = res.deep_view();
                res.push(v);
                assert(res.deep_view() =~= before.push(v.deep_view()));
            }
            i = i + 1;
        }
        proof { lemma_take_all(all); }
        res
    }

    /// The variables that are not `#shared`, in order.
    pub fn instance_variables(&self) -> (res: Vec<&Variable>)
        ensures
            res.deep_view() == self.deep_view().instance_variables(),
    {
        let variables = self.variables();
        let ghost all = self.deep_view().variables();
        let ghost pred = |v: SpecVariable| is_instance_variable(v);
        let mut res: Vec<&Variable> = Vec::new();
        let mut i: usize = 0;
        while i < variables.len()
            invariant
                i <= variables@.len(),
                all == variables.deep_view(),
                pred == (|v: SpecVariable| is_instance_variable(v)),
                res.deep_view() == all.take(i as int).filter(pred),
            decreases variables@.len() - i,
        {
            proof { lemma_filter_take_step(all, pred, i as int); }
            let v = variables[i];
            if !v.is_shared() {
                let ghost before = res.deep_view();
                res.push(v);
                assert(res.deep_view() =~= before.push(v.deep_view()));
            }
            i = i + 1;
        }
        proof { lemma_take_all(all); }
        res
    }

    /// The verbatim code among the elements, in order.
    pub fn verbatims(&self) -> (res: Vec<&Verbatim>)
        ensures
            res.deep_view() == self.deep_view().verbatims(),
    {
        let ghost all = self.elements.deep_view();
        let ghost f = |e: SpecXClassElement| element_verbatim(e);
        let mut res: Vec<&Verbatim> = Vec::new();
        let mut i: usize = 0;
        while i < self.elements.len()
            invariant
                i <= self.elements@.len(),
                all == self.elements.deep_view(),
                f == (|e: SpecXClassElement| element_verbatim(e)),
                res.deep_view() == all.take(i as int).filter_map(f),
            decreases self.elements@.len() - i,
        {
            proof { lemma_filter_map_take_step(all, f, i as int); }
            if let XClassElement::Verbatim(v) = &self.elements[i] {
                let ghost before = res.deep_view();
                res.push(v);
                assert(res.deep_view() =~= before.push(v.deep_view()));
            }
            i = i + 1;
        }
        proof { lemma_take_all(all); }
        res
    }

    /// The name of the class.
    pub fn identifier(&self) -> (res: String)
        ensures
            res@ == self.identifier@,
    {
        self.identifier.clone()
    }
}

/// The shared and the instance variables of an XClass are, together, its
/// variables: each variable is `#shared` or an instance variable, never both.
pub proof fn lemma_variables_partition(xclass: SpecXClass)
    ensures
        xclass.variables().to_multiset() =~= xclass.shared_variables().to_multiset().add(xclass.instance_variables().to_multiset()),
        xclass.shared_variables().len() + xclass.instance_variables().len() == xclass.variables().len(),
        forall|i: int| 0 <= i < xclass.shared_variables().len() ==> (#[trigger] xclass.shared_variables()[i]).is_shared(),
        forall|i: int| 0 <= i < xclass.instance_variables().len() ==> !(#[trigger] xclass.instance_variables()[i]).is_shared(),
{
    let p = |v: SpecVariable| is_shared_variable(v);
    let q = |v: SpecVariable| is_instance_variable(v);
    assert forall|v: SpecVariable| #[trigger] q(v) == !p(v) by {}
    lemma_filter_split(xclass.variables(), p, q);
    lemma_filter_all(xclass.variables(), p);
    lemma_filter_all(xclass.variables(), q);
}

proof fn lemma_last_of_name(properties: Seq<SpecXClassProperty>, name: XClassPropertyName)
    ensures
        ({
            let named = properties.filter(|p: SpecXClassProperty| p.name == name);
            &&& named.len() > 0 ==> exists|i: int|
                0 <= i < properties.len() && properties[i] == named.last() && properties[i].name == name
                    && forall|j: int| i < j < properties.len() ==> (#[trigger] properties[j]).name != name
            &&& named.len() == 0 ==> forall|i: int| 0 <= i < properties.len() ==> (#[trigger] properties[i]).name != name
        }),
    decreases properties.len(),
{
    let f = |p: SpecXClassProperty| p.name == name;
    if properties.len() == 0 {
        assert(properties.filter(f) =~= Seq::<SpecXClassProperty>::empty()) by { reveal(Seq::filter); }
    } else {
        let t = properties.drop_last();
        let a = properties.last();
        assert(properties =~= t.push(a));
        lemma_last_of_name(t, name);
        t.lemma_filter_push(a, f);
        let named = properties.filter(f);
        if a.name == name {
            let k: int = properties.len() - 1;
            assert(properties[k] == named.last());
        } else if t.filter(f).len() > 0 {
            let i: int = choose|i: int|
                0 <= i < t.len() && t[i] == t.filter(f).last() && t[i].name == name
                    && forall|j: int| i < j < t.len() ==> (#[trigger] t[j]).name != name;
            assert(properties[i] == t[i]);
            assert forall|j: int| i < j < properties.len() implies (#[trigger] properties[j]).name != name by {
                if j < t.len() {
                    assert(properties[j] == t[j]);
                }
            }
        } else {
            assert forall|i: int| 0 <= i < properties.len() implies (#[trigger] properties[i]).name != name by {
                if i < t.len() {
                    assert(properties[i] == t[i]);
                }
            }
        }
    }
}

/// The property that the function of `#init` or `#process` is made from is
/// the last property of that name; where there is none, the class has no
/// property of that name.
pub proof fn lemma_last_property_of_name(xclass: SpecXClass, name: XClassPropertyName)
    ensures
        match xclass.last_property_of_name(name) {
            Some(p) => p.name == name && exists|i: int|
                0 <= i < xclass.properties->Some_0.len() && xclass.properties->Some_0[i] == p
                    && forall|j: int| i < j < xclass.properties->Some_0.len() ==> (#[trigger] xclass.properties->Some_0[j]).name != name,
            None => xclass.properties matches Some(ps) ==> forall|i: int| 0 <= i < ps.len() ==> (#[trigger] ps[i]).name != name,
        },
{
    if let Some(ps) = xclass.properties {
        lemma_last_of_name(ps, name);
    }
}

} // verus!
