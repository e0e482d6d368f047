//! Methods of an XClass and their arguments.

use vstd::prelude::*;

use crate::ast::common::Verbatim;
use crate::external::lexes_as_tokens;
use crate::ast::xclass::VariableType;
use crate::codegen::rust::definition::{
    ArgumentDefiner, SpecArgumentDefinition, SpecStructDefinition, SpecStructFieldDefinition, StructDefiner,
    StructFieldDefiner, StructFieldDefinition,
};
use crate::codegen::rust::instantiation::{
    SpecStructFieldInstantiation, SpecStructInstantiation, StructFieldInstantiation,
    StructFieldInstantiator, StructInstantiator,
};
use crate::pair::{
    collect, deep_result, holds_verbatim, lemma_collect_end, lemma_collect_error, lemma_collect_start,
    lemma_collect_step, lemma_inner_verbatim, lexed_reading, prepend, present, required, ParseError, Pair, Rule,
};
use crate::seqs::{lemma_filter_all, lemma_filter_map_take_step, lemma_filter_split, lemma_filter_take_step, lemma_take_all};
use crate::text::text_is;

verus! {

/// The return type of a method: a variable type, or none (`void`).
#[derive(Debug, Clone, Copy, PartialEq, Eq, Structural)]
pub enum MethodType {
    VariableType(VariableType),
    Void,
}

impl DeepView for MethodType {
    type V = MethodType;

    open spec fn deep_view(&self) -> MethodType {
        *self
    }
}

impl MethodType {
    /// A `method_type` pair reads as the variable type of its first inner
    /// pair, or as `Void` when it has no inner pair.
    pub open spec fn spec_parse(pair: Pair) -> Option<MethodType> {
        if pair.rule != Rule::method_type {
            None
        } else if pair.inner@.len() > 0 {
            match VariableType::spec_parse(pair.inner@[0]) {
                Some(t) => Some(MethodType::VariableType(t)),
                None => None,
            }
        } else {
            Some(MethodType::Void)
        }
    }

    /// Reads a `method_type` pair.
    pub fn parse(pair: &Pair) -> (res: Option<Self>)
        ensures
            res == Self::spec_parse(*pair),
    {
        if pair.rule != Rule::method_type {
            None
        } else if pair.inner.len() > 0 {
            match VariableType::parse(&pair.inner[0]) {
                Some(t) => Some(MethodType::VariableType(t)),
                None => None,
            }
        } else {
            Some(MethodType::Void)
        }
    }

    /// The Rust return type: that of the variable type, or `()`.
    pub open spec fn tokens_text(self) -> Seq<char> {
        match self {
            MethodType::VariableType(t) => t.tokens_text(),
            MethodType::Void => "()"@,
        }
    }

    /// The Rust return type, as source text.
    pub fn to_tokens(&self) -> (res: String)
        ensures
            res@ == self.tokens_text(),
    {
        match self {
            MethodType::VariableType(t) => t.to_tokens(),
            MethodType::Void => "()".to_owned(),
        }
    }
}

/// The direction of an argument: `#in` or `#out`.
#[derive(Debug, Clone, Copy, PartialEq, Eq, Structural)]
pub enum ArgumentProperty {
    In,
    Out,
}

impl DeepView for ArgumentProperty {
    type V = ArgumentProperty;

    open spec fn deep_view(&self) -> ArgumentProperty {
        *self
    }
}

impl ArgumentProperty {
    /// An `argument_property` pair reads as the direction its text names.
    pub open spec fn spec_parse(pair: Pair) -> Option<ArgumentProperty> {
        if pair.rule != Rule::argument_property {
            None
        } else if pair.text@ == "#in"@ {
            Some(ArgumentProperty::In)
        } else if pair.text@ == "#out"@ {
            Some(ArgumentProperty::Out)
        } else {
            None
        }
    }

    /// Reads an `argument_property` pair.
    pub fn parse(pair: &Pair) -> (res: Option<Self>)
        ensures
            res == Self::spec_parse(*pair),
    {
        if pair.rule != Rule::argument_property {
            None
        } else if text_is(&pair.text, "#in") {
            Some(ArgumentProperty::In)
        } else if text_is(&pair.text, "#out") {
            Some(ArgumentProperty::Out)
        } else {
            None
        }
    }

    pub fn is_in(&self) -> (res: bool)
        ensures
            res == (*self == ArgumentProperty::In),
    {
        matches!(self, ArgumentProperty::In)
    }

    pub fn is_out(&self) -> (res: bool)
        ensures
            res == (*self == ArgumentProperty::Out),
    {
        matches!(self, ArgumentProperty::Out)
    }
}

/// The readings of the inner pairs of an `argument_properties` pair.
pub open spec fn argument_property_readings(pair: Pair) -> Seq<Result<ArgumentProperty, ParseError>> {
    pair.inner@.map_values(|p: Pair| present(ArgumentProperty::spec_parse(p)))
}

/// An `argument_properties` pair reads as the directions of its inner pairs,
/// each of which must be a direction.
pub open spec fn spec_parse_argument_properties(pair: Pair) -> Result<Option<Seq<ArgumentProperty>>, ParseError> {
    if pair.rule != Rule::argument_properties {
        Ok(None)
    } else {
        match collect(argument_property_readings(pair)) {
            Ok(ps) => Ok(Some(ps)),
            Err(e) => Err(e),
        }
    }
}

fn try_parse_argument_properties(pair: &Pair) -> (res: Result<Option<Vec<ArgumentProperty>>, ParseError>)
    ensures
        deep_result(res) == spec_parse_argument_properties(*pair),
{
    if pair.rule != Rule::argument_properties {
        return Ok(None);
    }
    let ghost readings = argument_property_readings(*pair);
    proof { lemma_collect_start(readings); }
    let mut out: Vec<ArgumentProperty> = Vec::new();
    let mut i: usize = 0;
    while i < pair.inner.len()
        invariant
            pair.rule == Rule::argument_properties,
            i <= pair.inner@.len(),
            readings == argument_property_readings(*pair),
            collect(readings) == prepend(out.deep_view(), collect(readings.skip(i as int))),
        decreases pair.inner@.len() - i,
    {
        assert(readings[i as int] == present(ArgumentProperty::spec_parse(pair.inner@[i as int])));
        match ArgumentProperty::parse(&pair.inner[i]) {
            Some(p) => {
                proof { lemma_collect_step(out.deep_view(), readings, i as int); }
                let ghost before = out.deep_view();
                out.push(p);
                assert(out.deep_view() =~= before.push(p));
            },
            None => {
                proof { lemma_collect_error(out.deep_view(), readings, i as int); }
                return Err(ParseError::Unexpected);
            },
        }
        i = i + 1;
    }
    proof { lemma_collect_end(out.deep_view(), readings); }
    Ok(Some(out))
}

/// An argument as the model holds it.
pub struct SpecArgument {
    pub identifier: Seq<char>,
    pub variable_type: VariableType,
    pub maybe_initial_value: Option<Seq<char>>,
    pub property: ArgumentProperty,
}

impl SpecArgument {
    /// The struct field that holds the argument.
    pub open spec fn field_definition(self) -> SpecStructFieldDefinition {
        SpecStructFieldDefinition { identifier: self.identifier, type_tokens: self.variable_type.tokens_text() }
    }

    /// The field value that the argument starts with.
    pub open spec fn field_instantiation(self) -> SpecStructFieldInstantiation {
        SpecStructFieldInstantiation { identifier: self.identifier, value_tokens: self.variable_type.default_value_text() }
    }

    /// The argument of the C function: an `#out` argument is passed as a
    /// `*mut` pointer.
    pub open spec fn argument_definition(self) -> SpecArgumentDefinition {
        SpecArgumentDefinition {
            identifier: self.identifier,
            type_tokens: match self.property {
                ArgumentProperty::In => self.variable_type.tokens_text(),
                ArgumentProperty::Out => "*mut "@ + self.variable_type.tokens_text(),
            },
        }
    }
}

/// The direction given by the last of `properties`, if there is one.
pub open spec fn last_property(properties: Option<Seq<ArgumentProperty>>) -> Option<ArgumentProperty> {
    match properties {
        Some(ps) => if ps.len() > 0 { Some(ps.last()) } else { None },
        None => None,
    }
}

/// An argument of a method: its name, type, the text of its initial value if
/// it has one, and its direction.
#[derive(Debug)]
pub struct Argument {
    identifier: String,
    variable_type: VariableType,
    maybe_initial_value: Option<String>,
    property: ArgumentProperty,
}

impl DeepView for Argument {
    type V = SpecArgument;

    closed spec fn deep_view(&self) -> SpecArgument {
        SpecArgument {
            identifier: self.identifier@,
            variable_type: self.variable_type,
            maybe_initial_value: self.maybe_initial_value.deep_view(),
            property: self.property,
        }
    }
}

impl Clone for Argument {
    fn clone(&self) -> (res: Self)
        ensures
            res.deep_view() == self.deep_view(),
    {
        let maybe_initial_value = match &self.maybe_initial_value {
            Some(v) => Some(v.clone()),
            None => None,
        };
        Argument {
            identifier: self.identifier.clone(),
            variable_type: self.variable_type,
            maybe_initial_value,
            property: self.property,
        }
    }
}

impl Argument {
    /// An `argument` pair reads as an argument: a type, a name, then an
    /// optional initial value (`init_value`) and optional directions
    /// (`argument_properties`). The last direction given is the argument's;
    /// with none it is `default_argument_property`. After an `#out` argument
    /// (`default_argument_property` is `Out`) no argument may be `#in`, and an
    /// `#out` argument has no initial value.
    pub open spec fn spec_parse(pair: Pair, default_argument_property: ArgumentProperty) -> Result<Option<SpecArgument>, ParseError> {
        let inner = pair.inner@;
        if pair.rule != Rule::argument {
            Ok(None)
        } else if inner.len() == 0 {
            Err(ParseError::MissingPair)
        } else {
            match VariableType::spec_parse(inner[0]) {
                None => Err(ParseError::Unexpected),
                Some(variable_type) => if inner.len() < 2 {
                    Err(ParseError::MissingPair)
                } else {
                    let identifier = inner[1].text@;
                    let has_initial_value = inner.len() > 2 && inner[2].rule == Rule::init_value;
                    let maybe_initial_value = if has_initial_value { Some(inner[2].text@) } else { None };
                    let next: int = if has_initial_value { 3 } else { 2 };
                    let maybe_properties = if inner.len() > next && inner[next].rule == Rule::argument_properties {
                        match spec_parse_argument_properties(inner[next]) {
                            Ok(Some(ps)) => Ok(Some(ps)),
                            Ok(None) => Err(ParseError::Unexpected),
                            Err(e) => Err(e),
                        }
                    } else {
                        Ok(None)
                    };
                    match maybe_properties {
                        Err(e) => Err(e),
                        Ok(properties) => {
                            let last = last_property(properties);
                            if default_argument_property == ArgumentProperty::Out && last == Some(ArgumentProperty::In) {
                                Err(ParseError::InArgumentAfterOut)
                            } else {
                                let property = match last {
                                    Some(p) => p,
                                    None => default_argument_property,
                                };
                                if property == ArgumentProperty::Out && maybe_initial_value is Some {
                                    Err(ParseError::OutArgumentWithInitialValue)
                                } else {
                                    Ok(Some(SpecArgument { identifier, variable_type, maybe_initial_value, property }))
                                }
                            }
                        },
                    }
                },
            }
        }
    }

    /// Reads an `argument` pair, or tells why it cannot be read.
    pub fn try_parse(pair: &Pair, default_argument_property: ArgumentProperty) -> (res: Result<Option<Self>, ParseError>)
        ensures
            deep_result(res) == Self::spec_parse(*pair, default_argument_property),
    {
        if pair.rule != Rule::argument {
            return Ok(None);
        }
        let n: usize = pair.inner.len();
        if n == 0 {
            return Err(ParseError::MissingPair);
        }
        let variable_type = match VariableType::parse(&pair.inner[0]) {
            Some(t) => t,
            None => return Err(ParseError::Unexpected),
        };
        if n < 2 {
            return Err(ParseError::MissingPair);
        }
        let identifier = pair.inner[1].text.clone();
        let has_initial_value = n > 2 && pair.inner[2].rule == Rule::init_value;
        let maybe_initial_value = if has_initial_value { Some(pair.inner[2].text.clone()) } else { None };
        let next: usize = if has_initial_value { 3 } else { 2 };
        let maybe_properties = if n > next && pair.inner[next].rule == Rule::argument_properties {
            match try_parse_argument_properties(&pair.inner[next]) {
                Ok(Some(ps)) => Some(ps),
                Ok(None) => return Err(ParseError::Unexpected),
                Err(e) => return Err(e),
            }
        } else {
            None
        };
        let last = match &maybe_properties {
            Some(ps) => if ps.len() > 0 { Some(ps[ps.len() - 1]) } else { None },
            None => None,
        };
        assert(last == last_property(maybe_properties.deep_view())) by {
            if let Some(ps) = maybe_properties {
                if ps@.len() > 0 {
                    assert(ps.deep_view().last() == ps@[ps@.len() - 1]);
                }
            }
        }
        if default_argument_property.is_out() {
            if let Some(p) = last {
                if p.is_in() {
                    return Err(ParseError::InArgumentAfterOut);
                }
            }
        }
        let property = match last {
            Some(p) => p,
            None => default_argument_property,
        };
        if property.is_out() && maybe_initial_value.is_some() {
            return Err(ParseError::OutArgumentWithInitialValue);
        }
        Ok(Some(Argument { identifier, variable_type, maybe_initial_value, property }))
    }

    /// Reads an `argument` pair that can be read.
    pub fn parse(pair: &Pair, default_argument_property: ArgumentProperty) -> (res: Option<Self>)
        requires
            Self::spec_parse(*pair, default_argument_property) is Ok,
        ensures
            Self::spec_parse(*pair, default_argument_property) == Ok::<_, ParseError>(res.deep_view()),
    {
        match Self::try_parse(pair, default_argument_property) {
            Ok(res) => res,
            Err(_) => None,
        }
    }

    /// Reads an `argument_properties` pair, or tells why it cannot be read.
    pub fn try_parse_properties(pair: &Pair) -> (res: Result<Option<Vec<ArgumentProperty>>, ParseError>)
        ensures
            deep_result(res) == spec_parse_argument_properties(*pair),
    {
        try_parse_argument_properties(pair)
    }

    /// Reads an `argument_properties` pair that can be read.
    pub fn parse_properties(pair: &Pair) -> (res: Option<Vec<ArgumentProperty>>)
        requires
            spec_parse_argument_properties(*pair) is Ok,
        ensures
            spec_parse_argument_properties(*pair) == Ok::<_, ParseError>(res.deep_view()),
    {
        match try_parse_argument_properties(pair) {
            Ok(res) => res,
            Err(_) => None,
        }
    }

    pub fn identifier(&self) -> (res: &String)
        ensures
            res@ == self.deep_view().identifier,
    {
        &self.identifier
    }

    pub fn variable_type(&self) -> (res: VariableType)
        ensures
            res == self.deep_view().variable_type,
    {
        self.variable_type
    }

    pub fn maybe_initial_value(&self) -> (res: Option<&String>)
        ensures
            res.deep_view() == self.deep_view().maybe_initial_value,
    {
        match &self.maybe_initial_value {
            Some(v) => Some(v),
            None => None,
        }
    }

    pub fn property(&self) -> (res: ArgumentProperty)
        ensures
            res == self.deep_view().property,
    {
        self.property
    }
}

/// An argument is held in a struct field of its name and type.
impl StructFieldDefiner for Argument {
    open spec fn field_identifier_text(&self) -> Seq<char> {
        self.deep_view().field_definition().identifier
    }

    open spec fn field_type_text(&self) -> Seq<char> {
        self.deep_view().field_definition().type_tokens
    }

    fn identifier(&self) -> String {
        self.identifier.clone()
    }

    fn type_tokens(&self) -> String {
        self.variable_type.to_tokens()
    }
}

/// An argument starts as the default value of its type.
impl StructFieldInstantiator for Argument {
    open spec fn field_instantiation_identifier_text(&self) -> Seq<char> {
        self.deep_view().field_instantiation().identifier
    }

    open spec fn field_value_text(&self) -> Seq<char> {
        self.deep_view().field_instantiation().value_tokens
    }

    fn identifier(&self) -> String {
        self.identifier.clone()
    }

    fn value_tokens(&self) -> String {
        self.variable_type.default_value_tokens()
    }
}

/// An argument of the C function; an `#out` argument is a `*mut` pointer.
impl ArgumentDefiner for Argument {
    open spec fn argument_identifier_text(&self) -> Seq<char> {
        self.deep_view().argument_definition().identifier
    }

    open spec fn argument_type_text(&self) -> Seq<char> {
        self.deep_view().argument_definition().type_tokens
    }

    fn identifier(&self) -> String {
        self.identifier.clone()
    }

    fn type_tokens(&self) -> String {
        let type_tokens = self.variable_type.to_tokens();
        match self.property {
            ArgumentProperty::In => type_tokens,
            ArgumentProperty::Out => "*mut ".to_owned().concat(type_tokens.as_str()),
        }
    }
}

/// A method variable as the model holds it.
pub struct SpecMethodVariable {
    pub variable_type: VariableType,
    pub identifier: Seq<char>,
    pub maybe_initial_value: Option<Seq<char>>,
    pub maybe_properties: Option<Seq<ArgumentProperty>>,
}

/// A variable declared inside a method: its type, its name, and either the
/// text of an initial value or directions.
#[derive(Debug)]
pub struct MethodVariable {
    variable_type: VariableType,
    identifier: String,
    maybe_initial_value: Option<String>,
    maybe_properties: Option<Vec<ArgumentProperty>>,
}

impl DeepView for MethodVariable {
    type V = SpecMethodVariable;

    closed spec fn deep_view(&self) -> SpecMethodVariable {
        SpecMethodVariable {
            variable_type: self.variable_type,
            identifier: self.identifier@,
            maybe_initial_value: self.maybe_initial_value.deep_view(),
            maybe_properties: self.maybe_properties.deep_view(),
        }
    }
}

impl Clone for MethodVariable {
    fn clone(&self) -> (res: Self)
        ensures
            res.deep_view() == self.deep_view(),
    {
        let maybe_initial_value = match &self.maybe_initial_value {
            Some(v) => Some(v.clone()),
            None => None,
        };
        let maybe_properties = match &self.maybe_properties {
            Some(ps) => {
                let c = ps.clone();
                assert(c.deep_view() =~= ps.deep_view());
                Some(c)
            },
            None => None,
        };
        MethodVariable {
            variable_type: self.variable_type,
            identifier: self.identifier.clone(),
            maybe_initial_value,
            maybe_properties,
        }
    }
}

impl MethodVariable {
    /// A `method_variable` pair reads as a method variable: a type, a name,
    /// then an initial value (`init_value`) or directions
    /// (`argument_properties`).
    pub open spec fn spec_parse(pair: Pair) -> Result<Option<SpecMethodVariable>, ParseError> {
        let inner = pair.inner@;
        if pair.rule != Rule::method_variable {
            Ok(None)
        } else if inner.len() == 0 {
            Err(ParseError::MissingPair)
        } else {
            match VariableType::spec_parse(inner[0]) {
                None => Err(ParseError::Unexpected),
                Some(variable_type) => if inner.len() < 2 {
                    Err(ParseError::MissingPair)
                } else if inner.len() < 3 {
                    Err(ParseError::MissingPair)
                } else {
                    let identifier = inner[1].text@;
                    if inner[2].rule == Rule::init_value {
                        Ok(Some(SpecMethodVariable { variable_type, identifier, maybe_initial_value: Some(inner[2].text@), maybe_properties: None }))
                    } else if inner[2].rule == Rule::argument_properties {
                        match spec_parse_argument_properties(inner[2]) {
                            Ok(Some(ps)) => Ok(Some(SpecMethodVariable { variable_type, identifier, maybe_initial_value: None, maybe_properties: Some(ps) })),
                            Ok(None) => Err(ParseError::Unexpected),
                            Err(e) => Err(e),
                        }
                    } else {
                        Err(ParseError::Unexpected)
                    }
                },
            }
        }
    }

    /// Reads a `method_variable` pair, or tells why it cannot be read.
    pub fn try_parse(pair: &Pair) -> (res: Result<Option<Self>, ParseError>)
        ensures
            deep_result(res) == Self::spec_parse(*pair),
    {
        if pair.rule != Rule::method_variable {
            return Ok(None);
        }
        if pair.inner.len() == 0 {
            return Err(ParseError::MissingPair);
        }
        let variable_type = match VariableType::parse(&pair.inner[0]) {
            Some(t) => t,
            None => return Err(ParseError::Unexpected),
        };
        if pair.inner.len() < 3 {
            return Err(ParseError::MissingPair);
        }
        let identifier = pair.inner[1].text.clone();
        let third = &pair.inner[2];
        if third.rule == Rule::init_value {
            Ok(Some(MethodVariable { variable_type, identifier, maybe_initial_value: Some(third.text.clone()), maybe_properties: None }))
        } else if third.rule == Rule::argument_properties {
            match try_parse_argument_properties(third) {
                Ok(Some(ps)) => Ok(Some(MethodVariable { variable_type, identifier, maybe_initial_value: None, maybe_properties: Some(ps) })),
                Ok(None) => Err(ParseError::Unexpected),
                Err(e) => Err(e),
            }
        } else {
            Err(ParseError::Unexpected)
        }
    }

    /// Reads a `method_variable` pair that can be read.
    pub fn parse(pair: &Pair) -> (res: Option<Self>)
        requires
            Self::spec_parse(*pair) is Ok,
        ensures
            Self::spec_parse(*pair) == Ok::<_, ParseError>(res.deep_view()),
    {
        match Self::try_parse(pair) {
            Ok(res) => res,
            Err(_) => None,
        }
    }

    /// Reads an `argument_properties` pair that can be read.
    pub fn parse_properties(pair: &Pair) -> (res: Option<Vec<ArgumentProperty>>)
        requires
            spec_parse_argument_properties(*pair) is Ok,
        ensures
            spec_parse_argument_properties(*pair) == Ok::<_, ParseError>(res.deep_view()),
    {
        match try_parse_argument_properties(pair) {
            Ok(res) => res,
            Err(_) => None,
        }
    }

    pub fn variable_type(&self) -> (res: &VariableType)
        ensures
            *res == self.deep_view().variable_type,
    {
        &self.variable_type
    }

    pub fn identifier(&self) -> (res: &String)
        ensures
            res@ == self.deep_view().identifier,
    {
        &self.identifier
    }

    pub fn maybe_initial_value(&self) -> (res: Option<&String>)
        ensures
            res.deep_view() == self.deep_view().maybe_initial_value,
    {
        match &self.maybe_initial_value {
            Some(v) => Some(v),
            None => None,
        }
    }

    pub fn maybe_properties(&self) -> (res: Option<&Vec<ArgumentProperty>>)
        ensures
            res.deep_view() == self.deep_view().maybe_properties,
    {
        match &self.maybe_properties {
            Some(v) => Some(v),
            None => None,
        }
    }
}

/// An argument's field starts at the zero value of the argument's own
/// type: `false` for `bool`, `0` for an integer type.
pub proof fn lemma_argument_field_starts_at_zero(a: SpecArgument)
    ensures
        a.field_instantiation().identifier == a.identifier,
        a.variable_type == VariableType::Bool ==> a.field_instantiation().value_tokens == "false"@,
        a.variable_type is IntegerType ==> a.field_instantiation().value_tokens == "0"@,
{
}

/// A method element as the model holds it.
pub enum SpecMethodElement {
    MethodVariable(SpecMethodVariable),
    Verbatim(Seq<char>),
}

/// An element of a method's body: a method variable or verbatim Rust code.
#[derive(Debug)]
pub enum MethodElement {
    MethodVariable(MethodVariable),
    Verbatim(Verbatim),
}

impl DeepView for MethodElement {
    type V = SpecMethodElement;

    open spec fn deep_view(&self) -> SpecMethodElement {
        match self {
            MethodElement::MethodVariable(v) => SpecMethodElement::MethodVariable(v.deep_view()),
            MethodElement::Verbatim(v) => SpecMethodElement::Verbatim(v.deep_view()),
        }
    }
}

impl Clone for MethodElement {
    fn clone(&self) -> (res: Self)
        ensures
            res.deep_view() == self.deep_view(),
    {
        match self {
            MethodElement::MethodVariable(v) => MethodElement::MethodVariable(v.clone()),
            MethodElement::Verbatim(v) => MethodElement::Verbatim(v.clone()),
        }
    }
}

impl MethodElement {
    /// A `verbatim` pair reads as verbatim code; a `method_variable` pair is
    /// not supported; a pair of another rule reads as nothing.
    pub open spec fn spec_parse(pair: Pair) -> Result<Option<SpecMethodElement>, ParseError> {
        if pair.rule == Rule::method_variable {
            Err(ParseError::UnsupportedMethodVariable)
        } else if pair.rule == Rule::verbatim {
            match Verbatim::spec_parse(pair) {
                Ok(Some(v)) => Ok(Some(SpecMethodElement::Verbatim(v))),
                Ok(None) => Ok(None),
                Err(e) => Err(e),
            }
        } else {
            Ok(None)
        }
    }

    /// Reads a method element, or tells why it cannot be read.
    pub fn try_parse(pair: &Pair) -> (res: Result<Option<Self>, ParseError>)
        ensures
            lexed_reading(deep_result(res), Self::spec_parse(*pair), *pair),
            deep_result(res) matches Ok(Some(e)) ==> method_element_lexes(e),
    {
        if pair.rule == Rule::method_variable {
            Err(ParseError::UnsupportedMethodVariable)
        } else if pair.rule == Rule::verbatim {
            match Verbatim::try_parse(pair) {
                Ok(Some(v)) => Ok(Some(MethodElement::Verbatim(v))),
                Ok(None) => Ok(None),
                Err(e) => Err(e),
            }
        } else {
            Ok(None)
        }
    }

    /// Reads a method element that can be read; nothing where the Rust lexer
    /// refuses verbatim code in it.
    pub fn parse(pair: &Pair) -> (res: Option<Self>)
        requires
            Self::spec_parse(*pair) is Ok,
        ensures
            Self::spec_parse(*pair) == Ok::<_, ParseError>(res.deep_view()) || (res is None && holds_verbatim(*pair)),
            res.deep_view() matches Some(e) ==> method_element_lexes(e),
    {
        match Self::try_parse(pair) {
            Ok(res) => res,
            Err(_) => None,
        }
    }
}

/// A method as the model holds it.
pub struct SpecMethod {
    pub method_type: MethodType,
    pub identifier: Seq<char>,
    pub arguments: Seq<SpecArgument>,
    pub elements: Seq<SpecMethodElement>,
}

/// Whether an argument is an `#in` argument.
pub open spec fn is_in_argument(a: SpecArgument) -> bool {
    a.property == ArgumentProperty::In
}

/// Whether an argument is an `#out` argument.
pub open spec fn is_out_argument(a: SpecArgument) -> bool {
    a.property == ArgumentProperty::Out
}

/// Whether a method element, where it is verbatim code, lexes as Rust
/// tokens.
pub open spec fn method_element_lexes(e: SpecMethodElement) -> bool {
    match e {
        SpecMethodElement::Verbatim(v) => lexes_as_tokens(v),
        _ => true,
    }
}

/// Whether each of the method elements that is verbatim code lexes as Rust
/// tokens.
pub open spec fn method_elements_lex(es: Seq<SpecMethodElement>) -> bool {
    forall|i: int| 0 <= i < es.len() ==> method_element_lexes(#[trigger] es[i])
}

/// The verbatim code of a method element, if it is verbatim code.
pub open spec fn method_element_verbatim(e: SpecMethodElement) -> Option<Seq<char>> {
    match e {
        SpecMethodElement::Verbatim(v) => Some(v),
        _ => None,
    }
}

impl SpecMethod {
    /// Whether each piece of verbatim code in the body lexes as Rust tokens.
    pub open spec fn verbatims_lex(self) -> bool {
        method_elements_lex(self.elements)
    }

    /// The `#in` arguments, in order.
    pub open spec fn in_arguments(self) -> Seq<SpecArgument> {
        self.arguments.filter(|a: SpecArgument| is_in_argument(a))
    }

    /// The `#out` arguments, in order.
    pub open spec fn out_arguments(self) -> Seq<SpecArgument> {
        self.arguments.filter(|a: SpecArgument| is_out_argument(a))
    }

    /// The verbatim code of the method's body, in order.
    pub open spec fn verbatims(self) -> Seq<Seq<char>> {
        self.elements.filter_map(|e: SpecMethodElement| method_element_verbatim(e))
    }

    /// The name of the struct that holds the `#out` arguments.
    pub open spec fn out_arguments_type_identifier(self) -> Seq<char> {
        self.identifier + "_OUT_ARGUMENTS_TYPE"@
    }

    /// The fields of the struct that holds the `#out` arguments.
    pub open spec fn out_arguments_field_definitions(self) -> Seq<SpecStructFieldDefinition> {
        self.out_arguments().map_values(|a: SpecArgument| a.field_definition())
    }

    /// The initial values of the fields that hold the `#out` arguments.
    pub open spec fn out_arguments_field_instantiations(self) -> Seq<SpecStructFieldInstantiation> {
        self.out_arguments().map_values(|a: SpecArgument| a.field_instantiation())
    }

    /// The initial value of the struct that holds the `#out` arguments.
    pub open spec fn out_arguments_instantiation(self) -> SpecStructInstantiation {
        SpecStructInstantiation { identifier: self.out_arguments_type_identifier(), fields: self.out_arguments_field_instantiations() }
    }

    /// The struct that holds the `#out` arguments.
    pub open spec fn out_arguments_struct_definition(self) -> SpecStructDefinition {
        SpecStructDefinition { identifier: self.out_arguments_type_identifier(), fields: self.out_arguments_field_definitions() }
    }

    /// The field of the shared struct that holds the `#out` arguments.
    pub open spec fn field_definition(self) -> SpecStructFieldDefinition {
        SpecStructFieldDefinition { identifier: self.identifier, type_tokens: self.out_arguments_type_identifier() }
    }

    /// The initial value of that field.
    pub open spec fn field_instantiation(self) -> SpecStructFieldInstantiation {
        SpecStructFieldInstantiation { identifier: self.identifier, value_tokens: self.out_arguments_instantiation().text() }
    }
}

/// The next default direction: `#out` once an `#out` argument has been read.
pub open spec fn next_default(a: SpecArgument, default_argument_property: ArgumentProperty) -> ArgumentProperty {
    if a.property == ArgumentProperty::Out { ArgumentProperty::Out } else { default_argument_property }
}

/// The arguments read from `pairs` in order, the first with
/// `default_argument_property` as default direction; every argument that
/// follows an `#out` argument has `#out` as default direction.
pub open spec fn arguments_from(pairs: Seq<Pair>, default_argument_property: ArgumentProperty) -> Result<Seq<SpecArgument>, ParseError>
    decreases pairs.len(),
{
    if pairs.len() == 0 {
        Ok(Seq::empty())
    } else {
        match required(Argument::spec_parse(pairs[0], default_argument_property)) {
            Err(e) => Err(e),
            Ok(a) => match arguments_from(pairs.drop_first(), next_default(a, default_argument_property)) {
                Ok(rest) => Ok(seq![a] + rest),
                Err(e) => Err(e),
            },
        }
    }
}

proof fn lemma_arguments_from_skip(pairs: Seq<Pair>, d: ArgumentProperty, i: int)
    requires
        0 <= i < pairs.len(),
    ensures
        arguments_from(pairs.skip(i), d) == match required(Argument::spec_parse(pairs[i], d)) {
            Err(e) => Err(e),
            Ok(a) => prepend(seq![a], arguments_from(pairs.skip(i + 1), next_default(a, d))),
        },
{
    assert(pairs.skip(i)[0] == pairs[i]);
    assert(pairs.skip(i).drop_first() =~= pairs.skip(i + 1));
}

proof fn lemma_prepend_prepend<A>(done: Seq<A>, a: A, r: Result<Seq<A>, ParseError>)
    ensures
        prepend(done, prepend(seq![a], r)) == prepend(done.push(a), r),
{
    if let Ok(rest) = r {
        assert(done + (seq![a] + rest) =~= done.push(a) + rest);
    }
}

/// A method of an XClass: its return type, name, arguments and body elements.
#[derive(Debug)]
pub struct Method {
    method_type: MethodType,
    identifier: String,
    arguments: Vec<Argument>,
    elements: Vec<MethodElement>,
}

impl DeepView for Method {
    type V = SpecMethod;

    closed spec fn deep_view(&self) -> SpecMethod {
        SpecMethod {
            method_type: self.method_type,
            identifier: self.identifier@,
            arguments: self.arguments.deep_view(),
            elements: self.elements.deep_view(),
        }
    }
}

impl Clone for Method {
    fn clone(&self) -> (res: Self)
        ensures
            res.deep_view() == self.deep_view(),
    {
        let mut arguments: Vec<Argument> = Vec::new();
        let mut i: usize = 0;
        while i < self.arguments.len()
            invariant
                i <= self.arguments@.len(),
                arguments.deep_view() =~= self.arguments.deep_view().take(i as int),
            decreases self.arguments@.len() - i,
        {
            let a = self.arguments[i].clone();
            let ghost before = arguments.deep_view();
            arguments.push(a);
            assert(arguments.deep_view() =~= before.push(a.deep_view()));
            i = i + 1;
        }
        let mut elements: Vec<MethodElement> = Vec::new();
        let mut j: usize = 0;
        while j < self.elements.len()
            invariant
                j <= self.elements@.len(),
                elements.deep_view() =~= self.elements.deep_view().take(j as int),
            decreases self.elements@.len() - j,
        {
            let e = self.elements[j].clone();
            let ghost before = elements.deep_view();
            elements.push(e);
            assert(elements.deep_view() =~= before.push(e.deep_view()));
            j = j + 1;
        }
        proof {
            lemma_take_all(self.arguments.deep_view());
            lemma_take_all(self.elements.deep_view());
        }
        Method { method_type: self.method_type, identifier: self.identifier.clone(), arguments, elements }
    }
}

impl Method {
    /// An `arg_list` pair reads as the arguments of its inner pairs, each of
    /// which must be an argument.
    pub open spec fn spec_parse_arguments(pair: Pair) -> Result<Option<Seq<SpecArgument>>, ParseError> {
        if pair.rule != Rule::arg_list {
            Ok(None)
        } else {
            match arguments_from(pair.inner@, ArgumentProperty::In) {
                Ok(args) => Ok(Some(args)),
                Err(e) => Err(e),
            }
        }
    }

    /// Reads an `arg_list` pair, or tells why it cannot be read.
    pub fn try_parse_arguments(pair: &Pair) -> (res: Result<Option<Vec<Argument>>, ParseError>)
        ensures
            deep_result(res) == Self::spec_parse_arguments(*pair),
    {
        if pair.rule != Rule::arg_list {
            return Ok(None);
        }
        let mut current_default_argument_property = ArgumentProperty::In;
        let mut out: Vec<Argument> = Vec::new();
        let mut i: usize = 0;
        proof {
            assert(pair.inner@.skip(0) =~= pair.inner@);
            if let Ok(v) = arguments_from(pair.inner@, ArgumentProperty::In) {
                assert(Seq::<SpecArgument>::empty() + v =~= v);
            }
        }
        while i < pair.inner.len()
            invariant
                pair.rule == Rule::arg_list,
                i <= pair.inner@.len(),
                arguments_from(pair.inner@, ArgumentProperty::In)
                    == prepend(out.deep_view(), arguments_from(pair.inner@.skip(i as int), current_default_argument_property)),
            decreases pair.inner@.len() - i,
        {
            proof { lemma_arguments_from_skip(pair.inner@, current_default_argument_property, i as int); }
            match Argument::try_parse(&pair.inner[i], current_default_argument_property) {
                Ok(Some(argument)) => {
                    proof {
                        lemma_prepend_prepend(out.deep_view(), argument.deep_view(),
                            arguments_from(pair.inner@.skip(i + 1), next_default(argument.deep_view(), current_default_argument_property)));
                    }
                    if argument.property.is_out() {
                        current_default_argument_property = ArgumentProperty::Out;
                    }
                    let ghost before = out.deep_view();
                    let ghost a = argument.deep_view();
                    out.push(argument);
                    assert(out.deep_view() =~= before.push(a));
                },
                Ok(None) => return Err(ParseError::Unexpected),
                Err(e) => return Err(e),
            }
            i = i + 1;
        }
        proof {
            assert(pair.inner@.skip(i as int) =~= Seq::<Pair>::empty());
            assert(out.deep_view() + Seq::<SpecArgument>::empty() =~= out.deep_view());
        }
        Ok(Some(out))
    }

    /// Reads an `arg_list` pair that can be read.
    pub fn parse_arguments(pair: &Pair) -> (res: Option<Vec<Argument>>)
        requires
            Self::spec_parse_arguments(*pair) is Ok,
        ensures
            Self::spec_parse_arguments(*pair) == Ok::<_, ParseError>(res.deep_view()),
    {
        match Self::try_parse_arguments(pair) {
            Ok(res) => res,
            Err(_) => None,
        }
    }

    /// The readings of the inner pairs of a `method_elements` pair.
    pub open spec fn element_readings(pair: Pair) -> Seq<Result<SpecMethodElement, ParseError>> {
        pair.inner@.map_values(|p: Pair| required(MethodElement::spec_parse(p)))
    }

    /// A `method_elements` pair reads as the method elements of its inner
    /// pairs, each of which must be a method element.
    pub open spec fn spec_parse_elements(pair: Pair) -> Result<Option<Seq<SpecMethodElement>>, ParseError> {
        if pair.rule != Rule::method_elements {
            Ok(None)
        } else {
            match collect(Self::element_readings(pair)) {
                Ok(es) => Ok(Some(es)),
                Err(e) => Err(e),
            }
        }
    }

    /// Reads a `method_elements` pair, or tells why it cannot be read.
    pub fn try_parse_elements(pair: &Pair) -> (res: Result<Option<Vec<MethodElement>>, ParseError>)
        ensures
            lexed_reading(deep_result(res), Self::spec_parse_elements(*pair), *pair),
            deep_result(res) matches Ok(Some(es)) ==> method_elements_lex(es),
    {
        if pair.rule != Rule::method_elements {
            return Ok(None);
        }
        let ghost readings = Self::element_readings(*pair);
        proof { lemma_collect_start(readings); }
        let mut out: Vec<MethodElement> = Vec::new();
        let mut i: usize = 0;
        while i < pair.inner.len()
            invariant
                pair.rule == Rule::method_elements,
                i <= pair.inner@.len(),
                readings == Self::element_readings(*pair),
                collect(readings) == prepend(out.deep_view(), collect(readings.skip(i as int))),
                method_elements_lex(out.deep_view()),
            decreases pair.inner@.len() - i,
        {
            assert(readings[i as int] == required(MethodElement::spec_parse(pair.inner@[i as int])));
            match MethodElement::try_parse(&pair.inner[i]) {
                Ok(Some(e)) => {
                    proof { lemma_collect_step(out.deep_view(), readings, i as int); }
                    let ghost before = out.deep_view();
                    let ghost ev = e.deep_view();
                    out.push(e);
                    assert(out.deep_view() =~= before.push(ev));
                },
                Ok(None) => {
                    proof { lemma_collect_error(out.deep_view(), readings, i as int); }
                    return Err(ParseError::Unexpected);
                },
                Err(err) => {
                    proof {
                        lemma_inner_verbatim(*pair, i as int);
                        if readings[i as int] is Err {
                            lemma_collect_error(out.deep_view(), readings, i as int);
                        }
                    }
                    return Err(err);
                },
            }
            i = i + 1;
        }
        proof { lemma_collect_end(out.deep_view(), readings); }
        Ok(Some(out))
    }

    /// Reads a `method_elements` pair that can be read; nothing where the Rust lexer
    /// refuses verbatim code in it.
    pub fn parse_elements(pair: &Pair) -> (res: Option<Vec<MethodElement>>)
        requires
            Self::spec_parse_elements(*pair) is Ok,
        ensures
            Self::spec_parse_elements(*pair) == Ok::<_, ParseError>(res.deep_view()) || (res is None && holds_verbatim(*pair)),
            res.deep_view() matches Some(es) ==> method_elements_lex(es),
    {
        match Self::try_parse_elements(pair) {
            Ok(res) => res,
            Err(_) => None,
        }
    }

    /// A `method` pair reads as a method: a return type (`method_type`), a
    /// name, the arguments (`arg_list`) and the body elements
    /// (`method_elements`), in this order.
    pub open spec fn spec_parse(pair: Pair) -> Result<Option<SpecMethod>, ParseError> {
        let inner = pair.inner@;
        if pair.rule != Rule::method {
            Ok(None)
        } else if inner.len() == 0 {
            Err(ParseError::MissingPair)
        } else {
            match MethodType::spec_parse(inner[0]) {
                None => Err(ParseError::Unexpected),
                Some(method_type) => if inner.len() < 2 {
                    Err(ParseError::MissingPair)
                } else if inner.len() < 3 {
                    Err(ParseError::MissingPair)
                } else {
                    match required(Self::spec_parse_arguments(inner[2])) {
                        Err(e) => Err(e),
                        Ok(arguments) => if inner.len() < 4 {
                            Err(ParseError::MissingPair)
                        } else {
                            match required(Self::spec_parse_elements(inner[3])) {
                                Err(e) => Err(e),
                                Ok(elements) => Ok(Some(SpecMethod { method_type, identifier: inner[1].text@, arguments, elements })),
                            }
                        },
                    }
                },
            }
        }
    }

    /// Reads a `method` pair, or tells why it cannot be read.
    pub fn try_parse(pair: &Pair) -> (res: Result<Option<Self>, ParseError>)
        ensures
            lexed_reading(deep_result(res), Self::spec_parse(*pair), *pair),
            deep_result(res) matches Ok(Some(m)) ==> m.verbatims_lex(),
    {
        if pair.rule != Rule::method {
            return Ok(None);
        }
        let n: usize = pair.inner.len();
        if n == 0 {
            return Err(ParseError::MissingPair);
        }
        let method_type = match MethodType::parse(&pair.inner[0]) {
            Some(t) => t,
            None => return Err(ParseError::Unexpected),
        };
        if n < 3 {
            return Err(ParseError::MissingPair);
        }
        let identifier = pair.inner[1].text.clone();
        let arguments = match Self::try_parse_arguments(&pair.inner[2]) {
            Ok(Some(a)) => a,
            Ok(None) => return Err(ParseError::Unexpected),
            Err(e) => return Err(e),
        };
        if n < 4 {
            return Err(ParseError::MissingPair);
        }
        let elements = match Self::try_parse_elements(&pair.inner[3]) {
            Ok(Some(e)) => e,
            Ok(None) => return Err(ParseError::Unexpected),
            Err(e) => {
                proof { lemma_inner_verbatim(*pair, 3); }
                return Err(e);
            },
        };
        Ok(Some(Method { method_type, identifier, arguments, elements }))
    }

    /// Reads a `method` pair that can be read; nothing where the Rust lexer
    /// refuses verbatim code in it.
    pub fn parse(pair: &Pair) -> (res: Option<Self>)
        requires
            Self::spec_parse(*pair) is Ok,
        ensures
            Self::spec_parse(*pair) == Ok::<_, ParseError>(res.deep_view()) || (res is None && holds_verbatim(*pair)),
            res.deep_view() matches Some(m) ==> m.verbatims_lex(),
    {
        match Self::try_parse(pair) {
            Ok(res) => res,
            Err(_) => None,
        }
    }

    pub fn identifier(&self) -> (res: &String)
        ensures
            res@ == self.deep_view().identifier,
    {
        &self.identifier
    }

    pub fn method_type(&self) -> (res: MethodType)
        ensures
            res == self.deep_view().method_type,
    {
        self.method_type
    }

    pub fn arguments(&self) -> (res: &Vec<Argument>)
        ensures
            res.deep_view() == self.deep_view().arguments,
    {
        &self.arguments
    }

    pub fn elements(&self) -> (res: &Vec<MethodElement>)
        ensures
            res.deep_view() == self.deep_view().elements,
    {
        &self.elements
    }

    /// The `#in` arguments, in order.
    pub fn in_arguments(&self) -> (res: Vec<&Argument>)
        ensures
            res.deep_view() == self.deep_view().in_arguments(),
    {
        let ghost all = self.arguments.deep_view();
        let ghost pred = |a: SpecArgument| is_in_argument(a);
        let mut res: Vec<&Argument> = Vec::new();
        let mut i: usize = 0;
        while i < self.arguments.len()
            invariant
                i <= self.arguments@.len(),
                all == self.arguments.deep_view(),
                pred == (|a: SpecArgument| is_in_argument(a)),
                res.deep_view() == all.take(i as int).filter(pred),
            decreases self.arguments@.len() - i,
        {
            proof { lemma_filter_take_step(all, pred, i as int); }
            let a = &self.arguments[i];
            if a.property.is_in() {
                let ghost before = res.deep_view();
                res.push(a);
                assert(res.deep_view() =~= before.push(a.deep_view()));
            }
            i = i + 1;
        }
        proof { lemma_take_all(all); }
        res
    }

    /// Whether the method has an `#in` argument.
    pub fn has_in_arguments(&self) -> (res: bool)
        ensures
            res == (self.deep_view().in_arguments().len() > 0),
    {
        self.in_arguments().len() > 0
    }

    /// The `#out` arguments, in order.
    pub fn out_arguments(&self) -> (res: Vec<&Argument>)
        ensures
            res.deep_view() == self.deep_view().out_arguments(),
    {
        let ghost all = self.arguments.deep_view();
        let ghost pred = |a: SpecArgument| is_out_argument(a);
        let mut res: Vec<&Argument> = Vec::new();
        let mut i: usize = 0;
        while i < self.arguments.len()
            invariant
                i <= self.arguments@.len(),
                all == self.arguments.deep_view(),
                pred == (|a: SpecArgument| is_out_argument(a)),
                res.deep_view() == all.take(i as int).filter(pred),
            decreases self.arguments@.len() - i,
        {
            proof { lemma_filter_take_step(all, pred, i as int); }
            let a = &self.arguments[i];
            if a.property.is_out() {
                let ghost before = res.deep_view();
                res.push(a);
                assert(res.deep_view() =~= before.push(a.deep_view()));
            }
            i = i + 1;
        }
        proof { lemma_take_all(all); }
        res
    }

    /// Whether the method has an `#out` argument.
    pub fn has_out_arguments(&self) -> (res: bool)
        ensures
            res == (self.deep_view().out_arguments().len() > 0),
    {
        self.out_arguments().len() > 0
    }

    /// The verbatim code of the method's body, in order.
    pub fn verbatims(&self) -> (res: Vec<&Verbatim>)
        ensures
            res.deep_view() == self.deep_view().verbatims(),
    {
        let ghost all = self.elements.deep_view();
        let ghost f = |e: SpecMethodElement| method_element_verbatim(e);
        let mut res: Vec<&Verbatim> = Vec::new();
        let mut i: usize = 0;
        while i < self.elements.len()
            invariant
                i <= self.elements@.len(),
                all == self.elements.deep_view(),
                f == (|e: SpecMethodElement| method_element_verbatim(e)),
                res.deep_view() == all.take(i as int).filter_map(f),
            decreases self.elements@.len() - i,
        {
            proof { lemma_filter_map_take_step(all, f, i as int); }
            if let MethodElement::Verbatim(v) = &self.elements[i] {
                let ghost before = res.deep_view();
                res.push(v);
                assert(res.deep_view() =~= before.push(v.deep_view()));
            }
            i = i + 1;
        }
        proof { lemma_take_all(all); }
        res
    }
}

/// A method with `#out` arguments gets a struct that holds them.
impl StructDefiner for Method {
    open spec fn struct_identifier_text(&self) -> Seq<char> {
        self.deep_view().out_arguments_type_identifier()
    }

    open spec fn struct_fields_view(&self) -> Seq<SpecStructFieldDefinition> {
        self.deep_view().out_arguments_field_definitions()
    }

    fn identifier(&self) -> String {
        self.identifier.clone().concat("_OUT_ARGUMENTS_TYPE")
    }

    fn fields(&self) -> Vec<StructFieldDefinition> {
        let out_arguments = self.out_arguments();
        let ghost wanted = self.deep_view().out_arguments_field_definitions();
        let mut res: Vec<StructFieldDefinition> = Vec::new();
        let mut i: usize = 0;
        while i < out_arguments.len()
            invariant
                i <= out_arguments@.len(),
                out_arguments.deep_view() == self.deep_view().out_arguments(),
                wanted == self.deep_view().out_arguments_field_definitions(),
                res.deep_view() =~= wanted.take(i as int),
            decreases out_arguments@.len() - i,
        {
            let field = StructFieldDefiner::to_struct_field_definition(out_arguments[i]);
            let ghost before = res.deep_view();
            res.push(field);
            assert(res.deep_view() =~= before.push(field.deep_view()));
            i = i + 1;
        }
        proof { lemma_take_all(wanted); }
        res
    }
}

/// The struct that holds the `#out` arguments starts with each at the
/// default value of its type.
impl StructInstantiator for Method {
    open spec fn instantiation_identifier_text(&self) -> Seq<char> {
        self.deep_view().out_arguments_type_identifier()
    }

    open spec fn instantiation_fields_view(&self) -> Seq<SpecStructFieldInstantiation> {
        self.deep_view().out_arguments_field_instantiations()
    }

    fn identifier(&self) -> String {
        let definition = StructDefiner::to_struct_definition(self);
        definition.identifier().clone()
    }

    fn fields(&self) -> Vec<StructFieldInstantiation> {
        let out_arguments = self.out_arguments();
        let ghost wanted = self.deep_view().out_arguments_field_instantiations();
        let mut res: Vec<StructFieldInstantiation> = Vec::new();
        let mut i: usize = 0;
        while i < out_arguments.len()
            invariant
                i <= out_arguments@.len(),
                out_arguments.deep_view() == self.deep_view().out_arguments(),
                wanted == self.deep_view().out_arguments_field_instantiations(),
                res.deep_view() =~= wanted.take(i as int),
            decreases out_arguments@.len() - i,
        {
            let field = StructFieldInstantiator::to_struct_field_instantiation(out_arguments[i]);
            let ghost before = res.deep_view();
            res.push(field);
            assert(res.deep_view() =~= before.push(field.deep_view()));
            i = i + 1;
        }
        proof { lemma_take_all(wanted); }
        res
    }
}

/// The shared struct holds a method's `#out` arguments in a field named after
/// the method.
impl StructFieldDefiner for Method {
    open spec fn field_identifier_text(&self) -> Seq<char> {
        self.deep_view().field_definition().identifier
    }

    open spec fn field_type_text(&self) -> Seq<char> {
        self.deep_view().field_definition().type_tokens
    }

    fn identifier(&self) -> String {
        self.identifier.clone()
    }

    fn type_tokens(&self) -> String {
        StructDefiner::identifier(self)
    }
}

/// That field starts as the initial value of the `#out` arguments struct.
impl StructFieldInstantiator for Method {
    open spec fn field_instantiation_identifier_text(&self) -> Seq<char> {
        self.deep_view().field_instantiation().identifier
    }

    open spec fn field_value_text(&self) -> Seq<char> {
        self.deep_view().field_instantiation().value_tokens
    }

    fn identifier(&self) -> String {
        self.identifier.clone()
    }

    fn value_tokens(&self) -> String {
        StructInstantiator::to_struct_instantiation(self).to_tokens()
    }
}

/// Whether no `#out` argument is followed by an `#in` argument.
pub open spec fn ins_before_outs(arguments: Seq<SpecArgument>) -> bool {
    forall|i: int, j: int|
        #![trigger arguments[i], arguments[j]]
        0 <= i < j < arguments.len() && is_out_argument(arguments[i]) ==> is_out_argument(arguments[j])
}

/// Whether no `#out` argument has an initial value.
pub open spec fn outs_without_initial_value(arguments: Seq<SpecArgument>) -> bool {
    forall|i: int| 0 <= i < arguments.len() && is_out_argument(#[trigger] arguments[i]) ==> arguments[i].maybe_initial_value is None
}

/// The `#in` and the `#out` arguments of a method are, together, its
/// arguments: each argument is in exactly one of the two.
pub proof fn lemma_arguments_partition(method: SpecMethod)
    ensures
        method.arguments.to_multiset() =~= method.in_arguments().to_multiset().add(method.out_arguments().to_multiset()),
        method.in_arguments().len() + method.out_arguments().len() == method.arguments.len(),
        forall|i: int| 0 <= i < method.in_arguments().len() ==> is_in_argument(#[trigger] method.in_arguments()[i]),
        forall|i: int| 0 <= i < method.out_arguments().len() ==> is_out_argument(#[trigger] method.out_arguments()[i]),
{
    let p = |a: SpecArgument| is_in_argument(a);
    let q = |a: SpecArgument| is_out_argument(a);
    assert forall|a: SpecArgument| #[trigger] q(a) == !p(a) by {}
    lemma_filter_split(method.arguments, p, q);
    lemma_filter_all(method.arguments, p);
    lemma_filter_all(method.arguments, q);
}

proof fn lemma_arguments_from_shape(pairs: Seq<Pair>, d: ArgumentProperty)
    requires
        arguments_from(pairs, d) is Ok,
    ensures
        ins_before_outs(arguments_from(pairs, d)->Ok_0),
        outs_without_initial_value(arguments_from(pairs, d)->Ok_0),
        d == ArgumentProperty::Out ==> forall|i: int|
            0 <= i < arguments_from(pairs, d)->Ok_0.len() ==> is_out_argument(#[trigger] arguments_from(pairs, d)->Ok_0[i]),
    decreases pairs.len(),
{
    if pairs.len() > 0 {
        let a = required(Argument::spec_parse(pairs[0], d))->Ok_0;
        let d2 = next_default(a, d);
        lemma_arguments_from_shape(pairs.drop_first(), d2);
        let rest = arguments_from(pairs.drop_first(), d2)->Ok_0;
        let all = arguments_from(pairs, d)->Ok_0;
        assert(all == seq![a] + rest);
        assert(d == ArgumentProperty::Out ==> is_out_argument(a));
        assert(is_out_argument(a) ==> a.maybe_initial_value is None);
        assert forall|i: int, j: int|
            #![trigger all[i], all[j]]
            0 <= i < j < all.len() && is_out_argument(all[i]) implies is_out_argument(all[j]) by {
            assert(all[j] == rest[j - 1]);
            if i > 0 {
                assert(all[i] == rest[i - 1]);
            }
        }
        assert forall|i: int| 0 <= i < all.len() && is_out_argument(#[trigger] all[i]) implies all[i].maybe_initial_value is None by {
            if i > 0 {
                assert(all[i] == rest[i - 1]);
            }
        }
        if d == ArgumentProperty::Out {
            assert forall|i: int| 0 <= i < all.len() implies is_out_argument(#[trigger] all[i]) by {
                if i > 0 {
                    assert(all[i] == rest[i - 1]);
                }
            }
        }
    } else {
        assert(arguments_from(pairs, d)->Ok_0 =~= Seq::<SpecArgument>::empty());
    }
}

proof fn lemma_no_outs(arguments: Seq<SpecArgument>)
    requires
        forall|i: int| 0 <= i < arguments.len() ==> !is_out_argument(#[trigger] arguments[i]),
    ensures
        arguments.filter(|a: SpecArgument| is_out_argument(a)) =~= Seq::<SpecArgument>::empty(),
    decreases arguments.len(),
{
    let q = |a: SpecArgument| is_out_argument(a);
    if arguments.len() == 0 {
        reveal(Seq::filter);
    } else {
        let t = arguments.drop_last();
        assert(arguments =~= t.push(arguments.last()));
        assert forall|i: int| 0 <= i < t.len() implies !is_out_argument(#[trigger] t[i]) by {
            assert(t[i] == arguments[i]);
        }
        lemma_no_outs(t);
        t.lemma_filter_push(arguments.last(), q);
    }
}

#[verifier::spinoff_prover]
proof fn lemma_ordered_split(arguments: Seq<SpecArgument>)
    requires
        ins_before_outs(arguments),
    ensures
        arguments == arguments.filter(|a: SpecArgument| is_in_argument(a)) + arguments.filter(|a: SpecArgument| is_out_argument(a)),
    decreases arguments.len(),
{
    let p = |a: SpecArgument| is_in_argument(a);
    let q = |a: SpecArgument| is_out_argument(a);
    if arguments.len() == 0 {
        assert(arguments.filter(p) =~= Seq::<SpecArgument>::empty()) by { reveal(Seq::filter); }
        assert(arguments.filter(q) =~= Seq::<SpecArgument>::empty()) by { reveal(Seq::filter); }
        assert(arguments =~= arguments.filter(p) + arguments.filter(q));
    } else {
        let t = arguments.drop_last();
        let a = arguments.last();
        assert(arguments =~= t.push(a));
        assert(ins_before_outs(t)) by {
            assert forall|i: int, j: int|
                #![trigger t[i], t[j]]
                0 <= i < j < t.len() && is_out_argument(t[i]) implies is_out_argument(t[j]) by {
                assert(t[i] == arguments[i] && t[j] == arguments[j]);
            }
        }
        lemma_ordered_split(t);
        t.lemma_filter_push(a, p);
        t.lemma_filter_push(a, q);
        if is_in_argument(a) {
            assert forall|i: int| 0 <= i < t.len() implies !is_out_argument(#[trigger] t[i]) by {
                assert(t[i] == arguments[i]);
                assert(arguments[arguments.len() - 1] == a);
            }
            lemma_no_outs(t);
        }
        assert(arguments =~= arguments.filter(p) + arguments.filter(q));
    }
}

/// The arguments of a method read from the description: once an argument is
/// `#out`, every later one is `#out` too (an argument without a direction
/// takes that of the argument before it, starting with `#in`); no `#out`
/// argument has an initial value; so the arguments are the `#in` arguments
/// followed by the `#out` arguments.
pub proof fn lemma_parsed_arguments_in_then_out(pair: Pair)
    requires
        Method::spec_parse(pair) matches Ok(Some(_)),
    ensures
        ins_before_outs(Method::spec_parse(pair)->Ok_0->Some_0.arguments),
        outs_without_initial_value(Method::spec_parse(pair)->Ok_0->Some_0.arguments),
        Method::spec_parse(pair)->Ok_0->Some_0.arguments
            == Method::spec_parse(pair)->Ok_0->Some_0.in_arguments() + Method::spec_parse(pair)->Ok_0->Some_0.out_arguments(),
{
    let method = Method::spec_parse(pair)->Ok_0->Some_0;
    let arg_list = pair.inner@[2];
    assert(Method::spec_parse_arguments(arg_list) == Ok::<_, ParseError>(Some(method.arguments)));
    lemma_arguments_from_shape(arg_list.inner@, ArgumentProperty::In);
    lemma_ordered_split(method.arguments);
}

} // verus!
