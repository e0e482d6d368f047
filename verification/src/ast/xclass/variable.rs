//! Variables of an XClass.

use vstd::prelude::*;

use crate::ast::xclass::VariableType;
use crate::codegen::rust::definition::{SpecStructFieldDefinition, StructFieldDefiner};
use crate::codegen::rust::instantiation::{SpecStructFieldInstantiation, StructFieldInstantiator};
use crate::pair::{
    collect, deep_result, lemma_collect_end, lemma_collect_error, lemma_collect_start,
    lemma_collect_step, prepend, present, ParseError, Pair, Rule,
};
use crate::text::text_is;

verus! {

/// A property of a variable: `#shared`, `#get` or `#set`.
#[derive(Debug, Clone, Copy, PartialEq, Eq, Structural)]
pub enum VariableProperty {
    Shared,
    Get,
    Setter,
}

impl DeepView for VariableProperty {
    type V = VariableProperty;

    open spec fn deep_view(&self) -> VariableProperty {
        *self
    }
}

impl VariableProperty {
    /// A `variable_property` pair reads as the property its text names.
    pub open spec fn spec_parse(pair: Pair) -> Option<VariableProperty> {
        if pair.rule != Rule::variable_property {
            None
        } else if pair.text@ == "#shared"@ {
            Some(VariableProperty::Shared)
        } else if pair.text@ == "#get"@ {
            Some(VariableProperty::Get)
        } else if pair.text@ == "#set"@ {
            Some(VariableProperty::Setter)
        } else {
            None
        }
    }

    /// Reads a `variable_property` pair.
    pub fn parse(pair: &Pair) -> (res: Option<Self>)
        ensures
            res == Self::spec_parse(*pair),
    {
        if pair.rule != Rule::variable_property {
            None
        } else if text_is(&pair.text, "#shared") {
            Some(VariableProperty::Shared)
        } else if text_is(&pair.text, "#get") {
            Some(VariableProperty::Get)
        } else if text_is(&pair.text, "#set") {
            Some(VariableProperty::Setter)
        } else {
            None
        }
    }

    pub fn is_shared(&self) -> (res: bool)
        ensures
            res == (*self == VariableProperty::Shared),
    {
        matches!(self, VariableProperty::Shared)
    }

    pub fn is_get(&self) -> (res: bool)
        ensures
            res == (*self == VariableProperty::Get),
    {
        matches!(self, VariableProperty::Get)
    }

    pub fn is_set(&self) -> (res: bool)
        ensures
            res == (*self == VariableProperty::Setter),
    {
        matches!(self, VariableProperty::Setter)
    }

    /// The text that stands for an accessor property inside generated
    /// identifiers.
    pub open spec fn fragment_text(self) -> Seq<char> {
        match self {
            VariableProperty::Get => "GET"@,
            _ => "SET"@,
        }
    }

    /// The text that stands for an accessor property inside generated
    /// identifiers: `GET` or `SET`. `#shared` has none.
    pub fn fragment(&self) -> (res: String)
        requires
            *self != VariableProperty::Shared,
        ensures
            res@ == self.fragment_text(),
    {
        match self {
            VariableProperty::Get => "GET".to_owned(),
            _ => "SET".to_owned(),
        }
    }
}

/// A variable as the model holds it.
pub struct SpecVariable {
    pub variable_type: VariableType,
    pub identifier: Seq<char>,
    pub maybe_initial_value: Option<Seq<char>>,
    pub maybe_properties: Option<Seq<VariableProperty>>,
}

impl SpecVariable {
    pub open spec fn has_property(self, property: VariableProperty) -> bool {
        match self.maybe_properties {
            Some(properties) => properties.contains(property),
            None => false,
        }
    }

    pub open spec fn is_shared(self) -> bool {
        self.has_property(VariableProperty::Shared)
    }

    pub open spec fn is_get(self) -> bool {
        self.has_property(VariableProperty::Get)
    }

    pub open spec fn is_set(self) -> bool {
        self.has_property(VariableProperty::Setter)
    }

    /// The struct field that holds this variable.
    pub open spec fn field_definition(self) -> SpecStructFieldDefinition {
        SpecStructFieldDefinition { identifier: self.identifier, type_tokens: self.variable_type.tokens_text() }
    }

    /// The text of the value that this variable starts with: its initial
    /// value where the description gives one, else the default value of its
    /// type.
    pub open spec fn start_value_text(self) -> Seq<char> {
        match self.maybe_initial_value {
            Some(v) => v,
            None => self.variable_type.default_value_text(),
        }
    }

    /// The field value that this variable starts with.
    pub open spec fn field_instantiation(self) -> SpecStructFieldInstantiation {
        SpecStructFieldInstantiation { identifier: self.identifier, value_tokens: self.start_value_text() }
    }
}

/// A variable's field starts at the variable's initial value where the
/// description gives one, and otherwise at the zero value of its type:
/// `false` for `bool`, `0` for an integer type.
pub proof fn lemma_variable_field_start(v: SpecVariable)
    ensures
        v.field_instantiation().identifier == v.identifier,
        v.maybe_initial_value matches Some(value) ==> v.field_instantiation().value_tokens == value,
        v.maybe_initial_value is None && v.variable_type == VariableType::Bool
            ==> v.field_instantiation().value_tokens == "false"@,
        v.maybe_initial_value is None && v.variable_type is IntegerType
            ==> v.field_instantiation().value_tokens == "0"@,
{
}

/// A variable of an XClass: its type, its name, the text of its initial
/// value and its properties, each where the description gives them.
#[derive(Debug)]
pub struct Variable {
    pub variable_type: VariableType,
    pub identifier: String,
    pub maybe_initial_value: Option<String>,
    pub maybe_properties: Option<Vec<VariableProperty>>,
}

impl DeepView for Variable {
    type V = SpecVariable;

    open spec fn deep_view(&self) -> SpecVariable {
        SpecVariable {
            variable_type: self.variable_type,
            identifier: self.identifier@,
            maybe_initial_value: self.maybe_initial_value.deep_view(),
            maybe_properties: self.maybe_properties.deep_view(),
        }
    }
}

impl Clone for Variable {
    fn clone(&self) -> (res: Self)
        ensures
            res.deep_view() == self.deep_view(),
    {
        let maybe_initial_value = match &self.maybe_initial_value {
            Some(v) => Some(v.clone()),
            None => None,
        };
        let maybe_properties = match &self.maybe_properties {
            Some(ps) => {
                let c = ps.clone();
                assert(c.deep_view() =~= ps.deep_view());
                Some(c)
            },
            None => None,
        };
        Variable {
            variable_type: self.variable_type,
            identifier: self.identifier.clone(),
            maybe_initial_value,
            maybe_properties,
        }
    }
}

impl Variable {
    /// The readings of the inner pairs of a `variable_properties` pair.
    pub open spec fn property_readings(pair: Pair) -> Seq<Result<VariableProperty, ParseError>> {
        pair.inner@.map_values(|p: Pair| present(VariableProperty::spec_parse(p)))
    }

    /// A `variable_properties` pair reads as the properties of its inner
    /// pairs, each of which must be a property.
    pub open spec fn spec_parse_properties(pair: Pair) -> Result<Option<Seq<VariableProperty>>, ParseError> {
        if pair.rule != Rule::variable_properties {
            Ok(None)
        } else {
            match collect(Self::property_readings(pair)) {
                Ok(ps) => Ok(Some(ps)),
                Err(e) => Err(e),
            }
        }
    }

    /// Reads a `variable_properties` pair, or tells why it cannot be read.
    pub fn try_parse_properties(pair: &Pair) -> (res: Result<Option<Vec<VariableProperty>>, ParseError>)
        ensures
            deep_result(res) == Self::spec_parse_properties(*pair),
    {
        if pair.rule != Rule::variable_properties {
            return Ok(None);
        }
        let ghost readings = Self::property_readings(*pair);
        proof { lemma_collect_start(readings); }
        let mut out: Vec<VariableProperty> = Vec::new();
        let mut i: usize = 0;
        while i < pair.inner.len()
            invariant
                pair.rule == Rule::variable_properties,
                i <= pair.inner@.len(),
                readings == Self::property_readings(*pair),
                collect(readings) == prepend(out.deep_view(), collect(readings.skip(i as int))),
            decreases pair.inner@.len() - i,
        {
            assert(readings[i as int] == present(VariableProperty::spec_parse(pair.inner@[i as int])));
            match VariableProperty::parse(&pair.inner[i]) {
                Some(p) => {
                    proof { lemma_collect_step(out.deep_view(), readings, i as int); }
                    let ghost before = out.deep_view();
                    out.push(p);
                    assert(out.deep_view() =~= before.push(p));
                },
                None => {
                    proof { lemma_collect_error(out.deep_view(), readings, i as int); }
                    return Err(ParseError::Unexpected);
                },
            }
            i = i + 1;
        }
        proof { lemma_collect_end(out.deep_view(), readings); }
        Ok(Some(out))
    }

    /// Reads a `variable_properties` pair that can be read.
    pub fn parse_properties(pair: &Pair) -> (res: Option<Vec<VariableProperty>>)
        requires
            Self::spec_parse_properties(*pair) is Ok,
        ensures
            Self::spec_parse_properties(*pair) == Ok::<_, ParseError>(res.deep_view()),
    {
        match Self::try_parse_properties(pair) {
            Ok(res) => res,
            Err(_) => None,
        }
    }

    /// A `variable` pair reads as a variable: a type, a name, then either an
    /// initial value (`init_value`) that properties may follow, or the
    /// properties alone.
    pub open spec fn spec_parse(pair: Pair) -> Result<Option<SpecVariable>, ParseError> {
        let inner = pair.inner@;
        if pair.rule != Rule::variable {
            Ok(None)
        } else if inner.len() == 0 {
            Err(ParseError::MissingPair)
        } else {
            match VariableType::spec_parse(inner[0]) {
                None => Err(ParseError::Unexpected),
                Some(variable_type) => if inner.len() < 2 {
                    Err(ParseError::MissingPair)
                } else {
                    let identifier = inner[1].text@;
                    if inner.len() < 3 {
                        Ok(Some(SpecVariable { variable_type, identifier, maybe_initial_value: None, maybe_properties: None }))
                    } else if inner[2].rule == Rule::init_value {
                        let maybe_initial_value = Some(inner[2].text@);
                        if inner.len() < 4 {
                            Ok(Some(SpecVariable { variable_type, identifier, maybe_initial_value, maybe_properties: None }))
                        } else {
                            match Self::spec_parse_properties(inner[3]) {
                                Ok(Some(ps)) => Ok(Some(SpecVariable { variable_type, identifier, maybe_initial_value, maybe_properties: Some(ps) })),
                                Ok(None) => Err(ParseError::Unexpected),
                                Err(e) => Err(e),
                            }
                        }
                    } else if inner[2].rule == Rule::variable_properties {
                        match Self::spec_parse_properties(inner[2]) {
                            Ok(Some(ps)) => Ok(Some(SpecVariable { variable_type, identifier, maybe_initial_value: None, maybe_properties: Some(ps) })),
                            Ok(None) => Err(ParseError::Unexpected),
                            Err(e) => Err(e),
                        }
                    } else {
                        Err(ParseError::Unexpected)
                    }
                },
            }
        }
    }

    /// Reads a `variable` pair, or tells why it cannot be read.
    pub fn try_parse(pair: &Pair) -> (res: Result<Option<Self>, ParseError>)
        ensures
            deep_result(res) == Self::spec_parse(*pair),
    {
        if pair.rule != Rule::variable {
            return Ok(None);
        }
        if pair.inner.len() == 0 {
            return Err(ParseError::MissingPair);
        }
        let variable_type = match VariableType::parse(&pair.inner[0]) {
            Some(t) => t,
            None => return Err(ParseError::Unexpected),
        };
        if pair.inner.len() < 2 {
            return Err(ParseError::MissingPair);
        }
        let identifier = pair.inner[1].text.clone();
        let mut variable = Variable {
            variable_type,
            identifier,
            maybe_initial_value: None,
            maybe_properties: None,
        };
        if pair.inner.len() >= 3 {
            let third = &pair.inner[2];
            if third.rule == Rule::init_value {
                variable.maybe_initial_value = Some(third.text.clone());
                if pair.inner.len() >= 4 {
                    match Self::try_parse_properties(&pair.inner[3]) {
                        Ok(Some(ps)) => { variable.maybe_properties = Some(ps); },
                        Ok(None) => return Err(ParseError::Unexpected),
                        Err(e) => return Err(e),
                    }
                }
            } else if third.rule == Rule::variable_properties {
                match Self::try_parse_properties(third) {
                    Ok(Some(ps)) => { variable.maybe_properties = Some(ps); },
                    Ok(None) => return Err(ParseError::Unexpected),
                    Err(e) => return Err(e),
                }
            } else {
                return Err(ParseError::Unexpected);
            }
        }
        Ok(Some(variable))
    }

    /// Reads a `variable` pair that can be read.
    pub fn parse(pair: &Pair) -> (res: Option<Self>)
        requires
            Self::spec_parse(*pair) is Ok,
        ensures
            Self::spec_parse(*pair) == Ok::<_, ParseError>(res.deep_view()),
    {
        match Self::try_parse(pair) {
            Ok(res) => res,
            Err(_) => None,
        }
    }

    pub fn identifier(&self) -> (res: &String)
        ensures
            res@ == self.identifier@,
    {
        &self.identifier
    }

    pub fn variable_type(&self) -> (res: VariableType)
        ensures
            res == self.variable_type,
    {
        self.variable_type
    }

    /// Whether the variable has `variable_property` among its properties.
    pub fn has_property(&self, variable_property: VariableProperty) -> (res: bool)
        ensures
            res == self.deep_view().has_property(variable_property),
    {
        match &self.maybe_properties {
            None => false,
            Some(properties) => {
                let mut i: usize = 0;
                while i < properties.len()
                    invariant
                        i <= properties@.len(),
                        self.maybe_properties == Some(*properties),
                        forall|j: int| 0 <= j < i ==> properties@[j] != variable_property,
                    decreases properties@.len() - i,
                {
                    if properties[i] == variable_property {
                        assert(properties.deep_view()[i as int] == variable_property);
                        assert(properties.deep_view().contains(variable_property));
                        assert(self.maybe_properties.deep_view() == Some(properties.deep_view()));
                        return true;
                    }
                    i = i + 1;
                }
                assert(!properties.deep_view().contains(variable_property)) by {
                    if properties.deep_view().contains(variable_property) {
                        let k: int = choose|k: int| 0 <= k < properties.deep_view().len() && properties.deep_view()[k] == variable_property;
                        assert(properties@[k] == variable_property);
                    }
                }
                false
            },
        }
    }

    pub fn is_shared(&self) -> (res: bool)
        ensures
            res == self.deep_view().is_shared(),
    {
        self.has_property(VariableProperty::Shared)
    }

    pub fn is_get(&self) -> (res: bool)
        ensures
            res == self.deep_view().is_get(),
    {
        self.has_property(VariableProperty::Get)
    }

    pub fn is_set(&self) -> (res: bool)
        ensures
            res == self.deep_view().is_set(),
    {
        self.has_property(VariableProperty::Setter)
    }
}

/// A variable is held in a struct field of its name and type.
impl StructFieldDefiner for Variable {
    open spec fn field_identifier_text(&self) -> Seq<char> {
        self.deep_view().field_definition().identifier
    }

    open spec fn field_type_text(&self) -> Seq<char> {
        self.deep_view().field_definition().type_tokens
    }

    fn identifier(&self) -> String {
        self.identifier.clone()
    }

    fn type_tokens(&self) -> String {
        self.variable_type.to_tokens()
    }
}

/// A variable starts as its initial value, or as the default value of its
/// type where it has none.
impl StructFieldInstantiator for Variable {
    open spec fn field_instantiation_identifier_text(&self) -> Seq<char> {
        self.deep_view().field_instantiation().identifier
    }

    open spec fn field_value_text(&self) -> Seq<char> {
        self.deep_view().field_instantiation().value_tokens
    }

    fn identifier(&self) -> String {
        self.identifier.clone()
    }

    fn value_tokens(&self) -> String {
        match &self.maybe_initial_value {
            Some(v) => v.clone(),
            None => self.variable_type.default_value_tokens(),
        }
    }
}

} // verus!
