//! The interface model read out of the pair tree of an IDL description.

use vstd::prelude::*;

use crate::ast::insert::{Insert, SpecInsert};
use crate::ast::xclass::{SpecXClass, XClass};
use crate::pair::{
    collect, deep_result, holds_verbatim, lemma_collect_end, lemma_collect_error, lemma_collect_start,
    lemma_collect_step, lemma_inner_verbatim, lexed_reading, prepend, required, ParseError, Pair, Rule,
};

pub mod common;
pub mod insert;
pub mod xclass;

verus! {

/// An interface element as the model holds it.
pub enum SpecInterfaceElement {
    XClass(SpecXClass),
    Insert(SpecInsert),
}

/// An element of an interface: an XClass or an insert element.
#[derive(Debug)]
pub enum InterfaceElement {
    XClass(XClass),
    Insert(Insert),
}

impl DeepView for InterfaceElement {
    type V = SpecInterfaceElement;

    open spec fn deep_view(&self) -> SpecInterfaceElement {
        match self {
            InterfaceElement::XClass(x) => SpecInterfaceElement::XClass(x.deep_view()),
            InterfaceElement::Insert(i) => SpecInterfaceElement::Insert(i.deep_view()),
        }
    }
}

impl Clone for InterfaceElement {
    fn clone(&self) -> (res: Self)
        ensures
            res.deep_view() == self.deep_view(),
    {
        match self {
            InterfaceElement::XClass(x) => InterfaceElement::XClass(x.clone()),
            InterfaceElement::Insert(i) => InterfaceElement::Insert(i.clone()),
        }
    }
}

impl InterfaceElement {
    /// An `xclass` pair reads as an XClass; insert elements are not
    /// supported; a pair of another rule reads as nothing.
    pub open spec fn spec_parse(pair: Pair) -> Result<Option<SpecInterfaceElement>, ParseError> {
        if pair.rule == Rule::xclass {
            match XClass::spec_parse(pair) {
                Ok(Some(x)) => Ok(Some(SpecInterfaceElement::XClass(x))),
                Ok(None) => Ok(None),
                Err(e) => Err(e),
            }
        } else if pair.rule == Rule::insert {
            Err(ParseError::UnsupportedInsert)
        } else {
            Ok(None)
        }
    }

    /// Reads an interface element, or tells why it cannot be read.
    pub fn try_parse(pair: &Pair) -> (res: Result<Option<Self>, ParseError>)
        ensures
            lexed_reading(deep_result(res), Self::spec_parse(*pair), *pair),
            deep_result(res) matches Ok(Some(e)) ==> interface_element_lexes(e),
    {
        if pair.rule == Rule::xclass {
            match XClass::try_parse(pair) {
                Ok(Some(x)) => Ok(Some(InterfaceElement::XClass(x))),
                Ok(None) => Ok(None),
                Err(e) => Err(e),
            }
        } else if pair.rule == Rule::insert {
            Err(ParseError::UnsupportedInsert)
        } else {
            Ok(None)
        }
    }

    /// Reads an interface element that can be read; nothing where the Rust lexer
    /// refuses verbatim code in it.
    pub fn parse(pair: &Pair) -> (res: Option<Self>)
        requires
            Self::spec_parse(*pair) is Ok,
        ensures
            Self::spec_parse(*pair) == Ok::<_, ParseError>(res.deep_view()) || (res is None && holds_verbatim(*pair)),
            res.deep_view() matches Some(e) ==> interface_element_lexes(e),
    {
        match Self::try_parse(pair) {
            Ok(res) => res,
            Err(_) => None,
        }
    }
}

/// Whether the verbatim code of an interface element lexes as Rust tokens.
pub open spec fn interface_element_lexes(e: SpecInterfaceElement) -> bool {
    match e {
        SpecInterfaceElement::XClass(x) => x.verbatims_lex(),
        SpecInterfaceElement::Insert(i) => i.verbatim_lexes(),
    }
}

/// Whether the verbatim code of each interface element lexes as Rust
/// tokens.
pub open spec fn interface_elements_lex(es: Seq<SpecInterfaceElement>) -> bool {
    forall|i: int| 0 <= i < es.len() ==> interface_element_lexes(#[trigger] es[i])
}

/// An interface as the model holds it.
pub struct SpecInterface {
    pub ccp_type: Seq<char>,
    pub name: Seq<char>,
    pub version: Seq<char>,
    pub interface_elements: Seq<SpecInterfaceElement>,
}

/// An interface: the kind of compiled code package, its name and version,
/// and its elements.
#[derive(Debug)]
pub struct Interface {
    ccp_type: String,
    name: String,
    version: String,
    interface_elements: Vec<InterfaceElement>,
}

impl DeepView for Interface {
    type V = SpecInterface;

    closed spec fn deep_view(&self) -> SpecInterface {
        SpecInterface {
            ccp_type: self.ccp_type@,
            name: self.name@,
            version: self.version@,
            interface_elements: self.interface_elements.deep_view(),
        }
    }
}

impl Interface {
    /// An `interface` pair reads as an interface: the texts of its first
    /// three inner pairs are the kind, name and version; its fourth inner
    /// pair holds the elements (`interface_elements`).
    pub open spec fn spec_parse(pair: Pair) -> Result<Option<SpecInterface>, ParseError> {
        let inner = pair.inner@;
        if pair.rule != Rule::interface {
            Ok(None)
        } else if inner.len() < 4 {
            Err(ParseError::MissingPair)
        } else {
            match required(Self::spec_parse_elements(inner[3])) {
                Err(e) => Err(e),
                Ok(interface_elements) => Ok(Some(SpecInterface {
                    ccp_type: inner[0].text@,
                    name: inner[1].text@,
                    version: inner[2].text@,
                    interface_elements,
                })),
            }
        }
    }

    /// Reads an `interface` pair, or tells why it cannot be read: the whole
    /// reading of an IDL description's pair tree, with every condition that
    /// [`Interface::parse`] requires checked and the verbatim code handed to
    /// the Rust lexer.
    pub fn try_parse(pair: &Pair) -> (res: Result<Option<Self>, ParseError>)
        ensures
            lexed_reading(deep_result(res), Self::spec_parse(*pair), *pair),
            deep_result(res) matches Ok(Some(x)) ==> interface_elements_lex(x.interface_elements),
    {
        if pair.rule != Rule::interface {
            return Ok(None);
        }
        if pair.inner.len() < 4 {
            return Err(ParseError::MissingPair);
        }
        let ccp_type = pair.inner[0].text.clone();
        let name = pair.inner[1].text.clone();
        let version = pair.inner[2].text.clone();
        match Self::try_parse_elements(&pair.inner[3]) {
            Ok(Some(interface_elements)) => Ok(Some(Interface { ccp_type, name, version, interface_elements })),
            Ok(None) => Err(ParseError::Unexpected),
            Err(e) => {
                proof { lemma_inner_verbatim(*pair, 3); }
                Err(e)
            },
        }
    }

    /// Reads an `interface` pair that can be read; nothing where the Rust lexer
    /// refuses verbatim code in it.
    pub fn parse(pair: &Pair) -> (res: Option<Self>)
        requires
            Self::spec_parse(*pair) is Ok,
        ensures
            Self::spec_parse(*pair) == Ok::<_, ParseError>(res.deep_view()) || (res is None && holds_verbatim(*pair)),
            res.deep_view() matches Some(x) ==> interface_elements_lex(x.interface_elements),
    {
        match Self::try_parse(pair) {
            Ok(res) => res,
            Err(_) => None,
        }
    }

    /// The readings of the inner pairs of an `interface_elements` pair.
    pub open spec fn element_readings(pair: Pair) -> Seq<Result<SpecInterfaceElement, ParseError>> {
        pair.inner@.map_values(|p: Pair| required(InterfaceElement::spec_parse(p)))
    }

    /// An `interface_elements` pair reads as the elements of its inner pairs,
    /// each of which must be an element.
    pub open spec fn spec_parse_elements(pair: Pair) -> Result<Option<Seq<SpecInterfaceElement>>, ParseError> {
        if pair.rule != Rule::interface_elements {
            Ok(None)
        } else {
            match collect(Self::element_readings(pair)) {
                Ok(es) => Ok(Some(es)),
                Err(e) => Err(e),
            }
        }
    }

    /// Reads an `interface_elements` pair, or tells why it cannot be read.
    pub fn try_parse_elements(pair: &Pair) -> (res: Result<Option<Vec<InterfaceElement>>, ParseError>)
        ensures
            lexed_reading(deep_result(res), Self::spec_parse_elements(*pair), *pair),
            deep_result(res) matches Ok(Some(es)) ==> interface_elements_lex(es),
    {
        if pair.rule != Rule::interface_elements {
            return Ok(None);
        }
        let ghost readings = Self::element_readings(*pair);
        proof { lemma_collect_start(readings); }
        let mut out: Vec<InterfaceElement> = Vec::new();
        let mut i: usize = 0;
        while i < pair.inner.len()
            invariant
                pair.rule == Rule::interface_elements,
                i <= pair.inner@.len(),
                readings == Self::element_readings(*pair),
                collect(readings) == prepend(out.deep_view(), collect(readings.skip(i as int))),
                interface_elements_lex(out.deep_view()),
            decreases pair.inner@.len() - i,
        {
            assert(readings[i as int] == required(InterfaceElement::spec_parse(pair.inner@[i as int])));
            match InterfaceElement::try_parse(&pair.inner[i]) {
                Ok(Some(e)) => {
                    proof { lemma_collect_step(out.deep_view(), readings, i as int); }
                    let ghost before = out.deep_view();
                    let ghost ev = e.deep_view();
                    out.push(e);
                    assert(out.deep_view() =~= before.push(ev));
                },
                Ok(None) => {
                    proof { lemma_collect_error(out.deep_view(), readings, i as int); }
                    return Err(ParseError::Unexpected);
                },
                Err(err) => {
                    proof {
                        lemma_inner_verbatim(*pair, i as int);
                        if readings[i as int] is Err {
                            lemma_collect_error(out.deep_view(), readings, i as int);
                        }
                    }
                    return Err(err);
                },
            }
            i = i + 1;
        }
        proof { lemma_collect_end(out.deep_view(), readings); }
        Ok(Some(out))
    }

    /// Reads an `interface_elements` pair that can be read; nothing where the Rust lexer
    /// refuses verbatim code in it.
    pub fn parse_elements(pair: &Pair) -> (res: Option<Vec<InterfaceElement>>)
        requires
            Self::spec_parse_elements(*pair) is Ok,
        ensures
            Self::spec_parse_elements(*pair) == Ok::<_, ParseError>(res.deep_view()) || (res is None && holds_verbatim(*pair)),
            res.deep_view() matches Some(es) ==> interface_elements_lex(es),
    {
        match Self::try_parse_elements(pair) {
            Ok(res) => res,
            Err(_) => None,
        }
    }

    pub fn ccp_type(&self) -> (res: &String)
        ensures
            res@ == self.deep_view().ccp_type,
    {
        &self.ccp_type
    }

    pub fn name(&self) -> (res: &String)
        ensures
            res@ == self.deep_view().name,
    {
        &self.name
    }

    pub fn version(&self) -> (res: &String)
        ensures
            res@ == self.deep_view().version,
    {
        &self.version
    }

    pub fn interface_elements(&self) -> (res: &Vec<InterfaceElement>)
        ensures
            res.deep_view() == self.deep_view().interface_elements,
    {
        &self.interface_elements
    }
}

} // verus!
