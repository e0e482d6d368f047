//! Insert elements of an IDL description.

use vstd::prelude::*;

use crate::ast::common::Verbatim;
use crate::external::lexes_as_tokens;
use crate::seqs::lemma_take_all;
use crate::pair::{
    collect, deep_result, holds_verbatim, lemma_collect_end, lemma_collect_error, lemma_collect_start,
    lemma_collect_step, lemma_inner_verbatim, lexed_reading, prepend, required, ParseError, Pair, Rule,
};

verus! {

/// An insert property as the model holds it.
pub struct SpecInsertProperty {
    pub name: Seq<char>,
    pub value: Seq<char>,
}

/// A property of an insert element: a name and a value.
#[derive(Debug)]
pub struct InsertProperty {
    pub name: String,
    pub value: String,
}

impl DeepView for InsertProperty {
    type V = SpecInsertProperty;

    open spec fn deep_view(&self) -> SpecInsertProperty {
        SpecInsertProperty { name: self.name@, value: self.value@ }
    }
}

impl Clone for InsertProperty {
    fn clone(&self) -> (res: Self)
        ensures
            res.deep_view() == self.deep_view(),
    {
        InsertProperty { name: self.name.clone(), value: self.value.clone() }
    }
}

impl InsertProperty {
    /// An `insert_property` pair reads as a property: the text of its first
    /// inner pair is the name, the text of the first inner pair of its second
    /// inner pair the value.
    pub open spec fn spec_parse(pair: Pair) -> Result<Option<SpecInsertProperty>, ParseError> {
        let inner = pair.inner@;
        if pair.rule != Rule::insert_property {
            Ok(None)
        } else if inner.len() < 2 || inner[1].inner@.len() == 0 {
            Err(ParseError::MissingPair)
        } else {
            Ok(Some(SpecInsertProperty { name: inner[0].text@, value: inner[1].inner@[0].text@ }))
        }
    }

    /// Reads an `insert_property` pair, or tells why it cannot be read.
    pub fn try_parse(pair: &Pair) -> (res: Result<Option<Self>, ParseError>)
        ensures
            deep_result(res) == Self::spec_parse(*pair),
    {
        if pair.rule != Rule::insert_property {
            return Ok(None);
        }
        if pair.inner.len() < 2 || pair.inner[1].inner.len() == 0 {
            return Err(ParseError::MissingPair);
        }
        let name = pair.inner[0].text.clone();
        let value = pair.inner[1].inner[0].text.clone();
        Ok(Some(InsertProperty { name, value }))
    }

    /// Reads an `insert_property` pair that can be read.
    pub fn parse(pair: &Pair) -> (res: Option<Self>)
        requires
            Self::spec_parse(*pair) is Ok,
        ensures
            Self::spec_parse(*pair) == Ok::<_, ParseError>(res.deep_view()),
    {
        match Self::try_parse(pair) {
            Ok(res) => res,
            Err(_) => None,
        }
    }
}

/// An insert element as the model holds it.
pub struct SpecInsert {
    pub properties: Option<Seq<SpecInsertProperty>>,
    pub verbatim: Option<Seq<char>>,
}

impl SpecInsert {
    /// Whether the verbatim code of the insert element, if it has any, lexes
    /// as Rust tokens.
    pub open spec fn verbatim_lexes(self) -> bool {
        match self.verbatim {
            Some(v) => lexes_as_tokens(v),
            None => true,
        }
    }

    /// What an insert element contributes to the generated source: its
    /// verbatim code, or nothing.
    pub open spec fn tokens_text(self) -> Seq<char> {
        match self.verbatim {
            Some(v) => v,
            None => Seq::empty(),
        }
    }
}

/// The readings of the inner pairs of an `insert_properties` pair.
pub open spec fn insert_property_readings(pair: Pair) -> Seq<Result<SpecInsertProperty, ParseError>> {
    pair.inner@.map_values(|p: Pair| required(InsertProperty::spec_parse(p)))
}

/// How an inner pair of an `insert` pair changes what has been read: an
/// `insert_properties` pair sets the properties, a `verbatim` pair the
/// verbatim code; a pair of another rule changes nothing.
pub open spec fn insert_step(read: SpecInsert, pair: Pair) -> Result<SpecInsert, ParseError> {
    if pair.rule == Rule::insert_properties {
        match Insert::spec_parse_insert_properties(pair) {
            Ok(properties) => Ok(SpecInsert { properties, verbatim: read.verbatim }),
            Err(e) => Err(e),
        }
    } else if pair.rule == Rule::verbatim {
        match Verbatim::spec_parse(pair) {
            Ok(verbatim) => Ok(SpecInsert { properties: read.properties, verbatim }),
            Err(e) => Err(e),
        }
    } else {
        Ok(read)
    }
}

/// What is read from `pairs` in order, starting from `read`.
pub open spec fn insert_from(read: SpecInsert, pairs: Seq<Pair>) -> Result<SpecInsert, ParseError>
    decreases pairs.len(),
{
    if pairs.len() == 0 {
        Ok(read)
    } else {
        match insert_step(read, pairs[0]) {
            Err(e) => Err(e),
            Ok(next) => insert_from(next, pairs.drop_first()),
        }
    }
}

proof fn lemma_insert_from_skip(read: SpecInsert, pairs: Seq<Pair>, i: int)
    requires
        0 <= i < pairs.len(),
    ensures
        insert_from(read, pairs.skip(i)) == match insert_step(read, pairs[i]) {
            Err(e) => Err(e),
            Ok(next) => insert_from(next, pairs.skip(i + 1)),
        },
{
    assert(pairs.skip(i)[0] == pairs[i]);
    assert(pairs.skip(i).drop_first() =~= pairs.skip(i + 1));
}

/// An insert element: its properties and its verbatim code, where the
/// description gives them.
#[derive(Debug)]
pub struct Insert {
    pub properties: Option<Vec<InsertProperty>>,
    pub verbatim: Option<Verbatim>,
}

impl DeepView for Insert {
    type V = SpecInsert;

    open spec fn deep_view(&self) -> SpecInsert {
        SpecInsert { properties: self.properties.deep_view(), verbatim: self.verbatim.deep_view() }
    }
}

impl Clone for Insert {
    fn clone(&self) -> (res: Self)
        ensures
            res.deep_view() == self.deep_view(),
    {
        let properties = match &self.properties {
            Some(ps) => {
                let mut out: Vec<InsertProperty> = Vec::new();
                let mut i: usize = 0;
                while i < ps.len()
                    invariant
                        i <= ps@.len(),
                        out.deep_view() =~= ps.deep_view().take(i as int),
                    decreases ps@.len() - i,
                {
                    let p = ps[i].clone();
                    let ghost before = out.deep_view();
                    out.push(p);
                    assert(out.deep_view() =~= before.push(p.deep_view()));
                    i = i + 1;
                }
                proof { lemma_take_all(ps.deep_view()); }
                Some(out)
            },
            None => None,
        };
        let verbatim = match &self.verbatim {
            Some(v) => Some(v.clone()),
            None => None,
        };
        Insert { properties, verbatim }
    }
}

impl Insert {
    /// An `insert` pair reads as an insert element: the last
    /// `insert_properties` and the last `verbatim` among its inner pairs give
    /// its properties and verbatim code.
    pub open spec fn spec_parse(pair: Pair) -> Result<Option<SpecInsert>, ParseError> {
        if pair.rule != Rule::insert {
            Ok(None)
        } else {
            match insert_from(SpecInsert { properties: None, verbatim: None }, pair.inner@) {
                Ok(read) => Ok(Some(read)),
                Err(e) => Err(e),
            }
        }
    }

    /// Reads an `insert` pair, or tells why it cannot be read.
    pub fn try_parse(pair: &Pair) -> (res: Result<Option<Self>, ParseError>)
        ensures
            lexed_reading(deep_result(res), Self::spec_parse(*pair), *pair),
            deep_result(res) matches Ok(Some(i)) ==> i.verbatim_lexes(),
    {
        if pair.rule != Rule::insert {
            return Ok(None);
        }
        let mut insert = Insert { properties: None, verbatim: None };
        let mut i: usize = 0;
        proof { assert(pair.inner@.skip(0) =~= pair.inner@); }
        while i < pair.inner.len()
            invariant
                pair.rule == Rule::insert,
                i <= pair.inner@.len(),
                insert_from(SpecInsert { properties: None, verbatim: None }, pair.inner@)
                    == insert_from(insert.deep_view(), pair.inner@.skip(i as int)),
                insert.deep_view().verbatim_lexes(),
            decreases pair.inner@.len() - i,
        {
            proof { lemma_insert_from_skip(insert.deep_view(), pair.inner@, i as int); }
            let inner = &pair.inner[i];
            if inner.rule == Rule::insert_properties {
                match Self::try_parse_insert_properties(inner) {
                    Ok(properties) => { insert.properties = properties; },
                    Err(e) => return Err(e),
                }
            } else if inner.rule == Rule::verbatim {
                match Verbatim::try_parse(inner) {
                    Ok(verbatim) => { insert.verbatim = verbatim; },
                    Err(e) => {
                        proof { lemma_inner_verbatim(*pair, i as int); }
                        return Err(e);
                    },
                }
            }
            i = i + 1;
        }
        proof { assert(pair.inner@.skip(i as int) =~= Seq::<Pair>::empty()); }
        Ok(Some(insert))
    }

    /// Reads an `insert` pair that can be read; nothing where the Rust lexer
    /// refuses verbatim code in it.
    pub fn parse(pair: &Pair) -> (res: Option<Self>)
        requires
            Self::spec_parse(*pair) is Ok,
        ensures
            Self::spec_parse(*pair) == Ok::<_, ParseError>(res.deep_view()) || (res is None && holds_verbatim(*pair)),
            res.deep_view() matches Some(i) ==> i.verbatim_lexes(),
    {
        match Self::try_parse(pair) {
            Ok(res) => res,
            Err(_) => None,
        }
    }

    /// An `insert_properties` pair reads as the properties of its inner pairs,
    /// each of which must be a property.
    pub open spec fn spec_parse_insert_properties(pair: Pair) -> Result<Option<Seq<SpecInsertProperty>>, ParseError> {
        if pair.rule != Rule::insert_properties {
            Ok(None)
        } else {
            match collect(insert_property_readings(pair)) {
                Ok(ps) => Ok(Some(ps)),
                Err(e) => Err(e),
            }
        }
    }

    /// Reads an `insert_properties` pair, or tells why it cannot be read.
    pub fn try_parse_insert_properties(pair: &Pair) -> (res: Result<Option<Vec<InsertProperty>>, ParseError>)
        ensures
            deep_result(res) == Self::spec_parse_insert_properties(*pair),
    {
        if pair.rule != Rule::insert_properties {
            return Ok(None);
        }
        let ghost readings = insert_property_readings(*pair);
        proof { lemma_collect_start(readings); }
        let mut out: Vec<InsertProperty> = Vec::new();
        let mut i: usize = 0;
        while i < pair.inner.len()
            invariant
                pair.rule == Rule::insert_properties,
                i <= pair.inner@.len(),
                readings == insert_property_readings(*pair),
                collect(readings) == prepend(out.deep_view(), collect(readings.skip(i as int))),
            decreases pair.inner@.len() - i,
        {
            assert(readings[i as int] == required(InsertProperty::spec_parse(pair.inner@[i as int])));
            match InsertProperty::try_parse(&pair.inner[i]) {
                Ok(Some(p)) => {
                    proof { lemma_collect_step(out.deep_view(), readings, i as int); }
                    let ghost before = out.deep_view();
                    let ghost pv = p.deep_view();
                    out.push(p);
                    assert(out.deep_view() =~= before.push(pv));
                },
                Ok(None) => {
                    proof { lemma_collect_error(out.deep_view(), readings, i as int); }
                    return Err(ParseError::Unexpected);
                },
                Err(e) => {
                    proof { lemma_collect_error(out.deep_view(), readings, i as int); }
                    return Err(e);
                },
            }
            i = i + 1;
        }
        proof { lemma_collect_end(out.deep_view(), readings); }
        Ok(Some(out))
    }

    /// Reads an `insert_properties` pair that can be read.
    pub fn parse_insert_properties(pair: &Pair) -> (res: Option<Vec<InsertProperty>>)
        requires
            Self::spec_parse_insert_properties(*pair) is Ok,
        ensures
            Self::spec_parse_insert_properties(*pair) == Ok::<_, ParseError>(res.deep_view()),
    {
        match Self::try_parse_insert_properties(pair) {
            Ok(res) => res,
            Err(_) => None,
        }
    }

    /// What the insert element contributes to the generated source: its
    /// verbatim code, or nothing.
    pub fn to_tokens(&self) -> (res: String)
        ensures
            res@ == self.deep_view().tokens_text(),
    {
        match &self.verbatim {
            Some(verbatim) => verbatim.to_tokens(),
            None => String::new(),
        }
    }
}

} // verus!
