//! The tree that the grammar-level parse of an `.idl` text yields, and the
//! errors met while reading the interface model out of such a tree.

use vstd::prelude::*;

verus! {

/// The grammar rules whose matches the reading of the tree tells apart.
/// Matches of all other rules (names, values, the interface kind and
/// version) are `other`.
#[allow(non_camel_case_types)]
#[derive(Debug, Clone, Copy, PartialEq, Eq, Structural)]
pub enum Rule {
    interface,
    interface_elements,
    xclass,
    xclass_properties,
    xclass_property,
    xclass_property_name,
    xclass_elements,
    method,
    method_type,
    arg_list,
    argument,
    argument_properties,
    argument_property,
    method_elements,
    method_variable,
    variable,
    variable_type,
    integer_type,
    init_value,
    variable_properties,
    variable_property,
    verbatim,
    insert,
    insert_properties,
    insert_property,
    other,
}

/// One match of a grammar rule: the rule, the text it matched, and the
/// matches of the rules inside it, in the order of the text.
#[derive(Debug)]
pub struct Pair {
    pub rule: Rule,
    pub text: String,
    pub inner: Vec<Pair>,
}

/// Why a pair tree could not be read as the interface model.
#[derive(Debug, Clone, Copy, PartialEq, Eq, Structural)]
pub enum ParseError {
    /// A pair lacks an inner pair that the grammar always puts there.
    MissingPair,
    /// An inner pair is not of a rule, or does not hold a keyword, that the
    /// reading expects at its place.
    Unexpected,
    /// The Rust lexer refused the text of a verbatim element.
    InvalidVerbatim,
    /// The tree holds an insert element, which is not supported.
    UnsupportedInsert,
    /// The tree holds a method variable, which is not supported.
    UnsupportedMethodVariable,
    /// An argument that follows an `#out` argument is marked `#in`.
    InArgumentAfterOut,
    /// An `#out` argument has an initial value.
    OutArgumentWithInitialValue,
}

/// The result of a reading, taken by the views of what it read.
pub open spec fn deep_result<T: DeepView>(r: Result<Option<T>, ParseError>) -> Result<Option<T::V>, ParseError> {
    match r {
        Ok(o) => Ok(o.deep_view()),
        Err(e) => Err(e),
    }
}

/// A reading whose absence counts as `Unexpected`: an inner pair that must
/// be of the rule that is read at its place.
pub open spec fn required<A>(r: Result<Option<A>, ParseError>) -> Result<A, ParseError> {
    match r {
        Ok(Some(a)) => Ok(a),
        Ok(None) => Err(ParseError::Unexpected),
        Err(e) => Err(e),
    }
}

/// A reading that gave nothing counts as `Unexpected`: a keyword that must
/// be one of those that the reading knows.
pub open spec fn present<A>(o: Option<A>) -> Result<A, ParseError> {
    match o {
        Some(a) => Ok(a),
        None => Err(ParseError::Unexpected),
    }
}

/// Whether the pair, or a pair anywhere inside it, is of the `verbatim`
/// rule.
pub open spec fn holds_verbatim(pair: Pair) -> bool
    decreases pair,
{
    pair.rule == Rule::verbatim || any_holds_verbatim(pair.inner@)
}

/// Whether one of the pairs holds verbatim code.
pub open spec fn any_holds_verbatim(pairs: Seq<Pair>) -> bool
    decreases pairs,
{
    if pairs.len() == 0 {
        false
    } else {
        holds_verbatim(pairs[0]) || any_holds_verbatim(pairs.drop_first())
    }
}

/// What a reading that hands verbatim code to the Rust lexer gives back:
/// the reading of the tree, or, where the tree holds verbatim code,
/// `InvalidVerbatim` when the lexer refused some of it.
pub open spec fn lexed_reading<A>(res: Result<A, ParseError>, reading: Result<A, ParseError>, pair: Pair) -> bool {
    res == reading || (res == Err::<A, ParseError>(ParseError::InvalidVerbatim) && holds_verbatim(pair))
}

/// A sequence of pairs holds the verbatim code that one of them holds.
pub proof fn lemma_any_holds_verbatim(pairs: Seq<Pair>, i: int)
    requires
        0 <= i < pairs.len(),
    ensures
        holds_verbatim(pairs[i]) ==> any_holds_verbatim(pairs),
    decreases i,
{
    if i > 0 {
        lemma_any_holds_verbatim(pairs.drop_first(), i - 1);
    }
}

/// A pair holds the verbatim code that one of its inner pairs holds.
pub proof fn lemma_inner_verbatim(pair: Pair, i: int)
    requires
        0 <= i < pair.inner@.len(),
    ensures
        holds_verbatim(pair.inner@[i]) ==> holds_verbatim(pair),
{
    lemma_any_holds_verbatim(pair.inner@, i);
}

/// The readings in `s` gathered in order; the first error, if there is one.
pub open spec fn collect<A>(s: Seq<Result<A, ParseError>>) -> Result<Seq<A>, ParseError>
    decreases s.len(),
{
    if s.len() == 0 {
        Ok(Seq::empty())
    } else {
        match s[0] {
            Err(e) => Err(e),
            Ok(a) => match collect(s.drop_first()) {
                Ok(rest) => Ok(seq![a] + rest),
                Err(e) => Err(e),
            },
        }
    }
}

/// `r` with `done` put in front of what it gathered.
pub open spec fn prepend<A>(done: Seq<A>, r: Result<Seq<A>, ParseError>) -> Result<Seq<A>, ParseError> {
    match r {
        Ok(rest) => Ok(done + rest),
        Err(e) => Err(e),
    }
}

/// Gathering starts with nothing done.
pub proof fn lemma_collect_start<A>(s: Seq<Result<A, ParseError>>)
    ensures
        collect(s) == prepend(Seq::<A>::empty(), collect(s.skip(0))),
{
    assert(s.skip(0) =~= s);
    match collect(s) {
        Ok(v) => { assert(Seq::<A>::empty() + v =~= v); },
        Err(e) => {},
    }
}

/// One step of gathering: what is gathered from `s` is its first reading
/// put in front of what is gathered from the rest.
pub proof fn lemma_collect_step<A>(done: Seq<A>, s: Seq<Result<A, ParseError>>, i: int)
    requires
        0 <= i < s.len(),
        s[i] is Ok,
    ensures
        prepend(done, collect(s.skip(i))) == prepend(done.push(s[i]->Ok_0), collect(s.skip(i + 1))),
{
    let t = s.skip(i);
    assert(t.drop_first() =~= s.skip(i + 1));
    assert(t[0] == s[i]);
    match collect(s.skip(i + 1)) {
        Ok(rest) => {
            assert(done + (seq![s[i]->Ok_0] + rest) =~= done.push(s[i]->Ok_0) + rest);
        },
        Err(e) => {},
    }
}

/// Gathering stops at the first error.
pub proof fn lemma_collect_error<A>(done: Seq<A>, s: Seq<Result<A, ParseError>>, i: int)
    requires
        0 <= i < s.len(),
        s[i] is Err,
    ensures
        prepend(done, collect(s.skip(i))) == Err::<Seq<A>, ParseError>(s[i]->Err_0),
{
    assert(s.skip(i)[0] == s[i]);
}

/// Gathering an empty sequence gives nothing.
pub proof fn lemma_collect_end<A>(done: Seq<A>, s: Seq<Result<A, ParseError>>)
    ensures
        prepend(done, collect(s.skip(s.len() as int))) == Ok::<Seq<A>, ParseError>(done),
{
    assert(s.skip(s.len() as int) =~= Seq::<Result<A, ParseError>>::empty());
    assert(done + Seq::<A>::empty() =~= done);
}

} // verus!
