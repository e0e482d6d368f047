//! Verbatim Rust code embedded in an IDL description.

use vstd::prelude::*;

use crate::external::{is_token_stream, lexes_as_tokens};
use crate::pair::{deep_result, holds_verbatim, lexed_reading, ParseError, Pair, Rule};

verus! {

/// Rust code written verbatim in the IDL description; it holds the text of
/// that code.
#[derive(Debug)]
pub struct Verbatim(pub String);

impl DeepView for Verbatim {
    type V = Seq<char>;

    open spec fn deep_view(&self) -> Seq<char> {
        self.0@
    }
}

impl Clone for Verbatim {
    fn clone(&self) -> (res: Self)
        ensures
            res.deep_view() == self.deep_view(),
    {
        Verbatim(self.0.clone())
    }
}

impl Verbatim {
    /// A `verbatim` pair reads as the text of its first inner pair; a pair of
    /// another rule reads as nothing.
    pub open spec fn spec_parse(pair: Pair) -> Result<Option<Seq<char>>, ParseError> {
        if pair.rule != Rule::verbatim {
            Ok(None)
        } else if pair.inner@.len() == 0 {
            Err(ParseError::MissingPair)
        } else {
            Ok(Some(pair.inner@[0].text@))
        }
    }

    /// The reading of a pair, given whether the Rust lexer accepts the text
    /// of its first inner pair: a refused text is `InvalidVerbatim`.
    pub open spec fn spec_from_checked(pair: Pair, lexes: bool) -> Result<Option<Seq<char>>, ParseError> {
        match Self::spec_parse(pair) {
            Ok(Some(text)) => if lexes {
                Ok(Some(text))
            } else {
                Err(ParseError::InvalidVerbatim)
            },
            other => other,
        }
    }

    /// Reads a pair, given whether the Rust lexer accepts the text of its
    /// first inner pair.
    pub fn from_checked(pair: &Pair, lexes: bool) -> (res: Result<Option<Self>, ParseError>)
        ensures
            deep_result(res) == Self::spec_from_checked(*pair, lexes),
    {
        if pair.rule != Rule::verbatim {
            return Ok(None);
        }
        if pair.inner.len() == 0 {
            return Err(ParseError::MissingPair);
        }
        if !lexes {
            return Err(ParseError::InvalidVerbatim);
        }
        Ok(Some(Verbatim(pair.inner[0].text.clone())))
    }

    /// Reads a `verbatim` pair, or tells why it cannot be read: the text of
    /// its first inner pair goes to the Rust lexer, whose answer decides
    /// between the text and `InvalidVerbatim`; the text is kept only where
    /// it lexes.
    pub fn try_parse(pair: &Pair) -> (res: Result<Option<Self>, ParseError>)
        ensures
            deep_result(res) == Self::spec_from_checked(*pair, true)
                || deep_result(res) == Self::spec_from_checked(*pair, false),
            lexed_reading(deep_result(res), Self::spec_parse(*pair), *pair),
            pair.rule == Rule::verbatim && pair.inner@.len() > 0 && res is Ok ==> lexes_as_tokens(pair.inner@[0].text@),
            res matches Ok(Some(v)) ==> lexes_as_tokens(v.deep_view()),
    {
        if pair.rule != Rule::verbatim || pair.inner.len() == 0 {
            return Self::from_checked(pair, true);
        }
        let lexes = is_token_stream(pair.inner[0].text.as_str());
        Self::from_checked(pair, lexes)
    }

    /// Reads a `verbatim` pair that can be read; nothing where the Rust
    /// lexer refuses its text.
    pub fn parse(pair: &Pair) -> (res: Option<Self>)
        requires
            Self::spec_parse(*pair) is Ok,
        ensures
            Self::spec_parse(*pair) == Ok::<_, ParseError>(res.deep_view()) || (res is None && holds_verbatim(*pair)),
            res matches Some(v) ==> lexes_as_tokens(v.deep_view()),
    {
        match Self::try_parse(pair) {
            Ok(res) => res,
            Err(_) => None,
        }
    }

    /// The Rust code of this verbatim element, as source text.
    pub fn to_tokens(&self) -> (res: String)
        ensures
            res@ == self.deep_view(),
    {
        self.0.clone()
    }
}

} // verus!
