//! The struct made of the verbatim code written directly in an XClass.

use vstd::prelude::*;

use crate::ast::xclass::{SpecXClass, XClass};
use crate::text::{join, joined};

verus! {

impl SpecXClass {
    /// `<class>Alien`
    pub open spec fn alien_type_identifier(self) -> Seq<char> {
        self.identifier + "Alien"@
    }

    /// The verbatim code written directly in the class, one piece per line.
    pub open spec fn alien_field_text(self) -> Seq<char> {
        joined(self.verbatims(), "\n"@)
    }
}

/// The struct made of the verbatim code written directly in an XClass.
#[derive(Debug)]
pub struct AlienStruct {
    xclass: XClass,
}

impl DeepView for AlienStruct {
    type V = SpecXClass;

    closed spec fn deep_view(&self) -> SpecXClass {
        self.xclass.deep_view()
    }
}

impl AlienStruct {
    pub fn new(xclass: XClass) -> (res: Self)
        ensures
            res.deep_view() == xclass.deep_view(),
    {
        AlienStruct { xclass }
    }

    pub fn xclass(&self) -> (res: &XClass)
        ensures
            res.deep_view() == self.deep_view(),
    {
        &self.xclass
    }

    /// `<class>Alien`
    pub fn type_identifier(&self) -> (res: String)
        ensures
            res@ == self.deep_view().alien_type_identifier(),
    {
        self.xclass.identifier().concat("Alien")
    }

    /// The verbatim code written directly in the class, as source text.
    pub fn field_tokens(&self) -> (res: String)
        ensures
            res@ == self.deep_view().alien_field_text(),
    {
        let verbatims = self.xclass.verbatims();
        let mut texts: Vec<String> = Vec::new();
        let mut i: usize = 0;
        while i < verbatims.len()
            invariant
                i <= verbatims@.len(),
                verbatims.deep_view() == self.deep_view().verbatims(),
                texts.deep_view() =~= verbatims.deep_view().take(i as int),
            decreases verbatims@.len() - i,
        {
            let t = verbatims[i].to_tokens();
            let ghost before = texts.deep_view();
            texts.push(t);
            assert(texts.deep_view() =~= before.push(t@));
            i = i + 1;
        }
        assert(verbatims.deep_view().take(i as int) =~= verbatims.deep_view());
        join(&texts, "\n")
    }
}

} // verus!
