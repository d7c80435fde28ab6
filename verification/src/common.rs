//! Identifiers and character literals, shared by every node family.

use vstd::prelude::*;

use crate::span::Span;

verus! {

/// A name appearing in the source, together with the span it was read from.
#[derive(Debug)]
pub struct Identifier {
    pub name: String,
    pub span: Span,
}

impl Clone for Identifier {
    fn clone(&self) -> (r: Self)
        ensures
            r == *self,
    {
        Identifier { name: self.name.clone(), span: self.span }
    }
}

/// Mathematical model of an [`Identifier`].
pub struct IdentifierV {
    pub name: Seq<char>,
    pub span: Span,
}

impl Identifier {
    pub open spec fn v(self) -> IdentifierV {
        IdentifierV { name: self.name@, span: self.span }
    }

    /// A fresh identifier with the given name and span.
    pub fn new(name: String, span: Span) -> (id: Identifier)
        ensures
            id.v() == (IdentifierV { name: name@, span }),
    {
        Identifier { name, span }
    }
}

/// One character of a character or string literal. A scalar value that is
/// not a valid `char` (an unpaired surrogate read from an escape) is kept
/// as the raw code point.
#[derive(Debug, Clone, Copy, PartialEq, Eq, Structural)]
pub enum Char {
    Scalar(char),
    NonScalar(u32),
}

/// A character literal: the character plus the span of its source bytes.
#[derive(Debug, Clone, Copy, PartialEq, Eq, Structural)]
pub struct CharValue {
    pub character: Char,
    pub span: Span,
}

} // verus!
