//! The error values each pipeline stage can return.
//!
//! Every stage is fail-fast: it returns the first error it meets, with the
//! span of the offending construct.

use vstd::prelude::*;

use crate::span::Span;

verus! {

/// An error found while rewriting the syntax tree into canonical form.
#[derive(Debug, Clone, Copy, PartialEq, Eq, Structural)]
pub enum AstError {
    /// An array type or array construction has a dimension of zero, or an
    /// array construction has no dimensions at all.
    InvalidArrayDimensionSize(Span),
    /// The `Self` type was used outside of any circuit declaration.
    BigSelfOutsideOfCircuit(Span),
    /// A tuple type of exactly one element.
    InvalidTupleDimensionSize(Span),
    /// A string literal with no characters.
    EmptyString(Span),
    /// A function annotation whose name no pass recognizes.
    UnrecognizedAnnotation(Span),
}

/// An error found while parsing the token stream.
#[derive(Debug)]
pub enum ParserError {
    /// The token at `span` cannot start or continue the construct being
    /// parsed; `expected` says what was admissible there.
    UnexpectedToken { expected: String, span: Span },
    /// A numeric literal and its type suffix were separated by whitespace
    /// or a comment.
    UnexpectedWhitespace { left: String, right: String, span: Span },
    /// A numeric literal without a type suffix.
    ImplicitValuesNotAllowed { value: String, span: Span },
    /// The token stream ended inside a construct.
    UnexpectedEof { span: Span },
    /// The expression on the left of an assignment operator is not a
    /// valid assignment target.
    InvalidAssignmentTarget { span: Span },
}

/// Model of a [`ParserError`].
#[verifier::ext_equal]
pub enum ParserErrorV {
    UnexpectedToken { expected: Seq<char>, span: Span },
    UnexpectedWhitespace { left: Seq<char>, right: Seq<char>, span: Span },
    ImplicitValuesNotAllowed { value: Seq<char>, span: Span },
    UnexpectedEof { span: Span },
    InvalidAssignmentTarget { span: Span },
}

impl ParserError {
    /// The model of this error.
    pub open spec fn v(self) -> ParserErrorV {
        match self {
            ParserError::UnexpectedToken { expected, span } => ParserErrorV::UnexpectedToken {
                expected: expected@,
                span,
            },
            ParserError::UnexpectedWhitespace { left, right, span } => (
            ParserErrorV::UnexpectedWhitespace { left: left@, right: right@, span }),
            ParserError::ImplicitValuesNotAllowed { value, span } => (
            ParserErrorV::ImplicitValuesNotAllowed { value: value@, span }),
            ParserError::UnexpectedEof { span } => ParserErrorV::UnexpectedEof { span },
            ParserError::InvalidAssignmentTarget { span } => (
            ParserErrorV::InvalidAssignmentTarget { span }),
        }
    }
}

/// An error found while resolving names and types into a symbol table.
#[derive(Debug)]
pub enum ResolutionError {
    /// The same name declared twice in one scope or signature.
    DuplicateDeclaration { name: String, span: Span },
    /// A name referred to that is not in scope at the point of use.
    UnresolvedIdentifier { name: String, span: Span },
    /// The declared type and the inferred type of a value disagree.
    TypeMismatch { span: Span },
    /// A construct the resolver does not admit, such as a function whose
    /// output type is still missing.
    MalformedDeclaration { span: Span },
}

/// Model of a [`ResolutionError`].
#[verifier::ext_equal]
pub enum ResolutionErrorV {
    DuplicateDeclaration { name: Seq<char>, span: Span },
    UnresolvedIdentifier { name: Seq<char>, span: Span },
    TypeMismatch { span: Span },
    MalformedDeclaration { span: Span },
}

impl ResolutionError {
    /// The model of this error.
    pub open spec fn v(self) -> ResolutionErrorV {
        match self {
            ResolutionError::DuplicateDeclaration { name, span } => (
            ResolutionErrorV::DuplicateDeclaration { name: name@, span }),
            ResolutionError::UnresolvedIdentifier { name, span } => (
            ResolutionErrorV::UnresolvedIdentifier { name: name@, span }),
            ResolutionError::TypeMismatch { span } => ResolutionErrorV::TypeMismatch { span },
            ResolutionError::MalformedDeclaration { span } => (
            ResolutionErrorV::MalformedDeclaration { span }),
        }
    }
}

/// An error found while lowering statements to instructions.
#[derive(Debug, Clone, Copy, PartialEq, Eq, Structural)]
pub enum EmitError {
    /// A ternary expression, which the instruction set cannot represent.
    UnsupportedTernary(Span),
    /// A function call, which the instruction set cannot represent.
    UnsupportedCall(Span),
    /// A conditional statement, which the instruction set cannot represent.
    UnsupportedConditional(Span),
    /// An iteration statement, which the instruction set cannot represent.
    UnsupportedIteration(Span),
    /// A console statement, which the instruction set cannot represent.
    UnsupportedConsole(Span),
    /// An expression kind that has no lowering to an operand.
    UnsupportedExpression(Span),
    /// A literal whose textual form does not denote a value of its type;
    /// the parser admits no such literal, so meeting one means an earlier
    /// stage was skipped.
    MalformedLiteral(Span),
    /// An identifier that names no live register.
    UnresolvedRegister(Span),
    /// A binary or unary operator that has no instruction, such as a
    /// bitwise operator.
    UnsupportedOperator(Span),
    /// A statement kind that has no lowering yet: return, definition and
    /// assignment statements are not part of this instruction set's
    /// straight-line fragment.
    UnsupportedStatement(Span),
    /// A register was released with none allocated.
    RegisterUnderflow,
}

} // verus!
