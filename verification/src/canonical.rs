//! What canonicalization computes, as functions over the models.
//!
//! These functions define, node kind by node kind, the canonical form of a
//! syntax tree:
//! - the `Self` type inside a circuit becomes the circuit's name, and is an
//!   error outside of any circuit;
//! - a multi-dimensional array type or construction becomes nested
//!   single-dimension ones, innermost dimension last; a dimension of zero
//!   is an error;
//! - a tuple type of exactly one element is an error;
//! - a compound assignment becomes a plain assignment whose value reads the
//!   target through the same access chain;
//! - a string literal becomes an inline array of character literals, each
//!   spanning its own bytes of the source;
//! - a function without an output type gets the empty tuple.
//!
//! The executable pass in [`crate::canonicalizer`] returns exactly what
//! these functions say, and [`crate::canonical_laws`] proves the pass
//! idempotent.

use vstd::prelude::*;

use crate::common::{Char, CharValue, IdentifierV};
use crate::errors::AstError;
use crate::expression::{
    AccessExpressionV, ArrayAccessV, ArrayInitExpressionV, ArrayInlineExpressionV,
    ArrayRangeAccessV, BinaryExpressionV, BinaryOperation, CallExpressionV, CastExpressionV,
    CircuitInitExpressionV, CircuitVariableInitializerV, ExpressionV, MemberAccessV,
    SpreadOrExpressionV, StaticAccessV, TernaryExpressionV, TupleAccessV, TupleInitExpressionV,
    UnaryExpressionV, ValueExpressionV,
};
use crate::program::{
    AliasV, CircuitMemberV, CircuitV, FunctionInputV, FunctionInputVariableV, FunctionV, ProgramV,
};
use crate::span::Span;
use crate::statement::{
    AssignOperation, AssignStatementV, AssigneeAccessV, AssigneeV, BlockV, ConditionalStatementV,
    ConsoleArgsV, ConsoleFunctionV, ConsoleStatementV, DefinitionStatementV, ExpressionStatementV,
    IterationStatementV, ReturnStatementV, StatementV,
};
use crate::types::TypeV;

verus! {

broadcast use vstd::std_specs::vec::group_vec_axioms, vstd::seq::group_seq_axioms;

// ---------------------------------------------------------------------------
// Types

/// Nested single-dimension arrays over `base`, outermost dimension first:
/// `nest_array_type(b, [2, 1])` is `[[b; 1]; 2]`.
pub open spec fn nest_array_type(base: TypeV, dims: Seq<u64>) -> TypeV
    decreases dims.len(),
{
    if dims.len() == 0 {
        base
    } else {
        TypeV::Array(Box::new(nest_array_type(base, dims.drop_first())), seq![dims[0]])
    }
}

/// Whether some dimension is zero.
pub open spec fn has_zero_dimension(dims: Seq<u64>) -> bool {
    exists|i: int| 0 <= i < dims.len() && dims[i] == 0
}

/// The canonical form of a type, or the first error. `span` is the span of
/// the construct the type was written in; `circuit` is the name of the
/// enclosing circuit, if any.
pub open spec fn canon_type(t: TypeV, span: Span, circuit: Option<IdentifierV>) -> Result<
    TypeV,
    AstError,
>
    decreases t,
{
    match t {
        TypeV::SelfType => match circuit {
            Option::None => Err(AstError::BigSelfOutsideOfCircuit(span)),
            Option::Some(name) => Ok(TypeV::Identifier(name)),
        },
        TypeV::Array(base, dims) => match canon_type(*base, span, circuit) {
            Err(e) => Err(e),
            Ok(b) => {
                if dims.len() == 0 {
                    Ok(TypeV::Array(Box::new(b), dims))
                } else if has_zero_dimension(dims) {
                    Err(AstError::InvalidArrayDimensionSize(span))
                } else {
                    Ok(nest_array_type(b, dims))
                }
            },
        },
        TypeV::Tuple(ts) => match canon_type_seq(ts, span, circuit) {
            Err(e) => Err(e),
            Ok(elems) => {
                if elems.len() == 1 {
                    Err(AstError::InvalidTupleDimensionSize(span))
                } else {
                    Ok(TypeV::Tuple(elems))
                }
            },
        },
        _ => Ok(t),
    }
}

/// Each element of `ts` canonicalized, or the first error.
pub open spec fn canon_type_seq(
    ts: Seq<TypeV>,
    span: Span,
    circuit: Option<IdentifierV>,
) -> Result<Seq<TypeV>, AstError>
    decreases ts,
{
    if ts.len() == 0 {
        Ok(Seq::empty())
    } else {
        match canon_type(ts[0], span, circuit) {
            Err(e) => Err(e),
            Ok(h) => match canon_type_seq(ts.drop_first(), span, circuit) {
                Err(e) => Err(e),
                Ok(rest) => Ok(seq![h] + rest),
            },
        }
    }
}

// ---------------------------------------------------------------------------
// String literal spans

/// The position of the first `}` at or after `start`, or the end of the
/// source if there is none.
pub open spec fn brace_end(src: Seq<u8>, start: nat) -> nat
    decreases src.len() - start,
{
    if start >= src.len() {
        src.len()
    } else if src[start as int] == 125u8 {
        start
    } else {
        brace_end(src, start + 1)
    }
}

/// How many source bytes the character written at byte `pos` covers: one
/// for a plain character; for an escape, the whole escape sequence
/// (`\xNN`, `\u{...}`, or a single-character escape).
pub open spec fn char_width(src: Seq<u8>, pos: nat) -> nat {
    if pos >= src.len() {
        1
    } else if src[pos as int] != 92u8 {
        1
    } else if pos + 1 < src.len() && src[pos as int + 1] == 120u8 {
        4
    } else if pos + 1 < src.len() && src[pos as int + 1] == 117u8 {
        if brace_end(src, pos + 2) + 1 >= pos {
            (brace_end(src, pos + 2) + 1 - pos) as nat
        } else {
            1
        }
    } else {
        2
    }
}

/// `char_width`, cut down so a span never runs past the end of the source.
pub open spec fn clamped_width(src: Seq<u8>, pos: nat) -> nat {
    if pos >= src.len() {
        0
    } else if char_width(src, pos) <= src.len() - pos {
        char_width(src, pos)
    } else {
        (src.len() - pos) as nat
    }
}

/// The elements of the inline array a string literal becomes: one character
/// literal per character, each spanning its own bytes starting at `pos`.
pub open spec fn string_elements(src: Seq<u8>, pos: nat, chars: Seq<Char>) -> Seq<
    SpreadOrExpressionV,
>
    decreases chars.len(),
{
    if chars.len() == 0 {
        Seq::empty()
    } else {
        let w = clamped_width(src, pos);
        seq![
            SpreadOrExpressionV::Expression(
                ExpressionV::Value(
                    ValueExpressionV::Char(
                        CharValue {
                            character: chars[0],
                            span: Span { lo: pos as usize, hi: (pos + w) as usize },
                        },
                    ),
                ),
            ),
        ] + string_elements(src, pos + w, chars.drop_first())
    }
}

/// Where the first character of a string literal with span `span` starts:
/// one past the opening quote, cut down to the end of the source.
pub open spec fn string_start(src: Seq<u8>, span: Span) -> nat {
    if span.lo + 1 <= src.len() {
        (span.lo + 1) as nat
    } else {
        src.len()
    }
}

// ---------------------------------------------------------------------------
// Expressions

/// The canonical form of an expression, or the first error.
pub open spec fn canon_expr(e: ExpressionV, circuit: Option<IdentifierV>, src: Seq<u8>) -> Result<
    ExpressionV,
    AstError,
>
    decreases e,
{
    match e {
        ExpressionV::Identifier(id) => {
            if id.name == "Self"@ && circuit is Some {
                Ok(ExpressionV::Identifier(circuit->0))
            } else {
                Ok(ExpressionV::Identifier(id))
            }
        },
        ExpressionV::Value(v) => match v {
            ValueExpressionV::String(chars, span) => {
                if chars.len() == 0 {
                    Err(AstError::EmptyString(span))
                } else {
                    Ok(
                        ExpressionV::ArrayInline(
                            ArrayInlineExpressionV {
                                elements: string_elements(src, string_start(src, span), chars),
                                span,
                            },
                        ),
                    )
                }
            },
            _ => Ok(ExpressionV::Value(v)),
        },
        ExpressionV::Unary(u) => match canon_expr(*u.inner, circuit, src) {
            Err(err) => Err(err),
            Ok(inner) => Ok(
                ExpressionV::Unary(
                    UnaryExpressionV { inner: Box::new(inner), op: u.op, span: u.span },
                ),
            ),
        },
        ExpressionV::Binary(b) => match canon_expr(*b.left, circuit, src) {
            Err(err) => Err(err),
            Ok(left) => match canon_expr(*b.right, circuit, src) {
                Err(err) => Err(err),
                Ok(right) => Ok(
                    ExpressionV::Binary(
                        BinaryExpressionV {
                            left: Box::new(left),
                            right: Box::new(right),
                            op: b.op,
                            span: b.span,
                        },
                    ),
                ),
            },
        },
        ExpressionV::Ternary(t) => match canon_expr(*t.condition, circuit, src) {
            Err(err) => Err(err),
            Ok(condition) => match canon_expr(*t.if_true, circuit, src) {
                Err(err) => Err(err),
                Ok(if_true) => match canon_expr(*t.if_false, circuit, src) {
                    Err(err) => Err(err),
                    Ok(if_false) => Ok(
                        ExpressionV::Ternary(
                            TernaryExpressionV {
                                condition: Box::new(condition),
                                if_true: Box::new(if_true),
                                if_false: Box::new(if_false),
                                span: t.span,
                            },
                        ),
                    ),
                },
            },
        },
        ExpressionV::Cast(c) => match canon_expr(*c.inner, circuit, src) {
            Err(err) => Err(err),
            Ok(inner) => match canon_type(c.target_type, c.span, circuit) {
                Err(err) => Err(err),
                Ok(target_type) => Ok(
                    ExpressionV::Cast(
                        CastExpressionV { inner: Box::new(inner), target_type, span: c.span },
                    ),
                ),
            },
        },
        ExpressionV::Access(a) => match canon_access(a, circuit, src) {
            Err(err) => Err(err),
            Ok(a2) => Ok(ExpressionV::Access(a2)),
        },
        ExpressionV::ArrayInline(a) => match canon_spread_seq(a.elements, circuit, src) {
            Err(err) => Err(err),
            Ok(elements) => Ok(
                ExpressionV::ArrayInline(ArrayInlineExpressionV { elements, span: a.span }),
            ),
        },
        ExpressionV::ArrayInit(a) => {
            if a.dimensions.len() == 0 || has_zero_dimension(a.dimensions) {
                Err(AstError::InvalidArrayDimensionSize(a.span))
            } else {
                match canon_expr(*a.element, circuit, src) {
                    Err(err) => Err(err),
                    Ok(element) => Ok(
                        ExpressionV::ArrayInit(nest_array_init(element, a.dimensions, a.span)),
                    ),
                }
            }
        },
        ExpressionV::TupleInit(t) => match canon_expr_seq(t.elements, circuit, src) {
            Err(err) => Err(err),
            Ok(elements) => Ok(
                ExpressionV::TupleInit(TupleInitExpressionV { elements, span: t.span }),
            ),
        },
        ExpressionV::CircuitInit(c) => match canon_member_init_seq(c.members, circuit, src) {
            Err(err) => Err(err),
            Ok(members) => Ok(
                ExpressionV::CircuitInit(
                    CircuitInitExpressionV {
                        name: if c.name.name == "Self"@ && circuit is Some {
                            circuit->0
                        } else {
                            c.name
                        },
                        members,
                        span: c.span,
                    },
                ),
            ),
        },
        ExpressionV::Call(c) => match canon_expr(*c.function, circuit, src) {
            Err(err) => Err(err),
            Ok(function) => match canon_expr_seq(c.arguments, circuit, src) {
                Err(err) => Err(err),
                Ok(arguments) => Ok(
                    ExpressionV::Call(
                        CallExpressionV { function: Box::new(function), arguments, span: c.span },
                    ),
                ),
            },
        },
        ExpressionV::Error(err) => Ok(ExpressionV::Error(err)),
    }
}

/// Nested single-dimension array constructions over `element`, outermost
/// dimension first.
pub open spec fn nest_array_init(
    element: ExpressionV,
    dims: Seq<u64>,
    span: Span,
) -> ArrayInitExpressionV
    decreases dims.len(),
{
    if dims.len() <= 1 {
        ArrayInitExpressionV { element: Box::new(element), dimensions: dims, span }
    } else {
        ArrayInitExpressionV {
            element: Box::new(
                ExpressionV::ArrayInit(nest_array_init(element, dims.drop_first(), span)),
            ),
            dimensions: seq![dims[0]],
            span,
        }
    }
}

/// The canonical form of an access expression, or the first error.
pub open spec fn canon_access(
    a: AccessExpressionV,
    circuit: Option<IdentifierV>,
    src: Seq<u8>,
) -> Result<AccessExpressionV, AstError>
    decreases a,
{
    match a {
        AccessExpressionV::Array(aa) => match canon_expr(*aa.array, circuit, src) {
            Err(err) => Err(err),
            Ok(array) => match canon_expr(*aa.index, circuit, src) {
                Err(err) => Err(err),
                Ok(index) => Ok(
                    AccessExpressionV::Array(
                        ArrayAccessV {
                            array: Box::new(array),
                            index: Box::new(index),
                            span: aa.span,
                        },
                    ),
                ),
            },
        },
        AccessExpressionV::ArrayRange(ar) => match canon_expr(*ar.array, circuit, src) {
            Err(err) => Err(err),
            Ok(array) => match canon_opt_box_expr(ar.left, circuit, src) {
                Err(err) => Err(err),
                Ok(left) => match canon_opt_box_expr(ar.right, circuit, src) {
                    Err(err) => Err(err),
                    Ok(right) => Ok(
                        AccessExpressionV::ArrayRange(
                            ArrayRangeAccessV {
                                array: Box::new(array),
                                left: match left {
                                    Option::None => Option::None,
                                    Option::Some(e) => Option::Some(Box::new(e)),
                                },
                                right: match right {
                                    Option::None => Option::None,
                                    Option::Some(e) => Option::Some(Box::new(e)),
                                },
                                span: ar.span,
                            },
                        ),
                    ),
                },
            },
        },
        AccessExpressionV::Member(m) => match canon_expr(*m.inner, circuit, src) {
            Err(err) => Err(err),
            Ok(inner) => Ok(
                AccessExpressionV::Member(
                    MemberAccessV {
                        inner: Box::new(inner),
                        name: m.name,
                        span: m.span,
                        type_: Option::None,
                    },
                ),
            ),
        },
        AccessExpressionV::Tuple(t) => match canon_expr(*t.tuple, circuit, src) {
            Err(err) => Err(err),
            Ok(tuple) => Ok(
                AccessExpressionV::Tuple(
                    TupleAccessV { tuple: Box::new(tuple), index: t.index, span: t.span },
                ),
            ),
        },
        AccessExpressionV::Static(s) => match canon_expr(*s.inner, circuit, src) {
            Err(err) => Err(err),
            Ok(inner) => match canon_type(s.type_, s.span, circuit) {
                Err(err) => Err(err),
                Ok(type_) => Ok(
                    AccessExpressionV::Static(
                        StaticAccessV { inner: Box::new(inner), name: s.name, type_, span: s.span },
                    ),
                ),
            },
        },
    }
}

/// Each expression of `es` canonicalized, or the first error.
pub open spec fn canon_expr_seq(
    es: Seq<ExpressionV>,
    circuit: Option<IdentifierV>,
    src: Seq<u8>,
) -> Result<Seq<ExpressionV>, AstError>
    decreases es,
{
    if es.len() == 0 {
        Ok(Seq::empty())
    } else {
        match canon_expr(es[0], circuit, src) {
            Err(err) => Err(err),
            Ok(h) => match canon_expr_seq(es.drop_first(), circuit, src) {
                Err(err) => Err(err),
                Ok(rest) => Ok(seq![h] + rest),
            },
        }
    }
}

/// An optional expression canonicalized.
pub open spec fn canon_opt_expr(
    e: Option<ExpressionV>,
    circuit: Option<IdentifierV>,
    src: Seq<u8>,
) -> Result<Option<ExpressionV>, AstError>
    decreases e,
{
    match e {
        Option::None => Ok(Option::None),
        Option::Some(e0) => match canon_expr(e0, circuit, src) {
            Err(err) => Err(err),
            Ok(e1) => Ok(Option::Some(e1)),
        },
    }
}

/// An optional boxed expression canonicalized.
pub open spec fn canon_opt_box_expr(
    e: Option<Box<ExpressionV>>,
    circuit: Option<IdentifierV>,
    src: Seq<u8>,
) -> Result<Option<ExpressionV>, AstError>
    decreases e,
{
    match e {
        Option::None => Ok(Option::None),
        Option::Some(e0) => match canon_expr(*e0, circuit, src) {
            Err(err) => Err(err),
            Ok(e1) => Ok(Option::Some(e1)),
        },
    }
}

/// Each element of an inline array canonicalized, or the first error.
pub open spec fn canon_spread_seq(
    es: Seq<SpreadOrExpressionV>,
    circuit: Option<IdentifierV>,
    src: Seq<u8>,
) -> Result<Seq<SpreadOrExpressionV>, AstError>
    decreases es,
{
    if es.len() == 0 {
        Ok(Seq::empty())
    } else {
        let h0 = match es[0] {
            SpreadOrExpressionV::Spread(e) => match canon_expr(e, circuit, src) {
                Err(err) => Err(err),
                Ok(e1) => Ok(SpreadOrExpressionV::Spread(e1)),
            },
            SpreadOrExpressionV::Expression(e) => match canon_expr(e, circuit, src) {
                Err(err) => Err(err),
                Ok(e1) => Ok(SpreadOrExpressionV::Expression(e1)),
            },
        };
        match h0 {
            Err(err) => Err(err),
            Ok(h) => match canon_spread_seq(es.drop_first(), circuit, src) {
                Err(err) => Err(err),
                Ok(rest) => Ok(seq![h] + rest),
            },
        }
    }
}

/// Each member initializer of a circuit construction canonicalized, or the
/// first error.
pub open spec fn canon_member_init_seq(
    ms: Seq<CircuitVariableInitializerV>,
    circuit: Option<IdentifierV>,
    src: Seq<u8>,
) -> Result<Seq<CircuitVariableInitializerV>, AstError>
    decreases ms,
{
    if ms.len() == 0 {
        Ok(Seq::empty())
    } else {
        match canon_opt_expr(ms[0].expression, circuit, src) {
            Err(err) => Err(err),
            Ok(expression) => match canon_member_init_seq(ms.drop_first(), circuit, src) {
                Err(err) => Err(err),
                Ok(rest) => Ok(
                    seq![CircuitVariableInitializerV { identifier: ms[0].identifier, expression }]
                        + rest,
                ),
            },
        }
    }
}

// ---------------------------------------------------------------------------
// Assignments

/// The binary operator a compound assignment operator desugars to.
/// `AssignOperation::Assign` is not a compound operator; it is mapped
/// arbitrarily and callers never apply this function to it.
pub open spec fn compound_op(op: AssignOperation) -> BinaryOperation {
    match op {
        AssignOperation::Assign => BinaryOperation::Add,
        AssignOperation::Add => BinaryOperation::Add,
        AssignOperation::Sub => BinaryOperation::Sub,
        AssignOperation::Mul => BinaryOperation::Mul,
        AssignOperation::Div => BinaryOperation::Div,
        AssignOperation::Pow => BinaryOperation::Pow,
        AssignOperation::Or => BinaryOperation::Or,
        AssignOperation::And => BinaryOperation::And,
        AssignOperation::BitOr => BinaryOperation::BitOr,
        AssignOperation::BitAnd => BinaryOperation::BitAnd,
        AssignOperation::BitXor => BinaryOperation::BitXor,
        AssignOperation::Shr => BinaryOperation::Shr,
        AssignOperation::ShrSigned => BinaryOperation::ShrSigned,
        AssignOperation::Shl => BinaryOperation::Shl,
        AssignOperation::Mod => BinaryOperation::Mod,
    }
}

/// One canonicalized access step of an assignment target.
pub open spec fn canon_assignee_access(
    a: AssigneeAccessV,
    circuit: Option<IdentifierV>,
    src: Seq<u8>,
) -> Result<AssigneeAccessV, AstError>
    decreases a,
{
    match a {
        AssigneeAccessV::ArrayRange(l, r) => match canon_opt_expr(l, circuit, src) {
            Err(err) => Err(err),
            Ok(l1) => match canon_opt_expr(r, circuit, src) {
                Err(err) => Err(err),
                Ok(r1) => Ok(AssigneeAccessV::ArrayRange(l1, r1)),
            },
        },
        AssigneeAccessV::ArrayIndex(e) => match canon_expr(e, circuit, src) {
            Err(err) => Err(err),
            Ok(e1) => Ok(AssigneeAccessV::ArrayIndex(e1)),
        },
        _ => Ok(a),
    }
}

/// Each access step canonicalized, or the first error.
pub open spec fn canon_access_seq(
    accesses: Seq<AssigneeAccessV>,
    circuit: Option<IdentifierV>,
    src: Seq<u8>,
) -> Result<Seq<AssigneeAccessV>, AstError>
    decreases accesses,
{
    if accesses.len() == 0 {
        Ok(Seq::empty())
    } else {
        match canon_assignee_access(accesses[0], circuit, src) {
            Err(err) => Err(err),
            Ok(h) => match canon_access_seq(accesses.drop_first(), circuit, src) {
                Err(err) => Err(err),
                Ok(rest) => Ok(seq![h] + rest),
            },
        }
    }
}

/// The access expression one access step wraps a base expression in.
pub open spec fn chain_step(start: ExpressionV, access: AssigneeAccessV, span: Span) -> ExpressionV {
    match access {
        AssigneeAccessV::ArrayIndex(index) => ExpressionV::Access(
            AccessExpressionV::Array(
                ArrayAccessV { array: Box::new(start), index: Box::new(index), span },
            ),
        ),
        AssigneeAccessV::ArrayRange(l, r) => ExpressionV::Access(
            AccessExpressionV::ArrayRange(
                ArrayRangeAccessV {
                    array: Box::new(start),
                    left: match l {
                        Option::None => Option::None,
                        Option::Some(e) => Option::Some(Box::new(e)),
                    },
                    right: match r {
                        Option::None => Option::None,
                        Option::Some(e) => Option::Some(Box::new(e)),
                    },
                    span,
                },
            ),
        ),
        AssigneeAccessV::Tuple(n, _) => ExpressionV::Access(
            AccessExpressionV::Tuple(TupleAccessV { tuple: Box::new(start), index: n, span }),
        ),
        AssigneeAccessV::Member(name) => ExpressionV::Access(
            AccessExpressionV::Member(
                MemberAccessV { inner: Box::new(start), name, span, type_: Option::None },
            ),
        ),
    }
}

/// The expression that reads a value through an access chain: `start`
/// wrapped in one access expression per step, left to right, every node
/// carrying `span`.
pub open spec fn access_chain(start: ExpressionV, accesses: Seq<AssigneeAccessV>, span: Span) -> ExpressionV
    decreases accesses.len(),
{
    if accesses.len() == 0 {
        start
    } else {
        access_chain(chain_step(start, accesses[0], span), accesses.drop_first(), span)
    }
}

/// The canonicalized assignment target.
pub open spec fn canon_assignee(
    a: AssigneeV,
    circuit: Option<IdentifierV>,
    src: Seq<u8>,
) -> Result<AssigneeV, AstError> {
    match canon_access_seq(a.accesses, circuit, src) {
        Err(err) => Err(err),
        Ok(accesses) => Ok(AssigneeV { identifier: a.identifier, accesses, span: a.span }),
    }
}

/// The canonical form of an assignment statement: the target and value are
/// canonicalized, and a compound operator becomes a plain assignment whose
/// value applies the operator to a read of the target.
pub open spec fn canon_assign(
    a: AssignStatementV,
    circuit: Option<IdentifierV>,
    src: Seq<u8>,
) -> Result<AssignStatementV, AstError> {
    match canon_assignee(a.assignee, circuit, src) {
        Err(err) => Err(err),
        Ok(assignee) => match canon_expr(a.value, circuit, src) {
            Err(err) => Err(err),
            Ok(value) => {
                if a.operation is Assign {
                    Ok(
                        AssignStatementV {
                            operation: AssignOperation::Assign,
                            assignee,
                            value,
                            span: a.span,
                        },
                    )
                } else {
                    let left = access_chain(
                        ExpressionV::Identifier(assignee.identifier),
                        assignee.accesses,
                        a.span,
                    );
                    Ok(
                        AssignStatementV {
                            operation: AssignOperation::Assign,
                            assignee,
                            value: ExpressionV::Binary(
                                BinaryExpressionV {
                                    left: Box::new(left),
                                    right: Box::new(value),
                                    op: compound_op(a.operation),
                                    span: a.span,
                                },
                            ),
                            span: a.span,
                        },
                    )
                }
            },
        },
    }
}

// ---------------------------------------------------------------------------
// Statements

/// The canonical form of a definition statement.
pub open spec fn canon_definition(
    d: DefinitionStatementV,
    circuit: Option<IdentifierV>,
    src: Seq<u8>,
) -> Result<DefinitionStatementV, AstError> {
    match canon_expr(d.value, circuit, src) {
        Err(err) => Err(err),
        Ok(value) => match canon_type(d.type_, d.span, circuit) {
            Err(err) => Err(err),
            Ok(type_) => Ok(
                DefinitionStatementV {
                    declaration_type: d.declaration_type,
                    variable_names: d.variable_names,
                    type_,
                    value,
                    span: d.span,
                },
            ),
        },
    }
}

/// The canonical form of a statement, or the first error.
pub open spec fn canon_statement(
    s: StatementV,
    circuit: Option<IdentifierV>,
    src: Seq<u8>,
) -> Result<StatementV, AstError>
    decreases s,
{
    match s {
        StatementV::Return(r) => match canon_expr(r.expression, circuit, src) {
            Err(err) => Err(err),
            Ok(expression) => Ok(StatementV::Return(ReturnStatementV { expression, span: r.span })),
        },
        StatementV::Definition(d) => match canon_definition(d, circuit, src) {
            Err(err) => Err(err),
            Ok(d1) => Ok(StatementV::Definition(d1)),
        },
        StatementV::Assign(a) => match canon_assign(a, circuit, src) {
            Err(err) => Err(err),
            Ok(a1) => Ok(StatementV::Assign(a1)),
        },
        StatementV::Conditional(c) => match canon_expr(c.condition, circuit, src) {
            Err(err) => Err(err),
            Ok(condition) => match canon_block(c.block, circuit, src) {
                Err(err) => Err(err),
                Ok(block) => match c.next {
                    Option::None => Ok(
                        StatementV::Conditional(
                            ConditionalStatementV {
                                condition,
                                block,
                                next: Option::None,
                                span: c.span,
                            },
                        ),
                    ),
                    Option::Some(n) => match canon_statement(*n, circuit, src) {
                        Err(err) => Err(err),
                        Ok(n1) => Ok(
                            StatementV::Conditional(
                                ConditionalStatementV {
                                    condition,
                                    block,
                                    next: Option::Some(Box::new(n1)),
                                    span: c.span,
                                },
                            ),
                        ),
                    },
                },
            },
        },
        StatementV::Iteration(it) => match canon_type(it.type_, it.span, circuit) {
            Err(err) => Err(err),
            Ok(type_) => match canon_expr(it.start, circuit, src) {
                Err(err) => Err(err),
                Ok(start) => match canon_expr(it.stop, circuit, src) {
                    Err(err) => Err(err),
                    Ok(stop) => match canon_block(it.block, circuit, src) {
                        Err(err) => Err(err),
                        Ok(block) => Ok(
                            StatementV::Iteration(
                                IterationStatementV {
                                    variable: it.variable,
                                    type_,
                                    start,
                                    stop,
                                    inclusive: it.inclusive,
                                    block,
                                    span: it.span,
                                },
                            ),
                        ),
                    },
                },
            },
        },
        StatementV::Console(c) => {
            let f1 = match c.function {
                ConsoleFunctionV::Assert(e) => match canon_expr(e, circuit, src) {
                    Err(err) => Err(err),
                    Ok(e1) => Ok(ConsoleFunctionV::Assert(e1)),
                },
                ConsoleFunctionV::Error(args) => match canon_expr_seq(
                    args.parameters,
                    circuit,
                    src,
                ) {
                    Err(err) => Err(err),
                    Ok(parameters) => Ok(
                        ConsoleFunctionV::Error(
                            ConsoleArgsV { string: args.string, parameters, span: args.span },
                        ),
                    ),
                },
                ConsoleFunctionV::Log(args) => match canon_expr_seq(args.parameters, circuit, src) {
                    Err(err) => Err(err),
                    Ok(parameters) => Ok(
                        ConsoleFunctionV::Log(
                            ConsoleArgsV { string: args.string, parameters, span: args.span },
                        ),
                    ),
                },
            };
            match f1 {
                Err(err) => Err(err),
                Ok(function) => Ok(StatementV::Console(ConsoleStatementV { function, span: c.span })),
            }
        },
        StatementV::Expression(e) => match canon_expr(e.expression, circuit, src) {
            Err(err) => Err(err),
            Ok(expression) => Ok(
                StatementV::Expression(ExpressionStatementV { expression, span: e.span }),
            ),
        },
        StatementV::Block(b) => match canon_block(b, circuit, src) {
            Err(err) => Err(err),
            Ok(b1) => Ok(StatementV::Block(b1)),
        },
    }
}

/// Each statement of `ss` canonicalized, or the first error.
pub open spec fn canon_stmt_seq(
    ss: Seq<StatementV>,
    circuit: Option<IdentifierV>,
    src: Seq<u8>,
) -> Result<Seq<StatementV>, AstError>
    decreases ss,
{
    if ss.len() == 0 {
        Ok(Seq::empty())
    } else {
        match canon_statement(ss[0], circuit, src) {
            Err(err) => Err(err),
            Ok(h) => match canon_stmt_seq(ss.drop_first(), circuit, src) {
                Err(err) => Err(err),
                Ok(rest) => Ok(seq![h] + rest),
            },
        }
    }
}

/// The canonical form of a block.
pub open spec fn canon_block(
    b: BlockV,
    circuit: Option<IdentifierV>,
    src: Seq<u8>,
) -> Result<BlockV, AstError>
    decreases b,
{
    match canon_stmt_seq(b.statements, circuit, src) {
        Err(err) => Err(err),
        Ok(statements) => Ok(BlockV { statements, span: b.span }),
    }
}

// ---------------------------------------------------------------------------
// Declarations

/// The canonical form of a function input.
pub open spec fn canon_function_input(
    input: FunctionInputV,
    circuit: Option<IdentifierV>,
) -> Result<FunctionInputV, AstError> {
    match input {
        FunctionInputV::Variable(fv) => match canon_type(fv.type_, fv.span, circuit) {
            Err(err) => Err(err),
            Ok(type_) => Ok(
                FunctionInputV::Variable(
                    FunctionInputVariableV {
                        identifier: fv.identifier,
                        const_: fv.const_,
                        mutable: fv.mutable,
                        type_,
                        span: fv.span,
                    },
                ),
            ),
        },
        _ => Ok(input),
    }
}

/// Each function input canonicalized, or the first error.
pub open spec fn canon_input_seq(
    inputs: Seq<FunctionInputV>,
    circuit: Option<IdentifierV>,
) -> Result<Seq<FunctionInputV>, AstError>
    decreases inputs,
{
    if inputs.len() == 0 {
        Ok(Seq::empty())
    } else {
        match canon_function_input(inputs[0], circuit) {
            Err(err) => Err(err),
            Ok(h) => match canon_input_seq(inputs.drop_first(), circuit) {
                Err(err) => Err(err),
                Ok(rest) => Ok(seq![h] + rest),
            },
        }
    }
}

/// The canonical form of a function: inputs, output and body are
/// canonicalized, and a missing output type becomes the empty tuple.
pub open spec fn canon_function(
    f: FunctionV,
    circuit: Option<IdentifierV>,
    src: Seq<u8>,
) -> Result<FunctionV, AstError>
    decreases f,
{
    match canon_input_seq(f.input, circuit) {
        Err(err) => Err(err),
        Ok(input) => {
            let out1 = match f.output {
                Option::None => Ok(TypeV::Tuple(Seq::empty())),
                Option::Some(t) => canon_type(t, f.span, circuit),
            };
            match out1 {
                Err(err) => Err(err),
                Ok(output) => match canon_block(f.block, circuit, src) {
                    Err(err) => Err(err),
                    Ok(block) => Ok(
                        FunctionV {
                            identifier: f.identifier,
                            annotations: f.annotations,
                            input,
                            const_: f.const_,
                            output: Option::Some(output),
                            block,
                            core_mapping: f.core_mapping,
                            span: f.span,
                        },
                    ),
                },
            }
        },
    }
}

/// The canonical form of one circuit member; `circuit` is the enclosing
/// circuit's name, so a member typed `Self` becomes that name.
pub open spec fn canon_circuit_member(
    m: CircuitMemberV,
    circuit: Option<IdentifierV>,
    src: Seq<u8>,
) -> Result<CircuitMemberV, AstError>
    decreases m,
{
    match m {
        CircuitMemberV::CircuitConst(id, t, e) => match canon_type(t, id.span, circuit) {
            Err(err) => Err(err),
            Ok(t1) => match canon_expr(e, circuit, src) {
                Err(err) => Err(err),
                Ok(e1) => Ok(CircuitMemberV::CircuitConst(id, t1, e1)),
            },
        },
        CircuitMemberV::CircuitVariable(id, t) => match canon_type(t, id.span, circuit) {
            Err(err) => Err(err),
            Ok(t1) => Ok(CircuitMemberV::CircuitVariable(id, t1)),
        },
        CircuitMemberV::CircuitFunction(f) => match canon_function(*f, circuit, src) {
            Err(err) => Err(err),
            Ok(f1) => Ok(CircuitMemberV::CircuitFunction(Box::new(f1))),
        },
    }
}

/// Each circuit member canonicalized, or the first error.
pub open spec fn canon_member_seq(
    ms: Seq<CircuitMemberV>,
    circuit: Option<IdentifierV>,
    src: Seq<u8>,
) -> Result<Seq<CircuitMemberV>, AstError>
    decreases ms,
{
    if ms.len() == 0 {
        Ok(Seq::empty())
    } else {
        match canon_circuit_member(ms[0], circuit, src) {
            Err(err) => Err(err),
            Ok(h) => match canon_member_seq(ms.drop_first(), circuit, src) {
                Err(err) => Err(err),
                Ok(rest) => Ok(seq![h] + rest),
            },
        }
    }
}

/// The canonical form of a circuit: every member is canonicalized with the
/// circuit's own name standing for `Self`.
pub open spec fn canon_circuit(c: CircuitV, src: Seq<u8>) -> Result<CircuitV, AstError>
    decreases c,
{
    match canon_member_seq(c.members, Option::Some(c.circuit_name), src) {
        Err(err) => Err(err),
        Ok(members) => Ok(CircuitV { circuit_name: c.circuit_name, members }),
    }
}

/// Each keyed circuit canonicalized, keys kept, or the first error.
pub open spec fn canon_circuit_seq(cs: Seq<(IdentifierV, CircuitV)>, src: Seq<u8>) -> Result<
    Seq<(IdentifierV, CircuitV)>,
    AstError,
>
    decreases cs,
{
    if cs.len() == 0 {
        Ok(Seq::empty())
    } else {
        match canon_circuit(cs[0].1, src) {
            Err(err) => Err(err),
            Ok(c1) => match canon_circuit_seq(cs.drop_first(), src) {
                Err(err) => Err(err),
                Ok(rest) => Ok(seq![(cs[0].0, c1)] + rest),
            },
        }
    }
}

/// Each keyed function canonicalized, keys kept, or the first error.
pub open spec fn canon_function_seq(fs: Seq<(IdentifierV, FunctionV)>, src: Seq<u8>) -> Result<
    Seq<(IdentifierV, FunctionV)>,
    AstError,
>
    decreases fs,
{
    if fs.len() == 0 {
        Ok(Seq::empty())
    } else {
        match canon_function(fs[0].1, Option::None, src) {
            Err(err) => Err(err),
            Ok(f1) => match canon_function_seq(fs.drop_first(), src) {
                Err(err) => Err(err),
                Ok(rest) => Ok(seq![(fs[0].0, f1)] + rest),
            },
        }
    }
}

/// Each keyed alias canonicalized, keys kept, or the first error.
pub open spec fn canon_alias_seq(als: Seq<(IdentifierV, AliasV)>, src: Seq<u8>) -> Result<
    Seq<(IdentifierV, AliasV)>,
    AstError,
>
    decreases als,
{
    if als.len() == 0 {
        Ok(Seq::empty())
    } else {
        match canon_type(als[0].1.represents, als[0].1.span, Option::None) {
            Err(err) => Err(err),
            Ok(t1) => match canon_alias_seq(als.drop_first(), src) {
                Err(err) => Err(err),
                Ok(rest) => Ok(
                    seq![
                        (
                            als[0].0,
                            AliasV { name: als[0].1.name, represents: t1, span: als[0].1.span },
                        ),
                    ] + rest,
                ),
            },
        }
    }
}

/// Each keyed global constant canonicalized, keys kept, or the first error.
pub open spec fn canon_global_const_seq(
    gs: Seq<(Seq<IdentifierV>, DefinitionStatementV)>,
    src: Seq<u8>,
) -> Result<Seq<(Seq<IdentifierV>, DefinitionStatementV)>, AstError>
    decreases gs,
{
    if gs.len() == 0 {
        Ok(Seq::empty())
    } else {
        match canon_definition(gs[0].1, Option::None, src) {
            Err(err) => Err(err),
            Ok(d1) => match canon_global_const_seq(gs.drop_first(), src) {
                Err(err) => Err(err),
                Ok(rest) => Ok(seq![(gs[0].0, d1)] + rest),
            },
        }
    }
}

/// The canonical form of a whole program. Import statements and resolved
/// import sub-programs pass through unchanged: resolving imports belongs
/// to a collaborator outside this pipeline.
pub open spec fn canon_program(p: ProgramV, src: Seq<u8>) -> Result<ProgramV, AstError> {
    match canon_input_seq(p.expected_input, Option::None) {
        Err(err) => Err(err),
        Ok(expected_input) => match canon_alias_seq(p.aliases, src) {
            Err(err) => Err(err),
            Ok(aliases) => match canon_circuit_seq(p.circuits, src) {
                Err(err) => Err(err),
                Ok(circuits) => match canon_global_const_seq(p.global_consts, src) {
                    Err(err) => Err(err),
                    Ok(global_consts) => match canon_function_seq(p.functions, src) {
                        Err(err) => Err(err),
                        Ok(functions) => Ok(
                            ProgramV {
                                name: p.name,
                                expected_input,
                                import_statements: p.import_statements,
                                imports: p.imports,
                                aliases,
                                circuits,
                                global_consts,
                                functions,
                            },
                        ),
                    },
                },
            },
        },
    }
}

} // verus!
