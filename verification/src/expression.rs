//! Expression nodes of the abstract syntax tree, with their models.

use vstd::prelude::*;

use crate::common::{Char, CharValue, Identifier, IdentifierV};
use crate::span::Span;
use crate::types::{IntegerType, Type, TypeV};

verus! {

broadcast use vstd::std_specs::vec::group_vec_axioms, vstd::seq::group_seq_axioms;

/// A unary operator for a unary expression.
#[derive(Debug, Clone, Copy, PartialEq, Eq, Structural)]
pub enum UnaryOperation {
    /// The logical negation operator, i.e., `!`.
    /// For example, it transforms `true` to `false`.
    Not,
    /// The arithmetic negation operator, i.e., `-`.
    Negate,
    /// The bitwise negation operator, i.e., `~`.
    /// For example, it transforms `1010` to `0101`.
    BitNot,
}

impl UnaryOperation {
    /// The operator as written in the source.
    pub open spec fn spec_as_ref(self) -> &'static str {
        match self {
            UnaryOperation::Not => "!",
            UnaryOperation::Negate => "-",
            UnaryOperation::BitNot => "~",
        }
    }

    /// The operator as written in the source.
    pub fn as_ref(&self) -> (r: &'static str)
        ensures
            r == self.spec_as_ref(),
    {
        match self {
            UnaryOperation::Not => "!",
            UnaryOperation::Negate => "-",
            UnaryOperation::BitNot => "~",
        }
    }
}

/// A binary operator. The comparison and arithmetic operators are produced
/// by the parser; the bitwise and shift operators only arise from desugaring
/// a compound assignment.
#[derive(Debug, Clone, Copy, PartialEq, Eq, Structural)]
pub enum BinaryOperation {
    Add,
    Sub,
    Mul,
    Div,
    Pow,
    Or,
    And,
    Eq,
    Ne,
    Ge,
    Gt,
    Le,
    Lt,
    BitOr,
    BitAnd,
    BitXor,
    Shr,
    ShrSigned,
    Shl,
    Mod,
}

/// One coordinate of an affine group literal.
#[derive(Debug)]
pub enum GroupCoordinate {
    /// A written-out coordinate value.
    Number(String, Span),
    /// The sign-high recovery marker `+`.
    SignHigh,
    /// The sign-low recovery marker `-`.
    SignLow,
    /// An underscore, leaving the coordinate to be inferred.
    Inferred,
}

/// Model of a [`GroupCoordinate`].
#[verifier::ext_equal]
pub enum GroupCoordinateV {
    Number(Seq<char>, Span),
    SignHigh,
    SignLow,
    Inferred,
}

impl GroupCoordinate {
    pub open spec fn v(self) -> GroupCoordinateV {
        match self {
            GroupCoordinate::Number(s, span) => GroupCoordinateV::Number(s@, span),
            GroupCoordinate::SignHigh => GroupCoordinateV::SignHigh,
            GroupCoordinate::SignLow => GroupCoordinateV::SignLow,
            GroupCoordinate::Inferred => GroupCoordinateV::Inferred,
        }
    }
}

/// An affine group literal written as a coordinate pair.
#[derive(Debug)]
pub struct GroupTuple {
    pub x: GroupCoordinate,
    pub y: GroupCoordinate,
    pub span: Span,
}

/// Model of a [`GroupTuple`].
#[verifier::ext_equal]
pub struct GroupTupleV {
    pub x: GroupCoordinateV,
    pub y: GroupCoordinateV,
    pub span: Span,
}

impl GroupTuple {
    pub open spec fn v(self) -> GroupTupleV {
        GroupTupleV { x: self.x.v(), y: self.y.v(), span: self.span }
    }
}

/// A group literal: either a single scalar or a coordinate pair.
#[derive(Debug)]
pub enum GroupValue {
    Single(String, Span),
    Tuple(GroupTuple),
}

/// Model of a [`GroupValue`].
#[verifier::ext_equal]
pub enum GroupValueV {
    Single(Seq<char>, Span),
    Tuple(GroupTupleV),
}

impl GroupValue {
    pub open spec fn v(self) -> GroupValueV {
        match self {
            GroupValue::Single(s, span) => GroupValueV::Single(s@, span),
            GroupValue::Tuple(t) => GroupValueV::Tuple(t.v()),
        }
    }
}

/// A literal expression. Numeric literals keep their textual form; they are
/// turned into machine values only at instruction emission.
#[derive(Debug)]
pub enum ValueExpression {
    /// An address literal, e.g., `aleo1...`.
    Address(String, Span),
    /// A boolean literal, textually `true` or `false`.
    Boolean(String, Span),
    /// A character literal.
    Char(CharValue),
    /// A field-element literal, e.g., `42field`.
    Field(String, Span),
    /// A group literal, e.g., `42group`.
    Group(Box<GroupValue>),
    /// An integer literal with its type suffix, e.g., `42u8`.
    Integer(IntegerType, String, Span),
    /// A string literal, one entry per character.
    String(Vec<Char>, Span),
}

/// Model of a [`ValueExpression`].
#[verifier::ext_equal]
pub enum ValueExpressionV {
    Address(Seq<char>, Span),
    Boolean(Seq<char>, Span),
    Char(CharValue),
    Field(Seq<char>, Span),
    Group(GroupValueV),
    Integer(IntegerType, Seq<char>, Span),
    String(Seq<Char>, Span),
}

impl ValueExpression {
    pub open spec fn v(self) -> ValueExpressionV {
        match self {
            ValueExpression::Address(s, span) => ValueExpressionV::Address(s@, span),
            ValueExpression::Boolean(s, span) => ValueExpressionV::Boolean(s@, span),
            ValueExpression::Char(c) => ValueExpressionV::Char(c),
            ValueExpression::Field(s, span) => ValueExpressionV::Field(s@, span),
            ValueExpression::Group(g) => ValueExpressionV::Group(g.v()),
            ValueExpression::Integer(it, s, span) => ValueExpressionV::Integer(it, s@, span),
            ValueExpression::String(cs, span) => ValueExpressionV::String(cs@, span),
        }
    }

    /// The span this literal was read from.
    pub fn span(&self) -> (s: Span)
        ensures
            s == self.v().spec_span(),
    {
        match self {
            ValueExpression::Address(_, span) => *span,
            ValueExpression::Boolean(_, span) => *span,
            ValueExpression::Char(c) => c.span,
            ValueExpression::Field(_, span) => *span,
            ValueExpression::Group(g) => match &**g {
                GroupValue::Single(_, span) => *span,
                GroupValue::Tuple(t) => t.span,
            },
            ValueExpression::Integer(_, _, span) => *span,
            ValueExpression::String(_, span) => *span,
        }
    }
}

impl ValueExpressionV {
    /// The span this literal was read from.
    pub open spec fn spec_span(self) -> Span {
        match self {
            ValueExpressionV::Address(_, span) => span,
            ValueExpressionV::Boolean(_, span) => span,
            ValueExpressionV::Char(c) => c.span,
            ValueExpressionV::Field(_, span) => span,
            ValueExpressionV::Group(g) => match g {
                GroupValueV::Single(_, span) => span,
                GroupValueV::Tuple(t) => t.span,
            },
            ValueExpressionV::Integer(_, _, span) => span,
            ValueExpressionV::String(_, span) => span,
        }
    }
}

/// An unary expression applying an operator to an inner expression.
#[derive(Debug)]
pub struct UnaryExpression {
    /// The inner expression `op` is applied to.
    pub inner: Box<Expression>,
    /// The unary operator to apply to `inner`.
    pub op: UnaryOperation,
    /// The span covering `op inner`.
    pub span: Span,
}

/// A binary expression `left op right`.
#[derive(Debug)]
pub struct BinaryExpression {
    pub left: Box<Expression>,
    pub right: Box<Expression>,
    pub op: BinaryOperation,
    pub span: Span,
}

/// A ternary conditional expression `condition ? if_true : if_false`.
#[derive(Debug)]
pub struct TernaryExpression {
    pub condition: Box<Expression>,
    pub if_true: Box<Expression>,
    pub if_false: Box<Expression>,
    pub span: Span,
}

/// A cast expression `inner as target_type`.
#[derive(Debug)]
pub struct CastExpression {
    pub inner: Box<Expression>,
    pub target_type: Type,
    pub span: Span,
}

/// An array element access `array[index]`.
#[derive(Debug)]
pub struct ArrayAccess {
    pub array: Box<Expression>,
    pub index: Box<Expression>,
    pub span: Span,
}

/// An array range access `array[left..right]`.
#[derive(Debug)]
pub struct ArrayRangeAccess {
    pub array: Box<Expression>,
    pub left: Option<Box<Expression>>,
    pub right: Option<Box<Expression>>,
    pub span: Span,
}

/// A member access `inner.name`.
#[derive(Debug)]
pub struct MemberAccess {
    pub inner: Box<Expression>,
    pub name: Identifier,
    pub span: Span,
    /// The member's type once known; cleared by canonicalization.
    pub type_: Option<Type>,
}

/// A tuple component access `tuple.index`.
#[derive(Debug)]
pub struct TupleAccess {
    pub tuple: Box<Expression>,
    pub index: u64,
    pub span: Span,
}

/// A static member access `inner::name`.
#[derive(Debug)]
pub struct StaticAccess {
    pub inner: Box<Expression>,
    pub name: Identifier,
    pub type_: Type,
    pub span: Span,
}

/// An access expression of any kind.
#[derive(Debug)]
pub enum AccessExpression {
    Array(ArrayAccess),
    ArrayRange(ArrayRangeAccess),
    Member(MemberAccess),
    Tuple(TupleAccess),
    Static(StaticAccess),
}

/// An element of an inline array construction: either a spread of another
/// array or a single element.
#[derive(Debug)]
pub enum SpreadOrExpression {
    Spread(Expression),
    Expression(Expression),
}

/// An inline array construction `[e1, e2, ...]`.
#[derive(Debug)]
pub struct ArrayInlineExpression {
    pub elements: Vec<SpreadOrExpression>,
    pub span: Span,
}

/// A repeated array construction `[element; dimensions]`.
#[derive(Debug)]
pub struct ArrayInitExpression {
    pub element: Box<Expression>,
    pub dimensions: Vec<u64>,
    pub span: Span,
}

/// A tuple construction `(e1, e2, ...)`.
#[derive(Debug)]
pub struct TupleInitExpression {
    pub elements: Vec<Expression>,
    pub span: Span,
}

/// One member of a circuit construction: a name and, unless shorthand
/// notation was used, the expression assigned to it.
#[derive(Debug)]
pub struct CircuitVariableInitializer {
    pub identifier: Identifier,
    pub expression: Option<Expression>,
}

/// A circuit construction `Name { member: value, ... }`.
#[derive(Debug)]
pub struct CircuitInitExpression {
    pub name: Identifier,
    pub members: Vec<CircuitVariableInitializer>,
    pub span: Span,
}

/// A function call `function(arguments...)`.
#[derive(Debug)]
pub struct CallExpression {
    pub function: Box<Expression>,
    pub arguments: Vec<Expression>,
    pub span: Span,
}

/// Placeholder for an expression recovered from a parse error.
#[derive(Debug, Clone, Copy, PartialEq, Eq, Structural)]
pub struct ErrExpression {
    pub span: Span,
}

/// An expression node.
#[derive(Debug)]
pub enum Expression {
    Identifier(Identifier),
    Value(ValueExpression),
    Unary(UnaryExpression),
    Binary(BinaryExpression),
    Ternary(TernaryExpression),
    Cast(CastExpression),
    Access(AccessExpression),
    ArrayInline(ArrayInlineExpression),
    ArrayInit(ArrayInitExpression),
    TupleInit(TupleInitExpression),
    CircuitInit(CircuitInitExpression),
    Call(CallExpression),
    Error(ErrExpression),
}

/// Model of a [`UnaryExpression`].
#[verifier::ext_equal]
pub struct UnaryExpressionV {
    pub inner: Box<ExpressionV>,
    pub op: UnaryOperation,
    pub span: Span,
}

/// Model of a [`BinaryExpression`].
#[verifier::ext_equal]
pub struct BinaryExpressionV {
    pub left: Box<ExpressionV>,
    pub right: Box<ExpressionV>,
    pub op: BinaryOperation,
    pub span: Span,
}

/// Model of a [`TernaryExpression`].
#[verifier::ext_equal]
pub struct TernaryExpressionV {
    pub condition: Box<ExpressionV>,
    pub if_true: Box<ExpressionV>,
    pub if_false: Box<ExpressionV>,
    pub span: Span,
}

/// Model of a [`CastExpression`].
#[verifier::ext_equal]
pub struct CastExpressionV {
    pub inner: Box<ExpressionV>,
    pub target_type: TypeV,
    pub span: Span,
}

/// Model of an [`ArrayAccess`].
#[verifier::ext_equal]
pub struct ArrayAccessV {
    pub array: Box<ExpressionV>,
    pub index: Box<ExpressionV>,
    pub span: Span,
}

/// Model of an [`ArrayRangeAccess`].
#[verifier::ext_equal]
pub struct ArrayRangeAccessV {
    pub array: Box<ExpressionV>,
    pub left: Option<Box<ExpressionV>>,
    pub right: Option<Box<ExpressionV>>,
    pub span: Span,
}

/// Model of a [`MemberAccess`].
#[verifier::ext_equal]
pub struct MemberAccessV {
    pub inner: Box<ExpressionV>,
    pub name: IdentifierV,
    pub span: Span,
    pub type_: Option<TypeV>,
}

/// Model of a [`TupleAccess`].
#[verifier::ext_equal]
pub struct TupleAccessV {
    pub tuple: Box<ExpressionV>,
    pub index: u64,
    pub span: Span,
}

/// Model of a [`StaticAccess`].
#[verifier::ext_equal]
pub struct StaticAccessV {
    pub inner: Box<ExpressionV>,
    pub name: IdentifierV,
    pub type_: TypeV,
    pub span: Span,
}

/// Model of an [`AccessExpression`].
#[verifier::ext_equal]
pub enum AccessExpressionV {
    Array(ArrayAccessV),
    ArrayRange(ArrayRangeAccessV),
    Member(MemberAccessV),
    Tuple(TupleAccessV),
    Static(StaticAccessV),
}

/// Model of a [`SpreadOrExpression`].
#[verifier::ext_equal]
pub enum SpreadOrExpressionV {
    Spread(ExpressionV),
    Expression(ExpressionV),
}

/// Model of an [`ArrayInlineExpression`].
#[verifier::ext_equal]
pub struct ArrayInlineExpressionV {
    pub elements: Seq<SpreadOrExpressionV>,
    pub span: Span,
}

/// Model of an [`ArrayInitExpression`].
#[verifier::ext_equal]
pub struct ArrayInitExpressionV {
    pub element: Box<ExpressionV>,
    pub dimensions: Seq<u64>,
    pub span: Span,
}

/// Model of a [`TupleInitExpression`].
#[verifier::ext_equal]
pub struct TupleInitExpressionV {
    pub elements: Seq<ExpressionV>,
    pub span: Span,
}

/// Model of a [`CircuitVariableInitializer`].
#[verifier::ext_equal]
pub struct CircuitVariableInitializerV {
    pub identifier: IdentifierV,
    pub expression: Option<ExpressionV>,
}

/// Model of a [`CircuitInitExpression`].
#[verifier::ext_equal]
pub struct CircuitInitExpressionV {
    pub name: IdentifierV,
    pub members: Seq<CircuitVariableInitializerV>,
    pub span: Span,
}

/// Model of a [`CallExpression`].
#[verifier::ext_equal]
pub struct CallExpressionV {
    pub function: Box<ExpressionV>,
    pub arguments: Seq<ExpressionV>,
    pub span: Span,
}

/// Model of an [`Expression`].
#[verifier::ext_equal]
pub enum ExpressionV {
    Identifier(IdentifierV),
    Value(ValueExpressionV),
    Unary(UnaryExpressionV),
    Binary(BinaryExpressionV),
    Ternary(TernaryExpressionV),
    Cast(CastExpressionV),
    Access(AccessExpressionV),
    ArrayInline(ArrayInlineExpressionV),
    ArrayInit(ArrayInitExpressionV),
    TupleInit(TupleInitExpressionV),
    CircuitInit(CircuitInitExpressionV),
    Call(CallExpressionV),
    Error(ErrExpression),
}

/// The models of a sequence of expressions, elementwise.
pub open spec fn exprs_v(s: Seq<Expression>) -> Seq<ExpressionV>
    decreases s,
{
    Seq::new(
        s.len(),
        |i: int|
            if 0 <= i < s.len() {
                s[i].v()
            } else {
                ExpressionV::Error(ErrExpression { span: Span { lo: 0, hi: 0 } })
            },
    )
}

/// The models of the elements of an inline array, elementwise.
pub open spec fn spreads_v(s: Seq<SpreadOrExpression>) -> Seq<SpreadOrExpressionV>
    decreases s,
{
    Seq::new(
        s.len(),
        |i: int|
            if 0 <= i < s.len() {
                s[i].v()
            } else {
                SpreadOrExpressionV::Expression(
                    ExpressionV::Error(ErrExpression { span: Span { lo: 0, hi: 0 } }),
                )
            },
    )
}

/// The models of the member initializers of a circuit construction.
pub open spec fn member_inits_v(s: Seq<CircuitVariableInitializer>) -> Seq<
    CircuitVariableInitializerV,
>
    decreases s,
{
    Seq::new(
        s.len(),
        |i: int|
            if 0 <= i < s.len() {
                s[i].v()
            } else {
                CircuitVariableInitializerV {
                    identifier: IdentifierV { name: Seq::empty(), span: Span { lo: 0, hi: 0 } },
                    expression: None,
                }
            },
    )
}

impl Expression {
    /// The model of this expression.
    pub open spec fn v(self) -> ExpressionV
        decreases self,
    {
        match self {
            Expression::Identifier(id) => ExpressionV::Identifier(id.v()),
            Expression::Value(v) => ExpressionV::Value(v.v()),
            Expression::Unary(u) => ExpressionV::Unary(
                UnaryExpressionV { inner: Box::new(u.inner.v()), op: u.op, span: u.span },
            ),
            Expression::Binary(b) => ExpressionV::Binary(
                BinaryExpressionV {
                    left: Box::new(b.left.v()),
                    right: Box::new(b.right.v()),
                    op: b.op,
                    span: b.span,
                },
            ),
            Expression::Ternary(t) => ExpressionV::Ternary(
                TernaryExpressionV {
                    condition: Box::new(t.condition.v()),
                    if_true: Box::new(t.if_true.v()),
                    if_false: Box::new(t.if_false.v()),
                    span: t.span,
                },
            ),
            Expression::Cast(c) => ExpressionV::Cast(
                CastExpressionV {
                    inner: Box::new(c.inner.v()),
                    target_type: c.target_type.v(),
                    span: c.span,
                },
            ),
            Expression::Access(a) => ExpressionV::Access(a.v()),
            Expression::ArrayInline(a) => ExpressionV::ArrayInline(
                ArrayInlineExpressionV { elements: spreads_v(a.elements@), span: a.span },
            ),
            Expression::ArrayInit(a) => ExpressionV::ArrayInit(
                ArrayInitExpressionV {
                    element: Box::new(a.element.v()),
                    dimensions: a.dimensions@,
                    span: a.span,
                },
            ),
            Expression::TupleInit(t) => ExpressionV::TupleInit(
                TupleInitExpressionV { elements: exprs_v(t.elements@), span: t.span },
            ),
            Expression::CircuitInit(c) => ExpressionV::CircuitInit(
                CircuitInitExpressionV {
                    name: c.name.v(),
                    members: member_inits_v(c.members@),
                    span: c.span,
                },
            ),
            Expression::Call(c) => ExpressionV::Call(
                CallExpressionV {
                    function: Box::new(c.function.v()),
                    arguments: exprs_v(c.arguments@),
                    span: c.span,
                },
            ),
            Expression::Error(e) => ExpressionV::Error(e),
        }
    }

    /// The span this expression covers.
    pub fn span(&self) -> (s: Span)
        ensures
            s == self.v().spec_span(),
    {
        match self {
            Expression::Identifier(id) => id.span,
            Expression::Value(v) => v.span(),
            Expression::Unary(u) => u.span,
            Expression::Binary(b) => b.span,
            Expression::Ternary(t) => t.span,
            Expression::Cast(c) => c.span,
            Expression::Access(a) => a.span(),
            Expression::ArrayInline(a) => a.span,
            Expression::ArrayInit(a) => a.span,
            Expression::TupleInit(t) => t.span,
            Expression::CircuitInit(c) => c.span,
            Expression::Call(c) => c.span,
            Expression::Error(e) => e.span,
        }
    }
}

impl AccessExpression {
    /// The model of this access expression.
    pub open spec fn v(self) -> AccessExpressionV
        decreases self,
    {
        match self {
            AccessExpression::Array(a) => AccessExpressionV::Array(
                ArrayAccessV {
                    array: Box::new(a.array.v()),
                    index: Box::new(a.index.v()),
                    span: a.span,
                },
            ),
            AccessExpression::ArrayRange(a) => AccessExpressionV::ArrayRange(
                ArrayRangeAccessV {
                    array: Box::new(a.array.v()),
                    left: match a.left {
                        Option::None => Option::None,
                        Option::Some(e) => Option::Some(Box::new(e.v())),
                    },
                    right: match a.right {
                        Option::None => Option::None,
                        Option::Some(e) => Option::Some(Box::new(e.v())),
                    },
                    span: a.span,
                },
            ),
            AccessExpression::Member(m) => AccessExpressionV::Member(
                MemberAccessV {
                    inner: Box::new(m.inner.v()),
                    name: m.name.v(),
                    span: m.span,
                    type_: match m.type_ {
                        Option::None => Option::None,
                        Option::Some(t) => Option::Some(t.v()),
                    },
                },
            ),
            AccessExpression::Tuple(t) => AccessExpressionV::Tuple(
                TupleAccessV { tuple: Box::new(t.tuple.v()), index: t.index, span: t.span },
            ),
            AccessExpression::Static(s) => AccessExpressionV::Static(
                StaticAccessV {
                    inner: Box::new(s.inner.v()),
                    name: s.name.v(),
                    type_: s.type_.v(),
                    span: s.span,
                },
            ),
        }
    }

    /// The span this access covers.
    pub fn span(&self) -> (s: Span)
        ensures
            s == self.v().spec_span(),
    {
        match self {
            AccessExpression::Array(a) => a.span,
            AccessExpression::ArrayRange(a) => a.span,
            AccessExpression::Member(m) => m.span,
            AccessExpression::Tuple(t) => t.span,
            AccessExpression::Static(s) => s.span,
        }
    }
}

impl SpreadOrExpression {
    /// The model of this element.
    pub open spec fn v(self) -> SpreadOrExpressionV
        decreases self,
    {
        match self {
            SpreadOrExpression::Spread(e) => SpreadOrExpressionV::Spread(e.v()),
            SpreadOrExpression::Expression(e) => SpreadOrExpressionV::Expression(e.v()),
        }
    }
}

impl CircuitVariableInitializer {
    /// The model of this member initializer.
    pub open spec fn v(self) -> CircuitVariableInitializerV
        decreases self,
    {
        CircuitVariableInitializerV {
            identifier: self.identifier.v(),
            expression: match self.expression {
                Option::None => Option::None,
                Option::Some(e) => Option::Some(e.v()),
            },
        }
    }
}

impl ExpressionV {
    /// The span this expression covers.
    pub open spec fn spec_span(self) -> Span {
        match self {
            ExpressionV::Identifier(id) => id.span,
            ExpressionV::Value(v) => v.spec_span(),
            ExpressionV::Unary(u) => u.span,
            ExpressionV::Binary(b) => b.span,
            ExpressionV::Ternary(t) => t.span,
            ExpressionV::Cast(c) => c.span,
            ExpressionV::Access(a) => a.spec_span(),
            ExpressionV::ArrayInline(a) => a.span,
            ExpressionV::ArrayInit(a) => a.span,
            ExpressionV::TupleInit(t) => t.span,
            ExpressionV::CircuitInit(c) => c.span,
            ExpressionV::Call(c) => c.span,
            ExpressionV::Error(e) => e.span,
        }
    }
}

impl AccessExpressionV {
    /// The span this access covers.
    pub open spec fn spec_span(self) -> Span {
        match self {
            AccessExpressionV::Array(a) => a.span,
            AccessExpressionV::ArrayRange(a) => a.span,
            AccessExpressionV::Member(m) => m.span,
            AccessExpressionV::Tuple(t) => t.span,
            AccessExpressionV::Static(s) => s.span,
        }
    }
}

} // verus!
