//! The register-based instruction set the emitter lowers into.

use vstd::prelude::*;

use crate::common::Char;
use crate::types::IntegerType;

verus! {

broadcast use vstd::std_specs::vec::group_vec_axioms, vstd::seq::group_seq_axioms;

/// A typed constant, materialized from a literal expression.
#[derive(Debug)]
pub enum Literal {
    /// An address, kept in its textual form.
    Address(String),
    Boolean(bool),
    /// A field element, kept in its textual form.
    Field(String),
    /// A group element, kept in its textual form.
    Group(String),
    Char(Char),
    U8(u8),
    U16(u16),
    U32(u32),
    U64(u64),
    U128(u128),
    I8(i8),
    I16(i16),
    I32(i32),
    I64(i64),
    I128(i128),
    /// A string, one entry per character.
    Str(Vec<Char>),
}

/// Model of a [`Literal`].
#[verifier::ext_equal]
pub enum LiteralV {
    Address(Seq<char>),
    Boolean(bool),
    Field(Seq<char>),
    Group(Seq<char>),
    Char(Char),
    U8(u8),
    U16(u16),
    U32(u32),
    U64(u64),
    U128(u128),
    I8(i8),
    I16(i16),
    I32(i32),
    I64(i64),
    I128(i128),
    Str(Seq<Char>),
}

impl Literal {
    pub open spec fn v(self) -> LiteralV {
        match self {
            Literal::Address(s) => LiteralV::Address(s@),
            Literal::Boolean(b) => LiteralV::Boolean(b),
            Literal::Field(s) => LiteralV::Field(s@),
            Literal::Group(s) => LiteralV::Group(s@),
            Literal::Char(c) => LiteralV::Char(c),
            Literal::U8(n) => LiteralV::U8(n),
            Literal::U16(n) => LiteralV::U16(n),
            Literal::U32(n) => LiteralV::U32(n),
            Literal::U64(n) => LiteralV::U64(n),
            Literal::U128(n) => LiteralV::U128(n),
            Literal::I8(n) => LiteralV::I8(n),
            Literal::I16(n) => LiteralV::I16(n),
            Literal::I32(n) => LiteralV::I32(n),
            Literal::I64(n) => LiteralV::I64(n),
            Literal::I128(n) => LiteralV::I128(n),
            Literal::Str(cs) => LiteralV::Str(cs@),
        }
    }
}

/// One instruction operand: a virtual register or an inlined constant.
#[derive(Debug)]
pub enum Operand {
    Register(u64),
    Value(Literal),
}

/// Model of an [`Operand`].
#[verifier::ext_equal]
pub enum OperandV {
    Register(u64),
    Value(LiteralV),
}

impl Operand {
    pub open spec fn v(self) -> OperandV {
        match self {
            Operand::Register(r) => OperandV::Register(r),
            Operand::Value(l) => OperandV::Value(l.v()),
        }
    }
}

/// The operands of a two-input instruction; the fields are named, not
/// positional.
#[derive(Debug)]
pub struct BinaryData {
    pub first: Operand,
    pub second: Operand,
    pub destination: u64,
}

/// Model of a [`BinaryData`].
#[verifier::ext_equal]
pub struct BinaryDataV {
    pub first: OperandV,
    pub second: OperandV,
    pub destination: u64,
}

impl BinaryData {
    pub open spec fn v(self) -> BinaryDataV {
        BinaryDataV { first: self.first.v(), second: self.second.v(), destination: self.destination }
    }
}

/// The operands of a one-input instruction.
#[derive(Debug)]
pub struct UnaryData {
    pub first: Operand,
    pub destination: u64,
}

/// Model of a [`UnaryData`].
#[verifier::ext_equal]
pub struct UnaryDataV {
    pub first: OperandV,
    pub destination: u64,
}

impl UnaryData {
    pub open spec fn v(self) -> UnaryDataV {
        UnaryDataV { first: self.first.v(), destination: self.destination }
    }
}

/// The operands of a query instruction: a destination and the queried
/// values.
#[derive(Debug)]
pub struct QueryData {
    pub destination: u64,
    pub values: Vec<Operand>,
}

/// Model of a [`QueryData`].
#[verifier::ext_equal]
pub struct QueryDataV {
    pub destination: u64,
    pub values: Seq<OperandV>,
}

impl QueryData {
    pub open spec fn v(self) -> QueryDataV {
        QueryDataV {
            destination: self.destination,
            values: Seq::new(
                self.values@.len(),
                |i: int|
                    if 0 <= i < self.values@.len() {
                        self.values@[i].v()
                    } else {
                        OperandV::Register(0)
                    },
            ),
        }
    }
}

/// An instruction of the closed set the emitter targets.
#[derive(Debug)]
pub enum Instruction {
    Add(BinaryData),
    Sub(BinaryData),
    Mul(BinaryData),
    Div(BinaryData),
    Pow(BinaryData),
    Or(BinaryData),
    And(BinaryData),
    Equal(BinaryData),
    NotEqual(BinaryData),
    LessThan(BinaryData),
    LessThanOrEqual(BinaryData),
    GreaterThan(BinaryData),
    GreaterThanOrEqual(BinaryData),
    Not(UnaryData),
    Neg(UnaryData),
    TupleIndexGet(QueryData),
}

/// Model of an [`Instruction`].
#[verifier::ext_equal]
pub enum InstructionV {
    Add(BinaryDataV),
    Sub(BinaryDataV),
    Mul(BinaryDataV),
    Div(BinaryDataV),
    Pow(BinaryDataV),
    Or(BinaryDataV),
    And(BinaryDataV),
    Equal(BinaryDataV),
    NotEqual(BinaryDataV),
    LessThan(BinaryDataV),
    LessThanOrEqual(BinaryDataV),
    GreaterThan(BinaryDataV),
    GreaterThanOrEqual(BinaryDataV),
    Not(UnaryDataV),
    Neg(UnaryDataV),
    TupleIndexGet(QueryDataV),
}

impl Instruction {
    pub open spec fn v(self) -> InstructionV {
        match self {
            Instruction::Add(d) => InstructionV::Add(d.v()),
            Instruction::Sub(d) => InstructionV::Sub(d.v()),
            Instruction::Mul(d) => InstructionV::Mul(d.v()),
            Instruction::Div(d) => InstructionV::Div(d.v()),
            Instruction::Pow(d) => InstructionV::Pow(d.v()),
            Instruction::Or(d) => InstructionV::Or(d.v()),
            Instruction::And(d) => InstructionV::And(d.v()),
            Instruction::Equal(d) => InstructionV::Equal(d.v()),
            Instruction::NotEqual(d) => InstructionV::NotEqual(d.v()),
            Instruction::LessThan(d) => InstructionV::LessThan(d.v()),
            Instruction::LessThanOrEqual(d) => InstructionV::LessThanOrEqual(d.v()),
            Instruction::GreaterThan(d) => InstructionV::GreaterThan(d.v()),
            Instruction::GreaterThanOrEqual(d) => InstructionV::GreaterThanOrEqual(d.v()),
            Instruction::Not(d) => InstructionV::Not(d.v()),
            Instruction::Neg(d) => InstructionV::Neg(d.v()),
            Instruction::TupleIndexGet(d) => InstructionV::TupleIndexGet(d.v()),
        }
    }

    /// The instruction a binary operator lowers to, over the given
    /// operands: its opcode is the direct image of the operator. The
    /// bitwise, shift and modulo operators have no instruction; they
    /// yield `None`.
    pub open spec fn of_binary_op(
        op: crate::expression::BinaryOperation,
        data: BinaryDataV,
    ) -> Option<InstructionV> {
        match op {
            crate::expression::BinaryOperation::Add => Option::Some(InstructionV::Add(data)),
            crate::expression::BinaryOperation::Sub => Option::Some(InstructionV::Sub(data)),
            crate::expression::BinaryOperation::Mul => Option::Some(InstructionV::Mul(data)),
            crate::expression::BinaryOperation::Div => Option::Some(InstructionV::Div(data)),
            crate::expression::BinaryOperation::Pow => Option::Some(InstructionV::Pow(data)),
            crate::expression::BinaryOperation::Or => Option::Some(InstructionV::Or(data)),
            crate::expression::BinaryOperation::And => Option::Some(InstructionV::And(data)),
            crate::expression::BinaryOperation::Eq => Option::Some(InstructionV::Equal(data)),
            crate::expression::BinaryOperation::Ne => Option::Some(InstructionV::NotEqual(data)),
            crate::expression::BinaryOperation::Ge => Option::Some(
                InstructionV::GreaterThanOrEqual(data),
            ),
            crate::expression::BinaryOperation::Gt => Option::Some(
                InstructionV::GreaterThan(data),
            ),
            crate::expression::BinaryOperation::Le => Option::Some(
                InstructionV::LessThanOrEqual(data),
            ),
            crate::expression::BinaryOperation::Lt => Option::Some(InstructionV::LessThan(data)),
            _ => Option::None,
        }
    }
}

} // verus!
