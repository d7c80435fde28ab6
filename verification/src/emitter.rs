//! Lowering of straight-line code into the register-based instruction set.
//!
//! Registers are allocated monotonically — a fresh register's number is
//! the count of live registers — and released in strict stack discipline.
//! An expression statement releases every register its expression
//! allocated once the statement completes.

use vstd::prelude::*;

use crate::common::Char;
use crate::errors::EmitError;
use crate::expression::{
    BinaryOperation, Expression, ExpressionV, UnaryOperation, ValueExpression, ValueExpressionV,
};
use crate::ir::{
    BinaryData, BinaryDataV, Instruction, InstructionV, Literal, LiteralV, Operand, OperandV,
    UnaryData, UnaryDataV,
};
use crate::span::Span;
use crate::statement::{Block, BlockV, Statement, StatementV};
use crate::types::IntegerType;

verus! {

broadcast use vstd::std_specs::vec::group_vec_axioms, vstd::seq::group_seq_axioms;

// ---------------------------------------------------------------------------
// Decimal literals

/// Whether `s` is a nonempty string of decimal digits.
pub open spec fn is_dec(s: Seq<char>) -> bool {
    s.len() > 0 && forall|i: int| 0 <= i < s.len() ==> '0' <= #[trigger] s[i] <= '9'
}

/// The number a digit string denotes.
pub open spec fn dec_val(s: Seq<char>) -> nat
    decreases s.len(),
{
    if s.len() == 0 {
        0
    } else {
        (dec_val(s.drop_last()) * 10 + (s.last() as u32 - 48)) as nat
    }
}

/// A longer prefix of a digit string never denotes a smaller number.
proof fn lemma_dec_val_monotone(s: Seq<char>, i: int, j: int)
    requires
        0 <= i <= j <= s.len(),
        is_dec(s),
    ensures
        dec_val(s.take(i)) <= dec_val(s.take(j)),
    decreases j - i,
{
    if i < j {
        lemma_dec_val_monotone(s, i, j - 1);
        assert(s.take(j).drop_last() =~= s.take(j - 1));
        assert(s.take(j).last() == s[j - 1]);
        assert('0' <= s[j - 1] <= '9');
        assert(dec_val(s.take(j)) == (dec_val(s.take(j - 1)) * 10 + (s.take(j).last() as u32
            - 48)) as nat);
    }
}

/// Parses a nonempty decimal digit string into its value, or `None` when
/// the string holds a non-digit, is empty, or denotes a number over
/// `u128::MAX`.
pub fn parse_dec(s: &str) -> (r: Option<u128>)
    ensures
        r matches Some(v) ==> is_dec(s@) && dec_val(s@) == v as nat,
        r is None ==> !(is_dec(s@) && dec_val(s@) <= u128::MAX),
{
    let n = s.unicode_len();
    if n == 0 {
        return None;
    }
    let mut acc: u128 = 0;
    let mut i: usize = 0;
    while i < n
        invariant
            0 < n == s@.len(),
            i <= n,
            forall|j: int| 0 <= j < i ==> '0' <= #[trigger] s@[j] <= '9',
            acc as nat == dec_val(s@.take(i as int)),
        decreases n - i,
    {
        let c = s.get_char(i);
        if !(c >= '0' && c <= '9') {
            return None;
        }
        let d: u128 = (c as u32 - 48) as u128;
        if acc > (u128::MAX - d) / 10 {
            proof {
                assert(s@.take(i as int + 1).drop_last() =~= s@.take(i as int));
                assert(s@.take(i as int + 1).last() == s@[i as int]);
                assert(dec_val(s@.take(i as int + 1)) == acc as nat * 10 + d as nat);
                assert(acc as nat * 10 + d as nat > u128::MAX as nat) by {
                    assert(acc as nat > ((u128::MAX - d) / 10) as nat);
                };
                if is_dec(s@) {
                    lemma_dec_val_monotone(s@, i as int + 1, s@.len() as int);
                    assert(s@.take(s@.len() as int) =~= s@);
                }
            }
            return None;
        }
        proof {
            assert(s@.take(i as int + 1).drop_last() =~= s@.take(i as int));
            assert(s@.take(i as int + 1).last() == s@[i as int]);
        }
        acc = acc * 10 + d;
        i = i + 1;
    }
    proof {
        assert(s@.take(n as int) =~= s@);
    }
    Some(acc)
}

// ---------------------------------------------------------------------------
// Literal lowering

/// The typed constant a literal expression lowers to, or the reason it
/// cannot: an integer literal out of its type's range or with a stray
/// character is malformed — the parser admits no such literal — and a
/// coordinate-pair group literal has no textual constant form here.
pub open spec fn lit_of_value(v: ValueExpressionV) -> Result<LiteralV, EmitError> {
    match v {
        ValueExpressionV::Address(s, _) => Ok(LiteralV::Address(s)),
        ValueExpressionV::Boolean(s, span) => {
            if s == "true"@ {
                Ok(LiteralV::Boolean(true))
            } else if s == "false"@ {
                Ok(LiteralV::Boolean(false))
            } else {
                Err(EmitError::MalformedLiteral(span))
            }
        },
        ValueExpressionV::Char(cv) => Ok(LiteralV::Char(cv.character)),
        ValueExpressionV::Field(s, _) => Ok(LiteralV::Field(s)),
        ValueExpressionV::Group(g) => match g {
            crate::expression::GroupValueV::Single(s, _) => Ok(LiteralV::Group(s)),
            crate::expression::GroupValueV::Tuple(t) => Err(EmitError::MalformedLiteral(t.span)),
        },
        ValueExpressionV::Integer(it, s, span) => {
            if is_dec(s) && dec_val(s) <= int_max(it) {
                Ok(int_literal(it, dec_val(s)))
            } else {
                Err(EmitError::MalformedLiteral(span))
            }
        },
        ValueExpressionV::String(cs, _) => Ok(LiteralV::Str(cs)),
    }
}

/// The largest value each integer type holds as a literal.
pub open spec fn int_max(it: IntegerType) -> nat {
    match it {
        IntegerType::U8 => u8::MAX as nat,
        IntegerType::U16 => u16::MAX as nat,
        IntegerType::U32 => u32::MAX as nat,
        IntegerType::U64 => u64::MAX as nat,
        IntegerType::U128 => u128::MAX as nat,
        IntegerType::I8 => i8::MAX as nat,
        IntegerType::I16 => i16::MAX as nat,
        IntegerType::I32 => i32::MAX as nat,
        IntegerType::I64 => i64::MAX as nat,
        IntegerType::I128 => i128::MAX as nat,
    }
}

/// The constant of the right width for a parsed integer literal.
pub open spec fn int_literal(it: IntegerType, v: nat) -> LiteralV {
    match it {
        IntegerType::U8 => LiteralV::U8(v as u8),
        IntegerType::U16 => LiteralV::U16(v as u16),
        IntegerType::U32 => LiteralV::U32(v as u32),
        IntegerType::U64 => LiteralV::U64(v as u64),
        IntegerType::U128 => LiteralV::U128(v as u128),
        IntegerType::I8 => LiteralV::I8(v as i8),
        IntegerType::I16 => LiteralV::I16(v as i16),
        IntegerType::I32 => LiteralV::I32(v as i32),
        IntegerType::I64 => LiteralV::I64(v as i64),
        IntegerType::I128 => LiteralV::I128(v as i128),
    }
}

// ---------------------------------------------------------------------------
// The emitter

/// One live register: its number, and the source variable it holds, if it
/// holds one.
#[derive(Debug)]
pub struct Reg {
    pub register: u64,
    pub symbol: Option<String>,
}

/// Model of a [`Reg`].
#[verifier::ext_equal]
pub struct RegV {
    pub register: u64,
    pub symbol: Option<Seq<char>>,
}

impl Reg {
    pub open spec fn v(self) -> RegV {
        RegV {
            register: self.register,
            symbol: match self.symbol {
                Option::None => Option::None,
                Option::Some(s) => Option::Some(s@),
            },
        }
    }
}

/// The models of the live registers, elementwise.
pub open spec fn regs_v(s: Seq<Reg>) -> Seq<RegV> {
    Seq::new(
        s.len(),
        |i: int|
            if 0 <= i < s.len() {
                s[i].v()
            } else {
                RegV { register: 0, symbol: Option::None }
            },
    )
}

/// The models of the emitted instructions, elementwise.
pub open spec fn instrs_v(s: Seq<Instruction>) -> Seq<InstructionV> {
    Seq::new(
        s.len(),
        |i: int|
            if 0 <= i < s.len() {
                s[i].v()
            } else {
                InstructionV::Not(
                    UnaryDataV { first: OperandV::Register(0), destination: 0 },
                )
            },
    )
}

/// The most recently pushed register holding the named variable:
/// last-write-wins lookup.
pub open spec fn lookup_reg(regs: Seq<RegV>, name: Seq<char>) -> Option<u64>
    decreases regs.len(),
{
    if regs.len() == 0 {
        Option::None
    } else if regs.last().symbol == Option::Some(name) {
        Option::Some(regs.last().register)
    } else {
        lookup_reg(regs.drop_last(), name)
    }
}

/// What emitting one expression does: the operand holding its value, the
/// live registers after, and the instructions emitted so far — or why the
/// expression cannot be lowered. Identifiers and literals allocate
/// nothing; a binary or unary expression allocates one fresh register,
/// numbered by the live-register count, and appends exactly one
/// instruction whose opcode is the direct image of the operator.
pub open spec fn emit_expr_spec(e: ExpressionV, regs: Seq<RegV>, buf: Seq<InstructionV>) -> Result<
    (OperandV, Seq<RegV>, Seq<InstructionV>),
    EmitError,
>
    decreases e,
{
    match e {
        ExpressionV::Identifier(id) => match lookup_reg(regs, id.name) {
            Option::Some(r) => Ok((OperandV::Register(r), regs, buf)),
            Option::None => Err(EmitError::UnresolvedRegister(id.span)),
        },
        ExpressionV::Value(v) => match lit_of_value(v) {
            Ok(l) => Ok((OperandV::Value(l), regs, buf)),
            Err(err) => Err(err),
        },
        ExpressionV::Binary(b) => match emit_expr_spec(*b.left, regs, buf) {
            Err(err) => Err(err),
            Ok((first, regs1, buf1)) => match emit_expr_spec(*b.right, regs1, buf1) {
                Err(err) => Err(err),
                Ok((second, regs2, buf2)) => {
                    let dest = regs2.len() as u64;
                    let data = BinaryDataV { first, second, destination: dest };
                    match Instruction::of_binary_op(b.op, data) {
                        Option::Some(instr) => Ok(
                            (
                                OperandV::Register(dest),
                                regs2 + seq![RegV { register: dest, symbol: Option::None }],
                                buf2 + seq![instr],
                            ),
                        ),
                        Option::None => Err(EmitError::UnsupportedOperator(b.span)),
                    }
                },
            },
        },
        ExpressionV::Unary(u) => match u.op {
            UnaryOperation::BitNot => Err(EmitError::UnsupportedOperator(u.span)),
            _ => match emit_expr_spec(*u.inner, regs, buf) {
                Err(err) => Err(err),
                Ok((first, regs1, buf1)) => {
                    let dest = regs1.len() as u64;
                    let data = UnaryDataV { first, destination: dest };
                    let instr = if u.op is Not {
                        InstructionV::Not(data)
                    } else {
                        InstructionV::Neg(data)
                    };
                    Ok(
                        (
                            OperandV::Register(dest),
                            regs1 + seq![RegV { register: dest, symbol: Option::None }],
                            buf1 + seq![instr],
                        ),
                    )
                },
            },
        },
        ExpressionV::Ternary(t) => Err(EmitError::UnsupportedTernary(t.span)),
        ExpressionV::Call(c) => Err(EmitError::UnsupportedCall(c.span)),
        _ => Err(EmitError::UnsupportedExpression(e.spec_span())),
    }
}

/// Emitting an expression never touches the registers and instructions
/// already there: it only appends.
pub proof fn lemma_emit_extends(e: ExpressionV, regs: Seq<RegV>, buf: Seq<InstructionV>)
    requires
        emit_expr_spec(e, regs, buf) is Ok,
    ensures
        ({
            let (_, regs2, buf2) = emit_expr_spec(e, regs, buf)->Ok_0;
            &&& regs2.len() >= regs.len()
            &&& regs2.len() <= regs.len() + expression_size(e)
            &&& regs2.take(regs.len() as int) == regs
            &&& buf2.len() >= buf.len()
            &&& buf2.take(buf.len() as int) == buf
        }),
    decreases e,
{
    match e {
        ExpressionV::Binary(b) => {
            lemma_emit_extends(*b.left, regs, buf);
            let (_, regs1, buf1) = emit_expr_spec(*b.left, regs, buf)->Ok_0;
            lemma_emit_extends(*b.right, regs1, buf1);
            let (_, regs2, buf2) = emit_expr_spec(*b.right, regs1, buf1)->Ok_0;
            assert((regs2 + seq![
                RegV {
                    register: regs2.len() as u64,
                    symbol: Option::None,
                },
            ]).take(regs.len() as int) =~= regs);
            let data = BinaryDataV {
                first: emit_expr_spec(*b.left, regs, buf)->Ok_0.0,
                second: emit_expr_spec(*b.right, regs1, buf1)->Ok_0.0,
                destination: regs2.len() as u64,
            };
            match Instruction::of_binary_op(b.op, data) {
                Option::Some(instr) => {
                    assert((buf2 + seq![instr]).take(buf.len() as int) =~= buf);
                },
                Option::None => {
                },
            }
        },
        ExpressionV::Unary(u) => {
            if !(u.op is BitNot) {
                lemma_emit_extends(*u.inner, regs, buf);
                let (first, regs1, buf1) = emit_expr_spec(*u.inner, regs, buf)->Ok_0;
                assert((regs1 + seq![
                    RegV {
                        register: regs1.len() as u64,
                        symbol: Option::None,
                    },
                ]).take(regs.len() as int) =~= regs);
                let data = UnaryDataV { first, destination: regs1.len() as u64 };
                let instr = if u.op is Not {
                    InstructionV::Not(data)
                } else {
                    InstructionV::Neg(data)
                };
                assert((buf1 + seq![instr]).take(buf.len() as int) =~= buf);
            }
        },
        _ => {
            assert(regs.take(regs.len() as int) =~= regs);
            assert(buf.take(buf.len() as int) =~= buf);
        },
    }
}

/// The per-function emission context: the live registers and the
/// append-only instruction buffer.
#[derive(Debug)]
pub struct IrEmitter {
    /// The enclosing circuit's name, when member functions are lowered.
    pub parent: Option<String>,
    /// The live registers, oldest first.
    pub registers: Vec<Reg>,
    /// Named constants made available to the function.
    pub constants: Vec<(String, Literal)>,
    /// The instructions emitted so far, in order.
    pub buffer: Vec<Instruction>,
}

impl IrEmitter {
    /// A fresh context with no registers and an empty buffer.
    pub fn new() -> (e: IrEmitter)
        ensures
            e.parent is None,
            e.registers@.len() == 0,
            e.constants@.len() == 0,
            e.buffer@.len() == 0,
    {
        IrEmitter { parent: None, registers: Vec::new(), constants: Vec::new(), buffer: Vec::new() }
    }

    /// Appends one instruction to the buffer.
    pub fn emit(&mut self, v: Instruction)
        ensures
            final (self).registers == old(self).registers,
            final (self).parent == old(self).parent,
            final (self).constants == old(self).constants,
            instrs_v(final (self).buffer@) =~= instrs_v(old(self).buffer@) + seq![v.v()],
    {
        let ghost old_buf = self.buffer@;
        let ghost vv = v.v();
        self.buffer.push(v);
        proof {
            assert(instrs_v(self.buffer@) =~= instrs_v(old_buf) + seq![vv]);
        }
    }

    /// Allocates a fresh register, numbered by the live-register count,
    /// optionally tagged with the variable it holds.
    pub fn spawn_reg(&mut self, symbol: Option<String>) -> (r: u64)
        requires
            old(self).registers@.len() <= u64::MAX,
        ensures
            r == old(self).registers@.len() as u64,
            final (self).parent == old(self).parent,
            final (self).constants == old(self).constants,
            final (self).buffer == old(self).buffer,
            regs_v(final (self).registers@) =~= regs_v(old(self).registers@) + seq![
                RegV {
                    register: r,
                    symbol: match symbol {
                        Option::None => Option::None,
                        Option::Some(s) => Option::Some(s@),
                    },
                },
            ],
    {
        let ghost old_regs = self.registers@;
        let register = self.registers.len() as u64;
        let reg = Reg { register, symbol };
        let ghost rv = reg.v();
        self.registers.push(reg);
        proof {
            assert(regs_v(self.registers@) =~= regs_v(old_regs) + seq![rv]);
        }
        register
    }

    /// Releases the most recently allocated register. Releasing with none
    /// allocated is the underflow error: an internal invariant violation,
    /// reported rather than ignored.
    pub fn drop_reg(&mut self) -> (r: Result<Reg, EmitError>)
        ensures
            final (self).parent == old(self).parent,
            final (self).constants == old(self).constants,
            final (self).buffer == old(self).buffer,
            old(self).registers@.len() == 0 ==> (r matches Err(e) && e
                == EmitError::RegisterUnderflow && regs_v(final (self).registers@) =~= regs_v(
                old(self).registers@,
            )),
            old(self).registers@.len() > 0 ==> (r matches Ok(reg) && reg.v() == regs_v(
                old(self).registers@,
            ).last() && regs_v(final (self).registers@) =~= regs_v(
                old(self).registers@,
            ).drop_last()),
    {
        let ghost old_regs = self.registers@;
        match self.registers.pop() {
            Option::Some(reg) => {
                proof {
                    assert(regs_v(self.registers@) =~= regs_v(old_regs).drop_last());
                }
                Ok(reg)
            },
            Option::None => Err(EmitError::RegisterUnderflow),
        }
    }

    /// The register holding the named variable: the most recently pushed
    /// register tagged with that name.
    pub fn find_register(&self, name: &String, span: &Span) -> (r: Result<u64, EmitError>)
        ensures
            match lookup_reg(regs_v(self.registers@), name@) {
                Option::Some(reg) => r matches Ok(x) && x == reg,
                Option::None => r matches Err(e) && e == EmitError::UnresolvedRegister(*span),
            },
    {
        let mut i: usize = self.registers.len();
        proof {
            assert(regs_v(self.registers@).take(i as int) =~= regs_v(self.registers@));
        }
        while i > 0
            invariant
                i <= self.registers@.len(),
                lookup_reg(regs_v(self.registers@), name@) == lookup_reg(
                    regs_v(self.registers@).take(i as int),
                    name@,
                ),
            decreases i,
        {
            i = i - 1;
            let matches_name = match &self.registers[i].symbol {
                Option::Some(s) => *s == *name,
                Option::None => false,
            };
            proof {
                let pre = regs_v(self.registers@).take(i as int + 1);
                assert(pre.last() == regs_v(self.registers@)[i as int]);
                assert(pre.drop_last() =~= regs_v(self.registers@).take(i as int));
            }
            if matches_name {
                return Ok(self.registers[i].register);
            }
        }
        proof {
            assert(regs_v(self.registers@).take(0) =~= Seq::<RegV>::empty());
        }
        Err(EmitError::UnresolvedRegister(*span))
    }

    /// Lowers a literal expression to a typed constant.
    pub fn get_value(&self, input: &ValueExpression) -> (r: Result<Literal, EmitError>)
        ensures
            (match r {
                Ok(l) => Ok(l.v()),
                Err(e) => Err(e),
            }) == lit_of_value(input.v()),
    {
        match input {
            ValueExpression::Address(s, _) => Ok(Literal::Address(s.clone())),
            ValueExpression::Boolean(s, span) => {
                if *s == "true".to_owned() {
                    Ok(Literal::Boolean(true))
                } else if *s == "false".to_owned() {
                    Ok(Literal::Boolean(false))
                } else {
                    Err(EmitError::MalformedLiteral(*span))
                }
            },
            ValueExpression::Char(cv) => Ok(Literal::Char(cv.character)),
            ValueExpression::Field(s, _) => Ok(Literal::Field(s.clone())),
            ValueExpression::Group(g) => match &**g {
                crate::expression::GroupValue::Single(s, _) => Ok(Literal::Group(s.clone())),
                crate::expression::GroupValue::Tuple(t) => Err(
                    EmitError::MalformedLiteral(t.span),
                ),
            },
            ValueExpression::Integer(it, s, span) => match parse_dec(s.as_str()) {
                Option::None => Err(EmitError::MalformedLiteral(*span)),
                Option::Some(v) => match it {
                    IntegerType::U8 => {
                        if v <= u8::MAX as u128 {
                            Ok(Literal::U8(v as u8))
                        } else {
                            Err(EmitError::MalformedLiteral(*span))
                        }
                    },
                    IntegerType::U16 => {
                        if v <= u16::MAX as u128 {
                            Ok(Literal::U16(v as u16))
                        } else {
                            Err(EmitError::MalformedLiteral(*span))
                        }
                    },
                    IntegerType::U32 => {
                        if v <= u32::MAX as u128 {
                            Ok(Literal::U32(v as u32))
                        } else {
                            Err(EmitError::MalformedLiteral(*span))
                        }
                    },
                    IntegerType::U64 => {
                        if v <= u64::MAX as u128 {
                            Ok(Literal::U64(v as u64))
                        } else {
                            Err(EmitError::MalformedLiteral(*span))
                        }
                    },
                    IntegerType::U128 => Ok(Literal::U128(v)),
                    IntegerType::I8 => {
                        if v <= i8::MAX as u128 {
                            Ok(Literal::I8(v as i8))
                        } else {
                            Err(EmitError::MalformedLiteral(*span))
                        }
                    },
                    IntegerType::I16 => {
                        if v <= i16::MAX as u128 {
                            Ok(Literal::I16(v as i16))
                        } else {
                            Err(EmitError::MalformedLiteral(*span))
                        }
                    },
                    IntegerType::I32 => {
                        if v <= i32::MAX as u128 {
                            Ok(Literal::I32(v as i32))
                        } else {
                            Err(EmitError::MalformedLiteral(*span))
                        }
                    },
                    IntegerType::I64 => {
                        if v <= i64::MAX as u128 {
                            Ok(Literal::I64(v as i64))
                        } else {
                            Err(EmitError::MalformedLiteral(*span))
                        }
                    },
                    IntegerType::I128 => {
                        if v <= i128::MAX as u128 {
                            Ok(Literal::I128(v as i128))
                        } else {
                            Err(EmitError::MalformedLiteral(*span))
                        }
                    },
                },
            },
            ValueExpression::String(cs, _) => {
                let mut out: Vec<Char> = Vec::new();
                let mut i: usize = 0;
                while i < cs.len()
                    invariant
                        i <= cs.len(),
                        out@ == cs@.take(i as int),
                    decreases cs.len() - i,
                {
                    out.push(cs[i]);
                    i = i + 1;
                    proof {
                        assert(out@ =~= cs@.take(i as int));
                    }
                }
                proof {
                    assert(cs@.take(cs@.len() as int) =~= cs@);
                }
                Ok(Literal::Str(out))
            },
        }
    }

    /// Lowers one expression, returning the operand that holds its value.
    /// Exactly one instruction is emitted per binary or unary node, its
    /// destination a fresh register numbered by the live-register count.
    #[verifier::rlimit(100)]
    #[verifier::spinoff_prover]
    pub fn emit_expr(&mut self, expr: &Expression) -> (r: Result<Operand, EmitError>)
        requires
            old(self).registers@.len() + expression_size(expr.v()) <= u64::MAX,
        ensures
            final (self).parent == old(self).parent,
            final (self).constants == old(self).constants,
            match r {
                Ok(op) => emit_expr_spec(
                    expr.v(),
                    regs_v(old(self).registers@),
                    instrs_v(old(self).buffer@),
                ) == Ok::<(OperandV, Seq<RegV>, Seq<InstructionV>), EmitError>(
                    (
                        op.v(),
                        regs_v(final (self).registers@),
                        instrs_v(final (self).buffer@),
                    ),
                ),
                Err(err) => emit_expr_spec(
                    expr.v(),
                    regs_v(old(self).registers@),
                    instrs_v(old(self).buffer@),
                ) == Err::<(OperandV, Seq<RegV>, Seq<InstructionV>), EmitError>(err),
            },
            r is Err ==> regs_v(final (self).registers@).len() >= old(self).registers@.len()
                && regs_v(final (self).registers@).take(old(self).registers@.len() as int)
                =~= regs_v(old(self).registers@) && instrs_v(final (self).buffer@).len()
                >= old(self).buffer@.len() && instrs_v(final (self).buffer@).take(
                old(self).buffer@.len() as int,
            ) =~= instrs_v(old(self).buffer@),
            r is Err && !(expr.v() is Binary) && !(expr.v() is Unary) ==> final (self).registers
                == old(self).registers && final (self).buffer == old(self).buffer,
            r is Err && expr.v() is Unary && expr.v()->Unary_0.op is BitNot ==> final (
            self).registers == old(self).registers && final (self).buffer == old(self).buffer,
        decreases *expr,
    {
        proof {
            if expr is Binary {
                let b = expr->Binary_0;
                assert(expression_size(expr.v()) == 1 + expression_size(b.left.v())
                    + expression_size(b.right.v()));
            }
            if expr is Unary {
                let u = expr->Unary_0;
                assert(expression_size(expr.v()) == 1 + expression_size(u.inner.v()));
            }
        }
        match expr {
            Expression::Identifier(id) => match self.find_register(&id.name, &id.span) {
                Ok(r) => Ok(Operand::Register(r)),
                Err(err) => Err(err),
            },
            Expression::Value(v) => match self.get_value(v) {
                Ok(l) => Ok(Operand::Value(l)),
                Err(err) => Err(err),
            },
            Expression::Binary(b) => {
                match self.emit_expr(&b.left) {
                    Err(err) => Err(err),
                    Ok(first) => {
                        proof {
                            lemma_emit_ok_growth(
                                b.left.v(),
                                regs_v(old(self).registers@),
                                instrs_v(old(self).buffer@),
                            );
                        }
                        let ghost regs1 = regs_v(self.registers@);
                        let ghost buf1 = instrs_v(self.buffer@);
                        match self.emit_expr(&b.right) {
                            Err(err) => Err(err),
                            Ok(second) => {
                                proof {
                                    lemma_emit_ok_growth(b.right.v(), regs1, buf1);
                                }
                                let dest = self.spawn_reg(None);
                                let data = BinaryData { first, second, destination: dest };
                                let instr = match b.op {
                                    BinaryOperation::Add => Instruction::Add(data),
                                    BinaryOperation::Sub => Instruction::Sub(data),
                                    BinaryOperation::Mul => Instruction::Mul(data),
                                    BinaryOperation::Div => Instruction::Div(data),
                                    BinaryOperation::Pow => Instruction::Pow(data),
                                    BinaryOperation::Or => Instruction::Or(data),
                                    BinaryOperation::And => Instruction::And(data),
                                    BinaryOperation::Eq => Instruction::Equal(data),
                                    BinaryOperation::Ne => Instruction::NotEqual(data),
                                    BinaryOperation::Ge => Instruction::GreaterThanOrEqual(data),
                                    BinaryOperation::Gt => Instruction::GreaterThan(data),
                                    BinaryOperation::Le => Instruction::LessThanOrEqual(data),
                                    BinaryOperation::Lt => Instruction::LessThan(data),
                                    _ => {
                                        return Err(EmitError::UnsupportedOperator(b.span));
                                    },
                                };
                                self.emit(instr);
                                Ok(Operand::Register(dest))
                            },
                        }
                    },
                }
            },
            Expression::Unary(u) => match u.op {
                UnaryOperation::BitNot => Err(EmitError::UnsupportedOperator(u.span)),
                _ => match self.emit_expr(&u.inner) {
                    Err(err) => Err(err),
                    Ok(first) => {
                        proof {
                            lemma_emit_ok_growth(
                                u.inner.v(),
                                regs_v(old(self).registers@),
                                instrs_v(old(self).buffer@),
                            );
                        }
                        let dest = self.spawn_reg(None);
                        let data = UnaryData { first, destination: dest };
                        let instr = match u.op {
                            UnaryOperation::Not => Instruction::Not(data),
                            _ => Instruction::Neg(data),
                        };
                        self.emit(instr);
                        Ok(Operand::Register(dest))
                    },
                },
            },
            Expression::Ternary(t) => Err(EmitError::UnsupportedTernary(t.span)),
            Expression::Call(c) => Err(EmitError::UnsupportedCall(c.span)),
            _ => Err(EmitError::UnsupportedExpression(expr.span())),
        }
    }
}

/// An upper bound on how many registers lowering an expression can
/// allocate: the number of its operator nodes, plus one.
pub open spec fn expression_size(e: ExpressionV) -> nat
    decreases e,
{
    match e {
        ExpressionV::Binary(b) => 1 + expression_size(*b.left) + expression_size(*b.right),
        ExpressionV::Unary(u) => 1 + expression_size(*u.inner),
        _ => 1,
    }
}

/// Lowering an expression allocates at most `expression_size` registers
/// and keeps what was there.
pub proof fn lemma_emit_ok_growth(e: ExpressionV, regs: Seq<RegV>, buf: Seq<InstructionV>)
    requires
        emit_expr_spec(e, regs, buf) is Ok,
    ensures
        ({
            let (_, regs2, buf2) = emit_expr_spec(e, regs, buf)->Ok_0;
            regs2.len() >= regs.len() && regs2.len() <= regs.len() + expression_size(e)
                && regs2.take(regs.len() as int) == regs && buf2.len() >= buf.len()
                && buf2.take(buf.len() as int) == buf
        }),
{
    lemma_emit_extends(e, regs, buf);
}


impl IrEmitter {
    /// Lowers an expression statement: emits its expression, then
    /// releases every register the expression allocated, most recent
    /// first, so the live registers are exactly what they were before —
    /// also when the expression cannot be lowered. The buffer only grows;
    /// on an error, what was already emitted stays as a prefix.
    pub fn visit_expression_statement(
        &mut self,
        s: &crate::statement::ExpressionStatement,
    ) -> (r: Result<(), EmitError>)
        requires
            old(self).registers@.len() + expression_size(s.expression.v()) <= u64::MAX,
        ensures
            final (self).parent == old(self).parent,
            final (self).constants == old(self).constants,
            regs_v(final (self).registers@) =~= regs_v(old(self).registers@),
            r is Ok ==> emit_expr_spec(
                s.expression.v(),
                regs_v(old(self).registers@),
                instrs_v(old(self).buffer@),
            ) is Ok && instrs_v(final (self).buffer@) =~= emit_expr_spec(
                s.expression.v(),
                regs_v(old(self).registers@),
                instrs_v(old(self).buffer@),
            )->Ok_0.2,
            r matches Err(err) ==> emit_expr_spec(
                s.expression.v(),
                regs_v(old(self).registers@),
                instrs_v(old(self).buffer@),
            ) == Err::<(OperandV, Seq<RegV>, Seq<InstructionV>), EmitError>(err),
            instrs_v(final (self).buffer@).len() >= old(self).buffer@.len(),
            instrs_v(final (self).buffer@).take(old(self).buffer@.len() as int) =~= instrs_v(
                old(self).buffer@,
            ),
    {
        let n0 = self.registers.len();
        let ghost regs0 = regs_v(old(self).registers@);
        let ghost buf0 = instrs_v(old(self).buffer@);
        let result = self.emit_expr(&s.expression);
        proof {
            if result is Ok {
                lemma_emit_ok_growth(s.expression.v(), regs0, buf0);
            }
        }
        let ghost regs_e = regs_v(self.registers@);
        let ghost buf_e = instrs_v(self.buffer@);
        proof {
            assert(regs_e.take(self.registers@.len() as int) =~= regs_e);
        }
        while self.registers.len() > n0
            invariant
                n0 <= self.registers@.len() <= regs_e.len(),
                regs_v(self.registers@) =~= regs_e.take(self.registers@.len() as int),
                regs_e.take(n0 as int) =~= regs0,
                self.parent == old(self).parent,
                self.constants == old(self).constants,
                instrs_v(self.buffer@) =~= buf_e,
            decreases self.registers@.len(),
        {
            let ghost pre = regs_v(self.registers@);
            let popped = self.drop_reg();
            proof {
                assert(pre.drop_last() =~= regs_e.take(self.registers@.len() as int));
            }
        }
        proof {
            assert(regs_v(self.registers@) =~= regs0);
        }
        match result {
            Ok(_) => Ok(()),
            Err(err) => Err(err),
        }
    }

    /// Lowers one statement. Only expression statements have a lowering;
    /// conditional, iteration and console statements cannot be
    /// represented, and the remaining statement kinds are not part of the
    /// straight-line fragment; `emit_stmt_spec` fixes the instructions
    /// emitted on success and the error otherwise. The live registers are
    /// exactly restored either way.
    pub fn visit_statement(&mut self, input: &Statement) -> (r: Result<(), EmitError>)
        requires
            old(self).registers@.len() + statement_budget(input.v()) <= u64::MAX,
        ensures
            final (self).parent == old(self).parent,
            final (self).constants == old(self).constants,
            regs_v(final (self).registers@) =~= regs_v(old(self).registers@),
            match r {
                Ok(_) => emit_stmt_spec(
                    input.v(),
                    regs_v(old(self).registers@),
                    instrs_v(old(self).buffer@),
                ) == Ok::<Seq<InstructionV>, EmitError>(instrs_v(final (self).buffer@)),
                Err(err) => emit_stmt_spec(
                    input.v(),
                    regs_v(old(self).registers@),
                    instrs_v(old(self).buffer@),
                ) == Err::<Seq<InstructionV>, EmitError>(err),
            },
            instrs_v(final (self).buffer@).len() >= old(self).buffer@.len(),
            instrs_v(final (self).buffer@).take(old(self).buffer@.len() as int) =~= instrs_v(
                old(self).buffer@,
            ),
        decreases *input, 0int,
    {
        match input {
            Statement::Expression(e) => match self.visit_expression_statement(e) {
                Ok(_) => Ok(()),
                Err(err) => Err(err),
            },
            Statement::Block(b) => match self.visit_block(b) {
                Ok(_) => Ok(()),
                Err(err) => Err(err),
            },
            Statement::Conditional(c) => Err(EmitError::UnsupportedConditional(c.span)),
            Statement::Iteration(it) => Err(EmitError::UnsupportedIteration(it.span)),
            Statement::Console(c) => Err(EmitError::UnsupportedConsole(c.span)),
            Statement::Return(st) => Err(EmitError::UnsupportedStatement(st.span)),
            Statement::Definition(d) => Err(EmitError::UnsupportedStatement(d.span)),
            Statement::Assign(a) => Err(EmitError::UnsupportedStatement(a.span)),
        }
    }

    /// Lowers a block statement by statement, stopping at the first
    /// statement that cannot be lowered: on success the buffer holds
    /// exactly what `emit_block_from` says, on failure exactly its error,
    /// and the live registers are exactly restored either way.
    pub fn visit_block(&mut self, input: &Block) -> (r: Result<(), EmitError>)
        requires
            old(self).registers@.len() + block_budget(input.v()) <= u64::MAX,
        ensures
            final (self).parent == old(self).parent,
            final (self).constants == old(self).constants,
            regs_v(final (self).registers@) =~= regs_v(old(self).registers@),
            match r {
                Ok(_) => emit_block_from(
                    input.v().statements,
                    0,
                    regs_v(old(self).registers@),
                    instrs_v(old(self).buffer@),
                ) == Ok::<Seq<InstructionV>, EmitError>(instrs_v(final (self).buffer@)),
                Err(err) => emit_block_from(
                    input.v().statements,
                    0,
                    regs_v(old(self).registers@),
                    instrs_v(old(self).buffer@),
                ) == Err::<Seq<InstructionV>, EmitError>(err),
            },
            instrs_v(final (self).buffer@).len() >= old(self).buffer@.len(),
            instrs_v(final (self).buffer@).take(old(self).buffer@.len() as int) =~= instrs_v(
                old(self).buffer@,
            ),
        decreases *input, 1int,
    {
        let ghost sv = input.v().statements;
        let ghost regs0 = regs_v(old(self).registers@);
        let ghost buf0 = instrs_v(old(self).buffer@);
        let mut i: usize = 0;
        while i < input.statements.len()
            invariant
                i <= input.statements@.len(),
                regs_v(self.registers@) =~= regs0,
                regs0 == regs_v(old(self).registers@),
                buf0 == instrs_v(old(self).buffer@),
                sv == input.v().statements,
                self.parent == old(self).parent,
                self.constants == old(self).constants,
                old(self).registers@.len() + block_budget(input.v()) <= u64::MAX,
                input.v().statements.len() == input.statements@.len(),
                forall|j: int|
                    0 <= j < input.statements@.len() ==> #[trigger] input.v().statements[j]
                        == input.statements@[j].v(),
                emit_block_from(sv, 0, regs0, buf0) == emit_block_from(
                    sv,
                    i as int,
                    regs0,
                    instrs_v(self.buffer@),
                ),
                instrs_v(self.buffer@).len() >= buf0.len(),
                instrs_v(self.buffer@).take(buf0.len() as int) =~= buf0,
            decreases input.statements@.len() - i,
        {
            proof {
                lemma_budget_from_bound(input.v().statements, 0, i as int);
                assert(statement_budget(input.statements@[i as int].v()) <= block_budget(
                    input.v(),
                ));
                assert(regs_v(self.registers@).len() == regs0.len());
                assert(self.registers@.len() == old(self).registers@.len());
            }
            let ghost buf_pre = instrs_v(self.buffer@);
            match self.visit_statement(&input.statements[i]) {
                Ok(_) => {
                    proof {
                        assert(regs_v(self.registers@) =~= regs0);
                        assert(emit_stmt_spec(sv[i as int], regs0, buf_pre) == Ok::<
                            Seq<InstructionV>,
                            EmitError,
                        >(instrs_v(self.buffer@)));
                        assert(instrs_v(self.buffer@).take(buf0.len() as int) =~= buf0);
                    }
                },
                Err(err) => {
                    proof {
                        assert(emit_stmt_spec(sv[i as int], regs0, buf_pre) == Err::<
                            Seq<InstructionV>,
                            EmitError,
                        >(err));
                        assert(emit_block_from(sv, i as int, regs0, buf_pre) == Err::<
                            Seq<InstructionV>,
                            EmitError,
                        >(err));
                        assert(instrs_v(self.buffer@).take(buf0.len() as int) =~= buf0);
                    }
                    return Err(err);
                },
            }
            i = i + 1;
        }
        Ok(())
    }
}

/// What lowering one statement appends: the whole buffer after, or the
/// error. An expression statement contributes its expression's
/// instructions (its registers are all released again); a nested block
/// contributes statement by statement; every other statement kind is the
/// prescribed error.
pub open spec fn emit_stmt_spec(s: StatementV, regs: Seq<RegV>, buf: Seq<InstructionV>) -> Result<
    Seq<InstructionV>,
    EmitError,
>
    decreases s, 0int, 0int,
{
    match s {
        StatementV::Expression(e) => match emit_expr_spec(e.expression, regs, buf) {
            Ok((_, _, buf2)) => Ok(buf2),
            Err(err) => Err(err),
        },
        StatementV::Block(b) => emit_block_from(b.statements, 0, regs, buf),
        StatementV::Conditional(c) => Err(EmitError::UnsupportedConditional(c.span)),
        StatementV::Iteration(it) => Err(EmitError::UnsupportedIteration(it.span)),
        StatementV::Console(c) => Err(EmitError::UnsupportedConsole(c.span)),
        StatementV::Return(st) => Err(EmitError::UnsupportedStatement(st.span)),
        StatementV::Definition(d) => Err(EmitError::UnsupportedStatement(d.span)),
        StatementV::Assign(a) => Err(EmitError::UnsupportedStatement(a.span)),
    }
}

/// What lowering the statements `ss[i..]` appends, starting from `buf`:
/// the whole buffer after, or the first error. The registers are the
/// same before every statement, each statement releasing what it
/// allocated.
pub open spec fn emit_block_from(
    ss: Seq<StatementV>,
    i: int,
    regs: Seq<RegV>,
    buf: Seq<InstructionV>,
) -> Result<Seq<InstructionV>, EmitError>
    decreases ss, 1int, ss.len() - i,
{
    if i < 0 || i >= ss.len() {
        Ok(buf)
    } else {
        match emit_stmt_spec(ss[i], regs, buf) {
            Ok(buf2) => emit_block_from(ss, i + 1, regs, buf2),
            Err(err) => Err(err),
        }
    }
}

/// The register budget one statement needs.
/// The register budget one statement needs.
pub open spec fn statement_budget(s: StatementV) -> nat
    decreases s, 0int,
{
    match s {
        StatementV::Expression(e) => expression_size(e.expression),
        StatementV::Block(b) => block_budget(b),
        _ => 0,
    }
}

/// The largest register budget any statement of a block needs.
pub open spec fn block_budget(b: BlockV) -> nat
    decreases b, 1int,
{
    block_budget_from(b.statements, 0)
}

/// A statement's budget never exceeds the budget of a list it stands in.
proof fn lemma_budget_from_bound(ss: Seq<StatementV>, j: int, i: int)
    requires
        0 <= j <= i < ss.len(),
    ensures
        statement_budget(ss[i]) <= block_budget_from(ss, j),
    decreases i - j,
{
    if j < i {
        lemma_budget_from_bound(ss, j + 1, i);
    }
}

/// The largest register budget any of `ss[i..]` needs.
pub open spec fn block_budget_from(ss: Seq<StatementV>, i: int) -> nat
    decreases ss, ss.len() - i,
{
    if i < 0 || i >= ss.len() {
        0
    } else {
        let h = statement_budget(ss[i]);
        let rest = block_budget_from(ss, i + 1);
        if h >= rest {
            h
        } else {
            rest
        }
    }
}

} // verus!
