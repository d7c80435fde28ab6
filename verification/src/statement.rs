//! Statement nodes of the abstract syntax tree, with their models.

use vstd::prelude::*;

use crate::common::{Char, Identifier, IdentifierV};
use crate::expression::{Expression, ExpressionV};
use crate::span::Span;
use crate::types::{Type, TypeV};

verus! {

broadcast use vstd::std_specs::vec::group_vec_axioms, vstd::seq::group_seq_axioms;

/// The declaration keyword of a definition statement.
#[derive(Debug, Clone, Copy, PartialEq, Eq, Structural)]
pub enum Declare {
    Let,
    Const,
}

/// One name bound by a definition statement.
#[derive(Debug)]
pub struct VariableName {
    pub mutable: bool,
    pub identifier: Identifier,
    pub span: Span,
}

/// Model of a [`VariableName`].
#[verifier::ext_equal]
pub struct VariableNameV {
    pub mutable: bool,
    pub identifier: IdentifierV,
    pub span: Span,
}

impl VariableName {
    pub open spec fn v(self) -> VariableNameV {
        VariableNameV { mutable: self.mutable, identifier: self.identifier.v(), span: self.span }
    }
}

/// A `return expression;` statement.
#[derive(Debug)]
pub struct ReturnStatement {
    pub expression: Expression,
    pub span: Span,
}

/// A `let` or `const` definition statement.
#[derive(Debug)]
pub struct DefinitionStatement {
    pub declaration_type: Declare,
    pub variable_names: Vec<VariableName>,
    pub type_: Type,
    pub value: Expression,
    pub span: Span,
}

/// The operator of an assignment statement. Everything but `Assign` is a
/// compound operator, removed by canonicalization.
#[derive(Debug, Clone, Copy, PartialEq, Eq, Structural)]
pub enum AssignOperation {
    Assign,
    Add,
    Sub,
    Mul,
    Div,
    Pow,
    Or,
    And,
    BitOr,
    BitAnd,
    BitXor,
    Shr,
    ShrSigned,
    Shl,
    Mod,
}

/// One access step on the left-hand side of an assignment.
#[derive(Debug)]
pub enum AssigneeAccess {
    ArrayRange(Option<Expression>, Option<Expression>),
    ArrayIndex(Expression),
    Tuple(u64, Span),
    Member(Identifier),
}

/// Model of an [`AssigneeAccess`].
#[verifier::ext_equal]
pub enum AssigneeAccessV {
    ArrayRange(Option<ExpressionV>, Option<ExpressionV>),
    ArrayIndex(ExpressionV),
    Tuple(u64, Span),
    Member(IdentifierV),
}

impl AssigneeAccess {
    pub open spec fn v(self) -> AssigneeAccessV {
        match self {
            AssigneeAccess::ArrayRange(l, r) => AssigneeAccessV::ArrayRange(
                match l {
                    Option::None => Option::None,
                    Option::Some(e) => Option::Some(e.v()),
                },
                match r {
                    Option::None => Option::None,
                    Option::Some(e) => Option::Some(e.v()),
                },
            ),
            AssigneeAccess::ArrayIndex(e) => AssigneeAccessV::ArrayIndex(e.v()),
            AssigneeAccess::Tuple(n, span) => AssigneeAccessV::Tuple(n, span),
            AssigneeAccess::Member(id) => AssigneeAccessV::Member(id.v()),
        }
    }
}

/// The left-hand side of an assignment: a base name and a chain of accesses.
#[derive(Debug)]
pub struct Assignee {
    pub identifier: Identifier,
    pub accesses: Vec<AssigneeAccess>,
    pub span: Span,
}

/// Model of an [`Assignee`].
#[verifier::ext_equal]
pub struct AssigneeV {
    pub identifier: IdentifierV,
    pub accesses: Seq<AssigneeAccessV>,
    pub span: Span,
}

impl Assignee {
    pub open spec fn v(self) -> AssigneeV {
        AssigneeV {
            identifier: self.identifier.v(),
            accesses: accesses_v(self.accesses@),
            span: self.span,
        }
    }
}

/// An assignment statement `assignee op value;`.
#[derive(Debug)]
pub struct AssignStatement {
    pub operation: AssignOperation,
    pub assignee: Assignee,
    pub value: Expression,
    pub span: Span,
}

/// An `if` statement, whose `next` is the `else` branch if any.
#[derive(Debug)]
pub struct ConditionalStatement {
    pub condition: Expression,
    pub block: Block,
    pub next: Option<Box<Statement>>,
    pub span: Span,
}

/// A `for variable in start..stop` iteration statement.
#[derive(Debug)]
pub struct IterationStatement {
    pub variable: Identifier,
    pub type_: Type,
    pub start: Expression,
    pub stop: Expression,
    pub inclusive: bool,
    pub block: Block,
    pub span: Span,
}

/// The arguments of a console format call.
#[derive(Debug)]
pub struct ConsoleArgs {
    pub string: Vec<Char>,
    pub parameters: Vec<Expression>,
    pub span: Span,
}

/// One of the console functions.
#[derive(Debug)]
pub enum ConsoleFunction {
    Assert(Expression),
    Error(ConsoleArgs),
    Log(ConsoleArgs),
}

/// A console statement `console.function(...);`.
#[derive(Debug)]
pub struct ConsoleStatement {
    pub function: ConsoleFunction,
    pub span: Span,
}

/// An expression statement `expr;`.
#[derive(Debug)]
pub struct ExpressionStatement {
    /// The expression to evaluate purely for its side-effects.
    pub expression: Expression,
    /// The span excluding the semicolon.
    pub span: Span,
}

/// A braced block of statements.
#[derive(Debug)]
pub struct Block {
    pub statements: Vec<Statement>,
    pub span: Span,
}

/// A statement node.
#[derive(Debug)]
pub enum Statement {
    Return(ReturnStatement),
    Definition(DefinitionStatement),
    Assign(Box<AssignStatement>),
    Conditional(ConditionalStatement),
    Iteration(Box<IterationStatement>),
    Console(ConsoleStatement),
    Expression(ExpressionStatement),
    Block(Block),
}

/// Model of a [`ReturnStatement`].
#[verifier::ext_equal]
pub struct ReturnStatementV {
    pub expression: ExpressionV,
    pub span: Span,
}

/// Model of a [`DefinitionStatement`].
#[verifier::ext_equal]
pub struct DefinitionStatementV {
    pub declaration_type: Declare,
    pub variable_names: Seq<VariableNameV>,
    pub type_: TypeV,
    pub value: ExpressionV,
    pub span: Span,
}

/// Model of an [`AssignStatement`].
#[verifier::ext_equal]
pub struct AssignStatementV {
    pub operation: AssignOperation,
    pub assignee: AssigneeV,
    pub value: ExpressionV,
    pub span: Span,
}

/// Model of a [`ConditionalStatement`].
#[verifier::ext_equal]
pub struct ConditionalStatementV {
    pub condition: ExpressionV,
    pub block: BlockV,
    pub next: Option<Box<StatementV>>,
    pub span: Span,
}

/// Model of an [`IterationStatement`].
#[verifier::ext_equal]
pub struct IterationStatementV {
    pub variable: IdentifierV,
    pub type_: TypeV,
    pub start: ExpressionV,
    pub stop: ExpressionV,
    pub inclusive: bool,
    pub block: BlockV,
    pub span: Span,
}

/// Model of a [`ConsoleArgs`].
#[verifier::ext_equal]
pub struct ConsoleArgsV {
    pub string: Seq<Char>,
    pub parameters: Seq<ExpressionV>,
    pub span: Span,
}

/// Model of a [`ConsoleFunction`].
#[verifier::ext_equal]
pub enum ConsoleFunctionV {
    Assert(ExpressionV),
    Error(ConsoleArgsV),
    Log(ConsoleArgsV),
}

/// Model of a [`ConsoleStatement`].
#[verifier::ext_equal]
pub struct ConsoleStatementV {
    pub function: ConsoleFunctionV,
    pub span: Span,
}

/// Model of an [`ExpressionStatement`].
#[verifier::ext_equal]
pub struct ExpressionStatementV {
    pub expression: ExpressionV,
    pub span: Span,
}

/// Model of a [`Block`].
#[verifier::ext_equal]
pub struct BlockV {
    pub statements: Seq<StatementV>,
    pub span: Span,
}

/// Model of a [`Statement`].
#[verifier::ext_equal]
pub enum StatementV {
    Return(ReturnStatementV),
    Definition(DefinitionStatementV),
    Assign(AssignStatementV),
    Conditional(ConditionalStatementV),
    Iteration(IterationStatementV),
    Console(ConsoleStatementV),
    Expression(ExpressionStatementV),
    Block(BlockV),
}

impl ConsoleArgs {
    /// The model of this console argument list.
    pub open spec fn v(self) -> ConsoleArgsV
        decreases self,
    {
        ConsoleArgsV {
            string: self.string@,
            parameters: crate::expression::exprs_v(self.parameters@),
            span: self.span,
        }
    }
}

impl Block {
    /// The model of this block.
    pub open spec fn v(self) -> BlockV
        decreases self,
    {
        BlockV { statements: stmts_v(self.statements@), span: self.span }
    }
}

/// The models of a sequence of statements, elementwise.
pub open spec fn stmts_v(s: Seq<Statement>) -> Seq<StatementV>
    decreases s,
{
    Seq::new(
        s.len(),
        |i: int|
            if 0 <= i < s.len() {
                s[i].v()
            } else {
                StatementV::Block(
                    BlockV { statements: Seq::empty(), span: Span { lo: 0, hi: 0 } },
                )
            },
    )
}

/// The models of the names bound by a definition statement, elementwise.
pub open spec fn varnames_v(s: Seq<VariableName>) -> Seq<VariableNameV> {
    Seq::new(
        s.len(),
        |i: int|
            if 0 <= i < s.len() {
                s[i].v()
            } else {
                VariableNameV {
                    mutable: false,
                    identifier: IdentifierV { name: Seq::empty(), span: Span { lo: 0, hi: 0 } },
                    span: Span { lo: 0, hi: 0 },
                }
            },
    )
}

/// The models of the access steps of an assignment target, elementwise.
pub open spec fn accesses_v(s: Seq<AssigneeAccess>) -> Seq<AssigneeAccessV> {
    Seq::new(
        s.len(),
        |i: int|
            if 0 <= i < s.len() {
                s[i].v()
            } else {
                AssigneeAccessV::Member(
                    IdentifierV { name: Seq::empty(), span: Span { lo: 0, hi: 0 } },
                )
            },
    )
}

impl DefinitionStatement {
    /// The model of this definition statement.
    pub open spec fn v(self) -> DefinitionStatementV
        decreases self,
    {
        DefinitionStatementV {
            declaration_type: self.declaration_type,
            variable_names: varnames_v(self.variable_names@),
            type_: self.type_.v(),
            value: self.value.v(),
            span: self.span,
        }
    }
}

impl Statement {
    /// The model of this statement.
    pub open spec fn v(self) -> StatementV
        decreases self,
    {
        match self {
            Statement::Return(r) => StatementV::Return(
                ReturnStatementV { expression: r.expression.v(), span: r.span },
            ),
            Statement::Definition(d) => StatementV::Definition(d.v()),
            Statement::Assign(a) => StatementV::Assign(
                AssignStatementV {
                    operation: a.operation,
                    assignee: a.assignee.v(),
                    value: a.value.v(),
                    span: a.span,
                },
            ),
            Statement::Conditional(c) => StatementV::Conditional(
                ConditionalStatementV {
                    condition: c.condition.v(),
                    block: c.block.v(),
                    next: match c.next {
                        Option::None => Option::None,
                        Option::Some(s) => Option::Some(Box::new(s.v())),
                    },
                    span: c.span,
                },
            ),
            Statement::Iteration(it) => StatementV::Iteration(
                IterationStatementV {
                    variable: it.variable.v(),
                    type_: it.type_.v(),
                    start: it.start.v(),
                    stop: it.stop.v(),
                    inclusive: it.inclusive,
                    block: it.block.v(),
                    span: it.span,
                },
            ),
            Statement::Console(c) => StatementV::Console(
                ConsoleStatementV {
                    function: match c.function {
                        ConsoleFunction::Assert(e) => ConsoleFunctionV::Assert(e.v()),
                        ConsoleFunction::Error(a) => ConsoleFunctionV::Error(a.v()),
                        ConsoleFunction::Log(a) => ConsoleFunctionV::Log(a.v()),
                    },
                    span: c.span,
                },
            ),
            Statement::Expression(e) => StatementV::Expression(
                ExpressionStatementV { expression: e.expression.v(), span: e.span },
            ),
            Statement::Block(b) => StatementV::Block(b.v()),
        }
    }
}

} // verus!
