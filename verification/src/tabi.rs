//! The symbol-table representation the resolver produces: each function's
//! checked signature and resolved body.
//!
//! The resolver itself — forward declaration of function names, duplicate
//! and unresolved-name detection, type checking of bodies — consumes the
//! canonical syntax tree and fills these records; its algorithm is left
//! open here, so the records carry resolved statements in their canonical
//! syntactic form together with their checked types.

use vstd::prelude::*;

use crate::common::Identifier;
use crate::expression::Expression;
use crate::span::Span;
use crate::statement::Assignee;
use crate::types::Type;

verus! {

/// A resolved expression: its canonical form and its checked type.
#[derive(Debug)]
pub struct ExpressionSymbol {
    pub expression: Expression,
    pub type_: Type,
}

/// A resolved `return` statement.
#[derive(Debug)]
pub struct ReturnSymbol {
    pub expression: ExpressionSymbol,
    pub span: Span,
}

/// A resolved definition: the names bound, their checked type, and the
/// value.
#[derive(Debug)]
pub struct DefinitionSymbol {
    pub const_: bool,
    pub names: Vec<Identifier>,
    pub type_: Type,
    pub value: ExpressionSymbol,
    pub span: Span,
}

/// A resolved assignment.
#[derive(Debug)]
pub struct AssignSymbol {
    pub assignee: Assignee,
    pub value: ExpressionSymbol,
    pub span: Span,
}

/// A resolved console call.
#[derive(Debug)]
pub struct ConsoleSymbol {
    pub arguments: Vec<ExpressionSymbol>,
    pub span: Span,
}

/// A resolved expression statement.
#[derive(Debug)]
pub struct ExpressionStatementSymbol {
    pub expression: ExpressionSymbol,
    pub span: Span,
}

/// A resolved block: its statements, lexically scoped.
#[derive(Debug)]
pub struct BlockSymbol {
    pub statements: Vec<StatementSymbol>,
    pub span: Span,
}

/// A resolved iteration statement.
#[derive(Debug)]
pub struct IterationSymbol {
    pub var: String,
    pub start: ExpressionSymbol,
    pub stop: ExpressionSymbol,
    pub inclusive: bool,
    pub block: BlockSymbol,
    pub span: Span,
    pub type_: Type,
}

/// A resolved statement of any kind.
#[derive(Debug)]
pub enum StatementSymbol {
    Assign(Box<AssignSymbol>),
    Block(BlockSymbol),
    Conditional(Box<AssignSymbol>),
    Console(ConsoleSymbol),
    Definition(DefinitionSymbol),
    Expression(ExpressionStatementSymbol),
    Iteration(Box<IterationSymbol>),
    Return(ReturnSymbol),
}

/// One resolved function parameter.
#[derive(Debug)]
pub struct FunctionInputSymbol {
    pub const_: bool,
    pub id: String,
    pub type_: Type,
}

/// A function's checked signature: constness, its ordered inputs keyed by
/// name, and its output type.
#[derive(Debug)]
pub struct FunctionSignature {
    pub const_: bool,
    pub inputs: Vec<(String, FunctionInputSymbol)>,
    pub outputs: Type,
}

/// A local variable's resolved record.
#[derive(Debug)]
pub struct VariableSymbol {
    pub id: String,
    pub type_: Type,
    pub span: Span,
}

/// One function's entry in the symbol table.
#[derive(Debug)]
pub struct FunctionSymbol {
    pub id: String,
    pub signature: FunctionSignature,
    pub statements: BlockSymbol,
    pub span: Span,
    pub vars: Vec<(String, VariableSymbol)>,
}

/// The symbol table: each function's record, keyed by name in declaration
/// order.
#[derive(Debug)]
pub struct SymbolTable {
    pub functions: Vec<(String, FunctionSymbol)>,
}

impl SymbolTable {
    /// An empty table.
    pub fn new() -> (t: SymbolTable)
        ensures
            t.functions@.len() == 0,
    {
        SymbolTable { functions: Vec::new() }
    }
}

} // verus!
