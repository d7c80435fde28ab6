//! The canonicalization pass: a structural rewrite of the syntax tree.
//!
//! Every function here returns exactly what the model-level functions in
//! [`crate::canonical`] say, so the pass is specified once, over the models,
//! and the laws in [`crate::canonical_laws`] apply to it.

use vstd::prelude::*;

use crate::canonical::{
    access_chain, chain_step, canon_access, canon_access_seq, canon_alias_seq, canon_assign,
    canon_assignee, canon_assignee_access, canon_block, canon_circuit, canon_circuit_member,
    canon_circuit_seq, canon_definition, canon_expr, canon_expr_seq, canon_function,
    canon_function_input, canon_function_seq, canon_global_const_seq, canon_input_seq,
    canon_member_init_seq, canon_member_seq, canon_opt_box_expr, canon_opt_expr,
    canon_program, canon_spread_seq, canon_statement, canon_stmt_seq, canon_type,
    canon_type_seq, compound_op, has_zero_dimension, nest_array_init, nest_array_type,
    string_elements, string_start,
};
use crate::common::{Char, CharValue, Identifier};
use crate::errors::AstError;
use crate::expression::{
    exprs_v, member_inits_v, spreads_v, AccessExpression, AccessExpressionV, ArrayAccess,
    ArrayInitExpression, ArrayInlineExpression, ArrayRangeAccess, BinaryExpression,
    CallExpression, CastExpression, CircuitInitExpression, CircuitVariableInitializer,
    Expression, ExpressionV, GroupCoordinate, GroupTuple, GroupValue, MemberAccess,
    SpreadOrExpression, SpreadOrExpressionV, StaticAccess, TernaryExpression, TupleAccess,
    TupleInitExpression, UnaryExpression, ValueExpression,
};
use crate::program::{
    alias_pairs_v, annotations_v, circuit_pairs_v, const_key_v, function_pairs_v,
    gconst_pairs_v, inputs_v, members_v, strings_v, Alias, AliasV, Annotation, Circuit,
    CircuitMember, CircuitMemberV, CircuitV, Function, FunctionInput, FunctionInputV,
    FunctionInputVariable, FunctionV, Program, ProgramV,
};
use crate::span::Span;
use crate::statement::{
    accesses_v, stmts_v, varnames_v, AssignOperation, AssignStatement, Assignee, AssigneeAccess,
    AssigneeAccessV, AssigneeV, Block, BlockV, ConditionalStatement, ConsoleArgs, ConsoleFunction,
    ConsoleStatement, DefinitionStatement, DefinitionStatementV, ExpressionStatement,
    IterationStatement, ReturnStatement, Statement, StatementV, VariableName,
};
use crate::expression::BinaryOperation;
use crate::types::{types_v, Type, TypeV};

verus! {

broadcast use vstd::std_specs::vec::group_vec_axioms, vstd::seq::group_seq_axioms;

/// Replaces `Self` with the enclosing circuit's name and removes the other
/// syntactic sugar. `circuit_name` is the context a node is rewritten in:
/// the name of the circuit whose members are being rewritten, if any.
#[derive(Debug)]
pub struct Canonicalizer {
    /// If we are in a circuit, the circuit's name.
    pub circuit_name: Option<Identifier>,
}

impl Default for Canonicalizer {
    /// The context outside of any circuit.
    fn default() -> (c: Self)
        ensures
            c.ctx() is None,
    {
        Canonicalizer { circuit_name: None }
    }
}

/// The model of a `Result` whose value is a type.
pub open spec fn rv_type(r: Result<Type, AstError>) -> Result<TypeV, AstError> {
    match r {
        Ok(t) => Ok(t.v()),
        Err(e) => Err(e),
    }
}

/// The model of a `Result` whose value is a list of types.
pub open spec fn rv_types(r: Result<Vec<Type>, AstError>) -> Result<Seq<TypeV>, AstError> {
    match r {
        Ok(ts) => Ok(types_v(ts@)),
        Err(e) => Err(e),
    }
}

/// Copies a dimension list.
fn copy_dims(dims: &Vec<u64>) -> (r: Vec<u64>)
    ensures
        r@ == dims@,
{
    let mut out: Vec<u64> = Vec::new();
    let mut i: usize = 0;
    while i < dims.len()
        invariant
            i <= dims.len(),
            out@ == dims@.take(i as int),
        decreases dims.len() - i,
    {
        out.push(dims[i]);
        i = i + 1;
        proof {
            assert(out@ =~= dims@.take(i as int));
        }
    }
    proof {
        assert(dims@.take(dims@.len() as int) =~= dims@);
    }
    out
}

/// Whether some dimension in the list is zero.
fn dims_have_zero(dims: &Vec<u64>) -> (r: bool)
    ensures
        r == has_zero_dimension(dims@),
{
    let mut i: usize = 0;
    while i < dims.len()
        invariant
            i <= dims.len(),
            forall|j: int| 0 <= j < i ==> dims@[j] != 0,
        decreases dims.len() - i,
    {
        if dims[i] == 0 {
            return true;
        }
        i = i + 1;
    }
    false
}

/// Builds the nested single-dimension arrays `nest_array_type` describes.
fn nest_type(base: Type, dims: &Vec<u64>) -> (r: Type)
    ensures
        r.v() == nest_array_type(base.v(), dims@),
{
    let ghost base_v = base.v();
    let mut t = base;
    let mut i: usize = dims.len();
    while i > 0
        invariant
            i <= dims.len(),
            t.v() == nest_array_type(base_v, dims@.skip(i as int)),
        decreases i,
    {
        i = i - 1;
        let mut d: Vec<u64> = Vec::new();
        d.push(dims[i]);
        t = Type::Array(Box::new(t), d);
        proof {
            assert(dims@.skip(i as int).drop_first() =~= dims@.skip(i as int + 1));
            assert(d@ =~= seq![dims@[i as int]]);
        }
    }
    proof {
        assert(dims@.skip(0) =~= dims@);
    }
    t
}

impl Canonicalizer {
    /// The context a node is rewritten in: the enclosing circuit's name.
    pub open spec fn ctx(self) -> Option<crate::common::IdentifierV> {
        match self.circuit_name {
            Option::Some(id) => Option::Some(id.v()),
            Option::None => Option::None,
        }
    }

    /// Rewrites one type into canonical form: resolves `Self`, flattens
    /// multi-dimensional arrays, rejects zero dimensions and one-element
    /// tuples. `span` is the span of the construct the type was written in.
    pub fn reduce_type(&self, t: &Type, span: &Span) -> (r: Result<Type, AstError>)
        ensures
            rv_type(r) == canon_type(t.v(), *span, self.ctx()),
        decreases *t, 0int,
    {
        match t {
            Type::SelfType => match &self.circuit_name {
                Option::None => Err(AstError::BigSelfOutsideOfCircuit(*span)),
                Option::Some(name) => Ok(Type::Identifier(name.clone())),
            },
            Type::Array(base, dims) => {
                match self.reduce_type(base, span) {
                    Err(e) => Err(e),
                    Ok(b) => {
                        if dims.len() == 0 {
                            Ok(Type::Array(Box::new(b), copy_dims(dims)))
                        } else if dims_have_zero(dims) {
                            Err(AstError::InvalidArrayDimensionSize(*span))
                        } else {
                            Ok(nest_type(b, dims))
                        }
                    },
                }
            },
            Type::Tuple(elems) => {
                proof {
                    assert(types_v(elems@).skip(0) =~= types_v(elems@));
                }
                match self.reduce_type_list(elems, 0, span) {
                    Err(e) => Err(e),
                    Ok(ts) => {
                        if ts.len() == 1 {
                            Err(AstError::InvalidTupleDimensionSize(*span))
                        } else {
                            Ok(Type::Tuple(ts))
                        }
                    },
                }
            },
            Type::Address => Ok(Type::Address),
            Type::Boolean => Ok(Type::Boolean),
            Type::Char => Ok(Type::Char),
            Type::Field => Ok(Type::Field),
            Type::Group => Ok(Type::Group),
            Type::IntegerType(it) => Ok(Type::IntegerType(*it)),
            Type::Identifier(id) => Ok(Type::Identifier(id.clone())),
            Type::Error => Ok(Type::Error),
        }
    }

    /// Rewrites the types `ts[i..]`, or returns the first error.
    fn reduce_type_list(&self, ts: &Vec<Type>, i: usize, span: &Span) -> (r: Result<
        Vec<Type>,
        AstError,
    >)
        requires
            i <= ts.len(),
        ensures
            rv_types(r) == canon_type_seq(types_v(ts@).skip(i as int), *span, self.ctx()),
        decreases ts@, ts.len() - i,
    {
        if i == ts.len() {
            let r: Vec<Type> = Vec::new();
            proof {
                assert(types_v(r@) =~= Seq::<TypeV>::empty());
                assert(types_v(ts@).skip(i as int) =~= Seq::<TypeV>::empty());
            }
            Ok(r)
        } else {
            proof {
                let s = types_v(ts@).skip(i as int);
                assert(s[0] == ts@[i as int].v());
                assert(s.drop_first() =~= types_v(ts@).skip(i as int + 1));
            }
            match self.reduce_type(&ts[i], span) {
                Err(e) => Err(e),
                Ok(h) => match self.reduce_type_list(ts, i + 1, span) {
                    Err(e) => Err(e),
                    Ok(mut rest) => {
                        let ghost rest0 = rest@;
                        let ghost hv = h.v();
                        rest.insert(0, h);
                        proof {
                            assert(types_v(rest@) =~= seq![hv] + types_v(rest0));
                        }
                        Ok(rest)
                    },
                },
            }
        }
    }
}


/// The model of a `Result` whose value is an expression.
pub open spec fn rv_expr(r: Result<Expression, AstError>) -> Result<ExpressionV, AstError> {
    match r {
        Ok(e) => Ok(e.v()),
        Err(err) => Err(err),
    }
}

/// The model of a `Result` whose value is a boxed expression.
pub open spec fn rv_box_expr(r: Result<Box<Expression>, AstError>) -> Result<
    ExpressionV,
    AstError,
> {
    match r {
        Ok(e) => Ok(e.v()),
        Err(err) => Err(err),
    }
}

/// The model of a `Result` whose value is a list of expressions.
pub open spec fn rv_exprs(r: Result<Vec<Expression>, AstError>) -> Result<
    Seq<ExpressionV>,
    AstError,
> {
    match r {
        Ok(es) => Ok(exprs_v(es@)),
        Err(err) => Err(err),
    }
}

/// The model of a `Result` whose value is an optional expression.
pub open spec fn rv_opt_expr(r: Result<Option<Expression>, AstError>) -> Result<
    Option<ExpressionV>,
    AstError,
> {
    match r {
        Ok(Option::None) => Ok(Option::None),
        Ok(Option::Some(e)) => Ok(Option::Some(e.v())),
        Err(err) => Err(err),
    }
}

/// The model of a `Result` whose value is an optional boxed expression.
pub open spec fn rv_opt_box_expr(r: Result<Option<Box<Expression>>, AstError>) -> Result<
    Option<ExpressionV>,
    AstError,
> {
    match r {
        Ok(Option::None) => Ok(Option::None),
        Ok(Option::Some(e)) => Ok(Option::Some(e.v())),
        Err(err) => Err(err),
    }
}

/// The model of a `Result` whose value is an access expression.
pub open spec fn rv_access_expr(r: Result<AccessExpression, AstError>) -> Result<
    AccessExpressionV,
    AstError,
> {
    match r {
        Ok(a) => Ok(a.v()),
        Err(err) => Err(err),
    }
}

/// The model of a `Result` whose value is a list of inline-array elements.
pub open spec fn rv_spreads(r: Result<Vec<SpreadOrExpression>, AstError>) -> Result<
    Seq<SpreadOrExpressionV>,
    AstError,
> {
    match r {
        Ok(es) => Ok(spreads_v(es@)),
        Err(err) => Err(err),
    }
}

/// The model of a `Result` whose value is a list of member initializers.
pub open spec fn rv_minits(r: Result<Vec<CircuitVariableInitializer>, AstError>) -> Result<
    Seq<crate::expression::CircuitVariableInitializerV>,
    AstError,
> {
    match r {
        Ok(ms) => Ok(member_inits_v(ms@)),
        Err(err) => Err(err),
    }
}

/// Whether the name is the `Self` keyword.
fn is_self_name(name: &String) -> (r: bool)
    ensures
        r == (name@ == "Self"@),
{
    let s: String = "Self".to_owned();
    *name == s
}

/// Copies a character list.
fn copy_chars(cs: &Vec<Char>) -> (r: Vec<Char>)
    ensures
        r@ == cs@,
{
    let mut out: Vec<Char> = Vec::new();
    let mut i: usize = 0;
    while i < cs.len()
        invariant
            i <= cs.len(),
            out@ == cs@.take(i as int),
        decreases cs.len() - i,
    {
        out.push(cs[i]);
        i = i + 1;
        proof {
            assert(out@ =~= cs@.take(i as int));
        }
    }
    proof {
        assert(cs@.take(cs@.len() as int) =~= cs@);
    }
    out
}

/// Copies a group coordinate.
fn copy_group_coordinate(c: &GroupCoordinate) -> (r: GroupCoordinate)
    ensures
        r.v() == c.v(),
{
    match c {
        GroupCoordinate::Number(s, span) => GroupCoordinate::Number(s.clone(), *span),
        GroupCoordinate::SignHigh => GroupCoordinate::SignHigh,
        GroupCoordinate::SignLow => GroupCoordinate::SignLow,
        GroupCoordinate::Inferred => GroupCoordinate::Inferred,
    }
}

/// Copies a group literal.
fn copy_group_value(g: &GroupValue) -> (r: GroupValue)
    ensures
        r.v() == g.v(),
{
    match g {
        GroupValue::Single(s, span) => GroupValue::Single(s.clone(), *span),
        GroupValue::Tuple(t) => GroupValue::Tuple(
            GroupTuple {
                x: copy_group_coordinate(&t.x),
                y: copy_group_coordinate(&t.y),
                span: t.span,
            },
        ),
    }
}

/// Copies a literal expression.
fn copy_value_expression(v: &ValueExpression) -> (r: ValueExpression)
    ensures
        r.v() == v.v(),
{
    match v {
        ValueExpression::Address(s, span) => ValueExpression::Address(s.clone(), *span),
        ValueExpression::Boolean(s, span) => ValueExpression::Boolean(s.clone(), *span),
        ValueExpression::Char(c) => ValueExpression::Char(*c),
        ValueExpression::Field(s, span) => ValueExpression::Field(s.clone(), *span),
        ValueExpression::Group(g) => ValueExpression::Group(Box::new(copy_group_value(g))),
        ValueExpression::Integer(it, s, span) => ValueExpression::Integer(*it, s.clone(), *span),
        ValueExpression::String(cs, span) => ValueExpression::String(copy_chars(cs), *span),
    }
}

/// The position of the first `}` at or after `start`, or the end of the
/// source if there is none.
fn find_brace_end(src: &Vec<u8>, start: usize) -> (r: usize)
    requires
        start <= src.len(),
    ensures
        r == crate::canonical::brace_end(src@, start as nat),
        start <= r <= src.len(),
{
    let mut j: usize = start;
    while j < src.len()
        invariant
            start <= j <= src.len(),
            crate::canonical::brace_end(src@, start as nat) == crate::canonical::brace_end(
                src@,
                j as nat,
            ),
            forall|k: int| start <= k < j ==> src@[k] != 125u8,
        decreases src.len() - j,
    {
        if src[j] == 125u8 {
            return j;
        }
        j = j + 1;
    }
    j
}

/// How many source bytes the character written at byte `pos` covers, cut
/// down so a span never runs past the end of the source.
fn exec_clamped_width(src: &Vec<u8>, pos: usize) -> (w: usize)
    requires
        pos <= src.len(),
    ensures
        w == crate::canonical::clamped_width(src@, pos as nat),
        pos + w <= src.len(),
{
    if pos >= src.len() {
        return 0;
    }
    let rem = src.len() - pos;
    let raw: usize = if src[pos] != 92u8 {
        1
    } else if pos + 1 < src.len() && src[pos + 1] == 120u8 {
        4
    } else if pos + 1 < src.len() && src[pos + 1] == 117u8 {
        let b = find_brace_end(src, pos + 2);
        let d = b - pos;
        if d >= rem {
            return rem;
        }
        d + 1
    } else {
        2
    };
    if raw <= rem {
        raw
    } else {
        rem
    }
}

impl Canonicalizer {
    /// Explodes a string literal into an inline array of character
    /// literals, one per character, each spanning its own source bytes.
    /// An empty string literal is an error.
    pub fn reduce_string(&self, string: &Vec<Char>, span: &Span, src: &Vec<u8>) -> (r: Result<
        Expression,
        AstError,
    >)
        ensures
            rv_expr(r) == canon_expr(
                ExpressionV::Value(crate::expression::ValueExpressionV::String(string@, *span)),
                self.ctx(),
                src@,
            ),
    {
        if string.len() == 0 {
            return Err(AstError::EmptyString(*span));
        }
        let start: usize = if span.lo < src.len() {
            span.lo + 1
        } else {
            src.len()
        };
        let elements = reduce_string_elements(string, 0, start, src);
        proof {
            assert(string@.skip(0) =~= string@);
        }
        Ok(
            Expression::ArrayInline(
                ArrayInlineExpression { elements, span: *span },
            ),
        )
    }
}

/// The inline-array elements for the characters `chars[i..]`, the first
/// one starting at byte `pos`.
fn reduce_string_elements(chars: &Vec<Char>, i: usize, pos: usize, src: &Vec<u8>) -> (r: Vec<
    SpreadOrExpression,
>)
    requires
        i <= chars.len(),
        pos <= src.len(),
    ensures
        spreads_v(r@) == string_elements(src@, pos as nat, chars@.skip(i as int)),
    decreases chars.len() - i,
{
    if i == chars.len() {
        let r: Vec<SpreadOrExpression> = Vec::new();
        proof {
            assert(spreads_v(r@) =~= Seq::<SpreadOrExpressionV>::empty());
            assert(chars@.skip(i as int) =~= Seq::<Char>::empty());
        }
        r
    } else {
        proof {
            assert(chars@.skip(i as int)[0] == chars@[i as int]);
            assert(chars@.skip(i as int).drop_first() =~= chars@.skip(i as int + 1));
        }
        let w = exec_clamped_width(src, pos);
        let head = SpreadOrExpression::Expression(
            Expression::Value(
                ValueExpression::Char(
                    CharValue { character: chars[i], span: Span { lo: pos, hi: pos + w } },
                ),
            ),
        );
        let ghost head_v = head.v();
        let mut rest = reduce_string_elements(chars, i + 1, pos + w, src);
        let ghost rest0 = rest@;
        rest.insert(0, head);
        proof {
            assert(spreads_v(rest@) =~= seq![head_v] + spreads_v(rest0));
        }
        rest
    }
}


impl Canonicalizer {
    /// Rewrites one expression into canonical form: resolves `Self` names,
    /// explodes string literals, flattens array constructions, clears
    /// member-access type annotations, and rewrites every type written
    /// inside the expression.
    pub fn canonicalize_expression(&self, e: &Expression, src: &Vec<u8>) -> (r: Result<
        Expression,
        AstError,
    >)
        ensures
            rv_expr(r) == canon_expr(e.v(), self.ctx(), src@),
        decreases *e, 0int,
    {
        match e {
            Expression::Identifier(id) => {
                if is_self_name(&id.name) {
                    match &self.circuit_name {
                        Option::Some(name) => Ok(Expression::Identifier(name.clone())),
                        Option::None => Ok(Expression::Identifier(id.clone())),
                    }
                } else {
                    Ok(Expression::Identifier(id.clone()))
                }
            },
            Expression::Value(v) => match v {
                ValueExpression::String(cs, span) => self.reduce_string(cs, span, src),
                _ => Ok(Expression::Value(copy_value_expression(v))),
            },
            Expression::Unary(u) => match self.canonicalize_expression(&u.inner, src) {
                Err(err) => Err(err),
                Ok(inner) => Ok(
                    Expression::Unary(
                        UnaryExpression { inner: Box::new(inner), op: u.op, span: u.span },
                    ),
                ),
            },
            Expression::Binary(b) => match self.canonicalize_expression(&b.left, src) {
                Err(err) => Err(err),
                Ok(left) => match self.canonicalize_expression(&b.right, src) {
                    Err(err) => Err(err),
                    Ok(right) => Ok(
                        Expression::Binary(
                            BinaryExpression {
                                left: Box::new(left),
                                right: Box::new(right),
                                op: b.op,
                                span: b.span,
                            },
                        ),
                    ),
                },
            },
            Expression::Ternary(t) => match self.canonicalize_expression(&t.condition, src) {
                Err(err) => Err(err),
                Ok(condition) => match self.canonicalize_expression(&t.if_true, src) {
                    Err(err) => Err(err),
                    Ok(if_true) => match self.canonicalize_expression(&t.if_false, src) {
                        Err(err) => Err(err),
                        Ok(if_false) => Ok(
                            Expression::Ternary(
                                TernaryExpression {
                                    condition: Box::new(condition),
                                    if_true: Box::new(if_true),
                                    if_false: Box::new(if_false),
                                    span: t.span,
                                },
                            ),
                        ),
                    },
                },
            },
            Expression::Cast(c) => match self.canonicalize_expression(&c.inner, src) {
                Err(err) => Err(err),
                Ok(inner) => match self.reduce_type(&c.target_type, &c.span) {
                    Err(err) => Err(err),
                    Ok(target_type) => Ok(
                        Expression::Cast(
                            CastExpression { inner: Box::new(inner), target_type, span: c.span },
                        ),
                    ),
                },
            },
            Expression::Access(a) => match self.canonicalize_access(a, src) {
                Err(err) => Err(err),
                Ok(a2) => Ok(Expression::Access(a2)),
            },
            Expression::ArrayInline(a) => {
                proof {
                    assert(spreads_v(a.elements@).skip(0) =~= spreads_v(a.elements@));
                }
                match self.canonicalize_spread_list(&a.elements, 0, src) {
                    Err(err) => Err(err),
                    Ok(elements) => Ok(
                        Expression::ArrayInline(
                            ArrayInlineExpression { elements, span: a.span },
                        ),
                    ),
                }
            },
            Expression::ArrayInit(a) => {
                if a.dimensions.len() == 0 || dims_have_zero(&a.dimensions) {
                    Err(AstError::InvalidArrayDimensionSize(a.span))
                } else {
                    match self.canonicalize_expression(&a.element, src) {
                        Err(err) => Err(err),
                        Ok(element) => Ok(nest_init(element, &a.dimensions, a.span)),
                    }
                }
            },
            Expression::TupleInit(t) => {
                proof {
                    assert(exprs_v(t.elements@).skip(0) =~= exprs_v(t.elements@));
                }
                match self.canonicalize_expression_list(&t.elements, 0, src) {
                    Err(err) => Err(err),
                    Ok(elements) => Ok(
                        Expression::TupleInit(TupleInitExpression { elements, span: t.span }),
                    ),
                }
            },
            Expression::CircuitInit(c) => {
                proof {
                    assert(member_inits_v(c.members@).skip(0) =~= member_inits_v(c.members@));
                }
                match self.canonicalize_member_init_list(&c.members, 0, src) {
                    Err(err) => Err(err),
                    Ok(members) => {
                        let name = if is_self_name(&c.name.name) && self.circuit_name.is_some() {
                            match &self.circuit_name {
                                Option::Some(n) => n.clone(),
                                Option::None => c.name.clone(),
                            }
                        } else {
                            c.name.clone()
                        };
                        Ok(
                            Expression::CircuitInit(
                                CircuitInitExpression { name, members, span: c.span },
                            ),
                        )
                    },
                }
            },
            Expression::Call(c) => match self.canonicalize_expression(&c.function, src) {
                Err(err) => Err(err),
                Ok(function) => {
                    proof {
                        assert(exprs_v(c.arguments@).skip(0) =~= exprs_v(c.arguments@));
                    }
                    match self.canonicalize_expression_list(&c.arguments, 0, src) {
                        Err(err) => Err(err),
                        Ok(arguments) => Ok(
                            Expression::Call(
                                CallExpression {
                                    function: Box::new(function),
                                    arguments,
                                    span: c.span,
                                },
                            ),
                        ),
                    }
                },
            },
            Expression::Error(err) => Ok(Expression::Error(*err)),
        }
    }

    /// Rewrites one access expression into canonical form.
    fn canonicalize_access(&self, a: &AccessExpression, src: &Vec<u8>) -> (r: Result<
        AccessExpression,
        AstError,
    >)
        ensures
            rv_access_expr(r) == canon_access(a.v(), self.ctx(), src@),
        decreases *a, 0int,
    {
        match a {
            AccessExpression::Array(aa) => match self.canonicalize_expression(&aa.array, src) {
                Err(err) => Err(err),
                Ok(array) => match self.canonicalize_expression(&aa.index, src) {
                    Err(err) => Err(err),
                    Ok(index) => Ok(
                        AccessExpression::Array(
                            ArrayAccess {
                                array: Box::new(array),
                                index: Box::new(index),
                                span: aa.span,
                            },
                        ),
                    ),
                },
            },
            AccessExpression::ArrayRange(ar) => match self.canonicalize_expression(
                &ar.array,
                src,
            ) {
                Err(err) => Err(err),
                Ok(array) => match self.canonicalize_opt_box_expression(&ar.left, src) {
                    Err(err) => Err(err),
                    Ok(left) => match self.canonicalize_opt_box_expression(&ar.right, src) {
                        Err(err) => Err(err),
                        Ok(right) => Ok(
                            AccessExpression::ArrayRange(
                                ArrayRangeAccess {
                                    array: Box::new(array),
                                    left,
                                    right,
                                    span: ar.span,
                                },
                            ),
                        ),
                    },
                },
            },
            AccessExpression::Member(m) => match self.canonicalize_expression(&m.inner, src) {
                Err(err) => Err(err),
                Ok(inner) => Ok(
                    AccessExpression::Member(
                        MemberAccess {
                            inner: Box::new(inner),
                            name: m.name.clone(),
                            span: m.span,
                            type_: None,
                        },
                    ),
                ),
            },
            AccessExpression::Tuple(t) => match self.canonicalize_expression(&t.tuple, src) {
                Err(err) => Err(err),
                Ok(tuple) => Ok(
                    AccessExpression::Tuple(
                        TupleAccess { tuple: Box::new(tuple), index: t.index, span: t.span },
                    ),
                ),
            },
            AccessExpression::Static(st) => match self.canonicalize_expression(&st.inner, src) {
                Err(err) => Err(err),
                Ok(inner) => match self.reduce_type(&st.type_, &st.span) {
                    Err(err) => Err(err),
                    Ok(type_) => Ok(
                        AccessExpression::Static(
                            StaticAccess {
                                inner: Box::new(inner),
                                name: st.name.clone(),
                                type_,
                                span: st.span,
                            },
                        ),
                    ),
                },
            },
        }
    }

    /// Rewrites an optional boxed expression.
    fn canonicalize_opt_box_expression(
        &self,
        e: &Option<Box<Expression>>,
        src: &Vec<u8>,
    ) -> (r: Result<Option<Box<Expression>>, AstError>)
        ensures
            rv_opt_box_expr(r) == canon_opt_box_expr(
                match *e {
                    Option::None => Option::None,
                    Option::Some(b) => Option::Some(Box::new(b.v())),
                },
                self.ctx(),
                src@,
            ),
        decreases *e, 0int,
    {
        match e {
            Option::None => Ok(None),
            Option::Some(b) => match self.canonicalize_expression(b, src) {
                Err(err) => Err(err),
                Ok(e1) => Ok(Some(Box::new(e1))),
            },
        }
    }

    /// Rewrites an optional expression.
    fn canonicalize_opt_expression(&self, e: &Option<Expression>, src: &Vec<u8>) -> (r: Result<
        Option<Expression>,
        AstError,
    >)
        ensures
            rv_opt_expr(r) == canon_opt_expr(
                match *e {
                    Option::None => Option::None,
                    Option::Some(e0) => Option::Some(e0.v()),
                },
                self.ctx(),
                src@,
            ),
        decreases *e, 0int,
    {
        match e {
            Option::None => Ok(None),
            Option::Some(e0) => match self.canonicalize_expression(e0, src) {
                Err(err) => Err(err),
                Ok(e1) => Ok(Some(e1)),
            },
        }
    }

    /// Rewrites the expressions `es[i..]`, or returns the first error.
    fn canonicalize_expression_list(&self, es: &Vec<Expression>, i: usize, src: &Vec<u8>) -> (r:
        Result<Vec<Expression>, AstError>)
        requires
            i <= es.len(),
        ensures
            rv_exprs(r) == canon_expr_seq(exprs_v(es@).skip(i as int), self.ctx(), src@),
        decreases es@, es.len() - i,
    {
        if i == es.len() {
            let r: Vec<Expression> = Vec::new();
            proof {
                assert(exprs_v(r@) =~= Seq::<ExpressionV>::empty());
                assert(exprs_v(es@).skip(i as int) =~= Seq::<ExpressionV>::empty());
            }
            Ok(r)
        } else {
            proof {
                let s = exprs_v(es@).skip(i as int);
                assert(s[0] == es@[i as int].v());
                assert(s.drop_first() =~= exprs_v(es@).skip(i as int + 1));
            }
            match self.canonicalize_expression(&es[i], src) {
                Err(err) => Err(err),
                Ok(h) => match self.canonicalize_expression_list(es, i + 1, src) {
                    Err(err) => Err(err),
                    Ok(mut rest) => {
                        let ghost rest0 = rest@;
                        let ghost hv = h.v();
                        rest.insert(0, h);
                        proof {
                            assert(exprs_v(rest@) =~= seq![hv] + exprs_v(rest0));
                        }
                        Ok(rest)
                    },
                },
            }
        }
    }

    /// Rewrites the inline-array elements `es[i..]`, or returns the first
    /// error.
    fn canonicalize_spread_list(&self, es: &Vec<SpreadOrExpression>, i: usize, src: &Vec<u8>) -> (r:
        Result<Vec<SpreadOrExpression>, AstError>)
        requires
            i <= es.len(),
        ensures
            rv_spreads(r) == canon_spread_seq(spreads_v(es@).skip(i as int), self.ctx(), src@),
        decreases es@, es.len() - i,
    {
        if i == es.len() {
            let r: Vec<SpreadOrExpression> = Vec::new();
            proof {
                assert(spreads_v(r@) =~= Seq::<SpreadOrExpressionV>::empty());
                assert(spreads_v(es@).skip(i as int) =~= Seq::<SpreadOrExpressionV>::empty());
            }
            Ok(r)
        } else {
            proof {
                let s = spreads_v(es@).skip(i as int);
                assert(s[0] == es@[i as int].v());
                assert(s.drop_first() =~= spreads_v(es@).skip(i as int + 1));
            }
            let h0 = match &es[i] {
                SpreadOrExpression::Spread(e) => match self.canonicalize_expression(e, src) {
                    Err(err) => Err(err),
                    Ok(e1) => Ok(SpreadOrExpression::Spread(e1)),
                },
                SpreadOrExpression::Expression(e) => match self.canonicalize_expression(e, src) {
                    Err(err) => Err(err),
                    Ok(e1) => Ok(SpreadOrExpression::Expression(e1)),
                },
            };
            match h0 {
                Err(err) => Err(err),
                Ok(h) => match self.canonicalize_spread_list(es, i + 1, src) {
                    Err(err) => Err(err),
                    Ok(mut rest) => {
                        let ghost rest0 = rest@;
                        let ghost hv = h.v();
                        rest.insert(0, h);
                        proof {
                            assert(spreads_v(rest@) =~= seq![hv] + spreads_v(rest0));
                        }
                        Ok(rest)
                    },
                },
            }
        }
    }

    /// Rewrites the member initializers `ms[i..]`, or returns the first
    /// error.
    fn canonicalize_member_init_list(
        &self,
        ms: &Vec<CircuitVariableInitializer>,
        i: usize,
        src: &Vec<u8>,
    ) -> (r: Result<Vec<CircuitVariableInitializer>, AstError>)
        requires
            i <= ms.len(),
        ensures
            rv_minits(r) == canon_member_init_seq(
                member_inits_v(ms@).skip(i as int),
                self.ctx(),
                src@,
            ),
        decreases ms@, ms.len() - i,
    {
        if i == ms.len() {
            let r: Vec<CircuitVariableInitializer> = Vec::new();
            proof {
                assert(member_inits_v(r@) =~= Seq::<
                    crate::expression::CircuitVariableInitializerV,
                >::empty());
                assert(member_inits_v(ms@).skip(i as int) =~= Seq::<
                    crate::expression::CircuitVariableInitializerV,
                >::empty());
            }
            Ok(r)
        } else {
            proof {
                let s = member_inits_v(ms@).skip(i as int);
                assert(s[0] == ms@[i as int].v());
                assert(s.drop_first() =~= member_inits_v(ms@).skip(i as int + 1));
            }
            match self.canonicalize_opt_expression(&ms[i].expression, src) {
                Err(err) => Err(err),
                Ok(expression) => match self.canonicalize_member_init_list(ms, i + 1, src) {
                    Err(err) => Err(err),
                    Ok(mut rest) => {
                        let h = CircuitVariableInitializer {
                            identifier: ms[i].identifier.clone(),
                            expression,
                        };
                        let ghost rest0 = rest@;
                        let ghost hv = h.v();
                        rest.insert(0, h);
                        proof {
                            assert(member_inits_v(rest@) =~= seq![hv] + member_inits_v(rest0));
                        }
                        Ok(rest)
                    },
                },
            }
        }
    }
}

/// Builds the nested single-dimension array constructions that
/// `nest_array_init` describes, already wrapped as an expression.
fn nest_init(element: Expression, dims: &Vec<u64>, span: Span) -> (r: Expression)
    requires
        dims.len() >= 1,
    ensures
        r.v() == ExpressionV::ArrayInit(nest_array_init(element.v(), dims@, span)),
{
    let ghost element_v = element.v();
    let mut i: usize = dims.len() - 1;
    let mut cur = Expression::ArrayInit(
        ArrayInitExpression {
            element: Box::new(element),
            dimensions: copy_tail(dims, i),
            span,
        },
    );
    while i > 0
        invariant
            i < dims.len(),
            cur.v() == ExpressionV::ArrayInit(
                nest_array_init(element_v, dims@.skip(i as int), span),
            ),
        decreases i,
    {
        i = i - 1;
        let mut d: Vec<u64> = Vec::new();
        d.push(dims[i]);
        cur = Expression::ArrayInit(
            ArrayInitExpression { element: Box::new(cur), dimensions: d, span },
        );
        proof {
            assert(dims@.skip(i as int).drop_first() =~= dims@.skip(i as int + 1));
            assert(dims@.skip(i as int)[0] == dims@[i as int]);
        }
    }
    proof {
        assert(dims@.skip(0) =~= dims@);
    }
    cur
}

/// Copies the dimensions `dims[i..]`.
fn copy_tail(dims: &Vec<u64>, i: usize) -> (r: Vec<u64>)
    requires
        i <= dims.len(),
    ensures
        r@ == dims@.skip(i as int),
{
    let mut out: Vec<u64> = Vec::new();
    let mut j: usize = i;
    while j < dims.len()
        invariant
            i <= j <= dims.len(),
            out@ == dims@.subrange(i as int, j as int),
        decreases dims.len() - j,
    {
        out.push(dims[j]);
        j = j + 1;
        proof {
            assert(out@ =~= dims@.subrange(i as int, j as int));
        }
    }
    proof {
        assert(dims@.subrange(i as int, dims@.len() as int) =~= dims@.skip(i as int));
    }
    out
}


/// The model of a `Result` whose value is an access step.
pub open spec fn rv_access(r: Result<AssigneeAccess, AstError>) -> Result<
    AssigneeAccessV,
    AstError,
> {
    match r {
        Ok(a) => Ok(a.v()),
        Err(err) => Err(err),
    }
}

/// The model of a `Result` whose value is a list of access steps.
pub open spec fn rv_accesses(r: Result<Vec<AssigneeAccess>, AstError>) -> Result<
    Seq<AssigneeAccessV>,
    AstError,
> {
    match r {
        Ok(a) => Ok(accesses_v(a@)),
        Err(err) => Err(err),
    }
}

/// The model of a `Result` whose value is an assignment target.
pub open spec fn rv_assignee(r: Result<Assignee, AstError>) -> Result<AssigneeV, AstError> {
    match r {
        Ok(a) => Ok(a.v()),
        Err(err) => Err(err),
    }
}

/// The model of a `Result` whose value is an assignment statement.
pub open spec fn rv_assign(r: Result<AssignStatement, AstError>) -> Result<
    crate::statement::AssignStatementV,
    AstError,
> {
    match r {
        Ok(a) => Ok(
            crate::statement::AssignStatementV {
                operation: a.operation,
                assignee: a.assignee.v(),
                value: a.value.v(),
                span: a.span,
            },
        ),
        Err(err) => Err(err),
    }
}

/// The model of a `Result` whose value is a definition statement.
pub open spec fn rv_definition(r: Result<DefinitionStatement, AstError>) -> Result<
    DefinitionStatementV,
    AstError,
> {
    match r {
        Ok(d) => Ok(d.v()),
        Err(err) => Err(err),
    }
}

/// The model of a `Result` whose value is a statement.
pub open spec fn rv_stmt(r: Result<Statement, AstError>) -> Result<StatementV, AstError> {
    match r {
        Ok(st) => Ok(st.v()),
        Err(err) => Err(err),
    }
}

/// The model of a `Result` whose value is a list of statements.
pub open spec fn rv_stmts(r: Result<Vec<Statement>, AstError>) -> Result<
    Seq<StatementV>,
    AstError,
> {
    match r {
        Ok(ss) => Ok(stmts_v(ss@)),
        Err(err) => Err(err),
    }
}

/// The model of a `Result` whose value is a block.
pub open spec fn rv_block(r: Result<Block, AstError>) -> Result<BlockV, AstError> {
    match r {
        Ok(b) => Ok(b.v()),
        Err(err) => Err(err),
    }
}

/// Copies the names bound by a definition statement.
fn copy_varnames(vs: &Vec<VariableName>) -> (r: Vec<VariableName>)
    ensures
        varnames_v(r@) == varnames_v(vs@),
{
    let mut out: Vec<VariableName> = Vec::new();
    let mut i: usize = 0;
    while i < vs.len()
        invariant
            i <= vs.len(),
            out@.len() == i,
            forall|j: int| 0 <= j < i ==> out@[j].v() == vs@[j].v(),
        decreases vs.len() - i,
    {
        out.push(
            VariableName {
                mutable: vs[i].mutable,
                identifier: vs[i].identifier.clone(),
                span: vs[i].span,
            },
        );
        i = i + 1;
    }
    proof {
        assert(varnames_v(out@) =~= varnames_v(vs@));
    }
    out
}

impl Canonicalizer {
    /// Rewrites one access step of an assignment target.
    fn canonicalize_assignee_access(&self, access: &AssigneeAccess, src: &Vec<u8>) -> (r: Result<
        AssigneeAccess,
        AstError,
    >)
        ensures
            rv_access(r) == canon_assignee_access(access.v(), self.ctx(), src@),
        decreases *access, 1int,
    {
        match access {
            AssigneeAccess::ArrayRange(left, right) => match self.canonicalize_opt_expression(
                left,
                src,
            ) {
                Err(err) => Err(err),
                Ok(l1) => match self.canonicalize_opt_expression(right, src) {
                    Err(err) => Err(err),
                    Ok(r1) => Ok(AssigneeAccess::ArrayRange(l1, r1)),
                },
            },
            AssigneeAccess::ArrayIndex(e) => match self.canonicalize_expression(e, src) {
                Err(err) => Err(err),
                Ok(e1) => Ok(AssigneeAccess::ArrayIndex(e1)),
            },
            AssigneeAccess::Tuple(n, span) => Ok(AssigneeAccess::Tuple(*n, *span)),
            AssigneeAccess::Member(id) => Ok(AssigneeAccess::Member(id.clone())),
        }
    }

    /// Rewrites the access steps `accesses[i..]`, or returns the first
    /// error.
    fn canonicalize_access_list(
        &self,
        accesses: &Vec<AssigneeAccess>,
        i: usize,
        src: &Vec<u8>,
    ) -> (r: Result<Vec<AssigneeAccess>, AstError>)
        requires
            i <= accesses.len(),
        ensures
            rv_accesses(r) == canon_access_seq(
                accesses_v(accesses@).skip(i as int),
                self.ctx(),
                src@,
            ),
        decreases accesses@, accesses.len() - i,
    {
        if i == accesses.len() {
            let r: Vec<AssigneeAccess> = Vec::new();
            proof {
                assert(accesses_v(r@) =~= Seq::<AssigneeAccessV>::empty());
                assert(accesses_v(accesses@).skip(i as int) =~= Seq::<AssigneeAccessV>::empty());
            }
            Ok(r)
        } else {
            proof {
                let s = accesses_v(accesses@).skip(i as int);
                assert(s[0] == accesses@[i as int].v());
                assert(s.drop_first() =~= accesses_v(accesses@).skip(i as int + 1));
            }
            match self.canonicalize_assignee_access(&accesses[i], src) {
                Err(err) => Err(err),
                Ok(h) => match self.canonicalize_access_list(accesses, i + 1, src) {
                    Err(err) => Err(err),
                    Ok(mut rest) => {
                        let ghost rest0 = rest@;
                        let ghost hv = h.v();
                        rest.insert(0, h);
                        proof {
                            assert(accesses_v(rest@) =~= seq![hv] + accesses_v(rest0));
                        }
                        Ok(rest)
                    },
                },
            }
        }
    }

    /// Rewrites an assignment target: the base name is kept and each access
    /// step is canonicalized.
    fn canonicalize_assignee(&self, assignee: &Assignee, src: &Vec<u8>) -> (r: Result<
        Assignee,
        AstError,
    >)
        ensures
            rv_assignee(r) == canon_assignee(assignee.v(), self.ctx(), src@),
    {
        proof {
            assert(accesses_v(assignee.accesses@).skip(0) =~= accesses_v(assignee.accesses@));
        }
        match self.canonicalize_access_list(&assignee.accesses, 0, src) {
            Err(err) => Err(err),
            Ok(accesses) => Ok(
                Assignee {
                    identifier: assignee.identifier.clone(),
                    accesses,
                    span: assignee.span,
                },
            ),
        }
    }

    /// Wraps `start` in one access expression per access step, left to
    /// right, canonicalizing each step; every created node carries `span`.
    /// This materializes the value an assignment target holds, so a
    /// compound assignment can read it.
    pub fn canonicalize_accesses(
        &self,
        start: Expression,
        accesses: &Vec<AssigneeAccess>,
        span: &Span,
        src: &Vec<u8>,
    ) -> (r: Result<Box<Expression>, AstError>)
        ensures
            rv_box_expr(r) == match canon_access_seq(accesses_v(accesses@), self.ctx(), src@) {
                Ok(acs) => Ok(access_chain(start.v(), acs, *span)),
                Err(err) => Err(err),
            },
    {
        proof {
            assert(accesses_v(accesses@).skip(0) =~= accesses_v(accesses@));
        }
        self.canonicalize_accesses_from(start, accesses, 0, span, src)
    }

    /// As `canonicalize_accesses`, starting from step `i`.
    fn canonicalize_accesses_from(
        &self,
        start: Expression,
        accesses: &Vec<AssigneeAccess>,
        i: usize,
        span: &Span,
        src: &Vec<u8>,
    ) -> (r: Result<Box<Expression>, AstError>)
        requires
            i <= accesses.len(),
        ensures
            rv_box_expr(r) == match canon_access_seq(
                accesses_v(accesses@).skip(i as int),
                self.ctx(),
                src@,
            ) {
                Ok(acs) => Ok(access_chain(start.v(), acs, *span)),
                Err(err) => Err(err),
            },
        decreases accesses.len() - i,
    {
        if i == accesses.len() {
            proof {
                assert(accesses_v(accesses@).skip(i as int) =~= Seq::<AssigneeAccessV>::empty());
            }
            Ok(Box::new(start))
        } else {
            proof {
                let s = accesses_v(accesses@).skip(i as int);
                assert(s[0] == accesses@[i as int].v());
                assert(s.drop_first() =~= accesses_v(accesses@).skip(i as int + 1));
            }
            match self.canonicalize_assignee_access(&accesses[i], src) {
                Err(err) => Err(err),
                Ok(access) => {
                    let ghost start0 = start.v();
                    let ghost av = access.v();
                    let next = chain_one(start, access, span);
                    proof {
                        let s = accesses_v(accesses@).skip(i as int);
                        let rest_r = canon_access_seq(s.drop_first(), self.ctx(), src@);
                        if rest_r is Ok {
                            let restv = rest_r->Ok_0;
                            assert((seq![av] + restv).drop_first() =~= restv);
                            assert((seq![av] + restv)[0] == av);
                            assert(access_chain(start0, seq![av] + restv, *span)
                                == access_chain(
                                chain_step(start0, av, *span),
                                (seq![av] + restv).drop_first(),
                                *span,
                            ));
                        }
                    }
                    self.canonicalize_accesses_from(next, accesses, i + 1, span, src)
                },
            }
        }
    }

    /// Maps a compound assignment operator to the binary operator it
    /// desugars to. Plain assignment is not a compound operator.
    pub fn compound_operation_conversion(&self, operation: &AssignOperation) -> (r: Result<
        BinaryOperation,
        AstError,
    >)
        requires
            *operation != AssignOperation::Assign,
        ensures
            r == Ok::<BinaryOperation, AstError>(compound_op(*operation)),
    {
        match operation {
            // Unreachable under the precondition; plain assignment is not
            // a compound operator.
            AssignOperation::Assign => Err(AstError::InvalidArrayDimensionSize(Span { lo: 0, hi: 0 })),
            AssignOperation::Add => Ok(BinaryOperation::Add),
            AssignOperation::Sub => Ok(BinaryOperation::Sub),
            AssignOperation::Mul => Ok(BinaryOperation::Mul),
            AssignOperation::Div => Ok(BinaryOperation::Div),
            AssignOperation::Pow => Ok(BinaryOperation::Pow),
            AssignOperation::Or => Ok(BinaryOperation::Or),
            AssignOperation::And => Ok(BinaryOperation::And),
            AssignOperation::BitOr => Ok(BinaryOperation::BitOr),
            AssignOperation::BitAnd => Ok(BinaryOperation::BitAnd),
            AssignOperation::BitXor => Ok(BinaryOperation::BitXor),
            AssignOperation::Shr => Ok(BinaryOperation::Shr),
            AssignOperation::ShrSigned => Ok(BinaryOperation::ShrSigned),
            AssignOperation::Shl => Ok(BinaryOperation::Shl),
            AssignOperation::Mod => Ok(BinaryOperation::Mod),
        }
    }

    /// Rewrites an assignment statement: canonicalizes target and value,
    /// and desugars a compound operator into a plain assignment whose value
    /// applies the operator to a read of the target.
    pub fn reduce_assign(&self, assign: &AssignStatement, src: &Vec<u8>) -> (r: Result<
        AssignStatement,
        AstError,
    >)
        ensures
            rv_assign(r) == canon_assign(
                crate::statement::AssignStatementV {
                    operation: assign.operation,
                    assignee: assign.assignee.v(),
                    value: assign.value.v(),
                    span: assign.span,
                },
                self.ctx(),
                src@,
            ),
    {
        match self.canonicalize_assignee(&assign.assignee, src) {
            Err(err) => Err(err),
            Ok(assignee) => match self.canonicalize_expression(&assign.value, src) {
                Err(err) => Err(err),
                Ok(value) => {
                    if matches!(assign.operation, AssignOperation::Assign) {
                        Ok(
                            AssignStatement {
                                operation: AssignOperation::Assign,
                                assignee,
                                value,
                                span: assign.span,
                            },
                        )
                    } else {
                        let base = Expression::Identifier(assignee.identifier.clone());
                        match self.canonicalize_accesses(
                            base,
                            &assign.assignee.accesses,
                            &assign.span,
                            src,
                        ) {
                            Err(err) => Err(err),
                            Ok(left) => {
                                let op = match self.compound_operation_conversion(
                                    &assign.operation,
                                ) {
                                    Ok(op) => op,
                                    Err(err) => {
                                        return Err(err);
                                    },
                                };
                                let new_value = Expression::Binary(
                                    BinaryExpression {
                                        left,
                                        right: Box::new(value),
                                        op,
                                        span: assign.span,
                                    },
                                );
                                Ok(
                                    AssignStatement {
                                        operation: AssignOperation::Assign,
                                        assignee,
                                        value: new_value,
                                        span: assign.span,
                                    },
                                )
                            },
                        }
                    }
                },
            },
        }
    }

    /// Rewrites a definition statement: canonicalizes the value and the
    /// declared type.
    pub fn reduce_definition(&self, definition: &DefinitionStatement, src: &Vec<u8>) -> (r: Result<
        DefinitionStatement,
        AstError,
    >)
        ensures
            rv_definition(r) == canon_definition(definition.v(), self.ctx(), src@),
        decreases *definition,
    {
        match self.canonicalize_expression(&definition.value, src) {
            Err(err) => Err(err),
            Ok(value) => match self.reduce_type(&definition.type_, &definition.span) {
                Err(err) => Err(err),
                Ok(type_) => Ok(
                    DefinitionStatement {
                        declaration_type: definition.declaration_type,
                        variable_names: copy_varnames(&definition.variable_names),
                        type_,
                        value,
                        span: definition.span,
                    },
                ),
            },
        }
    }

    /// Rewrites one statement into canonical form.
    pub fn canonicalize_statement(&self, statement: &Statement, src: &Vec<u8>) -> (r: Result<
        Statement,
        AstError,
    >)
        ensures
            rv_stmt(r) == canon_statement(statement.v(), self.ctx(), src@),
        decreases *statement, 1int,
    {
        match statement {
            Statement::Return(ret) => match self.canonicalize_expression(&ret.expression, src) {
                Err(err) => Err(err),
                Ok(expression) => Ok(
                    Statement::Return(ReturnStatement { expression, span: ret.span }),
                ),
            },
            Statement::Definition(d) => match self.reduce_definition(d, src) {
                Err(err) => Err(err),
                Ok(d1) => Ok(Statement::Definition(d1)),
            },
            Statement::Assign(a) => match self.reduce_assign(a, src) {
                Err(err) => Err(err),
                Ok(a1) => Ok(Statement::Assign(Box::new(a1))),
            },
            Statement::Conditional(c) => match self.canonicalize_expression(&c.condition, src) {
                Err(err) => Err(err),
                Ok(condition) => match self.canonicalize_block(&c.block, src) {
                    Err(err) => Err(err),
                    Ok(block) => match &c.next {
                        Option::None => Ok(
                            Statement::Conditional(
                                ConditionalStatement {
                                    condition,
                                    block,
                                    next: None,
                                    span: c.span,
                                },
                            ),
                        ),
                        Option::Some(n) => match self.canonicalize_statement(n, src) {
                            Err(err) => Err(err),
                            Ok(n1) => Ok(
                                Statement::Conditional(
                                    ConditionalStatement {
                                        condition,
                                        block,
                                        next: Some(Box::new(n1)),
                                        span: c.span,
                                    },
                                ),
                            ),
                        },
                    },
                },
            },
            Statement::Iteration(it) => match self.reduce_type(&it.type_, &it.span) {
                Err(err) => Err(err),
                Ok(type_) => match self.canonicalize_expression(&it.start, src) {
                    Err(err) => Err(err),
                    Ok(start) => match self.canonicalize_expression(&it.stop, src) {
                        Err(err) => Err(err),
                        Ok(stop) => match self.canonicalize_block(&it.block, src) {
                            Err(err) => Err(err),
                            Ok(block) => Ok(
                                Statement::Iteration(
                                    Box::new(
                                        IterationStatement {
                                            variable: it.variable.clone(),
                                            type_,
                                            start,
                                            stop,
                                            inclusive: it.inclusive,
                                            block,
                                            span: it.span,
                                        },
                                    ),
                                ),
                            ),
                        },
                    },
                },
            },
            Statement::Console(c) => {
                let f1 = match &c.function {
                    ConsoleFunction::Assert(e) => match self.canonicalize_expression(e, src) {
                        Err(err) => Err(err),
                        Ok(e1) => Ok(ConsoleFunction::Assert(e1)),
                    },
                    ConsoleFunction::Error(args) => {
                        proof {
                            assert(exprs_v(args.parameters@).skip(0) =~= exprs_v(
                                args.parameters@,
                            ));
                        }
                        match self.canonicalize_expression_list(&args.parameters, 0, src) {
                            Err(err) => Err(err),
                            Ok(parameters) => Ok(
                                ConsoleFunction::Error(
                                    ConsoleArgs {
                                        string: copy_chars(&args.string),
                                        parameters,
                                        span: args.span,
                                    },
                                ),
                            ),
                        }
                    },
                    ConsoleFunction::Log(args) => {
                        proof {
                            assert(exprs_v(args.parameters@).skip(0) =~= exprs_v(
                                args.parameters@,
                            ));
                        }
                        match self.canonicalize_expression_list(&args.parameters, 0, src) {
                            Err(err) => Err(err),
                            Ok(parameters) => Ok(
                                ConsoleFunction::Log(
                                    ConsoleArgs {
                                        string: copy_chars(&args.string),
                                        parameters,
                                        span: args.span,
                                    },
                                ),
                            ),
                        }
                    },
                };
                match f1 {
                    Err(err) => Err(err),
                    Ok(function) => Ok(
                        Statement::Console(ConsoleStatement { function, span: c.span }),
                    ),
                }
            },
            Statement::Expression(e) => match self.canonicalize_expression(&e.expression, src) {
                Err(err) => Err(err),
                Ok(expression) => Ok(
                    Statement::Expression(ExpressionStatement { expression, span: e.span }),
                ),
            },
            Statement::Block(b) => match self.canonicalize_block(b, src) {
                Err(err) => Err(err),
                Ok(b1) => Ok(Statement::Block(b1)),
            },
        }
    }

    /// Rewrites the statements `ss[i..]`, or returns the first error.
    fn canonicalize_statement_list(&self, ss: &Vec<Statement>, i: usize, src: &Vec<u8>) -> (r:
        Result<Vec<Statement>, AstError>)
        requires
            i <= ss.len(),
        ensures
            rv_stmts(r) == canon_stmt_seq(stmts_v(ss@).skip(i as int), self.ctx(), src@),
        decreases ss@, ss.len() - i,
    {
        if i == ss.len() {
            let r: Vec<Statement> = Vec::new();
            proof {
                assert(stmts_v(r@) =~= Seq::<StatementV>::empty());
                assert(stmts_v(ss@).skip(i as int) =~= Seq::<StatementV>::empty());
            }
            Ok(r)
        } else {
            proof {
                let s = stmts_v(ss@).skip(i as int);
                assert(s[0] == ss@[i as int].v());
                assert(s.drop_first() =~= stmts_v(ss@).skip(i as int + 1));
            }
            match self.canonicalize_statement(&ss[i], src) {
                Err(err) => Err(err),
                Ok(h) => match self.canonicalize_statement_list(ss, i + 1, src) {
                    Err(err) => Err(err),
                    Ok(mut rest) => {
                        let ghost rest0 = rest@;
                        let ghost hv = h.v();
                        rest.insert(0, h);
                        proof {
                            assert(stmts_v(rest@) =~= seq![hv] + stmts_v(rest0));
                        }
                        Ok(rest)
                    },
                },
            }
        }
    }

    /// Rewrites a block statement by statement.
    pub fn canonicalize_block(&self, block: &Block, src: &Vec<u8>) -> (r: Result<Block, AstError>)
        ensures
            rv_block(r) == canon_block(block.v(), self.ctx(), src@),
        decreases *block, 2int,
    {
        proof {
            assert(stmts_v(block.statements@).skip(0) =~= stmts_v(block.statements@));
        }
        match self.canonicalize_statement_list(&block.statements, 0, src) {
            Err(err) => Err(err),
            Ok(statements) => Ok(Block { statements, span: block.span }),
        }
    }
}


/// Wraps `start` in the access expression one access step describes.
#[verifier::rlimit(100)]
#[verifier::spinoff_prover]
fn chain_one(start: Expression, access: AssigneeAccess, span: &Span) -> (r: Expression)
    ensures
        r.v() == chain_step(start.v(), access.v(), *span),
{
    let ghost start0 = start.v();
    let ghost av = access.v();
    let r = match access {
        AssigneeAccess::ArrayIndex(index) => Expression::Access(
            AccessExpression::Array(
                ArrayAccess { array: Box::new(start), index: Box::new(index), span: *span },
            ),
        ),
        AssigneeAccess::ArrayRange(left, right) => Expression::Access(
            AccessExpression::ArrayRange(
                ArrayRangeAccess {
                    array: Box::new(start),
                    left: match left {
                        Option::None => Option::None,
                        Option::Some(e) => Option::Some(Box::new(e)),
                    },
                    right: match right {
                        Option::None => Option::None,
                        Option::Some(e) => Option::Some(Box::new(e)),
                    },
                    span: *span,
                },
            ),
        ),
        AssigneeAccess::Tuple(n, _) => Expression::Access(
            AccessExpression::Tuple(
                TupleAccess { tuple: Box::new(start), index: n, span: *span },
            ),
        ),
        AssigneeAccess::Member(name) => Expression::Access(
            AccessExpression::Member(
                MemberAccess { inner: Box::new(start), name, span: *span, type_: None },
            ),
        ),
    };
    proof {
        reveal_with_fuel(Expression::v, 3);
        reveal_with_fuel(AccessExpression::v, 3);
        match av {
            AssigneeAccessV::ArrayIndex(_) => {
                assert(r.v() == chain_step(start0, av, *span));
            },
            AssigneeAccessV::ArrayRange(_, _) => {
                assert(r.v() == chain_step(start0, av, *span));
            },
            AssigneeAccessV::Tuple(_, _) => {
                assert(r.v() == chain_step(start0, av, *span));
            },
            AssigneeAccessV::Member(_) => {
                assert(r.v() == chain_step(start0, av, *span));
            },
        }
    }
    r
}


/// The model of a `Result` whose value is a function input.
pub open spec fn rv_input(r: Result<FunctionInput, AstError>) -> Result<
    FunctionInputV,
    AstError,
> {
    match r {
        Ok(input) => Ok(input.v()),
        Err(err) => Err(err),
    }
}

/// The model of a `Result` whose value is a list of function inputs.
pub open spec fn rv_inputs(r: Result<Vec<FunctionInput>, AstError>) -> Result<
    Seq<FunctionInputV>,
    AstError,
> {
    match r {
        Ok(inputs) => Ok(inputs_v(inputs@)),
        Err(err) => Err(err),
    }
}

/// The model of a `Result` whose value is a function.
pub open spec fn rv_function(r: Result<Function, AstError>) -> Result<FunctionV, AstError> {
    match r {
        Ok(f) => Ok(f.v()),
        Err(err) => Err(err),
    }
}

/// The model of a `Result` whose value is a circuit member.
pub open spec fn rv_member(r: Result<CircuitMember, AstError>) -> Result<
    CircuitMemberV,
    AstError,
> {
    match r {
        Ok(m) => Ok(m.v()),
        Err(err) => Err(err),
    }
}

/// The model of a `Result` whose value is a list of circuit members.
pub open spec fn rv_members(r: Result<Vec<CircuitMember>, AstError>) -> Result<
    Seq<CircuitMemberV>,
    AstError,
> {
    match r {
        Ok(ms) => Ok(members_v(ms@)),
        Err(err) => Err(err),
    }
}

/// The model of a `Result` whose value is a circuit.
pub open spec fn rv_circuit(r: Result<Circuit, AstError>) -> Result<CircuitV, AstError> {
    match r {
        Ok(c) => Ok(c.v()),
        Err(err) => Err(err),
    }
}

/// The model of a `Result` whose value is a program.
pub open spec fn rv_program(r: Result<Program, AstError>) -> Result<ProgramV, AstError> {
    match r {
        Ok(p) => Ok(p.v()),
        Err(err) => Err(err),
    }
}

/// Copies a list of plain strings.
fn copy_strings(ss: &Vec<String>) -> (r: Vec<String>)
    ensures
        r@ == ss@,
{
    let mut out: Vec<String> = Vec::new();
    let mut i: usize = 0;
    while i < ss.len()
        invariant
            i <= ss.len(),
            out@ == ss@.take(i as int),
        decreases ss.len() - i,
    {
        out.push(ss[i].clone());
        i = i + 1;
        proof {
            assert(out@ =~= ss@.take(i as int));
        }
    }
    proof {
        assert(ss@.take(ss@.len() as int) =~= ss@);
    }
    out
}

/// Copies a list of annotations.
fn copy_annotations(anns: &Vec<Annotation>) -> (r: Vec<Annotation>)
    ensures
        annotations_v(r@) == annotations_v(anns@),
{
    let mut out: Vec<Annotation> = Vec::new();
    let mut i: usize = 0;
    while i < anns.len()
        invariant
            i <= anns.len(),
            out@.len() == i,
            forall|j: int| 0 <= j < i ==> out@[j].v() == anns@[j].v(),
        decreases anns.len() - i,
    {
        out.push(
            Annotation {
                span: anns[i].span,
                name: anns[i].name.clone(),
                arguments: copy_strings(&anns[i].arguments),
            },
        );
        i = i + 1;
    }
    proof {
        assert(annotations_v(out@) =~= annotations_v(anns@));
    }
    out
}

/// Copies a list of identifiers.
fn copy_identifiers(ids: &Vec<Identifier>) -> (r: Vec<Identifier>)
    ensures
        r@ == ids@,
{
    let mut out: Vec<Identifier> = Vec::new();
    let mut i: usize = 0;
    while i < ids.len()
        invariant
            i <= ids.len(),
            out@ == ids@.take(i as int),
        decreases ids.len() - i,
    {
        out.push(ids[i].clone());
        i = i + 1;
        proof {
            assert(out@ =~= ids@.take(i as int));
        }
    }
    proof {
        assert(ids@.take(ids@.len() as int) =~= ids@);
    }
    out
}

impl Canonicalizer {
    /// Rewrites a function input: a named parameter's type is
    /// canonicalized, keyword parameters pass through.
    pub fn canonicalize_function_input(&self, input: &FunctionInput) -> (r: Result<
        FunctionInput,
        AstError,
    >)
        ensures
            rv_input(r) == canon_function_input(input.v(), self.ctx()),
    {
        match input {
            FunctionInput::Variable(variable) => match self.reduce_type(
                &variable.type_,
                &variable.span,
            ) {
                Err(err) => Err(err),
                Ok(type_) => Ok(
                    FunctionInput::Variable(
                        FunctionInputVariable {
                            identifier: variable.identifier.clone(),
                            const_: variable.const_,
                            mutable: variable.mutable,
                            type_,
                            span: variable.span,
                        },
                    ),
                ),
            },
            FunctionInput::InputKeyword(s) => Ok(FunctionInput::InputKeyword(*s)),
            FunctionInput::SelfKeyword(s) => Ok(FunctionInput::SelfKeyword(*s)),
            FunctionInput::MutSelfKeyword(s) => Ok(FunctionInput::MutSelfKeyword(*s)),
            FunctionInput::ConstSelfKeyword(s) => Ok(FunctionInput::ConstSelfKeyword(*s)),
        }
    }

    /// Rewrites the function inputs `inputs[i..]`, or returns the first
    /// error.
    fn canonicalize_input_list(&self, inputs: &Vec<FunctionInput>, i: usize) -> (r: Result<
        Vec<FunctionInput>,
        AstError,
    >)
        requires
            i <= inputs.len(),
        ensures
            rv_inputs(r) == canon_input_seq(inputs_v(inputs@).skip(i as int), self.ctx()),
        decreases inputs.len() - i,
    {
        if i == inputs.len() {
            let r: Vec<FunctionInput> = Vec::new();
            proof {
                assert(inputs_v(r@) =~= Seq::<FunctionInputV>::empty());
                assert(inputs_v(inputs@).skip(i as int) =~= Seq::<FunctionInputV>::empty());
            }
            Ok(r)
        } else {
            proof {
                let s = inputs_v(inputs@).skip(i as int);
                assert(s[0] == inputs@[i as int].v());
                assert(s.drop_first() =~= inputs_v(inputs@).skip(i as int + 1));
            }
            match self.canonicalize_function_input(&inputs[i]) {
                Err(err) => Err(err),
                Ok(h) => match self.canonicalize_input_list(inputs, i + 1) {
                    Err(err) => Err(err),
                    Ok(mut rest) => {
                        let ghost rest0 = rest@;
                        let ghost hv = h.v();
                        rest.insert(0, h);
                        proof {
                            assert(inputs_v(rest@) =~= seq![hv] + inputs_v(rest0));
                        }
                        Ok(rest)
                    },
                },
            }
        }
    }

    /// Rewrites a function: inputs, output type and body are
    /// canonicalized; a missing output type becomes the empty tuple.
    pub fn reduce_function(&self, function: &Function, src: &Vec<u8>) -> (r: Result<
        Function,
        AstError,
    >)
        ensures
            rv_function(r) == canon_function(function.v(), self.ctx(), src@),
        decreases *function,
    {
        proof {
            assert(inputs_v(function.input@).skip(0) =~= inputs_v(function.input@));
        }
        match self.canonicalize_input_list(&function.input, 0) {
            Err(err) => Err(err),
            Ok(input) => {
                let output1 = match &function.output {
                    Option::None => {
                        let empty: Vec<Type> = Vec::new();
                        proof {
                            assert(types_v(empty@) =~= Seq::<TypeV>::empty());
                        }
                        Ok(Type::Tuple(empty))
                    },
                    Option::Some(t) => self.reduce_type(t, &function.span),
                };
                match output1 {
                    Err(err) => Err(err),
                    Ok(output) => match self.canonicalize_block(&function.block, src) {
                        Err(err) => Err(err),
                        Ok(block) => Ok(
                            Function {
                                identifier: function.identifier.clone(),
                                annotations: copy_annotations(&function.annotations),
                                input,
                                const_: function.const_,
                                output: Some(output),
                                block,
                                core_mapping: match &function.core_mapping {
                                    Option::None => None,
                                    Option::Some(m) => Some(m.clone()),
                                },
                                span: function.span,
                            },
                        ),
                    },
                }
            },
        }
    }

    /// Rewrites one circuit member, with `Self` standing for the enclosing
    /// circuit.
    pub fn canonicalize_circuit_member(&self, member: &CircuitMember, src: &Vec<u8>) -> (r: Result<
        CircuitMember,
        AstError,
    >)
        ensures
            rv_member(r) == canon_circuit_member(member.v(), self.ctx(), src@),
        decreases *member,
    {
        match member {
            CircuitMember::CircuitConst(id, t, e) => match self.reduce_type(t, &id.span) {
                Err(err) => Err(err),
                Ok(t1) => match self.canonicalize_expression(e, src) {
                    Err(err) => Err(err),
                    Ok(e1) => Ok(CircuitMember::CircuitConst(id.clone(), t1, e1)),
                },
            },
            CircuitMember::CircuitVariable(id, t) => match self.reduce_type(t, &id.span) {
                Err(err) => Err(err),
                Ok(t1) => Ok(CircuitMember::CircuitVariable(id.clone(), t1)),
            },
            CircuitMember::CircuitFunction(f) => match self.reduce_function(f, src) {
                Err(err) => Err(err),
                Ok(f1) => Ok(CircuitMember::CircuitFunction(Box::new(f1))),
            },
        }
    }

    /// Rewrites the circuit members `ms[i..]`, or returns the first error.
    fn canonicalize_member_list(&self, ms: &Vec<CircuitMember>, i: usize, src: &Vec<u8>) -> (r:
        Result<Vec<CircuitMember>, AstError>)
        requires
            i <= ms.len(),
        ensures
            rv_members(r) == canon_member_seq(members_v(ms@).skip(i as int), self.ctx(), src@),
        decreases ms.len() - i,
    {
        if i == ms.len() {
            let r: Vec<CircuitMember> = Vec::new();
            proof {
                assert(members_v(r@) =~= Seq::<CircuitMemberV>::empty());
                assert(members_v(ms@).skip(i as int) =~= Seq::<CircuitMemberV>::empty());
            }
            Ok(r)
        } else {
            proof {
                let s = members_v(ms@).skip(i as int);
                assert(s[0] == ms@[i as int].v());
                assert(s.drop_first() =~= members_v(ms@).skip(i as int + 1));
            }
            match self.canonicalize_circuit_member(&ms[i], src) {
                Err(err) => Err(err),
                Ok(h) => match self.canonicalize_member_list(ms, i + 1, src) {
                    Err(err) => Err(err),
                    Ok(mut rest) => {
                        let ghost rest0 = rest@;
                        let ghost hv = h.v();
                        rest.insert(0, h);
                        proof {
                            assert(members_v(rest@) =~= seq![hv] + members_v(rest0));
                        }
                        Ok(rest)
                    },
                },
            }
        }
    }

    /// Rewrites a circuit: every member is rewritten with the circuit's
    /// own name standing for `Self`.
    pub fn reduce_circuit(&self, circuit: &Circuit, src: &Vec<u8>) -> (r: Result<
        Circuit,
        AstError,
    >)
        ensures
            rv_circuit(r) == canon_circuit(circuit.v(), src@),
    {
        let inner = Canonicalizer { circuit_name: Some(circuit.circuit_name.clone()) };
        proof {
            assert(members_v(circuit.members@).skip(0) =~= members_v(circuit.members@));
        }
        match inner.canonicalize_member_list(&circuit.members, 0, src) {
            Err(err) => Err(err),
            Ok(members) => Ok(
                Circuit { circuit_name: circuit.circuit_name.clone(), members },
            ),
        }
    }
}


impl Canonicalizer {
    /// Rewrites the keyed aliases `als[i..]`, keys kept.
    fn canonicalize_alias_list(&self, als: &Vec<(Identifier, Alias)>, i: usize, src: &Vec<u8>) -> (r:
        Result<Vec<(Identifier, Alias)>, AstError>)
        requires
            i <= als.len(),
            self.ctx() is None,
        ensures
            (match r {
                Ok(out) => Ok(alias_pairs_v(out@)),
                Err(err) => Err(err),
            }) == canon_alias_seq(alias_pairs_v(als@).skip(i as int), src@),
        decreases als.len() - i,
    {
        if i == als.len() {
            let r: Vec<(Identifier, Alias)> = Vec::new();
            proof {
                assert(alias_pairs_v(r@) =~= Seq::<(crate::common::IdentifierV, AliasV)>::empty());
                assert(alias_pairs_v(als@).skip(i as int) =~= Seq::<
                    (crate::common::IdentifierV, AliasV),
                >::empty());
            }
            Ok(r)
        } else {
            proof {
                let s = alias_pairs_v(als@).skip(i as int);
                assert(s[0] == (als@[i as int].0.v(), als@[i as int].1.v()));
                assert(s.drop_first() =~= alias_pairs_v(als@).skip(i as int + 1));
            }
            let alias = &als[i].1;
            match self.reduce_type(&alias.represents, &alias.span) {
                Err(err) => Err(err),
                Ok(represents) => match self.canonicalize_alias_list(als, i + 1, src) {
                    Err(err) => Err(err),
                    Ok(mut rest) => {
                        let h = (
                            als[i].0.clone(),
                            Alias { name: alias.name.clone(), represents, span: alias.span },
                        );
                        let ghost rest0 = rest@;
                        let ghost hv = (h.0.v(), h.1.v());
                        rest.insert(0, h);
                        proof {
                            assert(alias_pairs_v(rest@) =~= seq![hv] + alias_pairs_v(rest0));
                        }
                        Ok(rest)
                    },
                },
            }
        }
    }

    /// Rewrites the keyed circuits `cs[i..]`, keys kept.
    fn canonicalize_circuit_list(
        &self,
        cs: &Vec<(Identifier, Circuit)>,
        i: usize,
        src: &Vec<u8>,
    ) -> (r: Result<Vec<(Identifier, Circuit)>, AstError>)
        requires
            i <= cs.len(),
        ensures
            (match r {
                Ok(out) => Ok(circuit_pairs_v(out@)),
                Err(err) => Err(err),
            }) == canon_circuit_seq(circuit_pairs_v(cs@).skip(i as int), src@),
        decreases cs.len() - i,
    {
        if i == cs.len() {
            let r: Vec<(Identifier, Circuit)> = Vec::new();
            proof {
                assert(circuit_pairs_v(r@) =~= Seq::<
                    (crate::common::IdentifierV, CircuitV),
                >::empty());
                assert(circuit_pairs_v(cs@).skip(i as int) =~= Seq::<
                    (crate::common::IdentifierV, CircuitV),
                >::empty());
            }
            Ok(r)
        } else {
            proof {
                let s = circuit_pairs_v(cs@).skip(i as int);
                assert(s[0] == (cs@[i as int].0.v(), cs@[i as int].1.v()));
                assert(s.drop_first() =~= circuit_pairs_v(cs@).skip(i as int + 1));
            }
            match self.reduce_circuit(&cs[i].1, src) {
                Err(err) => Err(err),
                Ok(c1) => match self.canonicalize_circuit_list(cs, i + 1, src) {
                    Err(err) => Err(err),
                    Ok(mut rest) => {
                        let h = (cs[i].0.clone(), c1);
                        let ghost rest0 = rest@;
                        let ghost hv = (h.0.v(), h.1.v());
                        rest.insert(0, h);
                        proof {
                            assert(circuit_pairs_v(rest@) =~= seq![hv] + circuit_pairs_v(rest0));
                        }
                        Ok(rest)
                    },
                },
            }
        }
    }

    /// Rewrites the keyed global constants `gs[i..]`, keys kept.
    fn canonicalize_global_const_list(
        &self,
        gs: &Vec<(Vec<Identifier>, DefinitionStatement)>,
        i: usize,
        src: &Vec<u8>,
    ) -> (r: Result<Vec<(Vec<Identifier>, DefinitionStatement)>, AstError>)
        requires
            i <= gs.len(),
            self.ctx() is None,
        ensures
            (match r {
                Ok(out) => Ok(gconst_pairs_v(out@)),
                Err(err) => Err(err),
            }) == canon_global_const_seq(gconst_pairs_v(gs@).skip(i as int), src@),
        decreases gs.len() - i,
    {
        if i == gs.len() {
            let r: Vec<(Vec<Identifier>, DefinitionStatement)> = Vec::new();
            proof {
                assert(gconst_pairs_v(r@) =~= Seq::<
                    (Seq<crate::common::IdentifierV>, DefinitionStatementV),
                >::empty());
                assert(gconst_pairs_v(gs@).skip(i as int) =~= Seq::<
                    (Seq<crate::common::IdentifierV>, DefinitionStatementV),
                >::empty());
            }
            Ok(r)
        } else {
            proof {
                let s = gconst_pairs_v(gs@).skip(i as int);
                assert(s[0] == (const_key_v(gs@[i as int].0@), gs@[i as int].1.v()));
                assert(s.drop_first() =~= gconst_pairs_v(gs@).skip(i as int + 1));
            }
            match self.reduce_definition(&gs[i].1, src) {
                Err(err) => Err(err),
                Ok(d1) => match self.canonicalize_global_const_list(gs, i + 1, src) {
                    Err(err) => Err(err),
                    Ok(mut rest) => {
                        let h = (copy_identifiers(&gs[i].0), d1);
                        let ghost rest0 = rest@;
                        let ghost hv = (const_key_v(h.0@), h.1.v());
                        rest.insert(0, h);
                        proof {
                            assert(gconst_pairs_v(rest@) =~= seq![hv] + gconst_pairs_v(rest0));
                        }
                        Ok(rest)
                    },
                },
            }
        }
    }

    /// Rewrites the keyed functions `fs[i..]`, keys kept.
    fn canonicalize_function_list(
        &self,
        fs: &Vec<(Identifier, Function)>,
        i: usize,
        src: &Vec<u8>,
    ) -> (r: Result<Vec<(Identifier, Function)>, AstError>)
        requires
            i <= fs.len(),
            self.ctx() is None,
        ensures
            (match r {
                Ok(out) => Ok(function_pairs_v(out@)),
                Err(err) => Err(err),
            }) == canon_function_seq(function_pairs_v(fs@).skip(i as int), src@),
        decreases fs.len() - i,
    {
        if i == fs.len() {
            let r: Vec<(Identifier, Function)> = Vec::new();
            proof {
                assert(function_pairs_v(r@) =~= Seq::<
                    (crate::common::IdentifierV, FunctionV),
                >::empty());
                assert(function_pairs_v(fs@).skip(i as int) =~= Seq::<
                    (crate::common::IdentifierV, FunctionV),
                >::empty());
            }
            Ok(r)
        } else {
            proof {
                let s = function_pairs_v(fs@).skip(i as int);
                assert(s[0] == (fs@[i as int].0.v(), fs@[i as int].1.v()));
                assert(s.drop_first() =~= function_pairs_v(fs@).skip(i as int + 1));
            }
            match self.reduce_function(&fs[i].1, src) {
                Err(err) => Err(err),
                Ok(f1) => match self.canonicalize_function_list(fs, i + 1, src) {
                    Err(err) => Err(err),
                    Ok(mut rest) => {
                        let h = (fs[i].0.clone(), f1);
                        let ghost rest0 = rest@;
                        let ghost hv = (h.0.v(), h.1.v());
                        rest.insert(0, h);
                        proof {
                            assert(function_pairs_v(rest@) =~= seq![hv] + function_pairs_v(rest0));
                        }
                        Ok(rest)
                    },
                },
            }
        }
    }

    /// Rewrites a whole program into canonical form. Import statements and
    /// resolved import sub-programs pass through unchanged.
    pub fn canonicalize_program(&self, program: Program, src: &Vec<u8>) -> (r: Result<
        Program,
        AstError,
    >)
        requires
            self.ctx() is None,
        ensures
            rv_program(r) == canon_program(program.v(), src@),
    {
        let Program {
            name,
            expected_input,
            import_statements,
            imports,
            aliases,
            circuits,
            global_consts,
            functions,
        } = program;
        proof {
            assert(inputs_v(expected_input@).skip(0) =~= inputs_v(expected_input@));
            assert(alias_pairs_v(aliases@).skip(0) =~= alias_pairs_v(aliases@));
            assert(circuit_pairs_v(circuits@).skip(0) =~= circuit_pairs_v(circuits@));
            assert(gconst_pairs_v(global_consts@).skip(0) =~= gconst_pairs_v(global_consts@));
            assert(function_pairs_v(functions@).skip(0) =~= function_pairs_v(functions@));
        }
        match self.canonicalize_input_list(&expected_input, 0) {
            Err(err) => Err(err),
            Ok(expected_input2) => match self.canonicalize_alias_list(&aliases, 0, src) {
                Err(err) => Err(err),
                Ok(aliases2) => match self.canonicalize_circuit_list(&circuits, 0, src) {
                    Err(err) => Err(err),
                    Ok(circuits2) => match self.canonicalize_global_const_list(
                        &global_consts,
                        0,
                        src,
                    ) {
                        Err(err) => Err(err),
                        Ok(global_consts2) => match self.canonicalize_function_list(
                            &functions,
                            0,
                            src,
                        ) {
                            Err(err) => Err(err),
                            Ok(functions2) => Ok(
                                Program {
                                    name,
                                    expected_input: expected_input2,
                                    import_statements,
                                    imports,
                                    aliases: aliases2,
                                    circuits: circuits2,
                                    global_consts: global_consts2,
                                    functions: functions2,
                                },
                            ),
                        },
                    },
                },
            },
        }
    }
}

/// Rewrites a program into canonical form, from outside of any circuit:
/// the pass the pipeline runs between parsing and symbol resolution.
pub fn canonicalize(program: Program, src: &Vec<u8>) -> (r: Result<Program, AstError>)
    ensures
        rv_program(r) == canon_program(program.v(), src@),
{
    let c = Canonicalizer { circuit_name: None };
    c.canonicalize_program(program, src)
}

} // verus!
