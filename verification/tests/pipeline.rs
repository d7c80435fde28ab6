use leo_frontend::canonicalizer::{canonicalize, Canonicalizer};
use leo_frontend::common::{Char, Identifier};
use leo_frontend::emitter::IrEmitter;
use leo_frontend::errors::{AstError, EmitError};
use leo_frontend::expression::{
    BinaryExpression, BinaryOperation, Expression, ValueExpression,
};
use leo_frontend::ir::{Instruction, Literal, Operand};
use leo_frontend::program::{Circuit, CircuitMember, Function, Program};
use leo_frontend::span::Span;
use leo_frontend::statement::{
    AssignOperation, AssignStatement, Assignee, Block, ExpressionStatement, Statement,
};
use leo_frontend::types::{IntegerType, Type};

fn sp(lo: usize, hi: usize) -> Span {
    Span::new(lo, hi)
}

fn ident(name: &str) -> Identifier {
    Identifier::new(name.to_string(), sp(0, 0))
}

fn int_lit(s: &str) -> Expression {
    Expression::Value(ValueExpression::Integer(IntegerType::U8, s.to_string(), sp(0, 0)))
}

fn canonicalizer() -> Canonicalizer {
    Canonicalizer { circuit_name: None }
}

/// `[[u8; 1]; 2]` and `[u8; (2, 1)]` canonicalize to the identical
/// nested array type: outer dimension 2, inner dimension 1.
#[test]
fn array_type_flattening_agrees() {
    let c = canonicalizer();
    let nested = Type::Array(Box::new(Type::Array(Box::new(Type::IntegerType(IntegerType::U8)), vec![1])), vec![2]);
    let multi = Type::Array(Box::new(Type::IntegerType(IntegerType::U8)), vec![2, 1]);
    let r1 = c.reduce_type(&nested, &sp(0, 0)).unwrap();
    let r2 = c.reduce_type(&multi, &sp(0, 0)).unwrap();
    for r in [&r1, &r2] {
        match r {
            Type::Array(inner, dims) => {
                assert_eq!(dims, &vec![2u64]);
                match &**inner {
                    Type::Array(base, dims2) => {
                        assert_eq!(dims2, &vec![1u64]);
                        assert!(matches!(&**base, Type::IntegerType(IntegerType::U8)));
                    }
                    _ => panic!("inner is not an array"),
                }
            }
            _ => panic!("result is not an array"),
        }
    }
}

/// A dimension of zero is an error, for types and for constructions.
#[test]
fn zero_dimension_is_an_error() {
    let c = canonicalizer();
    let t = Type::Array(Box::new(Type::Boolean), vec![0]);
    assert!(matches!(
        c.reduce_type(&t, &sp(3, 7)),
        Err(AstError::InvalidArrayDimensionSize(s)) if s.lo == 3 && s.hi == 7
    ));
}

/// A tuple type of exactly one element is an error; other widths pass.
#[test]
fn one_element_tuple_is_an_error() {
    let c = canonicalizer();
    let one = Type::Tuple(vec![Type::Boolean]);
    assert!(matches!(
        c.reduce_type(&one, &sp(1, 2)),
        Err(AstError::InvalidTupleDimensionSize(_))
    ));
    let two = Type::Tuple(vec![Type::Boolean, Type::Char]);
    assert!(c.reduce_type(&two, &sp(1, 2)).is_ok());
}

/// Inside circuit `Foo`, a member typed `Self` canonicalizes to
/// `Identifier("Foo")`.
#[test]
fn self_member_resolves_to_circuit_name() {
    let c = canonicalizer();
    let circuit = Circuit {
        circuit_name: ident("Foo"),
        members: vec![CircuitMember::CircuitVariable(ident("f"), Type::SelfType)],
    };
    let out = c.reduce_circuit(&circuit, &Vec::new()).unwrap();
    match &out.members[0] {
        CircuitMember::CircuitVariable(name, Type::Identifier(id)) => {
            assert_eq!(name.name, "f");
            assert_eq!(id.name, "Foo");
        }
        _ => panic!("member was not resolved to the circuit name"),
    }
}

/// The same type outside any circuit is an error.
#[test]
fn self_type_outside_circuit_is_an_error() {
    let c = canonicalizer();
    assert!(matches!(
        c.reduce_type(&Type::SelfType, &sp(4, 8)),
        Err(AstError::BigSelfOutsideOfCircuit(s)) if s.lo == 4 && s.hi == 8
    ));
}

/// `x += y;` canonicalizes to a plain assignment whose value is
/// `Binary(Add, x, y)`; every compound operator maps to its operator.
#[test]
fn compound_assignment_desugars() {
    let c = canonicalizer();
    let assign = AssignStatement {
        operation: AssignOperation::Add,
        assignee: Assignee { identifier: ident("x"), accesses: vec![], span: sp(0, 7) },
        value: Expression::Identifier(ident("y")),
        span: sp(0, 7),
    };
    let out = c.reduce_assign(&assign, &Vec::new()).unwrap();
    assert!(matches!(out.operation, AssignOperation::Assign));
    match &out.value {
        Expression::Binary(b) => {
            assert!(matches!(b.op, BinaryOperation::Add));
            assert!(matches!(&*b.left, Expression::Identifier(id) if id.name == "x"));
            assert!(matches!(&*b.right, Expression::Identifier(id) if id.name == "y"));
        }
        _ => panic!("value is not the desugared binary expression"),
    }
}

/// Each compound operator maps to the matching binary operator.
#[test]
fn compound_operator_mapping() {
    let c = canonicalizer();
    let cases = [
        (AssignOperation::Add, BinaryOperation::Add),
        (AssignOperation::Sub, BinaryOperation::Sub),
        (AssignOperation::Mul, BinaryOperation::Mul),
        (AssignOperation::Div, BinaryOperation::Div),
        (AssignOperation::Pow, BinaryOperation::Pow),
        (AssignOperation::Or, BinaryOperation::Or),
        (AssignOperation::And, BinaryOperation::And),
        (AssignOperation::BitOr, BinaryOperation::BitOr),
        (AssignOperation::BitAnd, BinaryOperation::BitAnd),
        (AssignOperation::BitXor, BinaryOperation::BitXor),
        (AssignOperation::Shr, BinaryOperation::Shr),
        (AssignOperation::ShrSigned, BinaryOperation::ShrSigned),
        (AssignOperation::Shl, BinaryOperation::Shl),
        (AssignOperation::Mod, BinaryOperation::Mod),
    ];
    for (op, expected) in cases {
        let got = c.compound_operation_conversion(&op).unwrap();
        assert_eq!(got, expected);
    }
}

/// A string literal explodes into one character literal per character,
/// each spanning its own bytes: a plain character one byte, an escape the
/// whole escape sequence.
#[test]
fn string_literal_explodes_with_escape_spans() {
    let c = canonicalizer();
    let src: Vec<u8> = b"\"a\\x41b\"".to_vec();
    let chars = vec![Char::Scalar('a'), Char::Scalar('A'), Char::Scalar('b')];
    let out = c
        .reduce_string(&chars, &sp(0, src.len()), &src)
        .unwrap();
    match out {
        Expression::ArrayInline(arr) => {
            assert_eq!(arr.elements.len(), 3);
            let spans: Vec<Span> = arr
                .elements
                .iter()
                .map(|e| match e {
                    leo_frontend::expression::SpreadOrExpression::Expression(
                        Expression::Value(ValueExpression::Char(cv)),
                    ) => cv.span,
                    _ => panic!("element is not a character literal"),
                })
                .collect();
            assert_eq!((spans[0].lo, spans[0].hi), (1, 2));
            assert_eq!((spans[1].lo, spans[1].hi), (2, 6));
            assert_eq!((spans[2].lo, spans[2].hi), (6, 7));
        }
        _ => panic!("string did not become an inline array"),
    }
}

/// An empty string literal is an error.
#[test]
fn empty_string_is_an_error() {
    let c = canonicalizer();
    assert!(matches!(
        c.reduce_string(&vec![], &sp(0, 2), &b"\"\"".to_vec()),
        Err(AstError::EmptyString(_))
    ));
}

/// Canonicalization is idempotent: the output of the pass, run through
/// the pass again, is unchanged. Checked here on a program that exercises
/// compound assignment, `Self` resolution, and array flattening.
#[test]
fn canonicalize_twice_is_once() {
    let build = || Program {
        name: "test".to_string(),
        expected_input: vec![],
        import_statements: vec![],
        imports: vec![],
        aliases: vec![],
        circuits: vec![(
            ident("Foo"),
            Circuit {
                circuit_name: ident("Foo"),
                members: vec![CircuitMember::CircuitVariable(ident("f"), Type::SelfType)],
            },
        )],
        global_consts: vec![],
        functions: vec![(
            ident("main"),
            Function {
                identifier: ident("main"),
                annotations: vec![],
                input: vec![],
                const_: false,
                output: None,
                block: Block {
                    statements: vec![Statement::Assign(Box::new(AssignStatement {
                        operation: AssignOperation::Mul,
                        assignee: Assignee {
                            identifier: ident("x"),
                            accesses: vec![],
                            span: sp(0, 6),
                        },
                        value: int_lit("3"),
                        span: sp(0, 6),
                    }))],
                    span: sp(0, 6),
                },
                core_mapping: None,
                span: sp(0, 6),
            },
        )],
    };
    let src: Vec<u8> = Vec::new();
    let once = canonicalize(build(), &src).unwrap();
    // Rebuild the once-canonicalized program structurally for the second run.
    let again = canonicalize(build(), &src).unwrap();
    let twice = canonicalize(again, &src).unwrap();
    // The function output becomes the empty tuple and stays it.
    let f_once = &once.functions[0].1;
    let f_twice = &twice.functions[0].1;
    assert!(matches!(f_once.output, Some(Type::Tuple(ref ts)) if ts.is_empty()));
    assert!(matches!(f_twice.output, Some(Type::Tuple(ref ts)) if ts.is_empty()));
    // The compound assignment is desugared once and then kept.
    for f in [f_once, f_twice] {
        match &f.block.statements[0] {
            Statement::Assign(a) => {
                assert!(matches!(a.operation, AssignOperation::Assign));
                assert!(matches!(&a.value, Expression::Binary(b)
                    if matches!(b.op, BinaryOperation::Mul)));
            }
            _ => panic!("statement is not an assignment"),
        }
    }
    // The Self member resolves to the circuit name and stays resolved.
    for p in [&once, &twice] {
        match &p.circuits[0].1.members[0] {
            CircuitMember::CircuitVariable(_, Type::Identifier(id)) => {
                assert_eq!(id.name, "Foo")
            }
            _ => panic!("member not resolved"),
        }
    }
}

/// Emitting `a + b` in an otherwise-empty function allocates register 0
/// as the destination of the single `Add` instruction.
#[test]
fn register_numbering_single_add() {
    let mut e = IrEmitter::new();
    // Parameters land in registers 0 and 1 before the body is lowered.
    let ra = e.spawn_reg(Some("a".to_string()));
    let rb = e.spawn_reg(Some("b".to_string()));
    assert_eq!((ra, rb), (0, 1));
    let expr = Expression::Binary(BinaryExpression {
        left: Box::new(Expression::Identifier(ident("a"))),
        right: Box::new(Expression::Identifier(ident("b"))),
        op: BinaryOperation::Add,
        span: sp(0, 5),
    });
    let stmt = ExpressionStatement { expression: expr, span: sp(0, 5) };
    e.visit_expression_statement(&stmt).unwrap();
    assert_eq!(e.buffer.len(), 1);
    match &e.buffer[0] {
        Instruction::Add(d) => {
            assert_eq!(d.destination, 2);
            assert!(matches!(d.first, Operand::Register(0)));
            assert!(matches!(d.second, Operand::Register(1)));
        }
        _ => panic!("not an add instruction"),
    }
    // The temporary was released: only the two parameters stay live.
    assert_eq!(e.registers.len(), 2);
}

/// Emitting `(a + b) * c` allocates one register for the inner `Add` and
/// the next for the outer `Mul`, and both are released after the
/// enclosing expression statement completes.
#[test]
fn register_numbering_nested() {
    let mut e = IrEmitter::new();
    e.spawn_reg(Some("a".to_string()));
    e.spawn_reg(Some("b".to_string()));
    e.spawn_reg(Some("c".to_string()));
    let inner = Expression::Binary(BinaryExpression {
        left: Box::new(Expression::Identifier(ident("a"))),
        right: Box::new(Expression::Identifier(ident("b"))),
        op: BinaryOperation::Add,
        span: sp(0, 5),
    });
    let outer = Expression::Binary(BinaryExpression {
        left: Box::new(inner),
        right: Box::new(Expression::Identifier(ident("c"))),
        op: BinaryOperation::Mul,
        span: sp(0, 9),
    });
    let stmt = ExpressionStatement { expression: outer, span: sp(0, 9) };
    e.visit_expression_statement(&stmt).unwrap();
    assert_eq!(e.buffer.len(), 2);
    match (&e.buffer[0], &e.buffer[1]) {
        (Instruction::Add(add), Instruction::Mul(mul)) => {
            assert_eq!(add.destination, 3);
            assert_eq!(mul.destination, 4);
            assert!(matches!(mul.first, Operand::Register(3)));
            assert!(matches!(mul.second, Operand::Register(2)));
        }
        _ => panic!("wrong instructions"),
    }
    assert_eq!(e.registers.len(), 3);
}

/// Integer literals are parsed at emission: in-range values become typed
/// constants, out-of-range or malformed ones are the malformed-literal
/// error.
#[test]
fn literal_lowering() {
    let e = IrEmitter::new();
    let ok = e
        .get_value(&ValueExpression::Integer(IntegerType::U8, "255".to_string(), sp(0, 3)))
        .unwrap();
    assert!(matches!(ok, Literal::U8(255)));
    assert!(matches!(
        e.get_value(&ValueExpression::Integer(IntegerType::U8, "256".to_string(), sp(0, 3))),
        Err(EmitError::MalformedLiteral(_))
    ));
    assert!(matches!(
        e.get_value(&ValueExpression::Integer(IntegerType::I8, "128".to_string(), sp(0, 3))),
        Err(EmitError::MalformedLiteral(_))
    ));
    assert!(matches!(
        e.get_value(&ValueExpression::Integer(IntegerType::U64, "12x".to_string(), sp(0, 3))),
        Err(EmitError::MalformedLiteral(_))
    ));
    assert!(matches!(
        e.get_value(&ValueExpression::Boolean("true".to_string(), sp(0, 4))).unwrap(),
        Literal::Boolean(true)
    ));
}

/// Ternary expressions and calls cannot be lowered and fail emission
/// explicitly.
#[test]
fn unsupported_constructs_fail_emission() {
    let mut e = IrEmitter::new();
    let tern = Expression::Ternary(leo_frontend::expression::TernaryExpression {
        condition: Box::new(Expression::Identifier(ident("a"))),
        if_true: Box::new(Expression::Identifier(ident("b"))),
        if_false: Box::new(Expression::Identifier(ident("c"))),
        span: sp(1, 9),
    });
    assert!(matches!(e.emit_expr(&tern), Err(EmitError::UnsupportedTernary(_))));
    let call = Expression::Call(leo_frontend::expression::CallExpression {
        function: Box::new(Expression::Identifier(ident("f"))),
        arguments: vec![],
        span: sp(0, 3),
    });
    assert!(matches!(e.emit_expr(&call), Err(EmitError::UnsupportedCall(_))));
}

/// `eq_flat` equates exactly the matching scalar types.
#[test]
fn eq_flat_scalars() {
    assert!(Type::Boolean.eq_flat(&Type::Boolean));
    assert!(Type::IntegerType(IntegerType::U8).eq_flat(&Type::IntegerType(IntegerType::U8)));
    assert!(!Type::IntegerType(IntegerType::U8).eq_flat(&Type::IntegerType(IntegerType::U16)));
    assert!(!Type::Boolean.eq_flat(&Type::Char));
    assert!(!Type::Error.eq_flat(&Type::Error));
}

/// `Program::new` makes an empty program; `name` replaces its name.
#[test]
fn program_naming() {
    let p = Program::new("first".to_string());
    assert_eq!(p.get_name(), "first");
    let p = p.name("second".to_string());
    assert_eq!(p.get_name(), "second");
    assert!(p.functions.is_empty());
    assert!(p.circuits.is_empty());
}

/// `[x; (2, 1)]` canonicalizes to nested single-dimension array
/// constructions, outermost dimension first.
#[test]
fn array_init_flattening() {
    let c = canonicalizer();
    let init = Expression::ArrayInit(leo_frontend::expression::ArrayInitExpression {
        element: Box::new(int_lit("7")),
        dimensions: vec![2, 1],
        span: sp(0, 9),
    });
    let out = c.canonicalize_expression(&init, &Vec::new()).unwrap();
    match out {
        Expression::ArrayInit(outer) => {
            assert_eq!(outer.dimensions, vec![2u64]);
            match &*outer.element {
                Expression::ArrayInit(inner) => {
                    assert_eq!(inner.dimensions, vec![1u64]);
                    assert!(matches!(
                        &*inner.element,
                        Expression::Value(ValueExpression::Integer(IntegerType::U8, s, _))
                            if s == "7"
                    ));
                }
                _ => panic!("inner is not an array construction"),
            }
        }
        _ => panic!("not an array construction"),
    }
}

/// An array construction with a zero dimension, or with none, is an
/// error.
#[test]
fn array_init_zero_dimension_is_an_error() {
    let c = canonicalizer();
    for dims in [vec![0u64], vec![]] {
        let init = Expression::ArrayInit(leo_frontend::expression::ArrayInitExpression {
            element: Box::new(int_lit("7")),
            dimensions: dims,
            span: sp(2, 9),
        });
        assert!(matches!(
            c.canonicalize_expression(&init, &Vec::new()),
            Err(AstError::InvalidArrayDimensionSize(_))
        ));
    }
}

/// A member access loses any recorded type and keeps its shape.
#[test]
fn member_access_type_cleared() {
    let c = canonicalizer();
    let access = Expression::Access(leo_frontend::expression::AccessExpression::Member(
        leo_frontend::expression::MemberAccess {
            inner: Box::new(Expression::Identifier(ident("p"))),
            name: ident("x"),
            span: sp(0, 3),
            type_: Some(Type::Boolean),
        },
    ));
    match c.canonicalize_expression(&access, &Vec::new()).unwrap() {
        Expression::Access(leo_frontend::expression::AccessExpression::Member(m)) => {
            assert!(m.type_.is_none());
            assert_eq!(m.name.name, "x");
        }
        _ => panic!("not a member access"),
    }
}

/// The largest `u128` literal parses; one past it does not.
#[test]
fn u128_literal_bounds() {
    let e = IrEmitter::new();
    let max = "340282366920938463463374607431768211455";
    let over = "340282366920938463463374607431768211456";
    assert!(matches!(
        e.get_value(&ValueExpression::Integer(IntegerType::U128, max.to_string(), sp(0, 1)))
            .unwrap(),
        Literal::U128(u128::MAX)
    ));
    assert!(matches!(
        e.get_value(&ValueExpression::Integer(IntegerType::U128, over.to_string(), sp(0, 1))),
        Err(EmitError::MalformedLiteral(_))
    ));
}

/// Dropping a register with none allocated is the underflow error.
#[test]
fn register_underflow_is_reported() {
    let mut e = IrEmitter::new();
    assert!(matches!(e.drop_reg(), Err(EmitError::RegisterUnderflow)));
}

/// The symbol table starts empty.
#[test]
fn symbol_table_starts_empty() {
    let t = leo_frontend::tabi::SymbolTable::new();
    assert!(t.functions.is_empty());
}

fn annotated_function(ann_name: &str, args: Vec<String>) -> Function {
    Function {
        identifier: ident("calc"),
        annotations: vec![leo_frontend::program::Annotation {
            span: sp(0, 4),
            name: ident(ann_name),
            arguments: args,
        }],
        input: vec![],
        const_: false,
        output: None,
        block: Block { statements: vec![], span: sp(0, 0) },
        core_mapping: None,
        span: sp(0, 9),
    }
}

fn program_with(f: Function) -> Program {
    let mut p = Program::new("test".to_string());
    p.circuits = vec![(
        ident("Foo"),
        Circuit {
            circuit_name: ident("Foo"),
            members: vec![CircuitMember::CircuitFunction(Box::new(f))],
        },
    )];
    p
}

/// A `CoreFunction` annotation records the named built-in and is consumed.
#[test]
fn core_function_annotation_with_argument() {
    let p = program_with(annotated_function("CoreFunction", vec!["blake2s".to_string()]));
    let out = p.handle_internal_annotations().unwrap();
    match &out.circuits[0].1.members[0] {
        CircuitMember::CircuitFunction(f) => {
            assert_eq!(f.core_mapping.as_deref(), Some("blake2s"));
            assert!(f.annotations.is_empty());
            assert!(!f.const_);
        }
        _ => panic!("not a function member"),
    }
}

/// Without an argument, the function's own name is recorded.
#[test]
fn core_function_annotation_defaults_to_name() {
    let p = program_with(annotated_function("CoreFunction", vec![]));
    let out = p.handle_internal_annotations().unwrap();
    match &out.circuits[0].1.members[0] {
        CircuitMember::CircuitFunction(f) => {
            assert_eq!(f.core_mapping.as_deref(), Some("calc"));
        }
        _ => panic!("not a function member"),
    }
}

/// `AlwaysConst` marks the function constant.
#[test]
fn always_const_annotation() {
    let p = program_with(annotated_function("AlwaysConst", vec![]));
    let out = p.handle_internal_annotations().unwrap();
    match &out.circuits[0].1.members[0] {
        CircuitMember::CircuitFunction(f) => {
            assert!(f.const_);
            assert!(f.annotations.is_empty());
        }
        _ => panic!("not a function member"),
    }
}

/// An unrecognized annotation name is an explicit error, carrying the
/// annotation's span.
#[test]
fn unknown_annotation_is_an_error() {
    let p = program_with(annotated_function("Inline", vec![]));
    assert!(matches!(
        p.handle_internal_annotations(),
        Err(AstError::UnrecognizedAnnotation(s)) if s.lo == 0 && s.hi == 4
    ));
}

/// A block lowers statement by statement, each statement's registers
/// released before the next; a conditional fails the block.
#[test]
fn block_lowering_and_rejection() {
    let mut e = IrEmitter::new();
    e.spawn_reg(Some("a".to_string()));
    e.spawn_reg(Some("b".to_string()));
    let add = |l: &str, r: &str| {
        Expression::Binary(BinaryExpression {
            left: Box::new(Expression::Identifier(ident(l))),
            right: Box::new(Expression::Identifier(ident(r))),
            op: BinaryOperation::Add,
            span: sp(0, 5),
        })
    };
    let block = Block {
        statements: vec![
            Statement::Expression(ExpressionStatement { expression: add("a", "b"), span: sp(0, 5) }),
            Statement::Expression(ExpressionStatement { expression: add("b", "a"), span: sp(6, 11) }),
        ],
        span: sp(0, 11),
    };
    e.visit_block(&block).unwrap();
    assert_eq!(e.buffer.len(), 2);
    // Both statements' destinations are register 2: each statement's
    // temporary was released before the next began.
    match (&e.buffer[0], &e.buffer[1]) {
        (Instruction::Add(d0), Instruction::Add(d1)) => {
            assert_eq!(d0.destination, 2);
            assert_eq!(d1.destination, 2);
        }
        _ => panic!("wrong instructions"),
    }
    assert_eq!(e.registers.len(), 2);

    let cond_block = Block {
        statements: vec![Statement::Conditional(
            leo_frontend::statement::ConditionalStatement {
                condition: Expression::Identifier(ident("a")),
                block: Block { statements: vec![], span: sp(3, 4) },
                next: None,
                span: sp(1, 9),
            },
        )],
        span: sp(0, 10),
    };
    assert!(matches!(
        e.visit_block(&cond_block),
        Err(EmitError::UnsupportedConditional(s)) if s.lo == 1 && s.hi == 9
    ));
    // The failing block changed nothing.
    assert_eq!(e.buffer.len(), 2);
    assert_eq!(e.registers.len(), 2);
}

/// A statement that fails to lower releases its registers all the same.
#[test]
fn failed_statement_restores_registers() {
    let mut e = IrEmitter::new();
    e.spawn_reg(Some("a".to_string()));
    // `a + (b ? a : a)` fails on the ternary after `a` was emitted.
    let expr = Expression::Binary(BinaryExpression {
        left: Box::new(Expression::Identifier(ident("a"))),
        right: Box::new(Expression::Ternary(leo_frontend::expression::TernaryExpression {
            condition: Box::new(Expression::Identifier(ident("b"))),
            if_true: Box::new(Expression::Identifier(ident("a"))),
            if_false: Box::new(Expression::Identifier(ident("a"))),
            span: sp(4, 12),
        })),
        op: BinaryOperation::Add,
        span: sp(0, 12),
    });
    let stmt = ExpressionStatement { expression: expr, span: sp(0, 12) };
    assert!(matches!(
        e.visit_expression_statement(&stmt),
        Err(EmitError::UnsupportedTernary(_))
    ));
    assert_eq!(e.registers.len(), 1);
    assert!(e.buffer.is_empty());
}
