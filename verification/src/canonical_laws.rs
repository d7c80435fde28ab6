//! Laws of the canonicalization pass, proved over its model functions.
//!
//! Everything here holds of the executable pass in
//! [`crate::canonicalizer`], because that pass returns exactly what the
//! model functions say.

use vstd::prelude::*;

use crate::canonical::{
    access_chain, canon_access, canon_access_seq, canon_alias_seq, canon_assign, canon_assignee,
    canon_assignee_access, canon_block, canon_circuit, canon_circuit_member, canon_circuit_seq,
    canon_definition, canon_expr, canon_expr_seq, canon_function, canon_function_input,
    canon_function_seq, canon_global_const_seq, canon_input_seq, canon_member_init_seq,
    canon_member_seq, canon_opt_expr, canon_program, canon_spread_seq, canon_statement,
    canon_stmt_seq, canon_type, canon_type_seq, compound_op, has_zero_dimension,
    nest_array_init, nest_array_type, string_elements,
};
use crate::common::{Char, IdentifierV};
use crate::errors::AstError;
use crate::expression::{
    ArrayInitExpressionV, BinaryExpressionV, CircuitVariableInitializerV, ExpressionV,
    SpreadOrExpressionV,
};
use crate::program::{CircuitMemberV, CircuitV, FunctionInputV, FunctionV, ProgramV};
use crate::span::Span;
use crate::statement::{
    AssignOperation, AssignStatementV, AssigneeAccessV, BlockV, ConsoleFunctionV, StatementV,
};
use crate::types::TypeV;

verus! {

broadcast use vstd::std_specs::vec::group_vec_axioms, vstd::seq::group_seq_axioms;

/// A compound assignment desugars to a plain assignment whose value applies
/// the compound operator to a read of the canonicalized target through its
/// access chain: `x op= y` becomes `x = x op y`, for every compound
/// operator in the defined set, `compound_op` giving the operator mapping.
pub proof fn lemma_compound_assignment_desugars(
    a: AssignStatementV,
    circuit: Option<IdentifierV>,
    src: Seq<u8>,
)
    requires
        a.operation != AssignOperation::Assign,
        canon_assign(a, circuit, src) is Ok,
    ensures
        ({
            let out = canon_assign(a, circuit, src)->Ok_0;
            let assignee = canon_assignee(a.assignee, circuit, src)->Ok_0;
            let value = canon_expr(a.value, circuit, src)->Ok_0;
            &&& out.operation == AssignOperation::Assign
            &&& out.assignee == assignee
            &&& out.value == ExpressionV::Binary(
                BinaryExpressionV {
                    left: Box::new(
                        access_chain(
                            ExpressionV::Identifier(assignee.identifier),
                            assignee.accesses,
                            a.span,
                        ),
                    ),
                    right: Box::new(value),
                    op: compound_op(a.operation),
                    span: a.span,
                },
            )
            &&& out.span == a.span
        }),
{
}

/// A plain assignment keeps its operation and only canonicalizes its parts.
pub proof fn lemma_plain_assignment_kept(
    a: AssignStatementV,
    circuit: Option<IdentifierV>,
    src: Seq<u8>,
)
    requires
        a.operation == AssignOperation::Assign,
        canon_assign(a, circuit, src) is Ok,
    ensures
        ({
            let out = canon_assign(a, circuit, src)->Ok_0;
            &&& out.operation == AssignOperation::Assign
            &&& out.assignee == canon_assignee(a.assignee, circuit, src)->Ok_0
            &&& out.value == canon_expr(a.value, circuit, src)->Ok_0
            &&& out.span == a.span
        }),
{
}

/// Inside a circuit, the `Self` type canonicalizes to the circuit's name.
pub proof fn lemma_self_type_in_circuit(name: IdentifierV, span: Span)
    ensures
        canon_type(TypeV::SelfType, span, Option::Some(name)) == Ok::<TypeV, AstError>(
            TypeV::Identifier(name),
        ),
{
}

/// Outside of any circuit, the `Self` type is an error.
pub proof fn lemma_self_type_outside_circuit(span: Span)
    ensures
        canon_type(TypeV::SelfType, span, Option::None) == Err::<TypeV, AstError>(
            AstError::BigSelfOutsideOfCircuit(span),
        ),
{
}

/// When canonicalizing a member list succeeds, it succeeds member by
/// member, in order, keeping the length.
pub proof fn lemma_canon_member_seq_index(
    ms: Seq<CircuitMemberV>,
    circuit: Option<IdentifierV>,
    src: Seq<u8>,
)
    requires
        canon_member_seq(ms, circuit, src) is Ok,
    ensures
        canon_member_seq(ms, circuit, src)->Ok_0.len() == ms.len(),
        forall|i: int|
            0 <= i < ms.len() ==> canon_circuit_member(ms[i], circuit, src) == Ok::<
                CircuitMemberV,
                AstError,
            >(#[trigger] canon_member_seq(ms, circuit, src)->Ok_0[i]),
    decreases ms,
{
    if ms.len() == 0 {
    } else {
        lemma_canon_member_seq_index(ms.drop_first(), circuit, src);
        let out = canon_member_seq(ms, circuit, src)->Ok_0;
        let rest = canon_member_seq(ms.drop_first(), circuit, src)->Ok_0;
        assert forall|i: int| 0 <= i < ms.len() implies canon_circuit_member(ms[i], circuit, src)
            == Ok::<CircuitMemberV, AstError>(#[trigger] out[i]) by {
            if i == 0 {
                assert(out[0] == canon_circuit_member(ms[0], circuit, src)->Ok_0);
            } else {
                assert(ms.drop_first()[i - 1] == ms[i]);
                assert(out[i] == rest[i - 1]);
            }
        }
    }
}

/// Inside circuit `c`, a field declared with the `Self` type
/// canonicalizes to a field of type `Identifier(c.circuit_name)`; the
/// member keeps its name and place.
pub proof fn lemma_self_member_resolves(c: CircuitV, src: Seq<u8>, i: int, id: IdentifierV)
    requires
        0 <= i < c.members.len(),
        c.members[i] == CircuitMemberV::CircuitVariable(id, TypeV::SelfType),
        canon_circuit(c, src) is Ok,
    ensures
        canon_circuit(c, src)->Ok_0.members[i] == CircuitMemberV::CircuitVariable(
            id,
            TypeV::Identifier(c.circuit_name),
        ),
        canon_circuit(c, src)->Ok_0.circuit_name == c.circuit_name,
{
    lemma_canon_member_seq_index(c.members, Option::Some(c.circuit_name), src);
}


/// A type that canonicalization returns is a fixed point: running the pass
/// on it again returns it unchanged.
pub proof fn lemma_canon_type_idem(t: TypeV, span: Span, circuit: Option<IdentifierV>)
    requires
        canon_type(t, span, circuit) is Ok,
    ensures
        canon_type(canon_type(t, span, circuit)->Ok_0, span, circuit) == canon_type(
            t,
            span,
            circuit,
        ),
    decreases t, 1int,
{
    let u = canon_type(t, span, circuit)->Ok_0;
    match t {
        TypeV::SelfType => {
            assert(u == TypeV::Identifier(circuit->0));
        },
        TypeV::Array(base, dims) => {
            lemma_canon_type_idem(*base, span, circuit);
            let b = canon_type(*base, span, circuit)->Ok_0;
            if dims.len() == 0 {
                assert(u == TypeV::Array(Box::new(b), dims));
            } else {
                lemma_canon_nest_type(b, dims, span, circuit);
            }
        },
        TypeV::Tuple(ts) => {
            lemma_canon_type_seq_idem(ts, span, circuit);
            let us = canon_type_seq(ts, span, circuit)->Ok_0;
            assert(u == TypeV::Tuple(us));
        },
        _ => {
            assert(u == t);
        },
    }
}

/// Each type of a canonicalized list is a fixed point, so the list is.
pub proof fn lemma_canon_type_seq_idem(ts: Seq<TypeV>, span: Span, circuit: Option<IdentifierV>)
    requires
        canon_type_seq(ts, span, circuit) is Ok,
    ensures
        canon_type_seq(canon_type_seq(ts, span, circuit)->Ok_0, span, circuit) == canon_type_seq(
            ts,
            span,
            circuit,
        ),
    decreases ts, 2int,
{
    let us = canon_type_seq(ts, span, circuit)->Ok_0;
    if ts.len() == 0 {
        assert(us =~= Seq::<TypeV>::empty());
    } else {
        let h = canon_type(ts[0], span, circuit)->Ok_0;
        let rest = canon_type_seq(ts.drop_first(), span, circuit)->Ok_0;
        assert(us == seq![h] + rest);
        lemma_canon_type_idem(ts[0], span, circuit);
        lemma_canon_type_seq_idem(ts.drop_first(), span, circuit);
        assert(us[0] == h);
        assert(us.drop_first() =~= rest);
        assert(canon_type_seq(us, span, circuit) == Ok::<Seq<TypeV>, AstError>(
            seq![h] + rest,
        ));
    }
}

/// Nested single-dimension arrays over a fixed-point base are a fixed
/// point.
pub proof fn lemma_canon_nest_type(
    b: TypeV,
    dims: Seq<u64>,
    span: Span,
    circuit: Option<IdentifierV>,
)
    requires
        canon_type(b, span, circuit) == Ok::<TypeV, AstError>(b),
        dims.len() >= 1,
        !has_zero_dimension(dims),
    ensures
        canon_type(nest_array_type(b, dims), span, circuit) == Ok::<TypeV, AstError>(
            nest_array_type(b, dims),
        ),
    decreases dims.len(),
{
    reveal_with_fuel(nest_array_type, 3);
    let inner = nest_array_type(b, dims.drop_first());
    assert(nest_array_type(b, dims) == TypeV::Array(Box::new(inner), seq![dims[0]]));
    if dims.len() == 1 {
        assert(dims.drop_first().len() == 0);
        assert(inner == b);
    } else {
        assert(!has_zero_dimension(dims.drop_first())) by {
            assert(forall|i: int|
                0 <= i < dims.drop_first().len() ==> dims.drop_first()[i] == dims[i + 1]);
        }
        lemma_canon_nest_type(b, dims.drop_first(), span, circuit);
    }
    let d1 = seq![dims[0]];
    assert(dims[0] != 0);
    assert(!has_zero_dimension(d1)) by {
        assert(forall|i: int| 0 <= i < d1.len() ==> d1[i] == dims[0]);
    }
    assert(nest_array_type(inner, d1) == TypeV::Array(
        Box::new(nest_array_type(inner, d1.drop_first())),
        seq![d1[0]],
    ));
    assert(d1.drop_first() =~= Seq::<u64>::empty());
    assert(nest_array_type(inner, d1) == TypeV::Array(Box::new(inner), seq![dims[0]]));
}


/// An expression that canonicalization returns is a fixed point.
pub proof fn lemma_canon_expr_idem(e: ExpressionV, circuit: Option<IdentifierV>, src: Seq<u8>)
    requires
        canon_expr(e, circuit, src) is Ok,
    ensures
        canon_expr(canon_expr(e, circuit, src)->Ok_0, circuit, src) == canon_expr(
            e,
            circuit,
            src,
        ),
    decreases e, 1int,
{
    let u = canon_expr(e, circuit, src)->Ok_0;
    match e {
        ExpressionV::Identifier(id) => {
        },
        ExpressionV::Value(v) => {
            if v is String {
                let chars = v->String_0;
                let span = v->String_1;
                lemma_string_elements_canon(
                    chars,
                    crate::canonical::string_start(src, span),
                    circuit,
                    src,
                );
            }
        },
        ExpressionV::Unary(un) => {
            lemma_canon_expr_idem(*un.inner, circuit, src);
        },
        ExpressionV::Binary(b) => {
            lemma_canon_expr_idem(*b.left, circuit, src);
            lemma_canon_expr_idem(*b.right, circuit, src);
        },
        ExpressionV::Ternary(t) => {
            lemma_canon_expr_idem(*t.condition, circuit, src);
            lemma_canon_expr_idem(*t.if_true, circuit, src);
            lemma_canon_expr_idem(*t.if_false, circuit, src);
        },
        ExpressionV::Cast(c) => {
            lemma_canon_expr_idem(*c.inner, circuit, src);
            lemma_canon_type_idem(c.target_type, c.span, circuit);
        },
        ExpressionV::Access(a) => {
            lemma_canon_access_idem(a, circuit, src);
        },
        ExpressionV::ArrayInline(a) => {
            lemma_canon_spread_seq_idem(a.elements, circuit, src);
        },
        ExpressionV::ArrayInit(a) => {
            lemma_canon_expr_idem(*a.element, circuit, src);
            let elem = canon_expr(*a.element, circuit, src)->Ok_0;
            lemma_nest_init_idem(elem, a.dimensions, a.span, circuit, src);
        },
        ExpressionV::TupleInit(t) => {
            lemma_canon_expr_seq_idem(t.elements, circuit, src);
        },
        ExpressionV::CircuitInit(c) => {
            lemma_canon_minit_seq_idem(c.members, circuit, src);
        },
        ExpressionV::Call(c) => {
            lemma_canon_expr_idem(*c.function, circuit, src);
            lemma_canon_expr_seq_idem(c.arguments, circuit, src);
        },
        ExpressionV::Error(_) => {
        },
    }
}

/// An access expression that canonicalization returns is a fixed point.
pub proof fn lemma_canon_access_idem(
    a: crate::expression::AccessExpressionV,
    circuit: Option<IdentifierV>,
    src: Seq<u8>,
)
    requires
        canon_access(a, circuit, src) is Ok,
    ensures
        canon_access(canon_access(a, circuit, src)->Ok_0, circuit, src) == canon_access(
            a,
            circuit,
            src,
        ),
    decreases a, 1int,
{
    match a {
        crate::expression::AccessExpressionV::Array(aa) => {
            lemma_canon_expr_idem(*aa.array, circuit, src);
            lemma_canon_expr_idem(*aa.index, circuit, src);
        },
        crate::expression::AccessExpressionV::ArrayRange(ar) => {
            lemma_canon_expr_idem(*ar.array, circuit, src);
            match ar.left {
                Option::Some(e) => {
                    lemma_canon_expr_idem(*e, circuit, src);
                },
                Option::None => {
                },
            }
            match ar.right {
                Option::Some(e) => {
                    lemma_canon_expr_idem(*e, circuit, src);
                },
                Option::None => {
                },
            }
        },
        crate::expression::AccessExpressionV::Member(m) => {
            lemma_canon_expr_idem(*m.inner, circuit, src);
        },
        crate::expression::AccessExpressionV::Tuple(t) => {
            lemma_canon_expr_idem(*t.tuple, circuit, src);
        },
        crate::expression::AccessExpressionV::Static(st) => {
            lemma_canon_expr_idem(*st.inner, circuit, src);
            lemma_canon_type_idem(st.type_, st.span, circuit);
        },
    }
}

/// Each expression of a canonicalized list is a fixed point, so the list
/// is.
pub proof fn lemma_canon_expr_seq_idem(
    es: Seq<ExpressionV>,
    circuit: Option<IdentifierV>,
    src: Seq<u8>,
)
    requires
        canon_expr_seq(es, circuit, src) is Ok,
    ensures
        canon_expr_seq(canon_expr_seq(es, circuit, src)->Ok_0, circuit, src) == canon_expr_seq(
            es,
            circuit,
            src,
        ),
    decreases es, 2int,
{
    let us = canon_expr_seq(es, circuit, src)->Ok_0;
    if es.len() == 0 {
        assert(us =~= Seq::<ExpressionV>::empty());
    } else {
        let h = canon_expr(es[0], circuit, src)->Ok_0;
        let rest = canon_expr_seq(es.drop_first(), circuit, src)->Ok_0;
        assert(us == seq![h] + rest);
        lemma_canon_expr_idem(es[0], circuit, src);
        lemma_canon_expr_seq_idem(es.drop_first(), circuit, src);
        assert(us[0] == h);
        assert(us.drop_first() =~= rest);
        assert(canon_expr_seq(us, circuit, src) == Ok::<Seq<ExpressionV>, AstError>(
            seq![h] + rest,
        ));
    }
}

/// Each element of a canonicalized inline array is a fixed point, so the
/// list is.
pub proof fn lemma_canon_spread_seq_idem(
    es: Seq<SpreadOrExpressionV>,
    circuit: Option<IdentifierV>,
    src: Seq<u8>,
)
    requires
        canon_spread_seq(es, circuit, src) is Ok,
    ensures
        canon_spread_seq(canon_spread_seq(es, circuit, src)->Ok_0, circuit, src)
            == canon_spread_seq(es, circuit, src),
    decreases es, 2int,
{
    let us = canon_spread_seq(es, circuit, src)->Ok_0;
    if es.len() == 0 {
        assert(us =~= Seq::<SpreadOrExpressionV>::empty());
    } else {
        let rest = canon_spread_seq(es.drop_first(), circuit, src)->Ok_0;
        match es[0] {
            SpreadOrExpressionV::Spread(e) => {
                lemma_canon_expr_idem(e, circuit, src);
                let h = SpreadOrExpressionV::Spread(canon_expr(e, circuit, src)->Ok_0);
                assert(us == seq![h] + rest);
                lemma_canon_spread_seq_idem(es.drop_first(), circuit, src);
                assert(us[0] == h);
                assert(us.drop_first() =~= rest);
                assert(canon_spread_seq(us, circuit, src) == Ok::<
                    Seq<SpreadOrExpressionV>,
                    AstError,
                >(seq![h] + rest));
            },
            SpreadOrExpressionV::Expression(e) => {
                lemma_canon_expr_idem(e, circuit, src);
                let h = SpreadOrExpressionV::Expression(canon_expr(e, circuit, src)->Ok_0);
                assert(us == seq![h] + rest);
                lemma_canon_spread_seq_idem(es.drop_first(), circuit, src);
                assert(us[0] == h);
                assert(us.drop_first() =~= rest);
                assert(canon_spread_seq(us, circuit, src) == Ok::<
                    Seq<SpreadOrExpressionV>,
                    AstError,
                >(seq![h] + rest));
            },
        }
    }
}

/// Each member initializer of a canonicalized circuit construction is a
/// fixed point, so the list is.
pub proof fn lemma_canon_minit_seq_idem(
    ms: Seq<CircuitVariableInitializerV>,
    circuit: Option<IdentifierV>,
    src: Seq<u8>,
)
    requires
        canon_member_init_seq(ms, circuit, src) is Ok,
    ensures
        canon_member_init_seq(canon_member_init_seq(ms, circuit, src)->Ok_0, circuit, src)
            == canon_member_init_seq(ms, circuit, src),
    decreases ms, 2int,
{
    reveal_with_fuel(canon_member_init_seq, 2);
    reveal_with_fuel(canon_opt_expr, 2);
    reveal_with_fuel(canon_expr, 2);
    let us = canon_member_init_seq(ms, circuit, src)->Ok_0;
    if ms.len() == 0 {
        assert(us =~= Seq::<CircuitVariableInitializerV>::empty());
    } else {
        let e1 = canon_opt_expr(ms[0].expression, circuit, src)->Ok_0;
        let h = CircuitVariableInitializerV { identifier: ms[0].identifier, expression: e1 };
        let rest = canon_member_init_seq(ms.drop_first(), circuit, src)->Ok_0;
        assert(us == seq![h] + rest);
        match ms[0].expression {
            Option::Some(e) => {
                lemma_canon_expr_idem(e, circuit, src);
            },
            Option::None => {
            },
        }
        lemma_canon_minit_seq_idem(ms.drop_first(), circuit, src);
        assert(us[0] == h);
        assert(us.drop_first() =~= rest);
        assert(canon_member_init_seq(us, circuit, src) == Ok::<
            Seq<CircuitVariableInitializerV>,
            AstError,
        >(seq![h] + rest));
    }
}

/// The character literals a string literal explodes into are fixed points
/// of the pass.
pub proof fn lemma_string_elements_canon(
    chars: Seq<Char>,
    pos: nat,
    circuit: Option<IdentifierV>,
    src: Seq<u8>,
)
    ensures
        canon_spread_seq(string_elements(src, pos, chars), circuit, src) == Ok::<
            Seq<SpreadOrExpressionV>,
            AstError,
        >(string_elements(src, pos, chars)),
    decreases chars.len(),
{
    reveal_with_fuel(canon_spread_seq, 2);
    reveal_with_fuel(canon_expr, 2);
    reveal_with_fuel(string_elements, 2);
    let es = string_elements(src, pos, chars);
    if chars.len() == 0 {
    } else {
        let w = crate::canonical::clamped_width(src, pos);
        lemma_string_elements_canon(chars.drop_first(), pos + w, circuit, src);
        let rest = string_elements(src, pos + w, chars.drop_first());
        assert(es.drop_first() =~= rest);
        assert(canon_spread_seq(es, circuit, src) == Ok::<Seq<SpreadOrExpressionV>, AstError>(
            seq![es[0]] + rest,
        ));
        assert(seq![es[0]] + rest =~= es);
    }
}

/// Nested single-dimension array constructions over a fixed-point element
/// are a fixed point.
pub proof fn lemma_nest_init_idem(
    elem: ExpressionV,
    dims: Seq<u64>,
    span: Span,
    circuit: Option<IdentifierV>,
    src: Seq<u8>,
)
    requires
        canon_expr(elem, circuit, src) == Ok::<ExpressionV, AstError>(elem),
        dims.len() >= 1,
        !has_zero_dimension(dims),
    ensures
        canon_expr(ExpressionV::ArrayInit(nest_array_init(elem, dims, span)), circuit, src)
            == Ok::<ExpressionV, AstError>(
            ExpressionV::ArrayInit(nest_array_init(elem, dims, span)),
        ),
    decreases dims.len(),
{
    reveal_with_fuel(nest_array_init, 3);
    let u = nest_array_init(elem, dims, span);
    if dims.len() == 1 {
        assert(u == (ArrayInitExpressionV { element: Box::new(elem), dimensions: dims, span }));
        assert(nest_array_init(elem, u.dimensions, span) == u);
    } else {
        assert(!has_zero_dimension(dims.drop_first())) by {
            assert(forall|i: int|
                0 <= i < dims.drop_first().len() ==> dims.drop_first()[i] == dims[i + 1]);
        }
        lemma_nest_init_idem(elem, dims.drop_first(), span, circuit, src);
        let inner = ExpressionV::ArrayInit(nest_array_init(elem, dims.drop_first(), span));
        assert(u == (ArrayInitExpressionV {
            element: Box::new(inner),
            dimensions: seq![dims[0]],
            span,
        }));
        let d1 = seq![dims[0]];
        assert(dims[0] != 0);
        assert(!has_zero_dimension(d1)) by {
            assert(forall|i: int| 0 <= i < d1.len() ==> d1[i] == dims[0]);
        }
        assert(nest_array_init(inner, d1, span) == (ArrayInitExpressionV {
            element: Box::new(inner),
            dimensions: d1,
            span,
        }));
    }
}


// ---------------------------------------------------------------------------
// Idempotence: statements, declarations, the program

/// Whether every compound assignment in the statement, when it stands
/// inside a circuit, assigns to a name other than `Self`. The parser can
/// produce no other kind: `Self` is a keyword there, not an identifier.
/// Idempotence of the pass is stated under this condition, because the
/// read that desugaring materializes starts from the target's bare name,
/// and a second pass would resolve that name if it were `Self`.
pub open spec fn assign_targets_wf(s: StatementV, in_circuit: bool) -> bool
    decreases s,
{
    match s {
        StatementV::Assign(a) => !(in_circuit && a.operation != AssignOperation::Assign
            && a.assignee.identifier.name == "Self"@),
        StatementV::Conditional(c) => block_targets_wf(c.block, in_circuit) && match c.next {
            Option::Some(n) => assign_targets_wf(*n, in_circuit),
            Option::None => true,
        },
        StatementV::Iteration(it) => block_targets_wf(it.block, in_circuit),
        StatementV::Block(b) => block_targets_wf(b, in_circuit),
        _ => true,
    }
}

/// `assign_targets_wf` over every statement of a block.
pub open spec fn block_targets_wf(b: BlockV, in_circuit: bool) -> bool
    decreases b,
{
    forall|i: int|
        0 <= i < b.statements.len() ==> assign_targets_wf(#[trigger] b.statements[i], in_circuit)
}

/// `assign_targets_wf` over a function's body.
pub open spec fn function_targets_wf(f: FunctionV, in_circuit: bool) -> bool {
    block_targets_wf(f.block, in_circuit)
}

/// `assign_targets_wf` over a circuit's member functions.
pub open spec fn circuit_targets_wf(c: CircuitV) -> bool {
    forall|i: int|
        0 <= i < c.members.len() ==> match #[trigger] c.members[i] {
            CircuitMemberV::CircuitFunction(f) => function_targets_wf(*f, true),
            _ => true,
        }
}

/// `assign_targets_wf` over every function body of the program.
pub open spec fn program_targets_wf(p: ProgramV) -> bool {
    &&& forall|i: int|
        0 <= i < p.circuits.len() ==> circuit_targets_wf(#[trigger] p.circuits[i].1)
    &&& forall|i: int|
        0 <= i < p.functions.len() ==> function_targets_wf(#[trigger] p.functions[i].1, false)
}

/// An access step that canonicalization returns is a fixed point.
pub proof fn lemma_canon_assignee_access_idem(
    a: AssigneeAccessV,
    circuit: Option<IdentifierV>,
    src: Seq<u8>,
)
    requires
        canon_assignee_access(a, circuit, src) is Ok,
    ensures
        canon_assignee_access(canon_assignee_access(a, circuit, src)->Ok_0, circuit, src)
            == canon_assignee_access(a, circuit, src),
    decreases a, 1int,
{
    reveal_with_fuel(canon_opt_expr, 2);
    match a {
        AssigneeAccessV::ArrayRange(l, r) => {
            match l {
                Option::Some(e) => {
                    lemma_canon_expr_idem(e, circuit, src);
                },
                Option::None => {
                },
            }
            match r {
                Option::Some(e) => {
                    lemma_canon_expr_idem(e, circuit, src);
                },
                Option::None => {
                },
            }
        },
        AssigneeAccessV::ArrayIndex(e) => {
            lemma_canon_expr_idem(e, circuit, src);
        },
        _ => {
        },
    }
}

/// Each access step of a canonicalized list is a fixed point, so the list
/// is.
pub proof fn lemma_canon_access_seq_idem(
    acs: Seq<AssigneeAccessV>,
    circuit: Option<IdentifierV>,
    src: Seq<u8>,
)
    requires
        canon_access_seq(acs, circuit, src) is Ok,
    ensures
        canon_access_seq(canon_access_seq(acs, circuit, src)->Ok_0, circuit, src)
            == canon_access_seq(acs, circuit, src),
    decreases acs,
{
    reveal_with_fuel(canon_access_seq, 2);
    let us = canon_access_seq(acs, circuit, src)->Ok_0;
    if acs.len() == 0 {
        assert(us =~= Seq::<AssigneeAccessV>::empty());
    } else {
        let h = canon_assignee_access(acs[0], circuit, src)->Ok_0;
        let rest = canon_access_seq(acs.drop_first(), circuit, src)->Ok_0;
        assert(us == seq![h] + rest);
        lemma_canon_assignee_access_idem(acs[0], circuit, src);
        lemma_canon_access_seq_idem(acs.drop_first(), circuit, src);
        assert(us[0] == h);
        assert(us.drop_first() =~= rest);
        assert(canon_access_seq(us, circuit, src) == Ok::<Seq<AssigneeAccessV>, AstError>(
            seq![h] + rest,
        ));
    }
}

/// One access step wrapped around a fixed-point base is a fixed point.
pub proof fn lemma_canon_chain_step(
    start: ExpressionV,
    a: AssigneeAccessV,
    span: Span,
    circuit: Option<IdentifierV>,
    src: Seq<u8>,
)
    requires
        canon_expr(start, circuit, src) == Ok::<ExpressionV, AstError>(start),
        canon_assignee_access(a, circuit, src) == Ok::<AssigneeAccessV, AstError>(a),
    ensures
        canon_expr(crate::canonical::chain_step(start, a, span), circuit, src) == Ok::<
            ExpressionV,
            AstError,
        >(crate::canonical::chain_step(start, a, span)),
{
    match a {
        AssigneeAccessV::ArrayIndex(index) => {
            assert(canon_expr(index, circuit, src) == Ok::<ExpressionV, AstError>(index));
            let node = crate::expression::AccessExpressionV::Array(
                crate::expression::ArrayAccessV {
                    array: Box::new(start),
                    index: Box::new(index),
                    span,
                },
            );
            assert(canon_access(node, circuit, src) == Ok::<
                crate::expression::AccessExpressionV,
                AstError,
            >(node));
            assert(crate::canonical::chain_step(start, a, span) == ExpressionV::Access(node));
        },
        AssigneeAccessV::ArrayRange(l, r) => {
            let node = crate::expression::AccessExpressionV::ArrayRange(
                crate::expression::ArrayRangeAccessV {
                    array: Box::new(start),
                    left: match l {
                        Option::None => Option::None,
                        Option::Some(e) => Option::Some(Box::new(e)),
                    },
                    right: match r {
                        Option::None => Option::None,
                        Option::Some(e) => Option::Some(Box::new(e)),
                    },
                    span,
                },
            );
            match l {
                Option::Some(e) => {
                    assert(canon_expr(e, circuit, src) == Ok::<ExpressionV, AstError>(e));
                    assert(crate::canonical::canon_opt_box_expr(
                        Option::Some(Box::new(e)),
                        circuit,
                        src,
                    ) == Ok::<Option<ExpressionV>, AstError>(Option::Some(e)));
                },
                Option::None => {
                },
            }
            match r {
                Option::Some(e) => {
                    assert(canon_expr(e, circuit, src) == Ok::<ExpressionV, AstError>(e));
                    assert(crate::canonical::canon_opt_box_expr(
                        Option::Some(Box::new(e)),
                        circuit,
                        src,
                    ) == Ok::<Option<ExpressionV>, AstError>(Option::Some(e)));
                },
                Option::None => {
                },
            }
            assert(canon_access(node, circuit, src) == Ok::<
                crate::expression::AccessExpressionV,
                AstError,
            >(node));
            assert(crate::canonical::chain_step(start, a, span) == ExpressionV::Access(node));
        },
        AssigneeAccessV::Tuple(n, _) => {
            let node = crate::expression::AccessExpressionV::Tuple(
                crate::expression::TupleAccessV { tuple: Box::new(start), index: n, span },
            );
            assert(canon_access(node, circuit, src) == Ok::<
                crate::expression::AccessExpressionV,
                AstError,
            >(node));
            assert(crate::canonical::chain_step(start, a, span) == ExpressionV::Access(node));
        },
        AssigneeAccessV::Member(name) => {
            let node = crate::expression::AccessExpressionV::Member(
                crate::expression::MemberAccessV {
                    inner: Box::new(start),
                    name,
                    span,
                    type_: Option::None,
                },
            );
            assert(canon_access(node, circuit, src) == Ok::<
                crate::expression::AccessExpressionV,
                AstError,
            >(node));
            assert(crate::canonical::chain_step(start, a, span) == ExpressionV::Access(node));
        },
    }
}

/// Reading through a chain of canonical access steps from a fixed-point
/// base expression is itself a fixed point of the pass.
pub proof fn lemma_canon_chain_idem(
    start: ExpressionV,
    acs: Seq<AssigneeAccessV>,
    span: Span,
    circuit: Option<IdentifierV>,
    src: Seq<u8>,
)
    requires
        canon_expr(start, circuit, src) == Ok::<ExpressionV, AstError>(start),
        canon_access_seq(acs, circuit, src) == Ok::<Seq<AssigneeAccessV>, AstError>(acs),
    ensures
        canon_expr(access_chain(start, acs, span), circuit, src) == Ok::<ExpressionV, AstError>(
            access_chain(start, acs, span),
        ),
    decreases acs.len(),
{
    if acs.len() == 0 {
        assert(access_chain(start, acs, span) == start);
    } else {
        let h = canon_assignee_access(acs[0], circuit, src)->Ok_0;
        let rest = canon_access_seq(acs.drop_first(), circuit, src)->Ok_0;
        assert(acs == seq![h] + rest);
        assert(acs[0] == h);
        assert(acs.drop_first() =~= rest);
        assert(canon_access_seq(acs.drop_first(), circuit, src) == Ok::<
            Seq<AssigneeAccessV>,
            AstError,
        >(acs.drop_first()));
        assert(canon_assignee_access(acs[0], circuit, src) == Ok::<AssigneeAccessV, AstError>(
            acs[0],
        ));
        lemma_canon_chain_step(start, acs[0], span, circuit, src);
        let next = crate::canonical::chain_step(start, acs[0], span);
        assert(access_chain(start, acs, span) == access_chain(next, acs.drop_first(), span));
        lemma_canon_chain_idem(next, acs.drop_first(), span, circuit, src);
    }
}

/// An assignment statement that canonicalization returns is a fixed point.
pub proof fn lemma_canon_assign_idem(
    a: AssignStatementV,
    circuit: Option<IdentifierV>,
    src: Seq<u8>,
)
    requires
        canon_assign(a, circuit, src) is Ok,
        circuit is Some && a.operation != AssignOperation::Assign
            ==> a.assignee.identifier.name != "Self"@,
    ensures
        canon_assign(canon_assign(a, circuit, src)->Ok_0, circuit, src) == canon_assign(
            a,
            circuit,
            src,
        ),
{
    let out = canon_assign(a, circuit, src)->Ok_0;
    let assignee = canon_assignee(a.assignee, circuit, src)->Ok_0;
    let value = canon_expr(a.value, circuit, src)->Ok_0;
    lemma_canon_access_seq_idem(a.assignee.accesses, circuit, src);
    lemma_canon_expr_idem(a.value, circuit, src);
    assert(canon_assignee(assignee, circuit, src) == Ok::<
        crate::statement::AssigneeV,
        AstError,
    >(assignee));
    if a.operation is Assign {
    } else {
        let base = ExpressionV::Identifier(assignee.identifier);
        assert(assignee.identifier == a.assignee.identifier);
        assert(canon_expr(base, circuit, src) == Ok::<ExpressionV, AstError>(base));
        lemma_canon_chain_idem(base, assignee.accesses, a.span, circuit, src);
    }
}

/// A definition statement that canonicalization returns is a fixed point.
pub proof fn lemma_canon_definition_idem(
    d: crate::statement::DefinitionStatementV,
    circuit: Option<IdentifierV>,
    src: Seq<u8>,
)
    requires
        canon_definition(d, circuit, src) is Ok,
    ensures
        canon_definition(canon_definition(d, circuit, src)->Ok_0, circuit, src)
            == canon_definition(d, circuit, src),
{
    lemma_canon_expr_idem(d.value, circuit, src);
    lemma_canon_type_idem(d.type_, d.span, circuit);
}

/// A statement that canonicalization returns is a fixed point.
pub proof fn lemma_canon_statement_idem(s: StatementV, circuit: Option<IdentifierV>, src: Seq<u8>)
    requires
        canon_statement(s, circuit, src) is Ok,
        assign_targets_wf(s, circuit is Some),
    ensures
        canon_statement(canon_statement(s, circuit, src)->Ok_0, circuit, src) == canon_statement(
            s,
            circuit,
            src,
        ),
    decreases s, 1int,
{
    reveal_with_fuel(canon_statement, 2);
    reveal_with_fuel(canon_expr_seq, 2);
    match s {
        StatementV::Return(r) => {
            lemma_canon_expr_idem(r.expression, circuit, src);
        },
        StatementV::Definition(d) => {
            lemma_canon_definition_idem(d, circuit, src);
        },
        StatementV::Assign(a) => {
            lemma_canon_assign_idem(a, circuit, src);
        },
        StatementV::Conditional(c) => {
            lemma_canon_expr_idem(c.condition, circuit, src);
            lemma_canon_block_idem(c.block, circuit, src);
            match c.next {
                Option::Some(n) => {
                    lemma_canon_statement_idem(*n, circuit, src);
                },
                Option::None => {
                },
            }
        },
        StatementV::Iteration(it) => {
            lemma_canon_type_idem(it.type_, it.span, circuit);
            lemma_canon_expr_idem(it.start, circuit, src);
            lemma_canon_expr_idem(it.stop, circuit, src);
            lemma_canon_block_idem(it.block, circuit, src);
        },
        StatementV::Console(c) => {
            match c.function {
                ConsoleFunctionV::Assert(e) => {
                    lemma_canon_expr_idem(e, circuit, src);
                },
                ConsoleFunctionV::Error(args) => {
                    lemma_canon_expr_seq_idem(args.parameters, circuit, src);
                },
                ConsoleFunctionV::Log(args) => {
                    lemma_canon_expr_seq_idem(args.parameters, circuit, src);
                },
            }
        },
        StatementV::Expression(e) => {
            lemma_canon_expr_idem(e.expression, circuit, src);
        },
        StatementV::Block(b) => {
            lemma_canon_block_idem(b, circuit, src);
        },
    }
}

/// Each statement of a canonicalized list is a fixed point, so the list
/// is.
pub proof fn lemma_canon_stmt_seq_idem(
    ss: Seq<StatementV>,
    circuit: Option<IdentifierV>,
    src: Seq<u8>,
)
    requires
        canon_stmt_seq(ss, circuit, src) is Ok,
        forall|i: int| 0 <= i < ss.len() ==> assign_targets_wf(#[trigger] ss[i], circuit is Some),
    ensures
        canon_stmt_seq(canon_stmt_seq(ss, circuit, src)->Ok_0, circuit, src) == canon_stmt_seq(
            ss,
            circuit,
            src,
        ),
    decreases ss, 2int,
{
    reveal_with_fuel(canon_stmt_seq, 2);
    let us = canon_stmt_seq(ss, circuit, src)->Ok_0;
    if ss.len() == 0 {
        assert(us =~= Seq::<StatementV>::empty());
    } else {
        let h = canon_statement(ss[0], circuit, src)->Ok_0;
        let rest = canon_stmt_seq(ss.drop_first(), circuit, src)->Ok_0;
        assert(us == seq![h] + rest);
        lemma_canon_statement_idem(ss[0], circuit, src);
        assert(forall|i: int|
            0 <= i < ss.drop_first().len() ==> assign_targets_wf(
                #[trigger] ss.drop_first()[i],
                circuit is Some,
            ));
        lemma_canon_stmt_seq_idem(ss.drop_first(), circuit, src);
        assert(us[0] == h);
        assert(us.drop_first() =~= rest);
        assert(canon_stmt_seq(us, circuit, src) == Ok::<Seq<StatementV>, AstError>(
            seq![h] + rest,
        ));
    }
}

/// A block that canonicalization returns is a fixed point.
pub proof fn lemma_canon_block_idem(b: BlockV, circuit: Option<IdentifierV>, src: Seq<u8>)
    requires
        canon_block(b, circuit, src) is Ok,
        block_targets_wf(b, circuit is Some),
    ensures
        canon_block(canon_block(b, circuit, src)->Ok_0, circuit, src) == canon_block(
            b,
            circuit,
            src,
        ),
    decreases b, 3int,
{
    lemma_canon_stmt_seq_idem(b.statements, circuit, src);
}


/// A function input that canonicalization returns is a fixed point.
pub proof fn lemma_canon_input_idem(
    input: FunctionInputV,
    circuit: Option<IdentifierV>,
)
    requires
        canon_function_input(input, circuit) is Ok,
    ensures
        canon_function_input(canon_function_input(input, circuit)->Ok_0, circuit)
            == canon_function_input(input, circuit),
{
    match input {
        FunctionInputV::Variable(fv) => {
            lemma_canon_type_idem(fv.type_, fv.span, circuit);
        },
        _ => {
        },
    }
}

/// Each input of a canonicalized list is a fixed point, so the list is.
pub proof fn lemma_canon_input_seq_idem(
    inputs: Seq<FunctionInputV>,
    circuit: Option<IdentifierV>,
)
    requires
        canon_input_seq(inputs, circuit) is Ok,
    ensures
        canon_input_seq(canon_input_seq(inputs, circuit)->Ok_0, circuit) == canon_input_seq(
            inputs,
            circuit,
        ),
    decreases inputs,
{
    reveal_with_fuel(canon_input_seq, 2);
    let us = canon_input_seq(inputs, circuit)->Ok_0;
    if inputs.len() == 0 {
        assert(us =~= Seq::<FunctionInputV>::empty());
    } else {
        let h = canon_function_input(inputs[0], circuit)->Ok_0;
        let rest = canon_input_seq(inputs.drop_first(), circuit)->Ok_0;
        assert(us == seq![h] + rest);
        lemma_canon_input_idem(inputs[0], circuit);
        lemma_canon_input_seq_idem(inputs.drop_first(), circuit);
        assert(us[0] == h);
        assert(us.drop_first() =~= rest);
        assert(canon_input_seq(us, circuit) == Ok::<Seq<FunctionInputV>, AstError>(
            seq![h] + rest,
        ));
    }
}

/// A function that canonicalization returns is a fixed point.
pub proof fn lemma_canon_function_idem(f: FunctionV, circuit: Option<IdentifierV>, src: Seq<u8>)
    requires
        canon_function(f, circuit, src) is Ok,
        function_targets_wf(f, circuit is Some),
    ensures
        canon_function(canon_function(f, circuit, src)->Ok_0, circuit, src) == canon_function(
            f,
            circuit,
            src,
        ),
    decreases f, 1int,
{
    lemma_canon_input_seq_idem(f.input, circuit);
    match f.output {
        Option::Some(t) => {
            lemma_canon_type_idem(t, f.span, circuit);
        },
        Option::None => {
            let empty = TypeV::Tuple(Seq::empty());
            assert(canon_type_seq(Seq::empty(), f.span, circuit) == Ok::<Seq<TypeV>, AstError>(
                Seq::empty(),
            ));
            assert(canon_type(empty, f.span, circuit) == Ok::<TypeV, AstError>(empty));
        },
    }
    lemma_canon_block_idem(f.block, circuit, src);
}

/// A circuit member that canonicalization returns is a fixed point.
pub proof fn lemma_canon_member_idem(
    m: CircuitMemberV,
    circuit: Option<IdentifierV>,
    src: Seq<u8>,
)
    requires
        canon_circuit_member(m, circuit, src) is Ok,
        match m {
            CircuitMemberV::CircuitFunction(f) => function_targets_wf(*f, circuit is Some),
            _ => true,
        },
    ensures
        canon_circuit_member(canon_circuit_member(m, circuit, src)->Ok_0, circuit, src)
            == canon_circuit_member(m, circuit, src),
    decreases m, 2int,
{
    match m {
        CircuitMemberV::CircuitConst(id, t, e) => {
            lemma_canon_type_idem(t, id.span, circuit);
            lemma_canon_expr_idem(e, circuit, src);
        },
        CircuitMemberV::CircuitVariable(id, t) => {
            lemma_canon_type_idem(t, id.span, circuit);
        },
        CircuitMemberV::CircuitFunction(f) => {
            lemma_canon_function_idem(*f, circuit, src);
        },
    }
}

/// Each member of a canonicalized list is a fixed point, so the list is.
pub proof fn lemma_canon_member_seq_idem(
    ms: Seq<CircuitMemberV>,
    circuit: Option<IdentifierV>,
    src: Seq<u8>,
)
    requires
        canon_member_seq(ms, circuit, src) is Ok,
        forall|i: int|
            0 <= i < ms.len() ==> match #[trigger] ms[i] {
                CircuitMemberV::CircuitFunction(f) => function_targets_wf(*f, circuit is Some),
                _ => true,
            },
    ensures
        canon_member_seq(canon_member_seq(ms, circuit, src)->Ok_0, circuit, src)
            == canon_member_seq(ms, circuit, src),
    decreases ms, 3int,
{
    reveal_with_fuel(canon_member_seq, 2);
    let us = canon_member_seq(ms, circuit, src)->Ok_0;
    if ms.len() == 0 {
        assert(us =~= Seq::<CircuitMemberV>::empty());
    } else {
        let h = canon_circuit_member(ms[0], circuit, src)->Ok_0;
        let rest = canon_member_seq(ms.drop_first(), circuit, src)->Ok_0;
        assert(us == seq![h] + rest);
        lemma_canon_member_idem(ms[0], circuit, src);
        assert(forall|i: int|
            0 <= i < ms.drop_first().len() ==> ms.drop_first()[i] == ms[i + 1]);
        lemma_canon_member_seq_idem(ms.drop_first(), circuit, src);
        assert(us[0] == h);
        assert(us.drop_first() =~= rest);
        assert(canon_member_seq(us, circuit, src) == Ok::<Seq<CircuitMemberV>, AstError>(
            seq![h] + rest,
        ));
    }
}

/// A circuit that canonicalization returns is a fixed point.
pub proof fn lemma_canon_circuit_idem(c: CircuitV, src: Seq<u8>)
    requires
        canon_circuit(c, src) is Ok,
        circuit_targets_wf(c),
    ensures
        canon_circuit(canon_circuit(c, src)->Ok_0, src) == canon_circuit(c, src),
    decreases c, 4int,
{
    lemma_canon_member_seq_idem(c.members, Option::Some(c.circuit_name), src);
}

/// Each keyed circuit of a canonicalized list is a fixed point.
pub proof fn lemma_canon_circuit_seq_idem(cs: Seq<(IdentifierV, CircuitV)>, src: Seq<u8>)
    requires
        canon_circuit_seq(cs, src) is Ok,
        forall|i: int| 0 <= i < cs.len() ==> circuit_targets_wf(#[trigger] cs[i].1),
    ensures
        canon_circuit_seq(canon_circuit_seq(cs, src)->Ok_0, src) == canon_circuit_seq(cs, src),
    decreases cs,
{
    reveal_with_fuel(canon_circuit_seq, 2);
    let us = canon_circuit_seq(cs, src)->Ok_0;
    if cs.len() == 0 {
        assert(us =~= Seq::<(IdentifierV, CircuitV)>::empty());
    } else {
        let h = (cs[0].0, canon_circuit(cs[0].1, src)->Ok_0);
        let rest = canon_circuit_seq(cs.drop_first(), src)->Ok_0;
        assert(us == seq![h] + rest);
        lemma_canon_circuit_idem(cs[0].1, src);
        assert(forall|i: int|
            0 <= i < cs.drop_first().len() ==> cs.drop_first()[i] == cs[i + 1]);
        lemma_canon_circuit_seq_idem(cs.drop_first(), src);
        assert(us[0] == h);
        assert(us.drop_first() =~= rest);
        assert(canon_circuit_seq(us, src) == Ok::<Seq<(IdentifierV, CircuitV)>, AstError>(
            seq![h] + rest,
        ));
    }
}

/// Each keyed function of a canonicalized list is a fixed point.
pub proof fn lemma_canon_function_seq_idem(fs: Seq<(IdentifierV, FunctionV)>, src: Seq<u8>)
    requires
        canon_function_seq(fs, src) is Ok,
        forall|i: int| 0 <= i < fs.len() ==> function_targets_wf(#[trigger] fs[i].1, false),
    ensures
        canon_function_seq(canon_function_seq(fs, src)->Ok_0, src) == canon_function_seq(
            fs,
            src,
        ),
    decreases fs,
{
    reveal_with_fuel(canon_function_seq, 2);
    let us = canon_function_seq(fs, src)->Ok_0;
    if fs.len() == 0 {
        assert(us =~= Seq::<(IdentifierV, FunctionV)>::empty());
    } else {
        let h = (fs[0].0, canon_function(fs[0].1, Option::None, src)->Ok_0);
        let rest = canon_function_seq(fs.drop_first(), src)->Ok_0;
        assert(us == seq![h] + rest);
        lemma_canon_function_idem(fs[0].1, Option::None, src);
        assert(forall|i: int|
            0 <= i < fs.drop_first().len() ==> fs.drop_first()[i] == fs[i + 1]);
        lemma_canon_function_seq_idem(fs.drop_first(), src);
        assert(us[0] == h);
        assert(us.drop_first() =~= rest);
        assert(canon_function_seq(us, src) == Ok::<Seq<(IdentifierV, FunctionV)>, AstError>(
            seq![h] + rest,
        ));
    }
}

/// Each keyed alias of a canonicalized list is a fixed point.
pub proof fn lemma_canon_alias_seq_idem(als: Seq<(IdentifierV, crate::program::AliasV)>, src: Seq<u8>)
    requires
        canon_alias_seq(als, src) is Ok,
    ensures
        canon_alias_seq(canon_alias_seq(als, src)->Ok_0, src) == canon_alias_seq(als, src),
    decreases als,
{
    reveal_with_fuel(canon_alias_seq, 2);
    let us = canon_alias_seq(als, src)->Ok_0;
    if als.len() == 0 {
        assert(us =~= Seq::<(IdentifierV, crate::program::AliasV)>::empty());
    } else {
        let t1 = canon_type(als[0].1.represents, als[0].1.span, Option::None)->Ok_0;
        let h = (
            als[0].0,
            crate::program::AliasV { name: als[0].1.name, represents: t1, span: als[0].1.span },
        );
        let rest = canon_alias_seq(als.drop_first(), src)->Ok_0;
        assert(us == seq![h] + rest);
        lemma_canon_type_idem(als[0].1.represents, als[0].1.span, Option::None);
        lemma_canon_alias_seq_idem(als.drop_first(), src);
        assert(us[0] == h);
        assert(us.drop_first() =~= rest);
        assert(canon_alias_seq(us, src) == Ok::<
            Seq<(IdentifierV, crate::program::AliasV)>,
            AstError,
        >(seq![h] + rest));
    }
}

/// Each keyed global constant of a canonicalized list is a fixed point.
pub proof fn lemma_canon_gconst_seq_idem(
    gs: Seq<(Seq<IdentifierV>, crate::statement::DefinitionStatementV)>,
    src: Seq<u8>,
)
    requires
        canon_global_const_seq(gs, src) is Ok,
    ensures
        canon_global_const_seq(canon_global_const_seq(gs, src)->Ok_0, src)
            == canon_global_const_seq(gs, src),
    decreases gs,
{
    reveal_with_fuel(canon_global_const_seq, 2);
    let us = canon_global_const_seq(gs, src)->Ok_0;
    if gs.len() == 0 {
        assert(us =~= Seq::<
            (Seq<IdentifierV>, crate::statement::DefinitionStatementV),
        >::empty());
    } else {
        let h = (gs[0].0, canon_definition(gs[0].1, Option::None, src)->Ok_0);
        let rest = canon_global_const_seq(gs.drop_first(), src)->Ok_0;
        assert(us == seq![h] + rest);
        lemma_canon_definition_idem(gs[0].1, Option::None, src);
        lemma_canon_gconst_seq_idem(gs.drop_first(), src);
        assert(us[0] == h);
        assert(us.drop_first() =~= rest);
        assert(canon_global_const_seq(us, src) == Ok::<
            Seq<(Seq<IdentifierV>, crate::statement::DefinitionStatementV)>,
            AstError,
        >(seq![h] + rest));
    }
}

/// Canonicalization is idempotent: running the pass on its own output is
/// a no-op. This holds of every program whose compound assignments inside
/// circuits assign to names other than `Self`, which is every parseable
/// program, `Self` being a keyword and not an identifier there.
pub proof fn lemma_canonicalize_idempotent(p: ProgramV, src: Seq<u8>)
    requires
        canon_program(p, src) is Ok,
        program_targets_wf(p),
    ensures
        canon_program(canon_program(p, src)->Ok_0, src) == canon_program(p, src),
{
    lemma_canon_input_seq_idem(p.expected_input, Option::None);
    lemma_canon_alias_seq_idem(p.aliases, src);
    lemma_canon_circuit_seq_idem(p.circuits, src);
    lemma_canon_gconst_seq_idem(p.global_consts, src);
    lemma_canon_function_seq_idem(p.functions, src);
}

} // verus!
