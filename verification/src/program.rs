//! Declarations and the program root node, with their models.
//!
//! A program consists of import statements, resolved import sub-programs,
//! type aliases, circuits, global constant definitions, and functions. The
//! keyed collections are association lists: they preserve declaration order,
//! and key uniqueness is demanded only where a pass needs it.

use vstd::prelude::*;

use crate::common::{Identifier, IdentifierV};
use crate::span::Span;
use crate::statement::{Block, BlockV, DefinitionStatement, DefinitionStatementV};
use crate::types::{Type, TypeV};

verus! {

broadcast use vstd::std_specs::vec::group_vec_axioms, vstd::seq::group_seq_axioms;

/// An annotation attached to a function, e.g. `@CoreFunction(name)`.
#[derive(Debug)]
pub struct Annotation {
    pub span: Span,
    pub name: Identifier,
    pub arguments: Vec<String>,
}

/// Model of an [`Annotation`].
#[verifier::ext_equal]
pub struct AnnotationV {
    pub span: Span,
    pub name: IdentifierV,
    pub arguments: Seq<Seq<char>>,
}

/// The models of a sequence of plain strings, elementwise.
pub open spec fn strings_v(s: Seq<String>) -> Seq<Seq<char>> {
    Seq::new(
        s.len(),
        |i: int|
            if 0 <= i < s.len() {
                s[i]@
            } else {
                Seq::empty()
            },
    )
}

/// The models of a sequence of annotations, elementwise.
pub open spec fn annotations_v(s: Seq<Annotation>) -> Seq<AnnotationV> {
    Seq::new(
        s.len(),
        |i: int|
            if 0 <= i < s.len() {
                s[i].v()
            } else {
                AnnotationV {
                    span: Span { lo: 0, hi: 0 },
                    name: IdentifierV { name: Seq::empty(), span: Span { lo: 0, hi: 0 } },
                    arguments: Seq::empty(),
                }
            },
    )
}

/// The models of a sequence of function inputs, elementwise.
pub open spec fn inputs_v(s: Seq<FunctionInput>) -> Seq<FunctionInputV> {
    Seq::new(
        s.len(),
        |i: int|
            if 0 <= i < s.len() {
                s[i].v()
            } else {
                FunctionInputV::InputKeyword(Span { lo: 0, hi: 0 })
            },
    )
}

/// The models of a circuit's members, elementwise.
pub open spec fn members_v(s: Seq<CircuitMember>) -> Seq<CircuitMemberV>
    decreases s,
{
    Seq::new(
        s.len(),
        |i: int|
            if 0 <= i < s.len() {
                s[i].v()
            } else {
                CircuitMemberV::CircuitVariable(
                    IdentifierV { name: Seq::empty(), span: Span { lo: 0, hi: 0 } },
                    TypeV::Error,
                )
            },
    )
}

impl Annotation {
    pub open spec fn v(self) -> AnnotationV {
        AnnotationV {
            span: self.span,
            name: self.name.v(),
            arguments: strings_v(self.arguments@),
        }
    }
}

/// A named function parameter.
#[derive(Debug)]
pub struct FunctionInputVariable {
    pub identifier: Identifier,
    pub const_: bool,
    pub mutable: bool,
    pub type_: Type,
    pub span: Span,
}

/// Model of a [`FunctionInputVariable`].
#[verifier::ext_equal]
pub struct FunctionInputVariableV {
    pub identifier: IdentifierV,
    pub const_: bool,
    pub mutable: bool,
    pub type_: TypeV,
    pub span: Span,
}

impl FunctionInputVariable {
    pub open spec fn v(self) -> FunctionInputVariableV {
        FunctionInputVariableV {
            identifier: self.identifier.v(),
            const_: self.const_,
            mutable: self.mutable,
            type_: self.type_.v(),
            span: self.span,
        }
    }
}

/// One input of a function: a named parameter, or one of the keyword
/// parameters giving access to the circuit instance or the program input.
#[derive(Debug)]
pub enum FunctionInput {
    InputKeyword(Span),
    SelfKeyword(Span),
    MutSelfKeyword(Span),
    ConstSelfKeyword(Span),
    Variable(FunctionInputVariable),
}

/// Model of a [`FunctionInput`].
#[verifier::ext_equal]
pub enum FunctionInputV {
    InputKeyword(Span),
    SelfKeyword(Span),
    MutSelfKeyword(Span),
    ConstSelfKeyword(Span),
    Variable(FunctionInputVariableV),
}

impl FunctionInput {
    pub open spec fn v(self) -> FunctionInputV {
        match self {
            FunctionInput::InputKeyword(s) => FunctionInputV::InputKeyword(s),
            FunctionInput::SelfKeyword(s) => FunctionInputV::SelfKeyword(s),
            FunctionInput::MutSelfKeyword(s) => FunctionInputV::MutSelfKeyword(s),
            FunctionInput::ConstSelfKeyword(s) => FunctionInputV::ConstSelfKeyword(s),
            FunctionInput::Variable(fv) => FunctionInputV::Variable(fv.v()),
        }
    }
}

/// A function declaration.
#[derive(Debug)]
pub struct Function {
    pub identifier: Identifier,
    pub annotations: Vec<Annotation>,
    pub input: Vec<FunctionInput>,
    pub const_: bool,
    /// The declared output type. A function without one returns the empty
    /// tuple; canonicalization makes that explicit.
    pub output: Option<Type>,
    pub block: Block,
    /// The name of the built-in the function aliases, if an annotation said so.
    pub core_mapping: Option<String>,
    pub span: Span,
}

/// Model of a [`Function`].
#[verifier::ext_equal]
pub struct FunctionV {
    pub identifier: IdentifierV,
    pub annotations: Seq<AnnotationV>,
    pub input: Seq<FunctionInputV>,
    pub const_: bool,
    pub output: Option<TypeV>,
    pub block: BlockV,
    pub core_mapping: Option<Seq<char>>,
    pub span: Span,
}

impl Function {
    pub open spec fn v(self) -> FunctionV {
        FunctionV {
            identifier: self.identifier.v(),
            annotations: annotations_v(self.annotations@),
            input: inputs_v(self.input@),
            const_: self.const_,
            output: match self.output {
                Option::None => Option::None,
                Option::Some(t) => Option::Some(t.v()),
            },
            block: self.block.v(),
            core_mapping: match self.core_mapping {
                Option::None => Option::None,
                Option::Some(s) => Option::Some(s@),
            },
            span: self.span,
        }
    }
}

/// One member of a circuit declaration.
#[derive(Debug)]
pub enum CircuitMember {
    /// A named constant with its declared type and value.
    CircuitConst(Identifier, Type, crate::expression::Expression),
    /// A field with its declared type.
    CircuitVariable(Identifier, Type),
    /// A member function.
    CircuitFunction(Box<Function>),
}

/// Model of a [`CircuitMember`].
#[verifier::ext_equal]
pub enum CircuitMemberV {
    CircuitConst(IdentifierV, TypeV, crate::expression::ExpressionV),
    CircuitVariable(IdentifierV, TypeV),
    CircuitFunction(Box<FunctionV>),
}

impl CircuitMember {
    pub open spec fn v(self) -> CircuitMemberV {
        match self {
            CircuitMember::CircuitConst(id, t, e) => CircuitMemberV::CircuitConst(
                id.v(),
                t.v(),
                e.v(),
            ),
            CircuitMember::CircuitVariable(id, t) => CircuitMemberV::CircuitVariable(id.v(), t.v()),
            CircuitMember::CircuitFunction(f) => CircuitMemberV::CircuitFunction(Box::new(f.v())),
        }
    }
}

/// A circuit declaration: a name and its ordered members.
#[derive(Debug)]
pub struct Circuit {
    pub circuit_name: Identifier,
    pub members: Vec<CircuitMember>,
}

/// Model of a [`Circuit`].
#[verifier::ext_equal]
pub struct CircuitV {
    pub circuit_name: IdentifierV,
    pub members: Seq<CircuitMemberV>,
}

impl Circuit {
    pub open spec fn v(self) -> CircuitV {
        CircuitV { circuit_name: self.circuit_name.v(), members: members_v(self.members@) }
    }
}

/// A type alias declaration.
#[derive(Debug)]
pub struct Alias {
    pub name: Identifier,
    pub represents: Type,
    pub span: Span,
}

/// Model of an [`Alias`].
#[verifier::ext_equal]
pub struct AliasV {
    pub name: IdentifierV,
    pub represents: TypeV,
    pub span: Span,
}

impl Alias {
    pub open spec fn v(self) -> AliasV {
        AliasV { name: self.name.v(), represents: self.represents.v(), span: self.span }
    }
}

/// An import statement, naming a package path.
#[derive(Debug)]
pub struct ImportStatement {
    pub path: Vec<String>,
    pub span: Span,
}

/// Model of an [`ImportStatement`].
#[verifier::ext_equal]
pub struct ImportStatementV {
    pub path: Seq<Seq<char>>,
    pub span: Span,
}

impl ImportStatement {
    pub open spec fn v(self) -> ImportStatementV {
        ImportStatementV { path: strings_v(self.path@), span: self.span }
    }
}

/// The program abstract syntax tree: every declaration of one compilation
/// unit, keyed collections in declaration order.
#[derive(Debug)]
pub struct Program {
    pub name: String,
    pub expected_input: Vec<FunctionInput>,
    pub import_statements: Vec<ImportStatement>,
    pub imports: Vec<(Vec<String>, Program)>,
    pub aliases: Vec<(Identifier, Alias)>,
    pub circuits: Vec<(Identifier, Circuit)>,
    pub global_consts: Vec<(Vec<Identifier>, DefinitionStatement)>,
    pub functions: Vec<(Identifier, Function)>,
}

/// Model of a [`Program`].
#[verifier::ext_equal]
pub struct ProgramV {
    pub name: Seq<char>,
    pub expected_input: Seq<FunctionInputV>,
    pub import_statements: Seq<ImportStatementV>,
    pub imports: Seq<(Seq<Seq<char>>, ProgramV)>,
    pub aliases: Seq<(IdentifierV, AliasV)>,
    pub circuits: Seq<(IdentifierV, CircuitV)>,
    pub global_consts: Seq<(Seq<IdentifierV>, DefinitionStatementV)>,
    pub functions: Seq<(IdentifierV, FunctionV)>,
}

/// Model of an import path: each path segment as a character sequence.
pub open spec fn import_path_v(path: Seq<String>) -> Seq<Seq<char>> {
    Seq::new(
        path.len(),
        |i: int|
            if 0 <= i < path.len() {
                path[i]@
            } else {
                Seq::empty()
            },
    )
}

/// Model of a global constant's key: each bound name's model.
pub open spec fn const_key_v(names: Seq<Identifier>) -> Seq<IdentifierV> {
    Seq::new(
        names.len(),
        |i: int|
            if 0 <= i < names.len() {
                names[i].v()
            } else {
                IdentifierV { name: Seq::empty(), span: Span { lo: 0, hi: 0 } }
            },
    )
}

/// The model of a program with nothing in it, used as the out-of-range
/// default when a keyed collection is turned into its model.
pub open spec fn empty_program_v() -> ProgramV {
    ProgramV {
        name: Seq::empty(),
        expected_input: Seq::empty(),
        import_statements: Seq::empty(),
        imports: Seq::empty(),
        aliases: Seq::empty(),
        circuits: Seq::empty(),
        global_consts: Seq::empty(),
        functions: Seq::empty(),
    }
}

/// The models of the import statements, elementwise.
pub open spec fn import_stmts_v(s: Seq<ImportStatement>) -> Seq<ImportStatementV> {
    Seq::new(
        s.len(),
        |i: int|
            if 0 <= i < s.len() {
                s[i].v()
            } else {
                ImportStatementV { path: Seq::empty(), span: Span { lo: 0, hi: 0 } }
            },
    )
}

/// The models of the resolved import sub-programs, keys and values.
pub open spec fn imports_v(s: Seq<(Vec<String>, Program)>) -> Seq<(Seq<Seq<char>>, ProgramV)>
    decreases s,
{
    Seq::new(
        s.len(),
        |i: int|
            if 0 <= i < s.len() {
                (strings_v(s[i].0@), s[i].1.v())
            } else {
                (Seq::empty(), empty_program_v())
            },
    )
}

/// The models of the keyed aliases, keys and values.
pub open spec fn alias_pairs_v(s: Seq<(Identifier, Alias)>) -> Seq<(IdentifierV, AliasV)> {
    Seq::new(
        s.len(),
        |i: int|
            if 0 <= i < s.len() {
                (s[i].0.v(), s[i].1.v())
            } else {
                (
                    IdentifierV { name: Seq::empty(), span: Span { lo: 0, hi: 0 } },
                    AliasV {
                        name: IdentifierV { name: Seq::empty(), span: Span { lo: 0, hi: 0 } },
                        represents: TypeV::Error,
                        span: Span { lo: 0, hi: 0 },
                    },
                )
            },
    )
}

/// The models of the keyed circuits, keys and values.
pub open spec fn circuit_pairs_v(s: Seq<(Identifier, Circuit)>) -> Seq<(IdentifierV, CircuitV)> {
    Seq::new(
        s.len(),
        |i: int|
            if 0 <= i < s.len() {
                (s[i].0.v(), s[i].1.v())
            } else {
                (
                    IdentifierV { name: Seq::empty(), span: Span { lo: 0, hi: 0 } },
                    CircuitV {
                        circuit_name: IdentifierV {
                            name: Seq::empty(),
                            span: Span { lo: 0, hi: 0 },
                        },
                        members: Seq::empty(),
                    },
                )
            },
    )
}

/// The models of the keyed global constants, keys and values.
pub open spec fn gconst_pairs_v(s: Seq<(Vec<Identifier>, DefinitionStatement)>) -> Seq<
    (Seq<IdentifierV>, DefinitionStatementV),
> {
    Seq::new(
        s.len(),
        |i: int|
            if 0 <= i < s.len() {
                (const_key_v(s[i].0@), s[i].1.v())
            } else {
                (
                    Seq::empty(),
                    DefinitionStatementV {
                        declaration_type: crate::statement::Declare::Const,
                        variable_names: Seq::empty(),
                        type_: TypeV::Error,
                        value: crate::expression::ExpressionV::Error(
                            crate::expression::ErrExpression { span: Span { lo: 0, hi: 0 } },
                        ),
                        span: Span { lo: 0, hi: 0 },
                    },
                )
            },
    )
}

/// The models of the keyed functions, keys and values.
pub open spec fn function_pairs_v(s: Seq<(Identifier, Function)>) -> Seq<(IdentifierV, FunctionV)> {
    Seq::new(
        s.len(),
        |i: int|
            if 0 <= i < s.len() {
                (s[i].0.v(), s[i].1.v())
            } else {
                (
                    IdentifierV { name: Seq::empty(), span: Span { lo: 0, hi: 0 } },
                    FunctionV {
                        identifier: IdentifierV { name: Seq::empty(), span: Span { lo: 0, hi: 0 } },
                        annotations: Seq::empty(),
                        input: Seq::empty(),
                        const_: false,
                        output: Option::None,
                        block: BlockV { statements: Seq::empty(), span: Span { lo: 0, hi: 0 } },
                        core_mapping: Option::None,
                        span: Span { lo: 0, hi: 0 },
                    },
                )
            },
    )
}

impl Program {
    /// The model of this program.
    pub open spec fn v(self) -> ProgramV
        decreases self,
    {
        ProgramV {
            name: self.name@,
            expected_input: inputs_v(self.expected_input@),
            import_statements: import_stmts_v(self.import_statements@),
            imports: imports_v(self.imports@),
            aliases: alias_pairs_v(self.aliases@),
            circuits: circuit_pairs_v(self.circuits@),
            global_consts: gconst_pairs_v(self.global_consts@),
            functions: function_pairs_v(self.functions@),
        }
    }

    /// An empty program with the given name.
    pub fn new(name: String) -> (p: Self)
        ensures
            p.v() =~~= (ProgramV {
                name: name@,
                expected_input: Seq::empty(),
                import_statements: Seq::empty(),
                imports: Seq::empty(),
                aliases: Seq::empty(),
                circuits: Seq::empty(),
                global_consts: Seq::empty(),
                functions: Seq::empty(),
            }),
    {
        let p = Self {
            name,
            expected_input: Vec::new(),
            import_statements: Vec::new(),
            imports: Vec::new(),
            aliases: Vec::new(),
            circuits: Vec::new(),
            global_consts: Vec::new(),
            functions: Vec::new(),
        };
        proof {
            assert(p.v().name =~~= name@);
            assert(p.v().expected_input =~~= Seq::<FunctionInputV>::empty());
            assert(p.v().import_statements =~~= Seq::<ImportStatementV>::empty());
            assert(p.v().imports =~~= Seq::<(Seq<Seq<char>>, ProgramV)>::empty());
            assert(p.v().aliases =~~= Seq::<(IdentifierV, AliasV)>::empty());
            assert(p.v().circuits =~~= Seq::<(IdentifierV, CircuitV)>::empty());
            assert(p.v().global_consts =~~= Seq::<
                (Seq<IdentifierV>, DefinitionStatementV),
            >::empty());
            assert(p.v().functions =~~= Seq::<(IdentifierV, FunctionV)>::empty());
        }
        p
    }

    /// The program's name.
    pub fn get_name(&self) -> (n: String)
        ensures
            n@ == self.v().name,
    {
        self.name.clone()
    }

    /// Replaces the program's name.
    pub fn name(self, name: String) -> (p: Self)
        ensures
            p.v() =~~= (ProgramV { name: name@, ..self.v() }),
    {
        let mut p = self;
        p.name = name;
        p
    }
}



// ---------------------------------------------------------------------------
// Internal annotations

/// What consuming one function's annotations computes, left to right:
/// `CoreFunction` records the built-in the function aliases — the
/// annotation's first argument, or the function's own name; `AlwaysConst`
/// marks the function constant; any other annotation name is an error.
/// The annotations themselves are consumed.
pub open spec fn apply_annotations(f: FunctionV, anns: Seq<AnnotationV>) -> Result<
    FunctionV,
    crate::errors::AstError,
>
    decreases anns.len(),
{
    if anns.len() == 0 {
        Ok(FunctionV { annotations: Seq::empty(), ..f })
    } else {
        let ann = anns[0];
        if ann.name.name == "CoreFunction"@ {
            let mapped = if ann.arguments.len() > 0 {
                ann.arguments[0]
            } else {
                f.identifier.name
            };
            apply_annotations(
                FunctionV { core_mapping: Option::Some(mapped), ..f },
                anns.drop_first(),
            )
        } else if ann.name.name == "AlwaysConst"@ {
            apply_annotations(FunctionV { const_: true, ..f }, anns.drop_first())
        } else {
            Err(crate::errors::AstError::UnrecognizedAnnotation(ann.span))
        }
    }
}

/// One circuit member with its function's annotations consumed.
pub open spec fn annot_member(m: CircuitMemberV) -> Result<
    CircuitMemberV,
    crate::errors::AstError,
> {
    match m {
        CircuitMemberV::CircuitFunction(f) => match apply_annotations(*f, f.annotations) {
            Ok(f1) => Ok(CircuitMemberV::CircuitFunction(Box::new(f1))),
            Err(e) => Err(e),
        },
        _ => Ok(m),
    }
}

/// Each circuit member processed, or the first error.
pub open spec fn annot_member_seq(ms: Seq<CircuitMemberV>) -> Result<
    Seq<CircuitMemberV>,
    crate::errors::AstError,
>
    decreases ms,
{
    if ms.len() == 0 {
        Ok(Seq::empty())
    } else {
        match annot_member(ms[0]) {
            Err(e) => Err(e),
            Ok(h) => match annot_member_seq(ms.drop_first()) {
                Err(e) => Err(e),
                Ok(rest) => Ok(seq![h] + rest),
            },
        }
    }
}

/// Each keyed circuit processed, keys kept, or the first error.
pub open spec fn annot_circuit_seq(cs: Seq<(IdentifierV, CircuitV)>) -> Result<
    Seq<(IdentifierV, CircuitV)>,
    crate::errors::AstError,
>
    decreases cs,
{
    if cs.len() == 0 {
        Ok(Seq::empty())
    } else {
        match annot_member_seq(cs[0].1.members) {
            Err(e) => Err(e),
            Ok(members) => match annot_circuit_seq(cs.drop_first()) {
                Err(e) => Err(e),
                Ok(rest) => Ok(
                    seq![(cs[0].0, CircuitV { circuit_name: cs[0].1.circuit_name, members })]
                        + rest,
                ),
            },
        }
    }
}

/// What the annotation pass computes for a whole program: only the
/// circuits change.
pub open spec fn annotations_spec(p: ProgramV) -> Result<ProgramV, crate::errors::AstError> {
    match annot_circuit_seq(p.circuits) {
        Ok(circuits) => Ok(ProgramV { circuits, ..p }),
        Err(e) => Err(e),
    }
}

/// Consumes one function's annotations, left to right.
#[verifier::rlimit(100)]
#[verifier::spinoff_prover]
#[verifier::loop_isolation(false)]
fn annot_function(f: Function) -> (r: Result<Function, crate::errors::AstError>)
    ensures
        (match r {
            Ok(f1) => Ok(f1.v()),
            Err(e) => Err::<FunctionV, crate::errors::AstError>(e),
        }) == apply_annotations(f.v(), annotations_v(f.annotations@)),
{
    let ghost f0 = f.v();
    let ghost anns0 = annotations_v(f.annotations@);
    let Function { identifier, annotations, input, const_, output, block, core_mapping, span } =
        f;
    proof {
        assert(anns0 == annotations_v(annotations@));
    }
    let mut cur_const = const_;
    let mut cur_mapping = core_mapping;
    let mut i: usize = 0;
    let core_function: String = "CoreFunction".to_owned();
    let always_const: String = "AlwaysConst".to_owned();
    proof {
        assert(annotations_v(annotations@).skip(0) =~= annotations_v(annotations@));
    }
    while i < annotations.len()
        invariant
            i <= annotations@.len(),
            annotations_v(annotations@).len() == annotations@.len(),
            apply_annotations(f0, annotations_v(annotations@)) == apply_annotations(
                FunctionV {
                    const_: cur_const,
                    core_mapping: match cur_mapping {
                        Option::None => Option::None,
                        Option::Some(ref m) => Option::Some(m@),
                    },
                    ..f0
                },
                annotations_v(annotations@).skip(i as int),
            ),
            identifier.v() == f0.identifier,
            core_function@ == "CoreFunction"@,
            always_const@ == "AlwaysConst"@,
        decreases annotations@.len() - i,
    {
        let ghost stv = FunctionV {
            const_: cur_const,
            core_mapping: match cur_mapping {
                Option::None => Option::None,
                Option::Some(ref m) => Option::Some(m@),
            },
            ..f0
        };
        proof {
            let s = annotations_v(annotations@).skip(i as int);
            assert(s[0] == annotations@[i as int].v());
            assert(s.drop_first() =~= annotations_v(annotations@).skip(i as int + 1));
            assert(s[0].name.name == annotations@[i as int].name.name@);
            assert(s[0].arguments =~= strings_v(annotations@[i as int].arguments@));
        }
        let ann = &annotations[i];
        if ann.name.name == core_function {
            if ann.arguments.len() > 0 {
                cur_mapping = Some(ann.arguments[0].clone());
            } else {
                cur_mapping = Some(identifier.name.clone());
            }
        } else if ann.name.name == always_const {
            cur_const = true;
        } else {
            proof {
                let s = annotations_v(annotations@).skip(i as int);
                assert(s[0].name.name != "CoreFunction"@);
                assert(s[0].name.name != "AlwaysConst"@);
                assert(apply_annotations(stv, s) == Err::<FunctionV, crate::errors::AstError>(
                    crate::errors::AstError::UnrecognizedAnnotation(s[0].span),
                ));
                assert(s[0].span == annotations@[i as int].span);
                assert(apply_annotations(f0, annotations_v(annotations@)) == apply_annotations(
                    stv,
                    s,
                ));
                assert(apply_annotations(f0, annotations_v(annotations@)) == Err::<
                    FunctionV,
                    crate::errors::AstError,
                >(crate::errors::AstError::UnrecognizedAnnotation(annotations@[i as int].span)));
                assert(apply_annotations(f0, anns0) == Err::<
                    FunctionV,
                    crate::errors::AstError,
                >(crate::errors::AstError::UnrecognizedAnnotation(annotations@[i as int].span)));
            }
            return Err(crate::errors::AstError::UnrecognizedAnnotation(ann.span));
        }
        i = i + 1;
    }
    proof {
        assert(annotations_v(annotations@).skip(annotations@.len() as int) =~= Seq::<
            AnnotationV,
        >::empty());
    }
    let out = Function {
        identifier,
        annotations: Vec::new(),
        input,
        const_: cur_const,
        output,
        block,
        core_mapping: cur_mapping,
        span,
    };
    proof {
        assert(apply_annotations(f0, anns0) == apply_annotations(
            f0,
            annotations_v(annotations@),
        ));
        assert(annotations_v(out.annotations@) =~= Seq::<AnnotationV>::empty());
        assert(out.v() =~~= (FunctionV {
            const_: cur_const,
            core_mapping: match cur_mapping {
                Option::None => Option::None,
                Option::Some(ref m) => Option::Some(m@),
            },
            annotations: Seq::empty(),
            ..f0
        }));
    }
    Ok(out)
}

/// Processes one circuit member.
fn annot_member_exec(m: CircuitMember) -> (r: Result<CircuitMember, crate::errors::AstError>)
    ensures
        (match r {
            Ok(m1) => Ok(m1.v()),
            Err(e) => Err::<CircuitMemberV, crate::errors::AstError>(e),
        }) == annot_member(m.v()),
{
    match m {
        CircuitMember::CircuitFunction(f) => match annot_function(*f) {
            Ok(f1) => Ok(CircuitMember::CircuitFunction(Box::new(f1))),
            Err(e) => Err(e),
        },
        other => Ok(other),
    }
}

/// Processes the members of one circuit, in order.
fn annot_members_exec(ms: Vec<CircuitMember>) -> (r: Result<
    Vec<CircuitMember>,
    crate::errors::AstError,
>)
    ensures
        (match r {
            Ok(out) => Ok(members_v(out@)),
            Err(e) => Err::<Seq<CircuitMemberV>, crate::errors::AstError>(e),
        }) == annot_member_seq(members_v(ms@)),
    decreases ms@.len(),
{
    let mut ms = ms;
    let ghost ms0 = members_v(ms@);
    if ms.len() == 0 {
        proof {
            assert(ms0 =~= Seq::<CircuitMemberV>::empty());
        }
        Ok(ms)
    } else {
        proof {
            assert(ms0[0] == ms@[0].v());
            assert(ms0.drop_first() =~= members_v(ms@.remove(0)));
        }
        let h = ms.remove(0);
        match annot_member_exec(h) {
            Err(e) => Err(e),
            Ok(h2) => match annot_members_exec(ms) {
                Err(e) => Err(e),
                Ok(mut rest) => {
                    let ghost rest0 = rest@;
                    let ghost hv = h2.v();
                    rest.insert(0, h2);
                    proof {
                        assert(members_v(rest@) =~= seq![hv] + members_v(rest0));
                    }
                    Ok(rest)
                },
            },
        }
    }
}

/// Processes the keyed circuits, in order, keys kept.
fn annot_circuits_exec(cs: Vec<(Identifier, Circuit)>) -> (r: Result<
    Vec<(Identifier, Circuit)>,
    crate::errors::AstError,
>)
    ensures
        (match r {
            Ok(out) => Ok(circuit_pairs_v(out@)),
            Err(e) => Err::<Seq<(IdentifierV, CircuitV)>, crate::errors::AstError>(e),
        }) == annot_circuit_seq(circuit_pairs_v(cs@)),
    decreases cs@.len(),
{
    let mut cs = cs;
    let ghost cs0 = circuit_pairs_v(cs@);
    if cs.len() == 0 {
        proof {
            assert(cs0 =~= Seq::<(IdentifierV, CircuitV)>::empty());
        }
        Ok(cs)
    } else {
        proof {
            assert(cs0[0] == (cs@[0].0.v(), cs@[0].1.v()));
            assert(cs0.drop_first() =~= circuit_pairs_v(cs@.remove(0)));
        }
        let h = cs.remove(0);
        let (key, circuit) = h;
        let Circuit { circuit_name, members } = circuit;
        match annot_members_exec(members) {
            Err(e) => Err(e),
            Ok(members2) => match annot_circuits_exec(cs) {
                Err(e) => Err(e),
                Ok(mut rest) => {
                    let h2 = (key, Circuit { circuit_name, members: members2 });
                    let ghost rest0 = rest@;
                    let ghost hv = (h2.0.v(), h2.1.v());
                    rest.insert(0, h2);
                    proof {
                        assert(circuit_pairs_v(rest@) =~= seq![hv] + circuit_pairs_v(rest0));
                    }
                    Ok(rest)
                },
            },
        }
    }
}

impl Program {
    /// Consumes the internal annotations on every circuit member
    /// function, as a pure program-to-program transform: `CoreFunction`
    /// records the built-in the function aliases, `AlwaysConst` marks it
    /// constant, and any unrecognized annotation name is an explicit
    /// error.
    pub fn handle_internal_annotations(self) -> (r: Result<Program, crate::errors::AstError>)
        ensures
            (match r {
                Ok(p) => Ok(p.v()),
                Err(e) => Err::<ProgramV, crate::errors::AstError>(e),
            }) == annotations_spec(self.v()),
    {
        let ghost p0 = self.v();
        let Program {
            name,
            expected_input,
            import_statements,
            imports,
            aliases,
            circuits,
            global_consts,
            functions,
        } = self;
        match annot_circuits_exec(circuits) {
            Err(e) => Err(e),
            Ok(circuits2) => {
                let out = Program {
                    name,
                    expected_input,
                    import_statements,
                    imports,
                    aliases,
                    circuits: circuits2,
                    global_consts,
                    functions,
                };
                proof {
                    assert(out.v() =~~= (ProgramV {
                        circuits: circuit_pairs_v(circuits2@),
                        ..p0
                    }));
                }
                Ok(out)
            },
        }
    }
}


} // verus!
