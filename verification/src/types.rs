//! The language's types, as they appear in the syntax tree.

use vstd::prelude::*;

use crate::common::{Identifier, IdentifierV};

verus! {

broadcast use vstd::std_specs::vec::group_vec_axioms, vstd::seq::group_seq_axioms;

/// An integer type: a width and a signedness.
#[derive(Debug, Clone, Copy, PartialEq, Eq, Structural)]
pub enum IntegerType {
    U8,
    U16,
    U32,
    U64,
    U128,
    I8,
    I16,
    I32,
    I64,
    I128,
}

/// Explicit type used for defining a variable or expression type.
///
/// `Array` carries the dimension list written in the source; the
/// canonicalization pass rewrites a multi-dimensional list into nested
/// single-dimension arrays. `SelfType` is the circuit-relative `Self`
/// alias and does not survive canonicalization.
#[derive(Debug)]
pub enum Type {
    /// The `address` type.
    Address,
    /// The `bool` type.
    Boolean,
    /// The `char` type.
    Char,
    /// The `field` type.
    Field,
    /// The `group` type.
    Group,
    /// An integer type.
    IntegerType(IntegerType),
    /// An array: element type and the dimensions written in the source.
    Array(Box<Type>, Vec<u64>),
    /// A tuple of types.
    Tuple(Vec<Type>),
    /// A named circuit or alias type.
    Identifier(Identifier),
    /// The `Self` type, valid only inside a circuit declaration.
    SelfType,
    /// Placeholder for a type that could not be resolved.
    Error,
}

/// Mathematical model of a [`Type`].
pub enum TypeV {
    Address,
    Boolean,
    Char,
    Field,
    Group,
    IntegerType(IntegerType),
    Array(Box<TypeV>, Seq<u64>),
    Tuple(Seq<TypeV>),
    Identifier(IdentifierV),
    SelfType,
    Error,
}

/// The models of a sequence of types, elementwise.
pub open spec fn types_v(s: Seq<Type>) -> Seq<TypeV>
    decreases s,
{
    Seq::new(
        s.len(),
        |i: int|
            if 0 <= i < s.len() {
                s[i].v()
            } else {
                TypeV::Error
            },
    )
}

impl Type {
    /// The model of this type.
    pub open spec fn v(self) -> TypeV
        decreases self,
    {
        match self {
            Type::Address => TypeV::Address,
            Type::Boolean => TypeV::Boolean,
            Type::Char => TypeV::Char,
            Type::Field => TypeV::Field,
            Type::Group => TypeV::Group,
            Type::IntegerType(it) => TypeV::IntegerType(it),
            Type::Array(base, dims) => TypeV::Array(Box::new(base.v()), dims@),
            Type::Tuple(elems) => TypeV::Tuple(types_v(elems@)),
            Type::Identifier(id) => TypeV::Identifier(id.v()),
            Type::SelfType => TypeV::SelfType,
            Type::Error => TypeV::Error,
        }
    }
}


impl Type {
    /// Whether two types are the same scalar type: address, boolean,
    /// char, field, group, or the same integer type. Composite and named
    /// types are never `eq_flat`.
    pub fn eq_flat(&self, other: &Self) -> (r: bool)
        ensures
            r == eq_flat_spec(self.v(), other.v()),
    {
        match (self, other) {
            (Type::Address, Type::Address) => true,
            (Type::Boolean, Type::Boolean) => true,
            (Type::Char, Type::Char) => true,
            (Type::Field, Type::Field) => true,
            (Type::Group, Type::Group) => true,
            (Type::IntegerType(left), Type::IntegerType(right)) => left == right,
            _ => false,
        }
    }
}

/// What `Type::eq_flat` returns: the two types are the same scalar type.
pub open spec fn eq_flat_spec(a: TypeV, b: TypeV) -> bool {
    match (a, b) {
        (TypeV::Address, TypeV::Address) => true,
        (TypeV::Boolean, TypeV::Boolean) => true,
        (TypeV::Char, TypeV::Char) => true,
        (TypeV::Field, TypeV::Field) => true,
        (TypeV::Group, TypeV::Group) => true,
        (TypeV::IntegerType(left), TypeV::IntegerType(right)) => left == right,
        _ => false,
    }
}

} // verus!
