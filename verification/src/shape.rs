//! The shape classifier: a total, deterministic map from type expressions
//! to their ABI-relevant classification.

use vstd::prelude::*;
use crate::ast::TypeExpr;

verus! {

/// The classification of a type expression.
#[derive(PartialEq, Eq, Structural, Clone, Copy, Debug)]
pub enum TypeShape {
    /// A primitive scalar type.
    Scalar,
    /// A raw pointer to some inner type.
    RawPointer,
    /// A reference to a slice of some inner type.
    SliceReference,
    /// The reserved named alias standing for "pointer-like,
    /// paired-with-length" parameters.
    ArrayAlias,
    /// A named type outside the primitive scalars.
    Opaque,
    /// Anything outside the recognized grammar.
    Unrecognized,
}

/// The reserved single-segment alias identifier that marks "C array"
/// parameters. Any named type whose identifier matches it is treated as
/// array-shaped regardless of its actual definition: this is a naming
/// contract the caller's type system must respect.
pub open spec fn array_alias_name() -> Seq<char> {
    "array"@
}

/// The names of the primitive scalar types the classifier recognizes.
pub open spec fn is_scalar_name(s: Seq<char>) -> bool {
    ||| s == "i8"@
    ||| s == "i16"@
    ||| s == "i32"@
    ||| s == "i64"@
    ||| s == "i128"@
    ||| s == "isize"@
    ||| s == "u8"@
    ||| s == "u16"@
    ||| s == "u32"@
    ||| s == "u64"@
    ||| s == "u128"@
    ||| s == "usize"@
    ||| s == "bool"@
    ||| s == "char"@
}

/// The classification of a type expression, as a function of the expression
/// alone: total by construction, deterministic because it is a function.
pub open spec fn spec_classify(t: TypeExpr) -> TypeShape {
    match t {
        TypeExpr::Named { ident, arg } => {
            if ident@ == array_alias_name() {
                TypeShape::ArrayAlias
            } else if arg is None && is_scalar_name(ident@) {
                TypeShape::Scalar
            } else {
                TypeShape::Opaque
            }
        },
        TypeExpr::SliceRef(_) => TypeShape::SliceReference,
        TypeExpr::RawPtr(_) => TypeShape::RawPointer,
        TypeExpr::Unrecognized => TypeShape::Unrecognized,
    }
}

/// True exactly when the identifier of a named type equals the given text.
fn ident_is(s: &String, lit: &str) -> (r: bool)
    ensures
        r == (s@ == lit@),
{
    let other: String = lit.to_owned();
    *s == other
}

/// True exactly when the name is one of the recognized primitive scalars.
fn is_scalar_ident(s: &String) -> (r: bool)
    ensures
        r == is_scalar_name(s@),
{
    ident_is(s, "i8") || ident_is(s, "i16") || ident_is(s, "i32") || ident_is(s, "i64")
        || ident_is(s, "i128") || ident_is(s, "isize") || ident_is(s, "u8")
        || ident_is(s, "u16") || ident_is(s, "u32") || ident_is(s, "u64")
        || ident_is(s, "u128") || ident_is(s, "usize") || ident_is(s, "bool")
        || ident_is(s, "char")
}

/// Classify a type expression. Total and deterministic: the result is the
/// one shape `spec_classify` assigns to the expression.
pub fn classify(t: &TypeExpr) -> (s: TypeShape)
    ensures
        s == spec_classify(*t),
{
    match t {
        TypeExpr::Named { ident, arg } => {
            if ident_is(ident, "array") {
                TypeShape::ArrayAlias
            } else if arg.is_none() && is_scalar_ident(ident) {
                TypeShape::Scalar
            } else {
                TypeShape::Opaque
            }
        },
        TypeExpr::SliceRef(_) => TypeShape::SliceReference,
        TypeExpr::RawPtr(_) => TypeShape::RawPointer,
        TypeExpr::Unrecognized => TypeShape::Unrecognized,
    }
}

/// Classification is deterministic: equal type expressions always receive
/// the same shape, in this call and in every later one.
pub proof fn lemma_classify_deterministic(t1: TypeExpr, t2: TypeExpr)
    requires
        t1 == t2,
    ensures
        spec_classify(t1) == spec_classify(t2),
{
}

} // verus!
