//! The declaration model: the typed syntax the engine reads and rewrites.

use vstd::prelude::*;

verus! {

/// Visibility of a declaration. The export intents demand `Public`.
#[derive(PartialEq, Eq, Structural, Clone, Copy, Debug)]
pub enum Visibility {
    Public,
    NonPublic,
}

/// A type expression, holding exactly as much structure as the engine reads.
#[derive(Debug, PartialEq, Eq)]
pub enum TypeExpr {
    /// A single-segment named type with at most one generic argument,
    /// such as `usize`, `i32` or the reserved `array<T>` alias.
    Named { ident: String, arg: Option<Box<TypeExpr>> },
    /// A reference to a slice of the inner type.
    SliceRef(Box<TypeExpr>),
    /// A raw constant pointer to the inner type.
    RawPtr(Box<TypeExpr>),
    /// Any type expression outside the recognized grammar.
    Unrecognized,
}

/// How a parameter binds its value.
#[derive(Debug, PartialEq, Eq)]
pub enum Binding {
    /// A plain identifier pattern: `name: T`.
    Named(String),
    /// Any other pattern (tuple, wildcard, ...).
    Other,
}

/// One typed parameter: its binding and its declared type.
#[derive(Debug, PartialEq, Eq)]
pub struct Param {
    pub binding: Binding,
    pub ty: TypeExpr,
}

/// One entry of a function's parameter list.
#[derive(Debug, PartialEq, Eq)]
pub enum FnInput {
    /// An ordinary `pattern: type` argument.
    Typed(Param),
    /// A receiver or any other argument that carries no standalone type.
    Untyped,
}

/// A function declaration: the unit of work for the function intents.
/// The body is carried as opaque text; the engine never inspects it and
/// passes it through unchanged.
#[derive(Debug, PartialEq, Eq)]
pub struct FunctionDecl {
    pub vis: Visibility,
    pub name: String,
    pub is_unsafe: bool,
    pub inputs: Vec<FnInput>,
    pub output: Option<TypeExpr>,
    pub body: String,
}

/// One named field of a structure.
#[derive(Debug, PartialEq, Eq)]
pub struct NamedField {
    pub name: String,
    pub ty: TypeExpr,
}

/// The field list of a structure.
#[derive(Debug, PartialEq, Eq)]
pub enum Fields {
    /// Curly-brace fields, each with a name.
    Named(Vec<NamedField>),
    /// Tuple-style positional fields.
    Positional(Vec<TypeExpr>),
    /// No fields at all.
    Unit,
}

/// A structure declaration.
#[derive(Debug, PartialEq, Eq)]
pub struct StructDecl {
    pub vis: Visibility,
    pub name: String,
    pub fields: Fields,
}

/// A type-alias declaration.
#[derive(Debug, PartialEq, Eq)]
pub struct TypeAliasDecl {
    pub vis: Visibility,
    pub name: String,
    pub ty: TypeExpr,
}

/// The annotated item handed to the engine.
#[derive(Debug, PartialEq, Eq)]
pub enum Declaration {
    Function(FunctionDecl),
    Struct(StructDecl),
    TypeAlias(TypeAliasDecl),
    /// Any other item kind; every intent rejects it.
    Other,
}

/// The syntax element a diagnostic points at.
#[derive(PartialEq, Eq, Structural, Clone, Copy, Debug)]
pub enum Anchor {
    /// The whole annotated item.
    Item,
    /// The visibility of the declaration.
    Vis,
    /// The parameter at this position, counted from zero.
    Param(usize),
    /// The field list of a structure.
    Fields,
}

/// The kind of a rejection.
#[derive(PartialEq, Eq, Structural, Clone, Copy, Debug)]
pub enum DiagnosticKind {
    /// The declaration is not publicly visible where the intent requires it.
    VisibilityError,
    /// A parameter or field is not a plain named binding, or a structure's
    /// field shape is disallowed for the chosen intent.
    ShapeError,
    /// An array-shaped parameter is unpaired, mispaired or mistyped.
    PairingError,
    /// The annotated item is not of a kind the intent accepts.
    UnsupportedItemError,
}

/// A structured rejection: its kind, a human-readable message, and the
/// syntax element it refers to.
#[derive(Debug, PartialEq, Eq)]
pub struct Diagnostic {
    pub kind: DiagnosticKind,
    pub message: String,
    pub anchor: Anchor,
}

/// One synthesized prologue statement: rebind `name` to a bounded view over
/// the pointer parameter `name` and the length parameter `len_name`, so the
/// original body, written against the bounded view, runs unmodified.
#[derive(Debug, PartialEq, Eq)]
pub struct Rebind {
    pub name: String,
    pub len_name: String,
}

/// A rewritten function: the original declaration plus the fixed export
/// attributes. `no_mangle` and `c_abi` record the fixed symbol name and the
/// fixed C calling convention; the emitted function is always public.
#[derive(Debug, PartialEq, Eq)]
pub struct EmittedFunction {
    pub no_mangle: bool,
    pub c_abi: bool,
    pub is_unsafe: bool,
    pub name: String,
    pub inputs: Vec<FnInput>,
    pub prologue: Vec<Rebind>,
    pub output: Option<TypeExpr>,
    pub body: String,
}

/// A rewritten structure; `repr_c` records whether the fixed C-compatible
/// layout attribute is attached. The emitted structure is always public.
#[derive(Debug, PartialEq, Eq)]
pub struct EmittedStruct {
    pub repr_c: bool,
    pub name: String,
    pub fields: Fields,
}

/// A rewritten type alias. The emitted alias is always public.
#[derive(Debug, PartialEq, Eq)]
pub struct EmittedTypeAlias {
    pub name: String,
    pub ty: TypeExpr,
}

/// The engine's output on success.
#[derive(Debug, PartialEq, Eq)]
pub enum Emitted {
    Function(EmittedFunction),
    Struct(EmittedStruct),
    TypeAlias(EmittedTypeAlias),
}

impl Clone for TypeExpr {
    fn clone(&self) -> (r: Self)
        ensures
            r == *self,
        decreases self,
    {
        match self {
            TypeExpr::Named { ident, arg } => TypeExpr::Named {
                ident: ident.clone(),
                arg: (match arg {
                    Some(b) => Some(Box::new((&**b).clone())),
                    None => None,
                }),
            },
            TypeExpr::SliceRef(b) => TypeExpr::SliceRef(Box::new((&**b).clone())),
            TypeExpr::RawPtr(b) => TypeExpr::RawPtr(Box::new((&**b).clone())),
            TypeExpr::Unrecognized => TypeExpr::Unrecognized,
        }
    }
}

impl Clone for Binding {
    fn clone(&self) -> (r: Self)
        ensures
            r == *self,
    {
        match self {
            Binding::Named(s) => Binding::Named(s.clone()),
            Binding::Other => Binding::Other,
        }
    }
}

impl Clone for Param {
    fn clone(&self) -> (r: Self)
        ensures
            r == *self,
    {
        Param { binding: self.binding.clone(), ty: self.ty.clone() }
    }
}

impl Clone for FnInput {
    fn clone(&self) -> (r: Self)
        ensures
            r == *self,
    {
        match self {
            FnInput::Typed(p) => FnInput::Typed(p.clone()),
            FnInput::Untyped => FnInput::Untyped,
        }
    }
}

} // verus!
