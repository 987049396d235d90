//! A source-to-source rewriting engine that turns high-level function and
//! structure declarations into C-ABI-compatible equivalents suitable for
//! foreign-function export.
//!
//! A caller picks an [`engine::Intent`] (export a function, export a
//! C-layout record, export an opaque handle, or auto-convert slice
//! parameters to pointer-plus-length pairs) and hands the engine one
//! [`ast::Declaration`]. The engine classifies parameter types, enforces the
//! visibility, shape and pairing conventions of the chosen intent, and either
//! produces a rewritten declaration or rejects the input with a diagnostic
//! anchored at the offending syntax element. Parsing source text into the
//! declaration model, and rendering the rewritten declaration back to tokens,
//! are left to the surrounding front-end.

pub mod ast;
pub mod shape;
pub mod validate;
pub mod rewrite;
pub mod engine;

pub use ast::Anchor;
pub use ast::Binding;
pub use ast::Declaration;
pub use ast::Diagnostic;
pub use ast::DiagnosticKind;
pub use ast::Emitted;
pub use ast::EmittedFunction;
pub use ast::EmittedStruct;
pub use ast::EmittedTypeAlias;
pub use ast::Fields;
pub use ast::FnInput;
pub use ast::FunctionDecl;
pub use ast::NamedField;
pub use ast::Param;
pub use ast::Rebind;
pub use ast::StructDecl;
pub use ast::TypeAliasDecl;
pub use ast::TypeExpr;
pub use ast::Visibility;
pub use shape::TypeShape;
pub use shape::classify;
pub use rewrite::auto_slice;
pub use engine::Intent;
pub use engine::apply;
pub use engine::apply_batch;
pub use engine::export;
pub use engine::opaque;
pub use engine::record;
